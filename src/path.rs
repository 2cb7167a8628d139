use vstd::prelude::*;

verus! {

/// A filesystem path, held as the sequence of its components.
///
/// Two paths are the same when their components are the same, in order.
#[derive(Debug)]
pub struct FsPath {
    parts: Vec<String>,
}

impl View for FsPath {
    type V = Seq<Seq<char>>;

    closed spec fn view(&self) -> Seq<Seq<char>> {
        self.parts.deep_view()
    }
}

/// A copy of a list of strings, element by element.
fn copy_strings(v: &Vec<String>) -> (r: Vec<String>)
    ensures
        r.deep_view() == v.deep_view(),
{
    let mut r: Vec<String> = Vec::new();
    let mut i: usize = 0;
    while i < v.len()
        invariant
            i <= v.len(),
            r.len() == i,
            r.deep_view() == v.deep_view().subrange(0, i as int),
        decreases v.len() - i,
    {
        let s = v[i].clone();
        proof {
            assert(s@ == v.deep_view()[i as int]);
        }
        r.push(s);
        i = i + 1;
        assert(r.deep_view() =~= v.deep_view().subrange(0, i as int));
    }
    assert(v.deep_view().subrange(0, v.len() as int) =~= v.deep_view());
    r
}

impl FsPath {
    /// The path made of the given components, in order.
    pub fn from_parts(parts: Vec<String>) -> (r: FsPath)
        ensures
            r@ == parts.deep_view(),
    {
        FsPath { parts }
    }

    /// The components of this path, in order.
    pub fn parts(&self) -> (r: &Vec<String>)
        ensures
            r.deep_view() == self@,
    {
        &self.parts
    }

    /// The number of components.
    pub fn len(&self) -> (r: usize)
        ensures
            r == self@.len(),
    {
        self.parts.len()
    }

    /// A second path with the same components.
    pub fn duplicate(&self) -> (r: FsPath)
        ensures
            r@ == self@,
    {
        FsPath { parts: copy_strings(&self.parts) }
    }

    /// This path with one more component at its end.
    pub fn join(&self, part: &str) -> (r: FsPath)
        ensures
            r@ == self@.push(part@),
    {
        let mut parts = copy_strings(&self.parts);
        parts.push(String::from_str(part));
        let r = FsPath { parts };
        assert(r@ =~= self@.push(part@));
        r
    }

    /// Whether the two paths have the same components, in order.
    pub fn same_as(&self, other: &FsPath) -> (r: bool)
        ensures
            r == (self@ == other@),
    {
        if self.parts.len() != other.parts.len() {
            assert(self@.len() != other@.len());
            return false;
        }
        let mut i: usize = 0;
        while i < self.parts.len()
            invariant
                i <= self.parts.len(),
                self.parts.len() == other.parts.len(),
                forall|k: int| 0 <= k < i ==> self@[k] == other@[k],
            decreases self.parts.len() - i,
        {
            if self.parts[i] != other.parts[i] {
                assert(self@[i as int] != other@[i as int]);
                return false;
            }
            i = i + 1;
        }
        assert(self@ =~= other@);
        true
    }

    /// The last component, if there is one.
    pub fn file_name(&self) -> (r: Option<&String>)
        ensures
            self@.len() == 0 ==> r.is_none(),
            self@.len() > 0 ==> (r.is_some() && r.unwrap()@ == self@.last()),
    {
        if self.parts.len() == 0 {
            None
        } else {
            Some(&self.parts[self.parts.len() - 1])
        }
    }

    /// The path without its last component, if it has one.
    pub fn parent(&self) -> (r: Option<FsPath>)
        ensures
            self@.len() == 0 ==> r.is_none(),
            self@.len() > 0 ==> (r.is_some() && r.unwrap()@ == self@.drop_last()),
    {
        if self.parts.len() == 0 {
            return None;
        }
        let n = self.parts.len() - 1;
        let mut parts: Vec<String> = Vec::new();
        let mut i: usize = 0;
        while i < n
            invariant
                n == self.parts.len() - 1,
                i <= n,
                parts.len() == i,
                parts.deep_view() == self@.subrange(0, i as int),
            decreases n - i,
        {
            let s = self.parts[i].clone();
            proof {
                assert(s@ == self@[i as int]);
            }
            parts.push(s);
            i = i + 1;
            assert(parts.deep_view() =~= self@.subrange(0, i as int));
        }
        let r = FsPath { parts };
        assert(r@ =~= self@.drop_last());
        Some(r)
    }
}

} // verus!
