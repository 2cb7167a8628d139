use vstd::prelude::*;
use crate::layout::{contains_path, paths_view};
use crate::path::FsPath;

verus! {

/// What a change notification reports.
#[derive(Clone, Copy, Debug, PartialEq, Eq, Structural)]
pub enum ChangeKind {
    /// The generic "content changed" signal.
    ContentModify,
    /// A change to the file's data, such as its size.
    DataModify,
    /// The path is being renamed away and loses its name.
    RenameFrom,
    /// Something was renamed to the path.
    RenameTo,
    /// Any other modification: metadata, another rename mode, unknown.
    OtherModify,
    /// Not a modification: creation, removal, access, unknown.
    Other,
}

/// Why a path in a notification calls for no copy.
#[derive(Clone, Copy, Debug, PartialEq, Eq, Structural)]
pub enum IgnoreReason {
    /// The path is not a save file.
    Untracked,
    /// The save file is being renamed away; deliberately left alone.
    RenamedAway,
    /// A modification other than the generic one; worth a look in the log.
    UnexpectedModify,
    /// Not a modification at all.
    NotModify,
}

/// What to do about one path of a notification.
#[derive(Clone, Copy, Debug, PartialEq, Eq, Structural)]
pub enum Decision {
    Backup,
    Ignore(IgnoreReason),
}

/// A change notification: its kind and the paths it concerns.
pub struct ChangeEvent {
    pub kind: ChangeKind,
    pub paths: Vec<FsPath>,
}

/// The decision for one path of a notification of kind `kind`, given the
/// save files `saves`.
pub open spec fn decide(kind: ChangeKind, path: Seq<Seq<char>>, saves: Seq<Seq<Seq<char>>>) -> Decision {
    if !saves.contains(path) {
        Decision::Ignore(IgnoreReason::Untracked)
    } else {
        match kind {
            ChangeKind::ContentModify => Decision::Backup,
            ChangeKind::DataModify => Decision::Backup,
            ChangeKind::RenameFrom => Decision::Ignore(IgnoreReason::RenamedAway),
            ChangeKind::RenameTo => Decision::Ignore(IgnoreReason::UnexpectedModify),
            ChangeKind::OtherModify => Decision::Ignore(IgnoreReason::UnexpectedModify),
            ChangeKind::Other => Decision::Ignore(IgnoreReason::NotModify),
        }
    }
}

/// The decisions for each path of a notification, in order.
pub open spec fn decisions_of(
    kind: ChangeKind,
    paths: Seq<Seq<Seq<char>>>,
    saves: Seq<Seq<Seq<char>>>,
) -> Seq<Decision> {
    Seq::new(paths.len(), |i: int| decide(kind, paths[i], saves))
}

/// The paths of a notification that are to be copied, in order.
pub open spec fn backups_of(
    kind: ChangeKind,
    paths: Seq<Seq<Seq<char>>>,
    saves: Seq<Seq<Seq<char>>>,
) -> Seq<Seq<Seq<char>>>
    decreases paths.len(),
{
    if paths.len() == 0 {
        Seq::empty()
    } else {
        let before = backups_of(kind, paths.drop_last(), saves);
        if decide(kind, paths.last(), saves) == Decision::Backup {
            before.push(paths.last())
        } else {
            before
        }
    }
}

/// The decision for one path.
pub fn classify_path(kind: ChangeKind, path: &FsPath, saves: &Vec<FsPath>) -> (r: Decision)
    ensures
        r == decide(kind, path@, paths_view(saves@)),
{
    if !contains_path(saves, path) {
        return Decision::Ignore(IgnoreReason::Untracked);
    }
    match kind {
        ChangeKind::ContentModify => Decision::Backup,
        ChangeKind::DataModify => Decision::Backup,
        ChangeKind::RenameFrom => Decision::Ignore(IgnoreReason::RenamedAway),
        ChangeKind::RenameTo => Decision::Ignore(IgnoreReason::UnexpectedModify),
        ChangeKind::OtherModify => Decision::Ignore(IgnoreReason::UnexpectedModify),
        ChangeKind::Other => Decision::Ignore(IgnoreReason::NotModify),
    }
}

/// The decision for each path of `event`, in the order of its paths.
pub fn classify(event: &ChangeEvent, saves: &Vec<FsPath>) -> (r: Vec<Decision>)
    ensures
        r@ == decisions_of(event.kind, paths_view(event.paths@), paths_view(saves@)),
{
    let mut r: Vec<Decision> = Vec::new();
    let mut i: usize = 0;
    while i < event.paths.len()
        invariant
            i <= event.paths.len(),
            r@ =~= decisions_of(event.kind, paths_view(event.paths@), paths_view(saves@)).subrange(0, i as int),
        decreases event.paths.len() - i,
    {
        let d = classify_path(event.kind, &event.paths[i], saves);
        r.push(d);
        i = i + 1;
    }
    r
}

/// The paths of `event` that are to be copied, in the order of its paths.
pub fn backups_for(event: &ChangeEvent, saves: &Vec<FsPath>) -> (r: Vec<FsPath>)
    ensures
        paths_view(r@) == backups_of(event.kind, paths_view(event.paths@), paths_view(saves@)),
{
    let ghost all = paths_view(event.paths@);
    let ghost sv = paths_view(saves@);
    let mut r: Vec<FsPath> = Vec::new();
    let mut i: usize = 0;
    while i < event.paths.len()
        invariant
            i <= event.paths.len(),
            all == paths_view(event.paths@),
            sv == paths_view(saves@),
            paths_view(r@) == backups_of(event.kind, all.subrange(0, i as int), sv),
        decreases event.paths.len() - i,
    {
        let d = classify_path(event.kind, &event.paths[i], saves);
        let ghost before = paths_view(r@);
        assert(all.subrange(0, i + 1).drop_last() =~= all.subrange(0, i as int));
        assert(all.subrange(0, i + 1).last() == all[i as int]);
        if d == Decision::Backup {
            let p = event.paths[i].duplicate();
            let ghost pv = p@;
            r.push(p);
            assert(paths_view(r@) =~= before.push(pv));
        }
        i = i + 1;
    }
    assert(all.subrange(0, i as int) =~= all);
    r
}

/// Each notification is judged path by path: a content or data change to a
/// save file calls for exactly one copy of it; a save file renamed away calls for none;
/// a path that is not a save file calls for none, whatever the kind.
pub proof fn lemma_single_path_outcomes(
    kind: ChangeKind,
    path: Seq<Seq<char>>,
    saves: Seq<Seq<Seq<char>>>,
)
    ensures
        saves.contains(path) && (kind == ChangeKind::ContentModify || kind == ChangeKind::DataModify)
            ==> backups_of(kind, seq![path], saves) == seq![path],
        saves.contains(path) && kind == ChangeKind::RenameFrom ==> backups_of(kind, seq![path], saves)
            == Seq::<Seq<Seq<char>>>::empty(),
        !saves.contains(path) ==> backups_of(kind, seq![path], saves) == Seq::<Seq<Seq<char>>>::empty(),
        saves.contains(path) && kind == ChangeKind::RenameFrom ==> decide(kind, path, saves)
            == Decision::Ignore(IgnoreReason::RenamedAway),
        !saves.contains(path) ==> decide(kind, path, saves) == Decision::Ignore(IgnoreReason::Untracked),
{
    let s = seq![path];
    assert(s.drop_last() =~= Seq::<Seq<Seq<char>>>::empty());
    assert(s.last() == path);
    assert(backups_of(kind, s.drop_last(), saves) == Seq::<Seq<Seq<char>>>::empty());
    assert(Seq::<Seq<Seq<char>>>::empty().push(path) =~= s);
}

/// A path of a notification that is not a save file is never copied, and
/// every path that is copied is a save file hit by a content or data change.
pub proof fn lemma_backups_are_saves(
    kind: ChangeKind,
    paths: Seq<Seq<Seq<char>>>,
    saves: Seq<Seq<Seq<char>>>,
)
    ensures
        forall|p: Seq<Seq<char>>| #[trigger] backups_of(kind, paths, saves).contains(p) ==> saves.contains(p)
            && paths.contains(p) && (kind == ChangeKind::ContentModify || kind == ChangeKind::DataModify),
    decreases paths.len(),
{
    if paths.len() > 0 {
        lemma_backups_are_saves(kind, paths.drop_last(), saves);
        let before = backups_of(kind, paths.drop_last(), saves);
        assert forall|p: Seq<Seq<char>>| #[trigger] backups_of(kind, paths, saves).contains(p) implies saves.contains(p)
            && paths.contains(p) && (kind == ChangeKind::ContentModify || kind == ChangeKind::DataModify) by {
            if before.contains(p) {
                let k = choose|k: int| 0 <= k < paths.drop_last().len() && paths.drop_last()[k] == p;
                assert(paths[k] == p);
            } else {
                assert(p == paths.last());
                assert(paths[paths.len() - 1] == p);
            }
        }
    }
}

} // verus!
