use vstd::prelude::*;
use crate::path::FsPath;

verus! {

/// The game's identifier in the Steam library.
pub const STEAM_APP_ID: u32 = 838350;

/// The game's installation directory, known to have existed as a directory
/// when it was found.
#[derive(Debug)]
pub struct GameRoot {
    path: FsPath,
}

impl View for GameRoot {
    type V = Seq<Seq<char>>;

    closed spec fn view(&self) -> Seq<Seq<char>> {
        self.path@
    }
}

impl GameRoot {
    /// The root at `path`, given whether `path` is a directory; `None` when
    /// it is not.
    pub fn new(path: FsPath, is_dir: bool) -> (r: Option<GameRoot>)
        ensures
            r.is_some() == is_dir,
            r.is_some() ==> r.unwrap()@ == path@,
    {
        if is_dir {
            Some(GameRoot { path })
        } else {
            None
        }
    }

    /// The root that the Steam library reported for the game
    /// ([`STEAM_APP_ID`]), if it reported one and `is_dir` tells that it is
    /// a directory.
    pub fn auto(located: Option<FsPath>, is_dir: bool) -> (r: Option<GameRoot>)
        ensures
            r.is_some() == (located.is_some() && is_dir),
            r.is_some() ==> r.unwrap()@ == located.unwrap()@,
    {
        match located {
            Some(path) => GameRoot::new(path, is_dir),
            None => None,
        }
    }

    /// The directory.
    pub fn path(&self) -> (r: &FsPath)
        ensures
            r@ == self@,
    {
        &self.path
    }
}

} // verus!
