use vstd::prelude::*;
use crate::classify::{backups_for, backups_of, ChangeEvent};
use crate::game_root::GameRoot;
use crate::layout::{
    artifact_folder, artifact_name, artifact_path, world_folder, SAVE_FILE_NAME, backup_root_of, backup_root_under, backup_target,
    is_tracked, is_tracked_path, paths_view, save_root, save_root_of,
    tracked_path, tracked_path_of, tracked_paths, tracked_paths_of, BackupTarget, MAX_SLOTS,
};
use crate::path::FsPath;

verus! {

/// The ways in which setting up the engine fails.
#[derive(Clone, Copy, Debug, PartialEq, Eq, Structural)]
pub enum TaiwuError {
    /// No game installation directory was found.
    GameRootNotFound,
    /// The user's local data directory could not be determined.
    BackupRootDefaultNotAvailable,
}

/// The abstract content of a [`Taiwu`]: where the game lies and where the
/// copies go.
pub struct TaiwuView {
    pub game_root: Seq<Seq<char>>,
    pub backup_root: Seq<Seq<char>>,
}

/// The backup engine: the game's root, the backup root, and the save files
/// that it watches, computed once.
#[derive(Debug)]
pub struct Taiwu {
    game_root: FsPath,
    backup_root: FsPath,
    saves: Vec<FsPath>,
}

/// The save files that a start-up pass copies: those of the first `n` slots whose
/// entry in `present` is true, in slot order.
pub open spec fn present_saves(root: Seq<Seq<char>>, present: Seq<bool>, n: nat) -> Seq<Seq<Seq<char>>>
    decreases n,
{
    if n == 0 {
        Seq::empty()
    } else {
        let before = present_saves(root, present, (n - 1) as nat);
        if present[n - 1] {
            before.push(tracked_path_of(root, n))
        } else {
            before
        }
    }
}

impl View for Taiwu {
    type V = TaiwuView;

    closed spec fn view(&self) -> TaiwuView {
        TaiwuView { game_root: self.game_root@, backup_root: self.backup_root@ }
    }
}

impl Taiwu {
    #[verifier::type_invariant]
    spec fn saves_computed(&self) -> bool {
        paths_view(self.saves@) == tracked_paths_of(self.game_root@, MAX_SLOTS as nat)
    }

    fn from_root(root: GameRoot, data_dir: Option<FsPath>) -> (r: Result<Taiwu, TaiwuError>)
        ensures
            data_dir.is_none() ==> r == Err::<Taiwu, TaiwuError>(TaiwuError::BackupRootDefaultNotAvailable),
            data_dir.is_some() ==> (r.is_ok() && r.unwrap()@.game_root == root@
                && r.unwrap()@.backup_root == backup_root_of(data_dir.unwrap()@)),
    {
        match data_dir {
            Some(dir) => {
                let game_root = root.path().duplicate();
                let backup_root = backup_root_under(&dir);
                let saves = tracked_paths(&game_root);
                Ok(Taiwu { game_root, backup_root, saves })
            },
            None => Err(TaiwuError::BackupRootDefaultNotAvailable),
        }
    }

    /// The engine for the game that the Steam library located (`located`;
    /// `is_dir` tells whether it is a directory), copying under the user's
    /// local data directory `data_dir`.
    pub fn new(located: Option<FsPath>, is_dir: bool, data_dir: Option<FsPath>) -> (r: Result<Taiwu, TaiwuError>)
        ensures
            !(located.is_some() && is_dir) ==> r == Err::<Taiwu, TaiwuError>(TaiwuError::GameRootNotFound),
            located.is_some() && is_dir && data_dir.is_none() ==> r == Err::<Taiwu, TaiwuError>(
                TaiwuError::BackupRootDefaultNotAvailable,
            ),
            located.is_some() && is_dir && data_dir.is_some() ==> (r.is_ok() && r.unwrap()@.game_root
                == located.unwrap()@ && r.unwrap()@.backup_root == backup_root_of(data_dir.unwrap()@)),
    {
        match GameRoot::auto(located, is_dir) {
            Some(root) => Taiwu::from_root(root, data_dir),
            None => Err(TaiwuError::GameRootNotFound),
        }
    }

    /// The engine for the game installed at `path` (`is_dir` tells whether
    /// it is a directory), copying under the user's local data directory
    /// `data_dir`.
    pub fn with_path(path: FsPath, is_dir: bool, data_dir: Option<FsPath>) -> (r: Result<Taiwu, TaiwuError>)
        ensures
            !is_dir ==> r == Err::<Taiwu, TaiwuError>(TaiwuError::GameRootNotFound),
            is_dir && data_dir.is_none() ==> r == Err::<Taiwu, TaiwuError>(
                TaiwuError::BackupRootDefaultNotAvailable,
            ),
            is_dir && data_dir.is_some() ==> (r.is_ok() && r.unwrap()@.game_root == path@
                && r.unwrap()@.backup_root == backup_root_of(data_dir.unwrap()@)),
    {
        match GameRoot::new(path, is_dir) {
            Some(root) => Taiwu::from_root(root, data_dir),
            None => Err(TaiwuError::GameRootNotFound),
        }
    }

    /// The game's installation directory.
    pub fn game_root(&self) -> (r: FsPath)
        ensures
            r@ == self@.game_root,
    {
        self.game_root.duplicate()
    }

    /// The directory under which copies are written.
    pub fn backup_root(&self) -> (r: FsPath)
        ensures
            r@ == self@.backup_root,
    {
        self.backup_root.duplicate()
    }

    /// The watched directory, `<game root>/Save`.
    pub fn save_root(&self) -> (r: FsPath)
        ensures
            r@ == save_root_of(self@.game_root),
    {
        save_root(&self.game_root)
    }

    /// The save file of slot `world`.
    pub fn save_file(&self, world: usize) -> (r: FsPath)
        ensures
            r@ == tracked_path_of(self@.game_root, world as nat),
    {
        tracked_path(&self.game_root, world)
    }

    /// The save files of every slot, slot 1 first.
    pub fn save_files(&self) -> (r: &Vec<FsPath>)
        ensures
            paths_view(r@) == tracked_paths_of(self@.game_root, MAX_SLOTS as nat),
    {
        proof {
            use_type_invariant(self);
        }
        &self.saves
    }

    /// Whether `path` is the save file of one of the slots.
    pub fn is_save_file(&self, path: &FsPath) -> (r: bool)
        ensures
            r == is_tracked(self@.game_root, path@),
    {
        is_tracked_path(&self.game_root, path)
    }

    /// The save files to copy at start-up: those of the slots whose file is
    /// present (`present[i]` for slot `i + 1`), in slot order.
    pub fn backup_once(&self, present: &Vec<bool>) -> (r: Vec<FsPath>)
        requires
            present@.len() == MAX_SLOTS,
        ensures
            paths_view(r@) == present_saves(self@.game_root, present@, MAX_SLOTS as nat),
    {
        let mut r: Vec<FsPath> = Vec::new();
        let mut slot: usize = 1;
        while slot <= MAX_SLOTS
            invariant
                1 <= slot <= MAX_SLOTS + 1,
                present@.len() == MAX_SLOTS,
                paths_view(r@) == present_saves(self@.game_root, present@, (slot - 1) as nat),
            decreases MAX_SLOTS + 1 - slot,
        {
            if present[slot - 1] {
                let p = self.save_file(slot);
                let ghost before = paths_view(r@);
                let ghost pv = p@;
                r.push(p);
                assert(paths_view(r@) =~= before.push(pv));
            }
            slot = slot + 1;
        }
        r
    }

    /// The save files that `event` calls to copy, in the order of its paths.
    pub fn process(&self, event: &ChangeEvent) -> (r: Vec<FsPath>)
        ensures
            paths_view(r@) == backups_of(
                event.kind,
                paths_view(event.paths@),
                tracked_paths_of(self@.game_root, MAX_SLOTS as nat),
            ),
    {
        backups_for(event, self.save_files())
    }

    /// Where the copy of `src` made at instant `ts` (nanoseconds since the
    /// epoch) goes.
    pub fn backup_target_at(&self, src: &FsPath, ts: i64) -> (r: BackupTarget)
        requires
            src@.len() >= 2,
        ensures
            r.folder@ == artifact_folder(src@, self@.backup_root),
            r.file@ == artifact_path(src@, self@.backup_root, ts as int),
    {
        backup_target(src, &self.backup_root, ts)
    }
}

/// The copy of slot `slot`'s save file made at instant `ts` goes to
/// `<backup root>/world_<slot>/local.sav.<ts>`.
pub proof fn lemma_save_copy_location(root: Seq<Seq<char>>, backup_root: Seq<Seq<char>>, slot: nat, ts: int)
    ensures
        tracked_path_of(root, slot).len() >= 2,
        artifact_folder(tracked_path_of(root, slot), backup_root) == backup_root.push(world_folder(slot)),
        artifact_path(tracked_path_of(root, slot), backup_root, ts) == backup_root.push(world_folder(slot)).push(
            artifact_name(SAVE_FILE_NAME@, ts),
        ),
{
}

} // verus!
