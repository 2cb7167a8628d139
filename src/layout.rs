use vstd::prelude::*;
use crate::decimal::{decimal, decimal_digits, decimal_of, digits_of, lemma_decimal_injective, lemma_decimal_digits_injective};
use crate::path::FsPath;

verus! {

/// Name of the directory, under the game's root, that holds every save.
pub const SAVE_ROOT_NAME: &'static str = "Save";

/// Name of the save file inside each world folder.
pub const SAVE_FILE_NAME: &'static str = "local.sav";

/// Prefix of a world folder's name; the slot number follows it.
pub const WORLD_PREFIX: &'static str = "world_";

/// Number of save slots; they are numbered from 1 to this value.
pub const MAX_SLOTS: usize = 5;

/// Name of this program's folder under the user's local data directory.
pub const APPDATA_FOLDER_NAME: &'static str = "TaiwuBackup";

/// Name of the folder, inside the program's folder, that holds the copies.
pub const BACKUP_FOLDER_NAME: &'static str = "BackupData";

/// The views of a list of paths.
pub open spec fn paths_view(v: Seq<FsPath>) -> Seq<Seq<Seq<char>>> {
    v.map_values(|p: FsPath| p@)
}

/// The name of the folder of save slot `slot`: `world_<slot>`.
pub open spec fn world_folder(slot: nat) -> Seq<char> {
    WORLD_PREFIX@ + decimal_digits(slot)
}

/// `<root>/Save`.
pub open spec fn save_root_of(root: Seq<Seq<char>>) -> Seq<Seq<char>> {
    root.push(SAVE_ROOT_NAME@)
}

/// `<root>/Save/world_<slot>/local.sav`.
pub open spec fn tracked_path_of(root: Seq<Seq<char>>, slot: nat) -> Seq<Seq<char>> {
    save_root_of(root).push(world_folder(slot)).push(SAVE_FILE_NAME@)
}

/// The save files of slots 1 to `n`, in slot order.
pub open spec fn tracked_paths_of(root: Seq<Seq<char>>, n: nat) -> Seq<Seq<Seq<char>>> {
    Seq::new(n, |i: int| tracked_path_of(root, (i + 1) as nat))
}

/// Whether `path` is the save file of one of the slots under `root`.
pub open spec fn is_tracked(root: Seq<Seq<char>>, path: Seq<Seq<char>>) -> bool {
    exists|slot: nat| 1 <= slot <= MAX_SLOTS && path == #[trigger] tracked_path_of(root, slot)
}

/// The backup root under a user's local data directory:
/// `<data>/TaiwuBackup/BackupData`.
pub open spec fn backup_root_of(data_dir: Seq<Seq<char>>) -> Seq<Seq<char>> {
    data_dir.push(APPDATA_FOLDER_NAME@).push(BACKUP_FOLDER_NAME@)
}

/// The name of a copy of the file `file_name` made at instant `ts`:
/// `<file_name>.<ts>`.
pub open spec fn artifact_name(file_name: Seq<char>, ts: int) -> Seq<char> {
    file_name + seq!['.'] + decimal(ts)
}

/// The folder that receives the copies of `src`: the backup root joined with
/// the name of the folder that holds `src`.
pub open spec fn artifact_folder(src: Seq<Seq<char>>, backup_root: Seq<Seq<char>>) -> Seq<Seq<char>> {
    backup_root.push(src[src.len() - 2])
}

/// Where the copy of `src` made at instant `ts` goes.
pub open spec fn artifact_path(src: Seq<Seq<char>>, backup_root: Seq<Seq<char>>, ts: int) -> Seq<Seq<char>> {
    artifact_folder(src, backup_root).push(artifact_name(src.last(), ts))
}

/// Where one copy goes: the folder to create and the file to write.
pub struct BackupTarget {
    pub folder: FsPath,
    pub file: FsPath,
}

/// `<root>/Save`, the directory that is watched.
pub fn save_root(root: &FsPath) -> (r: FsPath)
    ensures
        r@ == save_root_of(root@),
{
    root.join(SAVE_ROOT_NAME)
}

/// The save file of slot `slot` under the game root `root`.
pub fn tracked_path(root: &FsPath, slot: usize) -> (r: FsPath)
    ensures
        r@ == tracked_path_of(root@, slot as nat),
{
    let mut folder = String::from_str(WORLD_PREFIX);
    folder.append(digits_of(slot as u64).as_str());
    save_root(root).join(folder.as_str()).join(SAVE_FILE_NAME)
}

/// The save files of every slot under `root`, slot 1 first.
pub fn tracked_paths(root: &FsPath) -> (r: Vec<FsPath>)
    ensures
        paths_view(r@) == tracked_paths_of(root@, MAX_SLOTS as nat),
{
    let mut r: Vec<FsPath> = Vec::new();
    let mut slot: usize = 1;
    while slot <= MAX_SLOTS
        invariant
            1 <= slot <= MAX_SLOTS + 1,
            paths_view(r@) == tracked_paths_of(root@, (slot - 1) as nat),
        decreases MAX_SLOTS + 1 - slot,
    {
        let p = tracked_path(root, slot);
        let ghost before = paths_view(r@);
        let ghost pv = p@;
        r.push(p);
        assert(paths_view(r@) =~= before.push(pv));
        assert(tracked_paths_of(root@, slot as nat) =~= tracked_paths_of(root@, (slot - 1) as nat).push(pv));
        slot = slot + 1;
    }
    r
}

/// Whether `path` is one of the paths in `saves`.
pub fn contains_path(saves: &Vec<FsPath>, path: &FsPath) -> (r: bool)
    ensures
        r == paths_view(saves@).contains(path@),
{
    let mut i: usize = 0;
    while i < saves.len()
        invariant
            i <= saves.len(),
            forall|k: int| 0 <= k < i ==> saves@[k]@ != path@,
        decreases saves.len() - i,
    {
        if saves[i].same_as(path) {
            assert(paths_view(saves@)[i as int] == path@);
            return true;
        }
        i = i + 1;
    }
    assert(!paths_view(saves@).contains(path@)) by {
        if paths_view(saves@).contains(path@) {
            let k = choose|k: int| 0 <= k < saves@.len() && paths_view(saves@)[k] == path@;
            assert(saves@[k]@ == path@);
        }
    }
    false
}

/// The saves list holds exactly the save files of the slots.
pub proof fn lemma_tracked_membership(root: Seq<Seq<char>>, path: Seq<Seq<char>>)
    ensures
        tracked_paths_of(root, MAX_SLOTS as nat).contains(path) == is_tracked(root, path),
{
    let t = tracked_paths_of(root, MAX_SLOTS as nat);
    if t.contains(path) {
        let k = choose|k: int| 0 <= k < t.len() && t[k] == path;
        assert(path == tracked_path_of(root, (k + 1) as nat));
    }
    if is_tracked(root, path) {
        let slot = choose|slot: nat| 1 <= slot <= MAX_SLOTS && path == #[trigger] tracked_path_of(root, slot);
        assert(t[slot - 1] == path);
    }
}

/// Whether `path` is the save file of one of the slots under `root`.
pub fn is_tracked_path(root: &FsPath, path: &FsPath) -> (r: bool)
    ensures
        r == is_tracked(root@, path@),
{
    let saves = tracked_paths(root);
    proof {
        lemma_tracked_membership(root@, path@);
    }
    contains_path(&saves, path)
}

/// `<data>/TaiwuBackup/BackupData`.
pub fn backup_root_under(data_dir: &FsPath) -> (r: FsPath)
    ensures
        r@ == backup_root_of(data_dir@),
{
    data_dir.join(APPDATA_FOLDER_NAME).join(BACKUP_FOLDER_NAME)
}

/// Where the copy of `src` made at instant `ts` (nanoseconds since the
/// epoch) goes under `backup_root`.
pub fn backup_target(src: &FsPath, backup_root: &FsPath, ts: i64) -> (r: BackupTarget)
    requires
        src@.len() >= 2,
    ensures
        r.folder@ == artifact_folder(src@, backup_root@),
        r.file@ == artifact_path(src@, backup_root@, ts as int),
{
    let parent = src.parent().unwrap();
    let folder_name = parent.file_name().unwrap();
    let folder = backup_root.join(folder_name.as_str());
    let mut name = src.file_name().unwrap().clone();
    name.append(".");
    name.append(decimal_of(ts).as_str());
    proof {
        reveal_strlit(".");
        assert(name@ =~= artifact_name(src@.last(), ts as int));
    }
    let file = folder.join(name.as_str());
    BackupTarget { folder, file }
}

/// Each slot has its own save file: the paths of two slots are equal exactly
/// when the slots are, and a path depends on nothing but the root and the slot.
pub proof fn lemma_tracked_paths_distinct(root: Seq<Seq<char>>, a: nat, b: nat)
    ensures
        (tracked_path_of(root, a) == tracked_path_of(root, b)) <==> (a == b),
{
    if tracked_path_of(root, a) == tracked_path_of(root, b) {
        let i: int = root.len() as int + 1;
        assert(tracked_path_of(root, a)[i] == world_folder(a));
        assert(tracked_path_of(root, b)[i] == world_folder(b));
        let n = WORLD_PREFIX@.len() as int;
        assert(decimal_digits(a) =~= world_folder(a).subrange(n, world_folder(a).len() as int));
        assert(decimal_digits(b) =~= world_folder(b).subrange(n, world_folder(b).len() as int));
        lemma_decimal_digits_injective(a, b);
    }
}

/// Copies of one file made at two different instants have different paths,
/// so no copy overwrites another.
pub proof fn lemma_distinct_instants_distinct_artifacts(
    src: Seq<Seq<char>>,
    backup_root: Seq<Seq<char>>,
    t1: int,
    t2: int,
)
    requires
        src.len() >= 2,
        t1 != t2,
    ensures
        artifact_path(src, backup_root, t1) != artifact_path(src, backup_root, t2),
{
    let n1 = artifact_name(src.last(), t1);
    let n2 = artifact_name(src.last(), t2);
    if artifact_path(src, backup_root, t1) == artifact_path(src, backup_root, t2) {
        assert(n1 == artifact_path(src, backup_root, t1).last());
        assert(n2 == artifact_path(src, backup_root, t2).last());
        let k: int = src.last().len() as int + 1;
        assert(decimal(t1) =~= n1.subrange(k, n1.len() as int));
        assert(decimal(t2) =~= n2.subrange(k, n2.len() as int));
        lemma_decimal_injective(t1, t2);
    }
}

} // verus!
