//! Watches a game's save files and keeps timestamped copies of every save.
//!
//! The library holds the decisions: where the save files lie, which change
//! notifications call for a copy, where each copy goes and what it is named,
//! and how a watch session moves between its states. Reading the disk,
//! copying bytes and receiving notifications is left to the caller.
mod classify;
mod decimal;
mod engine;
mod game_root;
mod layout;
mod path;
mod session;

pub use classify::{
    backups_for, classify, classify_path, ChangeEvent, ChangeKind, Decision, IgnoreReason,
};
pub use decimal::{decimal_of, digits_of};
pub use engine::{Taiwu, TaiwuError};
pub use game_root::{GameRoot, STEAM_APP_ID};
pub use layout::{
    backup_root_under, backup_target, contains_path, is_tracked_path, save_root, tracked_path,
    tracked_paths, BackupTarget, APPDATA_FOLDER_NAME, BACKUP_FOLDER_NAME, MAX_SLOTS,
    SAVE_FILE_NAME, SAVE_ROOT_NAME, WORLD_PREFIX,
};
pub use path::FsPath;
pub use session::{CopyRun, Notification, Reaction, WatchHandle, WatchSession, WatchState};
