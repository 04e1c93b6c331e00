//! Decluttering of a directory: aged entries are moved into a hidden archive
//! folder under a timestamped name, and aged archive entries are removed.
//!
//! The library holds the decisions; the caller performs the filesystem work
//! that each decision names, in the order the decisions come.

pub mod cli;
pub mod clock;
pub mod declutter;
pub mod error;
pub mod paths;
pub mod run;
pub mod scan;

pub use cli::{Config, MISSING_FILEPATH};
pub use clock::{
    elapsed_seconds, wall_time_from_epoch_offset, WallTime, NANOS_PER_SECOND, STAMP_MAX_SECS,
    STAMP_MIN_SECS,
};
pub use declutter::{
    archive_file_name, archive_move_at, archive_move_at_time, archive_path, delete_file, is_due,
    move_to_archive,
    ArchiveMove, DirConfig, Removal, ARCHIVE_DIR_NAME, BACKUP_SUFFIX, SECONDS_PER_HOUR,
};
pub use error::DeclutterError;
pub use paths::{join_path, SEPARATOR};
pub use run::{Action, DeclutterRun, Event, Phase};
pub use scan::{list_dir_with_meta, scan_listing, DirEntryWithAge, RawEntry};
