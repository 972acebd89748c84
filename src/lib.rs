pub mod calculate;
pub mod classify;
pub mod release;
pub mod version;

pub use calculate::{apply_bump, calculate_new_version, classify_range, next_from_baseline, VersionError};
pub use classify::{classify_message, BumpLevel};
pub use release::{find_latest_release, is_release, Commit};
pub use version::{Bump, Version};
