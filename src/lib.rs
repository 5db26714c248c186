pub mod error;
pub mod inspect;
pub mod lifecycle;
pub mod name;
pub mod state;
pub mod table;
pub mod text;

pub use error::ZfsError;
pub use inspect::{
    encrypted_datasets_from, key_status_from, mount_status_from, mountpoints_from,
    DatasetMountedState, Outcome,
};
pub use lifecycle::{Lifecycle, Operation, Query, Stage, Step};
pub use name::check_and_sanitize_zfs_dataset_name;
pub use state::{parse_dataset_mounted_state, parse_key_available_state, parse_key_status};
