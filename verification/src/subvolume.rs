//! Btrfs subvolumes: the central domain objects, their metadata snapshots,
//! and the tree iteration over them.

pub mod iterator;
pub mod subvol;
pub mod subvol_info;
pub mod subvol_path;

pub use iterator::IterAction;
pub use iterator::SubvolumeIterator;
pub use iterator::SubvolumeIteratorFlags;
pub use subvol::DeleteFlags;
pub use subvol::SnapshotFlags;
pub use subvol::Subvolume;
pub use subvol::SubvolumeView;
pub use subvol::BTRFS_FS_TREE_OBJECTID;
pub use subvol_info::RawSubvolumeInfo;
pub use subvol_info::RawTimespec;
pub use subvol_info::SubvolumeInfo;
pub use subvol_info::Timespec;
pub use subvol_info::Uuid;
pub use subvol_path::SubvolumePath;
