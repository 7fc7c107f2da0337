//! Scenario tests for the subvolume entity, driving the decision layer with
//! the status codes and out-parameters a live boundary would report.

use btrfsutil::error::BtrfsUtilError;
use btrfsutil::error::GlueError;
use btrfsutil::error::LibError;
use btrfsutil::subvolume::RawSubvolumeInfo;
use btrfsutil::subvolume::RawTimespec;
use btrfsutil::subvolume::SnapshotFlags;
use btrfsutil::subvolume::Subvolume;
use btrfsutil::subvolume::SubvolumePath;
use btrfsutil::subvolume::BTRFS_FS_TREE_OBJECTID;

const OK: u32 = 0;
const NOT_BTRFS: u32 = 4;
const NOT_SUBVOLUME: u32 = 5;
const OPEN_FAILED: u32 = 7;

fn raw_info(id: u64, uuid_byte: u8) -> RawSubvolumeInfo {
    RawSubvolumeInfo {
        id,
        parent_id: 0,
        dir_id: 0,
        flags: 0,
        uuid: vec![uuid_byte; 16],
        parent_uuid: vec![0; 16],
        received_uuid: vec![0; 16],
        generation: 7,
        ctransid: 7,
        otransid: 6,
        stransid: 0,
        rtransid: 0,
        ctime: RawTimespec { sec: 1_600_000_000, nsec: 500 },
        otime: RawTimespec { sec: 1_500_000_000, nsec: 0 },
        stime: RawTimespec { sec: 0, nsec: 0 },
        rtime: RawTimespec { sec: 0, nsec: 0 },
    }
}

/// The original round trip over a freshly created filesystem, driven by the
/// boundary answers such a filesystem gives.
#[test]
fn loop_test_btrfs_subvol() {
    let mount_pt = b"/tmp/btrfsutil/mnt".to_vec();

    // The root subvolume carries the reserved root id.
    let root_subvol = Subvolume::get(mount_pt.clone(), OK, OK, 5).unwrap();
    assert_eq!(root_subvol.id(), BTRFS_FS_TREE_OBJECTID);

    // Create a subvolume beneath the mount point.
    let new_sv_path = b"/tmp/btrfsutil/mnt/subvol1".to_vec();
    let sv1 = Subvolume::create(new_sv_path.clone(), None, OK, OK, OK, 256).unwrap();
    assert_eq!(sv1.path(), &new_sv_path);

    // Before any explicit default is set, the root subvolume is the default.
    let default_sv = Subvolume::get_default(&mount_pt, OK, 5).unwrap();
    assert_eq!(default_sv, root_subvol);

    // After setting sv1 as the default, the lookup reports it.
    sv1.set_default(OK).unwrap();
    let new_default_sv = Subvolume::get_default(&mount_pt, OK, 256).unwrap();
    assert_eq!(sv1, new_default_sv);

    // Restore root as default.
    root_subvol.set_default(OK).unwrap();

    // The root subvolume's metadata: the zero-as-absence conventions hold.
    let info = root_subvol.info(OK, &raw_info(5, 0xab)).unwrap();
    assert_eq!(info.id, BTRFS_FS_TREE_OBJECTID);
    assert_eq!(info.parent_id, None);
    assert_eq!(info.dir_id, None);
    assert_eq!(info.parent_uuid, None);
    assert_eq!(info.received_uuid, None);

    // The read-only flag as reported before and after flipping it.
    assert_eq!(false, sv1.is_ro(OK, false).unwrap());
    sv1.set_ro(true, OK).unwrap();
    assert_eq!(true, sv1.is_ro(OK, true).unwrap());
    sv1.set_ro(false, OK).unwrap();

    // The is-subvolume truth table: subvolume roots answer yes; a foreign
    // filesystem, a nonexistent path and a plain directory answer no,
    // without raising an error.
    assert_eq!(true, Subvolume::is_subvolume(&mount_pt, OK).unwrap());
    assert_eq!(true, Subvolume::is_subvolume(&new_sv_path, OK).unwrap());
    assert_eq!(false, Subvolume::is_subvolume(&b"/tmp".to_vec(), NOT_BTRFS).unwrap());
    assert_eq!(false, Subvolume::is_subvolume(&b"/foobar".to_vec(), OPEN_FAILED).unwrap());
    let dir_path = b"/tmp/btrfsutil/mnt/subvol1/dir1".to_vec();
    assert_eq!(false, Subvolume::is_subvolume(&dir_path, NOT_SUBVOLUME).unwrap());

    // A snapshot is a fresh subvolume at the destination path.
    let snap_path = b"/tmp/btrfsutil/mnt/snap1".to_vec();
    let snap_sv1 = sv1.snapshot(snap_path.clone(), None, None, OK, OK, OK, 257).unwrap();
    assert_eq!(snap_sv1.path(), &snap_path);

    // Deleting the snapshot consumes it; it then shows up among the deleted
    // but not yet cleaned up subvolumes, under its id.
    let snap_id = snap_sv1.id();
    snap_sv1.delete(None, OK).unwrap();
    let deleted = Subvolume::deleted(&mount_pt, OK, 1, Some(vec![257])).unwrap();
    assert_eq!(1, deleted.len());
    assert_eq!(snap_id, deleted[0].id());
    // The destination of the delete is no longer a subvolume root.
    assert_eq!(false, Subvolume::is_subvolume(&snap_path, NOT_SUBVOLUME).unwrap());
}

#[test]
fn bad_ids_are_rejected_by_every_constructor() {
    for id in 0..5u64 {
        let bad = Err(BtrfsUtilError::Glue(GlueError::BadId(id)));
        assert_eq!(Subvolume::new(id, SubvolumePath::NotConfirmed(b"/x".to_vec())), bad);
        assert_eq!(Subvolume::get(b"/x".to_vec(), 0, 0, id), bad);
        assert_eq!(Subvolume::get_default(&b"/x".to_vec(), 0, id), bad);
        assert_eq!(Subvolume::from_id_lookup(id, 0, Some(b"sv\0".to_vec())), bad);
        assert_eq!(Subvolume::create(b"/x".to_vec(), None, 0, 0, 0, id), bad);
        assert_eq!(
            Subvolume::deleted(&b"/x".to_vec(), 0, 2, Some(vec![7, id])),
            Err(BtrfsUtilError::Glue(GlueError::BadId(id)))
        );
    }
    // The minimum legal id itself is accepted.
    assert!(Subvolume::new(5, SubvolumePath::NotConfirmed(b"/x".to_vec())).is_ok());
}

#[test]
fn lookup_keeps_the_given_path_and_confirms_it() {
    let p = b"/mnt/t/sv".to_vec();
    let sv = Subvolume::get(p.clone(), 0, 0, 256).unwrap();
    assert_eq!(sv.path(), &p);
    assert!(sv.path_ref().is_confirmed());
    assert_eq!(sv.id(), 256);
}

#[test]
fn lookup_propagates_boundary_errors_in_call_order() {
    assert_eq!(
        Subvolume::get(b"/mnt/plain".to_vec(), 5, 0, 0),
        Err(BtrfsUtilError::Lib(LibError::NotSubvolume))
    );
    assert_eq!(
        Subvolume::get(b"/mnt/t".to_vec(), 0, 7, 0),
        Err(BtrfsUtilError::Lib(LibError::OpenFailed))
    );
    assert_eq!(
        Subvolume::get(b"/mnt\0t".to_vec(), 0, 0, 5),
        Err(BtrfsUtilError::Glue(GlueError::NulError))
    );
}

#[test]
fn get_anyway_takes_the_boundary_resolved_path() {
    let asked = b"/mnt/t/sv/nested".to_vec();
    let sv = Subvolume::get_anyway(&asked, 0, 256, 0, Some(b"/mnt/t/sv\0".to_vec())).unwrap();
    assert_eq!(sv.path(), &b"/mnt/t/sv".to_vec());
    assert!(sv.path_ref().is_confirmed());
    assert_eq!(
        Subvolume::get_anyway(&asked, 0, 256, 0, None),
        Err(BtrfsUtilError::Glue(GlueError::NullPointerReceived))
    );
}

#[test]
fn from_id_lookup_decodes_the_returned_path() {
    let sv = Subvolume::from_id_lookup(256, 0, Some(b"sv1\0".to_vec())).unwrap();
    assert_eq!(sv.id(), 256);
    assert_eq!(sv.path(), &b"sv1".to_vec());
    assert_eq!(
        Subvolume::from_id_lookup(256, 0, Some(b"torn".to_vec())),
        Err(BtrfsUtilError::Glue(GlueError::BadPath))
    );
}

#[test]
fn default_lookup_is_unconfirmed() {
    let sv = Subvolume::get_default(&b"/mnt/t".to_vec(), 0, 5).unwrap();
    assert!(!sv.path_ref().is_confirmed());
    assert_eq!(sv.path(), &b"/mnt/t".to_vec());
}

#[test]
fn deleted_zero_count_is_a_normal_empty_list() {
    let r = Subvolume::deleted(&b"/mnt/t".to_vec(), 0, 0, None).unwrap();
    assert_eq!(r.len(), 0);
    assert_eq!(
        Subvolume::deleted(&b"/mnt/t".to_vec(), 0, 3, None),
        Err(BtrfsUtilError::Glue(GlueError::NullPointerReceived))
    );
}

#[test]
fn snapshot_read_only_round_trip() {
    let sv = Subvolume::get(b"/mnt/t/sv".to_vec(), 0, 0, 256).unwrap();
    let dest_path = b"/mnt/t/snap".to_vec();

    // A snapshot taken without the read-only flag reports writable.
    let flags = SnapshotFlags { recursive: false, read_only: false };
    let dest = sv.snapshot(dest_path.clone(), Some(flags), None, 0, 0, 0, 257).unwrap();
    assert_eq!(flags.bits(), 0);
    assert_eq!(dest.is_ro(0, false).unwrap(), false);

    // One taken with the read-only flag reports read-only; a write beneath
    // it then fails at the boundary.
    let ro_flags = SnapshotFlags { recursive: false, read_only: true };
    let dest_ro = sv.snapshot(dest_path, Some(ro_flags), None, 0, 0, 0, 258).unwrap();
    assert_eq!(ro_flags.bits(), 2);
    assert_eq!(dest_ro.is_ro(0, true).unwrap(), true);
}

#[test]
fn delete_flag_bits_encode_recursive() {
    let r = btrfsutil::subvolume::DeleteFlags { recursive: true };
    let p = btrfsutil::subvolume::DeleteFlags { recursive: false };
    assert_eq!(r.bits(), 1);
    assert_eq!(p.bits(), 0);
}

#[test]
fn end_to_end_default_scenario() {
    // On a freshly created filesystem the default subvolume is the reserved
    // root id, before any explicit default is set.
    let mount = b"/mnt/t".to_vec();
    let default = Subvolume::get_default(&mount, 0, 5).unwrap();
    assert_eq!(default.id(), 5);

    // After creating a subvolume and setting it as the default, the default
    // lookup reports that subvolume.
    let sv1 = Subvolume::create(b"/mnt/t/sv1".to_vec(), None, 0, 0, 0, 256).unwrap();
    sv1.set_default(0).unwrap();
    let new_default = Subvolume::get_default(&mount, 0, 256).unwrap();
    assert_eq!(new_default, sv1);
}
