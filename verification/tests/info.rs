//! Tests for the metadata decode: the zero-as-absence conventions, UUID
//! validation, and timestamp conversion.

use btrfsutil::error::BtrfsUtilError;
use btrfsutil::error::GlueError;
use btrfsutil::error::LibError;
use btrfsutil::subvolume::RawSubvolumeInfo;
use btrfsutil::subvolume::RawTimespec;
use btrfsutil::subvolume::SubvolumeInfo;
use btrfsutil::subvolume::Subvolume;
use btrfsutil::subvolume::Timespec;
use btrfsutil::subvolume::Uuid;

fn subject() -> Subvolume {
    Subvolume::get(b"/mnt/t/sv".to_vec(), 0, 0, 256).unwrap()
}

fn sample_raw() -> RawSubvolumeInfo {
    RawSubvolumeInfo {
        id: 256,
        parent_id: 5,
        dir_id: 257,
        flags: 1,
        uuid: vec![1; 16],
        parent_uuid: vec![2; 16],
        received_uuid: vec![0; 16],
        generation: 31,
        ctransid: 30,
        otransid: 12,
        stransid: 0,
        rtransid: 0,
        ctime: RawTimespec { sec: 1_600_000_000, nsec: 123_456_789 },
        otime: RawTimespec { sec: 1_500_000_000, nsec: 0 },
        stime: RawTimespec { sec: 0, nsec: 0 },
        rtime: RawTimespec { sec: 0, nsec: 0 },
    }
}

#[test]
fn decode_applies_the_conventions_field_by_field() {
    let sv = subject();
    let info = SubvolumeInfo::try_derive(&sv, 0, &sample_raw()).unwrap();
    assert_eq!(info.id, 256);
    assert_eq!(info.path, b"/mnt/t/sv".to_vec());
    assert_eq!(info.parent_id, Some(5));
    assert_eq!(info.dir_id, Some(257));
    assert_eq!(info.flags, 1);
    assert_eq!(info.uuid.as_bytes(), &vec![1u8; 16]);
    assert_eq!(info.parent_uuid.as_ref().map(|u| u.as_bytes().clone()), Some(vec![2u8; 16]));
    assert_eq!(info.received_uuid, None);
    assert_eq!(info.generation, 31);
    assert_eq!(info.ctransid, 30);
    assert_eq!(info.otransid, 12);
    assert_eq!(info.stransid, None);
    assert_eq!(info.rtransid, None);
    assert_eq!(info.ctime, Timespec { sec: 1_600_000_000, nsec: 123_456_789 });
    assert_eq!(info.otime, Timespec { sec: 1_500_000_000, nsec: 0 });
    assert_eq!(info.stime, None);
    assert_eq!(info.rtime, None);
}

#[test]
fn decode_keeps_legitimately_nonzero_optionals() {
    let sv = subject();
    let mut raw = sample_raw();
    raw.stransid = 9;
    raw.rtransid = 10;
    raw.stime = RawTimespec { sec: 1_600_000_100, nsec: 1 };
    raw.rtime = RawTimespec { sec: 1_600_000_200, nsec: 2 };
    raw.received_uuid = vec![3; 16];
    let info = SubvolumeInfo::try_derive(&sv, 0, &raw).unwrap();
    assert_eq!(info.stransid, Some(9));
    assert_eq!(info.rtransid, Some(10));
    assert_eq!(info.stime, Some(Timespec { sec: 1_600_000_100, nsec: 1 }));
    assert_eq!(info.rtime, Some(Timespec { sec: 1_600_000_200, nsec: 2 }));
    assert_eq!(info.received_uuid.as_ref().map(|u| u.as_bytes().clone()), Some(vec![3u8; 16]));
}

#[test]
fn decode_propagates_the_boundary_code() {
    let sv = subject();
    assert_eq!(
        SubvolumeInfo::try_derive(&sv, 23, &sample_raw()),
        Err(BtrfsUtilError::Lib(LibError::GetSubvolInfoFailed))
    );
}

#[test]
fn decode_rejects_a_bad_id() {
    let sv = subject();
    let mut raw = sample_raw();
    raw.id = 4;
    assert_eq!(
        SubvolumeInfo::try_derive(&sv, 0, &raw),
        Err(BtrfsUtilError::Glue(GlueError::BadId(4)))
    );
}

#[test]
fn decode_rejects_a_malformed_uuid() {
    let sv = subject();
    let mut raw = sample_raw();
    raw.parent_uuid = vec![2; 15];
    assert_eq!(
        SubvolumeInfo::try_derive(&sv, 0, &raw),
        Err(BtrfsUtilError::Glue(GlueError::UuidError))
    );
}

#[test]
fn decode_rejects_unrepresentable_timestamps() {
    let sv = subject();

    // Seconds far outside any calendar: the calendar library refuses them.
    let mut raw = sample_raw();
    raw.ctime = RawTimespec { sec: i64::MAX, nsec: 0 };
    assert_eq!(
        SubvolumeInfo::try_derive(&sv, 0, &raw),
        Err(BtrfsUtilError::Glue(GlueError::BadTimespec(i64::MAX, 0)))
    );

    // A nanosecond part that exceeds two seconds is invalid.
    let mut raw = sample_raw();
    raw.otime = RawTimespec { sec: 10, nsec: 2_000_000_000 };
    assert_eq!(
        SubvolumeInfo::try_derive(&sv, 0, &raw),
        Err(BtrfsUtilError::Glue(GlueError::BadTimespec(10, 2_000_000_000)))
    );

    // A negative nanosecond part does not fit the decoded representation.
    let mut raw = sample_raw();
    raw.rtime = RawTimespec { sec: 10, nsec: -1 };
    assert_eq!(
        SubvolumeInfo::try_derive(&sv, 0, &raw),
        Err(BtrfsUtilError::Glue(GlueError::BadTimespec(10, -1)))
    );
}

#[test]
fn reads_are_idempotent_without_intervening_mutation() {
    let sv = subject();
    let raw = sample_raw();
    let first = SubvolumeInfo::try_derive(&sv, 0, &raw).unwrap();
    let second = SubvolumeInfo::try_derive(&sv, 0, &raw).unwrap();
    assert_eq!(first, second);
    assert_eq!(sv.info(0, &raw).unwrap(), first);
}

#[test]
fn uuid_validation_matches_the_uuid_crate() {
    // The sixteen-byte requirement and the nil convention agree with the
    // uuid crate on the same bytes.
    let bytes = vec![7u8; 16];
    let ours = Uuid::from_bytes(bytes.clone()).unwrap();
    let theirs = uuid::Uuid::from_slice(&bytes).unwrap();
    assert_eq!(ours.is_nil(), theirs.is_nil());
    assert_eq!(ours.as_bytes().as_slice(), theirs.as_bytes());

    let nil = Uuid::from_bytes(vec![0u8; 16]).unwrap();
    assert!(nil.is_nil());
    assert!(uuid::Uuid::from_slice(&[0u8; 16]).unwrap().is_nil());

    assert!(Uuid::from_bytes(vec![7u8; 15]).is_err());
    assert!(uuid::Uuid::from_slice(&[7u8; 15]).is_err());
}

#[test]
fn info_yields_the_subvolume_it_came_from() {
    let sv = subject();
    let info = sv.info(0, &sample_raw()).unwrap();
    let back = info.to_subvolume().unwrap();
    assert_eq!(back, sv);
    assert_eq!(back.path(), sv.path());
    assert!(!back.path_ref().is_confirmed());
}
