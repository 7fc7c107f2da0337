//! Tests for the unified error taxonomy and the status-code mapping.

use btrfsutil::error::check_code;
use btrfsutil::error::BtrfsUtilError;
use btrfsutil::error::GlueError;
use btrfsutil::error::LibError;
use btrfsutil::error::MAX_LIB_ERROR_CODE;

const ALL_ERRORS: [LibError; 27] = [
    LibError::Success,
    LibError::StopIteration,
    LibError::NoMemory,
    LibError::InvalidArgument,
    LibError::NotBtrfs,
    LibError::NotSubvolume,
    LibError::SubvolumeNotFound,
    LibError::OpenFailed,
    LibError::RmdirFailed,
    LibError::UnlinkFailed,
    LibError::StatFailed,
    LibError::StatfsFailed,
    LibError::SearchFailed,
    LibError::InoLookupFailed,
    LibError::SubvolGetflagsFailed,
    LibError::SubvolSetflagsFailed,
    LibError::SubvolCreateFailed,
    LibError::SnapCreateFailed,
    LibError::SnapDestroyFailed,
    LibError::DefaultSubvolFailed,
    LibError::SyncFailed,
    LibError::StartSyncFailed,
    LibError::WaitSyncFailed,
    LibError::GetSubvolInfoFailed,
    LibError::GetSubvolRootrefFailed,
    LibError::InoLookupUserFailed,
    LibError::FsInfoFailed,
];

#[test]
fn codes_are_sequential() {
    for (i, e) in ALL_ERRORS.iter().enumerate() {
        assert_eq!(e.code(), i as u32);
    }
    assert_eq!(MAX_LIB_ERROR_CODE, 26);
}

#[test]
fn code_round_trip_all() {
    for e in ALL_ERRORS.iter() {
        assert_eq!(LibError::try_from_code(e.code()), Ok(*e));
    }
    for code in 0..=MAX_LIB_ERROR_CODE {
        assert_eq!(LibError::try_from_code(code).unwrap().code(), code);
    }
}

#[test]
fn unknown_code_is_reported_not_accepted() {
    assert_eq!(
        LibError::try_from_code(27),
        Err(BtrfsUtilError::Glue(GlueError::UnknownErrno(27)))
    );
    assert_eq!(
        LibError::try_from_code(u32::MAX),
        Err(BtrfsUtilError::Glue(GlueError::UnknownErrno(u32::MAX)))
    );
}

#[test]
fn check_code_maps_each_domain() {
    assert_eq!(check_code(0), Ok(()));
    assert_eq!(check_code(5), Err(BtrfsUtilError::Lib(LibError::NotSubvolume)));
    assert_eq!(check_code(26), Err(BtrfsUtilError::Lib(LibError::FsInfoFailed)));
    assert_eq!(
        check_code(1000),
        Err(BtrfsUtilError::Glue(GlueError::UnknownErrno(1000)))
    );
}

#[test]
fn messages_are_the_librarys_own() {
    assert_eq!(LibError::Success.message(), "Success");
    assert_eq!(LibError::StopIteration.message(), "Stop iteration");
    assert_eq!(LibError::NotSubvolume.message(), "Not a Btrfs subvolume");
    assert_eq!(GlueError::BadId(3).message(), "Bad id");
    assert_eq!(
        BtrfsUtilError::Lib(LibError::SnapCreateFailed).message(),
        "Could not create snapshot"
    );
    assert_eq!(
        BtrfsUtilError::Glue(GlueError::NullPointerReceived).message(),
        "Null pointer received"
    );
}

#[test]
fn strerror_settles_the_boundary_text() {
    let e = LibError::NotBtrfs;
    assert_eq!(
        e.strerror(None),
        Err(BtrfsUtilError::Glue(GlueError::NullPointerReceived))
    );
    assert_eq!(
        e.strerror(Some(b"Operation not permitted\0".to_vec())),
        Ok(b"Operation not permitted".to_vec())
    );
    // Text without a terminator cannot have come from the boundary.
    assert_eq!(
        e.strerror(Some(b"torn".to_vec())),
        Err(BtrfsUtilError::Glue(GlueError::BadPath))
    );
}
