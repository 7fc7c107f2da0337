//! Tests for path marshaling and the mount-root reconciliation helper.

use btrfsutil::common::bytes_eq;
use btrfsutil::common::cstr_to_path;
use btrfsutil::common::path_to_cstr;
use btrfsutil::error::BtrfsUtilError;
use btrfsutil::error::GlueError;
use btrfsutil::subvolume::subvol::strip_rel_suffix;

#[test]
fn path_to_cstr_appends_terminator() {
    assert_eq!(path_to_cstr(&b"/mnt/t".to_vec()), Ok(b"/mnt/t\0".to_vec()));
    assert_eq!(path_to_cstr(&b"".to_vec()), Ok(b"\0".to_vec()));
}

#[test]
fn path_to_cstr_rejects_embedded_terminator() {
    assert_eq!(
        path_to_cstr(&b"/mnt\0/t".to_vec()),
        Err(BtrfsUtilError::Glue(GlueError::NulError))
    );
}

#[test]
fn cstr_to_path_strips_from_first_terminator() {
    assert_eq!(cstr_to_path(&b"/mnt/t\0".to_vec()), Ok(b"/mnt/t".to_vec()));
    assert_eq!(cstr_to_path(&b"a\0b\0".to_vec()), Ok(b"a".to_vec()));
    assert_eq!(cstr_to_path(&b"\0".to_vec()), Ok(b"".to_vec()));
}

#[test]
fn cstr_to_path_needs_a_terminator() {
    assert_eq!(
        cstr_to_path(&b"/mnt/t".to_vec()),
        Err(BtrfsUtilError::Glue(GlueError::BadPath))
    );
}

#[test]
fn marshaling_round_trip() {
    let p = b"/mnt/t/subvol1".to_vec();
    let c = path_to_cstr(&p).unwrap();
    assert_eq!(cstr_to_path(&c), Ok(p));
}

#[test]
fn bytes_eq_compares_contents() {
    assert!(bytes_eq(&b"abc".to_vec(), &b"abc".to_vec()));
    assert!(!bytes_eq(&b"abc".to_vec(), &b"abd".to_vec()));
    assert!(!bytes_eq(&b"abc".to_vec(), &b"ab".to_vec()));
    assert!(bytes_eq(&b"".to_vec(), &b"".to_vec()));
}

#[test]
fn strip_rel_suffix_recovers_the_mount_point() {
    assert_eq!(
        strip_rel_suffix(&b"/mnt/t/subvol1".to_vec(), &b"subvol1".to_vec()),
        Some(b"/mnt/t".to_vec())
    );
    assert_eq!(
        strip_rel_suffix(&b"/mnt/t/a/b".to_vec(), &b"a/b".to_vec()),
        Some(b"/mnt/t".to_vec())
    );
}

#[test]
fn strip_rel_suffix_demands_a_separated_suffix() {
    // The supplied path does not end with the relative path.
    assert_eq!(
        strip_rel_suffix(&b"/mnt/t/subvol1".to_vec(), &b"subvol2".to_vec()),
        None
    );
    // The suffix matches but no separator stands before it.
    assert_eq!(
        strip_rel_suffix(&b"/mnt/tsubvol1".to_vec(), &b"subvol1".to_vec()),
        None
    );
    // The supplied path is too short.
    assert_eq!(strip_rel_suffix(&b"a".to_vec(), &b"a/b".to_vec()), None);
}
