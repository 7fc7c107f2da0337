//! The subvolume entity: identity, lookup, lifecycle and property queries.
//!
//! A subvolume's identity is an id and a path; it is immutable once
//! constructed. Every operation here settles the outcome of one boundary
//! round trip: it takes, besides the operation's own inputs, the status code
//! and out-parameters the boundary reported, and decides the typed result.
//! The foreign calls themselves are made outside the library and their plain
//! outputs handed in.

use vstd::prelude::*;

use crate::common;
use crate::error::check_code_spec;
use crate::error::code_err;
use crate::error::BtrfsUtilError;
use crate::error::GlueError;
use crate::qgroup::QgroupInherit;
use crate::subvolume::subvol_path::SubvolumePath;

verus! {

/// Subvolume delete flags.
#[derive(Clone, Copy, Debug, PartialEq, Eq, Structural)]
pub struct DeleteFlags {
    /// Also delete subvolumes beneath the given one.
    pub recursive: bool,
}

impl DeleteFlags {
    /// The bit encoding the boundary expects for these flags: recursive is
    /// the lowest bit.
    pub open spec fn bits_spec(self) -> i32 {
        if self.recursive {
            1
        } else {
            0
        }
    }

    /// The bit encoding the boundary expects for these flags.
    pub fn bits(&self) -> (r: i32)
        ensures
            r == self.bits_spec(),
    {
        if self.recursive {
            1
        } else {
            0
        }
    }
}

/// Subvolume snapshot flags.
#[derive(Clone, Copy, Debug, PartialEq, Eq, Structural)]
pub struct SnapshotFlags {
    /// Also snapshot subvolumes beneath the given one.
    pub recursive: bool,
    /// Create a read-only snapshot.
    pub read_only: bool,
}

impl SnapshotFlags {
    /// The bit encoding the boundary expects for these flags: recursive is
    /// the lowest bit, read-only the next.
    pub open spec fn bits_spec(self) -> i32 {
        (if self.recursive {
            1int
        } else {
            0int
        } + if self.read_only {
            2int
        } else {
            0int
        }) as i32
    }

    /// The bit encoding the boundary expects for these flags.
    pub fn bits(&self) -> (r: i32)
        ensures
            r == self.bits_spec(),
    {
        let low: i32 = if self.recursive {
            1
        } else {
            0
        };
        let high: i32 = if self.read_only {
            2
        } else {
            0
        };
        low + high
    }
}

/// Distinct snapshot flags encode to distinct bits: the encoding loses
/// nothing, so what is asked of the boundary determines the flags asked with.
pub proof fn lemma_snapshot_flags_bits_injective(a: SnapshotFlags, b: SnapshotFlags)
    requires
        a.bits_spec() == b.bits_spec(),
    ensures
        a == b,
{
}

/// The reserved id of the filesystem's root tree: the lowest legal subvolume
/// id. Any id below it is a data error.
pub const BTRFS_FS_TREE_OBJECTID: u64 = 5;

/// The mathematical content of a [`Subvolume`]: its id, its path bytes, and
/// whether the path was confirmed against the boundary.
pub ghost struct SubvolumeView {
    /// The subvolume id.
    pub id: u64,
    /// The raw path bytes.
    pub path: Seq<u8>,
    /// Whether the path was verified against the boundary.
    pub confirmed: bool,
}

/// A Btrfs subvolume: an id, unique per filesystem, and the path it was
/// reached by. Immutable once constructed; operations that "modify" a
/// subvolume mutate filesystem state or return a new value, never this
/// identity.
#[derive(Debug)]
pub struct Subvolume {
    id: u64,
    path: SubvolumePath,
}

impl Clone for Subvolume {
    /// Cloning keeps the identity.
    fn clone(&self) -> (r: Self)
        ensures
            r@ == self@,
    {
        proof {
            use_type_invariant(self);
        }
        Subvolume { id: self.id, path: self.path.clone() }
    }
}

impl PartialEq for Subvolume {
    /// Two subvolume values are equal when their ids are: the id is unique
    /// per filesystem, while the same subvolume can be reached by different
    /// paths.
    fn eq(&self, other: &Self) -> (r: bool) {
        self.id == other.id
    }
}

impl vstd::std_specs::cmp::PartialEqSpecImpl for Subvolume {
    open spec fn obeys_eq_spec() -> bool {
        true
    }

    open spec fn eq_spec(&self, other: &Self) -> bool {
        self@.id == other@.id
    }
}

impl View for Subvolume {
    type V = SubvolumeView;

    closed spec fn view(&self) -> SubvolumeView {
        SubvolumeView {
            id: self.id,
            path: self.path.bytes_spec(),
            confirmed: self.path.is_confirmed_spec(),
        }
    }
}

impl Subvolume {
    /// Every subvolume value carries a legal id: at least the root tree's
    /// reserved id.
    #[verifier::type_invariant]
    spec fn type_inv(self) -> bool {
        self.id >= BTRFS_FS_TREE_OBJECTID
    }

    /// Construct a subvolume value whose id was already validated.
    fn make(id: u64, path: SubvolumePath) -> (sv: Subvolume)
        requires
            id >= BTRFS_FS_TREE_OBJECTID,
        ensures
            sv@ == (SubvolumeView {
                id,
                path: path.bytes_spec(),
                confirmed: path.is_confirmed_spec(),
            }),
    {
        Subvolume { id, path }
    }

    /// Create a subvolume value from an id and a path.
    ///
    /// An id below the minimum legal subvolume id is rejected as a data
    /// error; no subvolume value with such an id can ever exist.
    pub fn new(id: u64, path: SubvolumePath) -> (r: Result<Subvolume, BtrfsUtilError>)
        ensures
            id < BTRFS_FS_TREE_OBJECTID ==> r == Err::<Subvolume, BtrfsUtilError>(
                BtrfsUtilError::Glue(GlueError::BadId(id)),
            ),
            id >= BTRFS_FS_TREE_OBJECTID ==> (r matches Ok(sv) && sv@ == (SubvolumeView {
                id,
                path: path.bytes_spec(),
                confirmed: path.is_confirmed_spec(),
            })),
    {
        if id < BTRFS_FS_TREE_OBJECTID {
            return Err(BtrfsUtilError::Glue(GlueError::BadId(id)));
        }
        Ok(Subvolume { id, path })
    }

    /// The id of this subvolume. It is never below the minimum legal id.
    pub fn id(&self) -> (r: u64)
        ensures
            r == self@.id,
            r >= BTRFS_FS_TREE_OBJECTID,
    {
        proof {
            use_type_invariant(self);
        }
        self.id
    }

    /// The raw bytes of the path of this subvolume.
    pub fn path(&self) -> (r: &Vec<u8>)
        ensures
            r@ == self@.path,
    {
        self.path.bytes()
    }

    /// The path of this subvolume, with its trust level.
    pub fn path_ref(&self) -> (r: &SubvolumePath)
        ensures
            r.bytes_spec() == self@.path,
            r.is_confirmed_spec() == self@.confirmed,
    {
        &self.path
    }

    /// Settle a lookup of the subvolume rooted at `path`.
    ///
    /// `is_sub_code` is the status the boundary reported when asked whether
    /// `path` is a subvolume root (a plain directory fails here with "not a
    /// subvolume"); `id` and `id_code` are the result of resolving the id,
    /// asked only on success of the first call. A resolved id below the
    /// minimum legal id is rejected as a data error. On success the returned
    /// subvolume carries `path` itself, confirmed.
    pub fn get(path: Vec<u8>, is_sub_code: u32, id_code: u32, id: u64) -> (r: Result<
        Subvolume,
        BtrfsUtilError,
    >)
        ensures
            common::has_nul(path@) ==> r == Err::<Subvolume, BtrfsUtilError>(BtrfsUtilError::Glue(
                GlueError::NulError,
            )),
            !common::has_nul(path@) && is_sub_code != 0 ==> r == Err::<Subvolume, BtrfsUtilError>(
                code_err(is_sub_code),
            ),
            !common::has_nul(path@) && is_sub_code == 0 && id_code != 0 ==> r == Err::<
                Subvolume,
                BtrfsUtilError,
            >(code_err(id_code)),
            !common::has_nul(path@) && is_sub_code == 0 && id_code == 0 && id
                < BTRFS_FS_TREE_OBJECTID ==> r == Err::<Subvolume, BtrfsUtilError>(
                BtrfsUtilError::Glue(GlueError::BadId(id)),
            ),
            !common::has_nul(path@) && is_sub_code == 0 && id_code == 0 && id
                >= BTRFS_FS_TREE_OBJECTID ==> (r matches Ok(sv) && sv@ == (SubvolumeView {
                id,
                path: path@,
                confirmed: true,
            })),
    {
        if let Err(e) = common::path_to_cstr(&path) {
            return Err(e);
        }
        if let Err(e) = crate::error::check_code(is_sub_code) {
            return Err(e);
        }
        if let Err(e) = crate::error::check_code(id_code) {
            return Err(e);
        }
        Subvolume::new(id, SubvolumePath::Confirmed(path))
    }

    /// Settle the question whether `path` is a subvolume root.
    ///
    /// `code` is the status the boundary reported for the question. Success
    /// means yes. "Not a subvolume" (a plain directory), "not a Btrfs
    /// filesystem" and "could not open" (a nonexistent path) all mean no —
    /// they are normal answers, not errors. Any other nonzero code is a
    /// genuine failure.
    pub fn is_subvolume(path: &Vec<u8>, code: u32) -> (r: Result<bool, BtrfsUtilError>)
        ensures
            common::has_nul(path@) ==> r == Err::<bool, BtrfsUtilError>(BtrfsUtilError::Glue(
                GlueError::NulError,
            )),
            !common::has_nul(path@) && code == 0 ==> r == Ok::<bool, BtrfsUtilError>(true),
            !common::has_nul(path@) && (code == 4 || code == 5 || code == 7) ==> r == Ok::<
                bool,
                BtrfsUtilError,
            >(false),
            !common::has_nul(path@) && code != 0 && code != 4 && code != 5 && code != 7 ==> r
                == Err::<bool, BtrfsUtilError>(code_err(code)),
    {
        if let Err(e) = common::path_to_cstr(path) {
            return Err(e);
        }
        if code == 0 {
            Ok(true)
        } else if code == 4 || code == 5 || code == 7 {
            Ok(false)
        } else {
            match crate::error::check_code(code) {
                Ok(_) => Ok(true),
                Err(e) => Err(e),
            }
        }
    }

    /// Settle the privileged fallback lookup for `path`, used after a plain
    /// lookup failed because `path` is not itself a subvolume root.
    ///
    /// `id_code` and `id` are the boundary's answer to resolving the id of
    /// `path`; `path_code` and `cpath` are its answer to resolving the
    /// subvolume's own path for that id, `cpath` being the raw
    /// null-terminated bytes, or absent when a null reference came back where
    /// data was expected. On success the returned subvolume carries the
    /// boundary-resolved path, confirmed.
    pub fn get_anyway(path: &Vec<u8>, id_code: u32, id: u64, path_code: u32, cpath: Option<
        Vec<u8>,
    >) -> (r: Result<Subvolume, BtrfsUtilError>)
        ensures
            common::has_nul(path@) ==> r == Err::<Subvolume, BtrfsUtilError>(BtrfsUtilError::Glue(
                GlueError::NulError,
            )),
            !common::has_nul(path@) && id_code != 0 ==> r == Err::<Subvolume, BtrfsUtilError>(
                code_err(id_code),
            ),
            !common::has_nul(path@) && id_code == 0 && path_code != 0 ==> r == Err::<
                Subvolume,
                BtrfsUtilError,
            >(code_err(path_code)),
            !common::has_nul(path@) && id_code == 0 && path_code == 0 && cpath is None ==> r
                == Err::<Subvolume, BtrfsUtilError>(BtrfsUtilError::Glue(
                GlueError::NullPointerReceived,
            )),
            (!common::has_nul(path@) && id_code == 0 && path_code == 0) ==> (cpath matches Some(c)
                && !common::has_nul(c@) ==> r == Err::<Subvolume, BtrfsUtilError>(
                BtrfsUtilError::Glue(GlueError::BadPath),
            )),
            (!common::has_nul(path@) && id_code == 0 && path_code == 0 && id
                < BTRFS_FS_TREE_OBJECTID) ==> (cpath matches Some(c) && common::has_nul(c@) ==> r
                == Err::<Subvolume, BtrfsUtilError>(BtrfsUtilError::Glue(GlueError::BadId(id)))),
            (!common::has_nul(path@) && id_code == 0 && path_code == 0 && id
                >= BTRFS_FS_TREE_OBJECTID) ==> (cpath matches Some(c) && common::has_nul(c@) ==> (
            r matches Ok(sv) && {
                &&& sv@.id == id
                &&& common::cstr_prefix_ok(cpath->Some_0@, sv@.path)
                &&& sv@.confirmed
            })),
    {
        if let Err(e) = common::path_to_cstr(path) {
            return Err(e);
        }
        if let Err(e) = crate::error::check_code(id_code) {
            return Err(e);
        }
        if let Err(e) = crate::error::check_code(path_code) {
            return Err(e);
        }
        match cpath {
            None => Err(BtrfsUtilError::Glue(GlueError::NullPointerReceived)),
            Some(c) => {
                let decoded = common::cstr_to_path(&c)?;
                Subvolume::new(id, SubvolumePath::Confirmed(decoded))
            },
        }
    }

    /// Settle a lookup of a subvolume by its id alone.
    ///
    /// An id below the minimum legal id is rejected before anything else.
    /// `path_code` and `cpath` are the boundary's answer to resolving the
    /// subvolume's path for that id, `cpath` being the raw null-terminated
    /// bytes, or absent when a null reference came back where data was
    /// expected. On success the returned subvolume carries the
    /// boundary-resolved path, confirmed.
    pub fn from_id_lookup(id: u64, path_code: u32, cpath: Option<Vec<u8>>) -> (r: Result<
        Subvolume,
        BtrfsUtilError,
    >)
        ensures
            id < BTRFS_FS_TREE_OBJECTID ==> r == Err::<Subvolume, BtrfsUtilError>(
                BtrfsUtilError::Glue(GlueError::BadId(id)),
            ),
            id >= BTRFS_FS_TREE_OBJECTID && path_code != 0 ==> r == Err::<
                Subvolume,
                BtrfsUtilError,
            >(code_err(path_code)),
            id >= BTRFS_FS_TREE_OBJECTID && path_code == 0 && cpath is None ==> r == Err::<
                Subvolume,
                BtrfsUtilError,
            >(BtrfsUtilError::Glue(GlueError::NullPointerReceived)),
            (id >= BTRFS_FS_TREE_OBJECTID && path_code == 0) ==> (cpath matches Some(c)
                && !common::has_nul(c@) ==> r == Err::<Subvolume, BtrfsUtilError>(
                BtrfsUtilError::Glue(GlueError::BadPath),
            )),
            (id >= BTRFS_FS_TREE_OBJECTID && path_code == 0) ==> (cpath matches Some(c)
                && common::has_nul(c@) ==> (r matches Ok(sv) && {
                &&& sv@.id == id
                &&& common::cstr_prefix_ok(cpath->Some_0@, sv@.path)
                &&& sv@.confirmed
            })),
    {
        if id < BTRFS_FS_TREE_OBJECTID {
            return Err(BtrfsUtilError::Glue(GlueError::BadId(id)));
        }
        if let Err(e) = crate::error::check_code(path_code) {
            return Err(e);
        }
        match cpath {
            None => Err(BtrfsUtilError::Glue(GlueError::NullPointerReceived)),
            Some(c) => {
                let decoded = common::cstr_to_path(&c)?;
                Subvolume::new(id, SubvolumePath::Confirmed(decoded))
            },
        }
    }

    /// Settle the creation of a new subvolume at `path`, optionally
    /// inheriting from the quota groups in `qgroup`.
    ///
    /// `create_code` is the status the boundary reported for the creation
    /// call (the specifier only parameterizes that call; the outcome decision
    /// does not depend on it). On success the new subvolume is re-resolved by
    /// a fresh lookup rather than trusted from the creation call:
    /// `is_sub_code`, `id_code` and `id` are that lookup's answers, as in
    /// [`Subvolume::get`].
    pub fn create(
        path: Vec<u8>,
        qgroup: Option<&QgroupInherit>,
        create_code: u32,
        is_sub_code: u32,
        id_code: u32,
        id: u64,
    ) -> (r: Result<Subvolume, BtrfsUtilError>)
        ensures
            common::has_nul(path@) ==> r == Err::<Subvolume, BtrfsUtilError>(BtrfsUtilError::Glue(
                GlueError::NulError,
            )),
            !common::has_nul(path@) && create_code != 0 ==> r == Err::<Subvolume, BtrfsUtilError>(
                code_err(create_code),
            ),
            !common::has_nul(path@) && create_code == 0 && is_sub_code != 0 ==> r == Err::<
                Subvolume,
                BtrfsUtilError,
            >(code_err(is_sub_code)),
            !common::has_nul(path@) && create_code == 0 && is_sub_code == 0 && id_code != 0 ==> r
                == Err::<Subvolume, BtrfsUtilError>(code_err(id_code)),
            (!common::has_nul(path@) && create_code == 0 && is_sub_code == 0 && id_code == 0 && id
                < BTRFS_FS_TREE_OBJECTID) ==> r == Err::<Subvolume, BtrfsUtilError>(
                BtrfsUtilError::Glue(GlueError::BadId(id)),
            ),
            (!common::has_nul(path@) && create_code == 0 && is_sub_code == 0 && id_code == 0 && id
                >= BTRFS_FS_TREE_OBJECTID) ==> (r matches Ok(sv) && sv@ == (SubvolumeView {
                id,
                path: path@,
                confirmed: true,
            })),
    {
        let _ = qgroup;
        if let Err(e) = common::path_to_cstr(&path) {
            return Err(e);
        }
        if let Err(e) = crate::error::check_code(create_code) {
            return Err(e);
        }
        Subvolume::get(path, is_sub_code, id_code, id)
    }

    /// Settle the deletion of this subvolume, consuming it: no further
    /// operation is possible against a deleted subvolume's identity.
    ///
    /// `code` is the status the boundary reported for the deletion call (the
    /// flags only parameterize that call; the outcome decision does not
    /// depend on them).
    pub fn delete(self, flags: Option<DeleteFlags>, code: u32) -> (r: Result<(), BtrfsUtilError>)
        ensures
            common::has_nul(self@.path) ==> r == Err::<(), BtrfsUtilError>(BtrfsUtilError::Glue(
                GlueError::NulError,
            )),
            !common::has_nul(self@.path) ==> r == check_code_spec(code),
    {
        let _ = flags;
        if let Err(e) = common::path_to_cstr(self.path.bytes()) {
            return Err(e);
        }
        crate::error::check_code(code)
    }

    /// Settle the query for subvolumes under `fs_root` which have been
    /// deleted but not yet cleaned up.
    ///
    /// `code` is the status the boundary reported; `count` the number of ids
    /// it counted; `ids` the id list it filled, or absent when a null
    /// reference came back. A zero count is a normal empty list, not an
    /// error. Each listed id below the minimum legal id is rejected as a data
    /// error; the resulting subvolumes carry `fs_root` as their (unconfirmed)
    /// path, as only their ids are known.
    #[verifier::rlimit(50)]
    pub fn deleted(fs_root: &Vec<u8>, code: u32, count: u64, ids: Option<Vec<u64>>) -> (r: Result<
        Vec<Subvolume>,
        BtrfsUtilError,
    >)
        ensures
            common::has_nul(fs_root@) ==> r == Err::<Vec<Subvolume>, BtrfsUtilError>(
                BtrfsUtilError::Glue(GlueError::NulError),
            ),
            !common::has_nul(fs_root@) && code != 0 ==> r == Err::<Vec<Subvolume>, BtrfsUtilError>(
                code_err(code),
            ),
            !common::has_nul(fs_root@) && code == 0 && count == 0 ==> (r matches Ok(l) && l@.len()
                == 0),
            !common::has_nul(fs_root@) && code == 0 && count != 0 && ids is None ==> r == Err::<
                Vec<Subvolume>,
                BtrfsUtilError,
            >(BtrfsUtilError::Glue(GlueError::NullPointerReceived)),
            (!common::has_nul(fs_root@) && code == 0 && count != 0) ==> (ids matches Some(v) ==> {
                if forall|i: int| 0 <= i < v@.len() ==> v@[i] >= BTRFS_FS_TREE_OBJECTID {
                    r matches Ok(l) && l@.len() == v@.len() && (forall|i: int|
                        0 <= i < l@.len() ==> {
                            &&& l@[i]@.id == v@[i]
                            &&& l@[i]@.path == fs_root@
                            &&& !l@[i]@.confirmed
                        })
                } else {
                    r matches Err(e) && exists|i: int|
                        {
                            &&& 0 <= i < v@.len()
                            &&& v@[i] < BTRFS_FS_TREE_OBJECTID
                            &&& forall|j: int| 0 <= j < i ==> v@[j] >= BTRFS_FS_TREE_OBJECTID
                            &&& e == BtrfsUtilError::Glue(GlueError::BadId(v@[i]))
                        }
                }
            }),
    {
        if let Err(e) = common::path_to_cstr(fs_root) {
            return Err(e);
        }
        if let Err(e) = crate::error::check_code(code) {
            return Err(e);
        }
        if count == 0 {
            let empty: Vec<Subvolume> = Vec::new();
            return Ok(empty);
        }
        match ids {
            None => Err(BtrfsUtilError::Glue(GlueError::NullPointerReceived)),
            Some(v) => {
                let n = v.len();
                let mut out: Vec<Subvolume> = Vec::new();
                let mut i: usize = 0;
                while i < n
                    invariant
                        n == v@.len(),
                        0 <= i <= n,
                        out@.len() == i,
                        !common::has_nul(fs_root@),
                        code == 0,
                        count != 0,
                        ids == Some(v),
                        forall|j: int| 0 <= j < i ==> v@[j] >= BTRFS_FS_TREE_OBJECTID,
                        forall|j: int|
                            #![trigger out@[j]]
                            0 <= j < i ==> {
                                &&& out@[j]@.id == v@[j]
                                &&& out@[j]@.path == fs_root@
                                &&& !out@[j]@.confirmed
                            },
                    decreases n - i,
                {
                    let id = v[i];
                    if id < BTRFS_FS_TREE_OBJECTID {
                        proof {
                            assert(exists|k: int|
                                {
                                    &&& 0 <= k < v@.len()
                                    &&& v@[k] < BTRFS_FS_TREE_OBJECTID
                                    &&& (forall|j: int|
                                        0 <= j < k ==> v@[j] >= BTRFS_FS_TREE_OBJECTID)
                                    &&& BtrfsUtilError::Glue(GlueError::BadId(id))
                                        == BtrfsUtilError::Glue(GlueError::BadId(v@[k]))
                                }) by {
                                assert({
                                    &&& 0 <= i as int
                                    &&& (i as int) < v@.len()
                                    &&& v@[i as int] < BTRFS_FS_TREE_OBJECTID
                                    &&& (forall|j: int|
                                        0 <= j < i as int ==> v@[j] >= BTRFS_FS_TREE_OBJECTID)
                                    &&& BtrfsUtilError::Glue(GlueError::BadId(id))
                                        == BtrfsUtilError::Glue(GlueError::BadId(v@[i as int]))
                                });
                            }
                        }
                        return Err(BtrfsUtilError::Glue(GlueError::BadId(id)));
                    }
                    let sv = Subvolume::make(id, SubvolumePath::NotConfirmed(fs_root.clone()));
                    out.push(sv);
                    i += 1;
                }
                proof {
                    assert(forall|j: int| 0 <= j < v@.len() ==> v@[j] >= BTRFS_FS_TREE_OBJECTID);
                    assert(out@.len() == v@.len());
                    assert forall|j: int| 0 <= j < out@.len() implies {
                        &&& out@[j]@.id == v@[j]
                        &&& out@[j]@.path == fs_root@
                        &&& !out@[j]@.confirmed
                    } by {
                        assert(out@[j]@.id == v@[j]);
                    }
                }
                Ok(out)
            },
        }
    }

    /// Settle the privileged query for the subvolume a mount of `path` will
    /// expose by default.
    ///
    /// `code` and `id` are the boundary's answer. The returned subvolume
    /// carries `path` as its (unconfirmed) path, as only the id is known.
    pub fn get_default(path: &Vec<u8>, code: u32, id: u64) -> (r: Result<
        Subvolume,
        BtrfsUtilError,
    >)
        ensures
            common::has_nul(path@) ==> r == Err::<Subvolume, BtrfsUtilError>(BtrfsUtilError::Glue(
                GlueError::NulError,
            )),
            !common::has_nul(path@) && code != 0 ==> r == Err::<Subvolume, BtrfsUtilError>(
                code_err(code),
            ),
            !common::has_nul(path@) && code == 0 && id < BTRFS_FS_TREE_OBJECTID ==> r == Err::<
                Subvolume,
                BtrfsUtilError,
            >(BtrfsUtilError::Glue(GlueError::BadId(id))),
            !common::has_nul(path@) && code == 0 && id >= BTRFS_FS_TREE_OBJECTID ==> (r matches Ok(
                sv,
            ) && sv@ == (SubvolumeView { id, path: path@, confirmed: false })),
    {
        if let Err(e) = common::path_to_cstr(path) {
            return Err(e);
        }
        if let Err(e) = crate::error::check_code(code) {
            return Err(e);
        }
        Subvolume::new(id, SubvolumePath::NotConfirmed(path.clone()))
    }

    /// Settle setting this subvolume as the default subvolume of its
    /// filesystem. `code` is the status the boundary reported.
    pub fn set_default(&self, code: u32) -> (r: Result<(), BtrfsUtilError>)
        ensures
            common::has_nul(self@.path) ==> r == Err::<(), BtrfsUtilError>(BtrfsUtilError::Glue(
                GlueError::NulError,
            )),
            !common::has_nul(self@.path) ==> r == check_code_spec(code),
    {
        if let Err(e) = common::path_to_cstr(self.path.bytes()) {
            return Err(e);
        }
        crate::error::check_code(code)
    }

    /// Settle the query whether this subvolume is read-only.
    ///
    /// `code` is the status the boundary reported and `ro` the flag it
    /// filled; the flag is an answer only on success.
    pub fn is_ro(&self, code: u32, ro: bool) -> (r: Result<bool, BtrfsUtilError>)
        ensures
            common::has_nul(self@.path) ==> r == Err::<bool, BtrfsUtilError>(BtrfsUtilError::Glue(
                GlueError::NulError,
            )),
            !common::has_nul(self@.path) && code != 0 ==> r == Err::<bool, BtrfsUtilError>(
                code_err(code),
            ),
            !common::has_nul(self@.path) && code == 0 ==> r == Ok::<bool, BtrfsUtilError>(ro),
    {
        if let Err(e) = common::path_to_cstr(self.path.bytes()) {
            return Err(e);
        }
        if let Err(e) = crate::error::check_code(code) {
            return Err(e);
        }
        Ok(ro)
    }

    /// Settle setting whether this subvolume is read-only. `code` is the
    /// status the boundary reported for the call asking for `ro`.
    pub fn set_ro(&self, ro: bool, code: u32) -> (r: Result<(), BtrfsUtilError>)
        ensures
            common::has_nul(self@.path) ==> r == Err::<(), BtrfsUtilError>(BtrfsUtilError::Glue(
                GlueError::NulError,
            )),
            !common::has_nul(self@.path) ==> r == check_code_spec(code),
    {
        let _ = ro;
        if let Err(e) = common::path_to_cstr(self.path.bytes()) {
            return Err(e);
        }
        crate::error::check_code(code)
    }

    /// Settle the creation of a snapshot of this subvolume at `path`: a new
    /// subvolume that is a point-in-time copy of this one, optionally
    /// read-only or recursive per `flags`, optionally inheriting from the
    /// quota groups in `qgroup`.
    ///
    /// `snap_code` is the status the boundary reported for the snapshot call
    /// (the flags and the specifier only parameterize that call; the outcome
    /// decision does not depend on them). On success the destination is
    /// re-resolved by a fresh lookup: `is_sub_code`, `id_code` and `id` are
    /// that lookup's answers, as in [`Subvolume::get`].
    pub fn snapshot(
        &self,
        path: Vec<u8>,
        flags: Option<SnapshotFlags>,
        qgroup: Option<&QgroupInherit>,
        snap_code: u32,
        is_sub_code: u32,
        id_code: u32,
        id: u64,
    ) -> (r: Result<Subvolume, BtrfsUtilError>)
        ensures
            common::has_nul(self@.path) ==> r == Err::<Subvolume, BtrfsUtilError>(
                BtrfsUtilError::Glue(GlueError::NulError),
            ),
            !common::has_nul(self@.path) && common::has_nul(path@) ==> r == Err::<
                Subvolume,
                BtrfsUtilError,
            >(BtrfsUtilError::Glue(GlueError::NulError)),
            (!common::has_nul(self@.path) && !common::has_nul(path@) && snap_code != 0) ==> r
                == Err::<Subvolume, BtrfsUtilError>(code_err(snap_code)),
            (!common::has_nul(self@.path) && !common::has_nul(path@) && snap_code == 0
                && is_sub_code != 0) ==> r == Err::<Subvolume, BtrfsUtilError>(code_err(
                is_sub_code,
            )),
            (!common::has_nul(self@.path) && !common::has_nul(path@) && snap_code == 0
                && is_sub_code == 0 && id_code != 0) ==> r == Err::<Subvolume, BtrfsUtilError>(
                code_err(id_code),
            ),
            (!common::has_nul(self@.path) && !common::has_nul(path@) && snap_code == 0
                && is_sub_code == 0 && id_code == 0 && id < BTRFS_FS_TREE_OBJECTID) ==> r == Err::<
                Subvolume,
                BtrfsUtilError,
            >(BtrfsUtilError::Glue(GlueError::BadId(id))),
            (!common::has_nul(self@.path) && !common::has_nul(path@) && snap_code == 0
                && is_sub_code == 0 && id_code == 0 && id >= BTRFS_FS_TREE_OBJECTID) ==> (
            r matches Ok(sv) && sv@ == (SubvolumeView { id, path: path@, confirmed: true })),
    {
        let _ = flags;
        let _ = qgroup;
        if let Err(e) = common::path_to_cstr(self.path.bytes()) {
            return Err(e);
        }
        if let Err(e) = common::path_to_cstr(&path) {
            return Err(e);
        }
        if let Err(e) = crate::error::check_code(snap_code) {
            return Err(e);
        }
        Subvolume::get(path, is_sub_code, id_code, id)
    }
}

/// Reconcile a caller-supplied path with the boundary-resolved path of a
/// subvolume relative to the filesystem root: when `supplied` ends with
/// `rel` as a path suffix (a separator right before it), the prefix before
/// that separator is the filesystem's true mount point.
pub fn strip_rel_suffix(supplied: &Vec<u8>, rel: &Vec<u8>) -> (r: Option<Vec<u8>>)
    ensures
        ({
            let sl = supplied@.len() as int;
            let rl = rel@.len() as int;
            if sl > rl && supplied@.subrange(sl - rl, sl) == rel@ && supplied@[sl - rl - 1] == 47u8 {
                r matches Some(p) && p@ == supplied@.take(sl - rl - 1)
            } else {
                r is None
            }
        }),
{
    let sl = supplied.len();
    let rl = rel.len();
    if sl <= rl {
        proof {
            if supplied@.subrange(sl as int - rl as int, sl as int) == rel@ {
                assert(supplied@.subrange(sl as int - rl as int, sl as int).len() == rel@.len());
            }
        }
        return None;
    }
    let mut i: usize = 0;
    while i < rl
        invariant
            sl == supplied@.len(),
            rl == rel@.len(),
            sl > rl,
            0 <= i <= rl,
            forall|j: int| 0 <= j < i ==> supplied@[sl - rl + j] == rel@[j],
        decreases rl - i,
    {
        if supplied[sl - rl + i] != rel[i] {
            proof {
                if supplied@.subrange(sl as int - rl as int, sl as int) == rel@ {
                    assert(supplied@.subrange(sl as int - rl as int, sl as int)[i as int]
                        == rel@[i as int]);
                }
            }
            return None;
        }
        i += 1;
    }
    proof {
        assert(supplied@.subrange(sl as int - rl as int, sl as int) =~= rel@);
    }
    if supplied[sl - rl - 1] != 47 {
        return None;
    }
    let mut out: Vec<u8> = Vec::new();
    let end = sl - rl - 1;
    let mut i: usize = 0;
    while i < end
        invariant
            sl == supplied@.len(),
            end <= sl,
            0 <= i <= end,
            out@.len() == i,
            forall|j: int| 0 <= j < i ==> out@[j] == supplied@[j],
        decreases end - i,
    {
        out.push(supplied[i]);
        i += 1;
    }
    proof {
        assert(out@ =~= supplied@.take(sl as int - rl as int - 1));
    }
    Some(out)
}

} // verus!
