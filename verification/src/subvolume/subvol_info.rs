//! Subvolume metadata snapshots.
//!
//! The boundary answers a metadata query with a fixed-layout record of plain
//! numbers, three 16-byte UUID fields and four raw (seconds, nanoseconds)
//! timestamp pairs. The decode applies the store's conventions field by
//! field: a zero id or transaction id stands for "not applicable", an
//! all-zero UUID for "not a snapshot" / "not received", and a timestamp of
//! zero seconds and zero nanoseconds for "never". These sentinels are
//! inherited from the on-disk format; a legitimately zero value cannot be
//! told apart from "absent", so the convention is applied exactly as
//! documented rather than guessed stricter.

use vstd::prelude::*;

use crate::common;
use crate::error::code_err;
use crate::error::BtrfsUtilError;
use crate::error::GlueError;
use crate::subvolume::subvol::Subvolume;
use crate::subvolume::subvol::BTRFS_FS_TREE_OBJECTID;

verus! {

/// True when every byte of the sequence is zero.
pub open spec fn all_zero(s: Seq<u8>) -> bool {
    forall|i: int| 0 <= i < s.len() ==> s[i] == 0u8
}

/// A raw timestamp as the boundary reports it: seconds and nanoseconds since
/// the epoch, both as signed machine words.
#[derive(Clone, Copy, Debug, PartialEq, Eq, Structural)]
pub struct RawTimespec {
    /// Seconds since the epoch.
    pub sec: i64,
    /// Nanoseconds within the second.
    pub nsec: i64,
}

/// A decoded timestamp: seconds since the epoch and nanoseconds within the
/// second, validated to be representable as a calendar time.
#[derive(Clone, Copy, Debug, PartialEq, Eq, Structural)]
pub struct Timespec {
    /// Seconds since the epoch.
    pub sec: i64,
    /// Nanoseconds within the second.
    pub nsec: u32,
}

/// The raw timestamp is the store's sentinel for "never": zero seconds and
/// zero nanoseconds.
pub open spec fn ts_sentinel(t: RawTimespec) -> bool {
    t.sec == 0 && t.nsec == 0
}

/// The nanosecond part fits the decoded representation.
pub open spec fn ts_in_range(t: RawTimespec) -> bool {
    0 <= t.nsec <= u32::MAX
}

/// The raw timestamp can be decoded: its nanosecond part fits and the pair
/// is representable as a calendar time.
pub open spec fn ts_ok(t: RawTimespec) -> bool {
    ts_in_range(t) && calendar_ok(t.sec, t.nsec as u32)
}

/// Whether a (seconds, nanoseconds) pair since the epoch is representable as
/// a calendar time. The exact range is the calendar library's; it depends on
/// the pair alone.
pub uninterp spec fn calendar_ok(sec: i64, nsec: u32) -> bool;

/// Relies on chrono's `DateTime::<Utc>::from_timestamp`: it returns `Some`
/// exactly when the seconds are in the representable range and the
/// nanosecond part is valid, and it is a pure function of the pair.
#[verifier::external_body]
fn timestamp_convertible(sec: i64, nsec: u32) -> (r: bool)
    ensures
        r == calendar_ok(sec, nsec),
{
    chrono::DateTime::<chrono::Utc>::from_timestamp(sec, nsec).is_some()
}

/// Decide a raw timestamp given whether the calendar library accepted its
/// pair: in-range and accepted decodes to the validated timestamp, anything
/// else is a translation error carrying the raw pair.
pub fn accept_timestamp(t: &RawTimespec, convertible: bool) -> (r: Result<Timespec, BtrfsUtilError>)
    ensures
        (ts_in_range(*t) && convertible) ==> r == Ok::<Timespec, BtrfsUtilError>(
            Timespec { sec: t.sec, nsec: t.nsec as u32 },
        ),
        !(ts_in_range(*t) && convertible) ==> r == Err::<Timespec, BtrfsUtilError>(
            BtrfsUtilError::Glue(GlueError::BadTimespec(t.sec, t.nsec)),
        ),
{
    if 0 <= t.nsec && t.nsec <= u32::MAX as i64 && convertible {
        Ok(Timespec { sec: t.sec, nsec: t.nsec as u32 })
    } else {
        Err(BtrfsUtilError::Glue(GlueError::BadTimespec(t.sec, t.nsec)))
    }
}

/// Decode a raw timestamp into a validated one, or a translation error when
/// it is out of representable range.
pub fn decode_timespec(t: &RawTimespec) -> (r: Result<Timespec, BtrfsUtilError>)
    ensures
        ts_ok(*t) ==> r == Ok::<Timespec, BtrfsUtilError>(
            Timespec { sec: t.sec, nsec: t.nsec as u32 },
        ),
        !ts_ok(*t) ==> r == Err::<Timespec, BtrfsUtilError>(BtrfsUtilError::Glue(
            GlueError::BadTimespec(t.sec, t.nsec),
        )),
{
    let convertible = if 0 <= t.nsec && t.nsec <= u32::MAX as i64 {
        timestamp_convertible(t.sec, t.nsec as u32)
    } else {
        false
    };
    accept_timestamp(t, convertible)
}

/// A subvolume UUID: exactly sixteen bytes.
#[derive(Debug)]
pub struct Uuid {
    bytes: Vec<u8>,
}

impl View for Uuid {
    type V = Seq<u8>;

    closed spec fn view(&self) -> Seq<u8> {
        self.bytes@
    }
}

impl Uuid {
    /// A UUID always holds exactly sixteen bytes.
    #[verifier::type_invariant]
    spec fn type_inv(self) -> bool {
        self.bytes@.len() == 16
    }

    /// Build a UUID from raw bytes; anything but sixteen bytes is malformed.
    pub fn from_bytes(bytes: Vec<u8>) -> (r: Result<Uuid, BtrfsUtilError>)
        ensures
            bytes@.len() == 16 ==> (r matches Ok(u) && u@ == bytes@),
            bytes@.len() != 16 ==> r == Err::<Uuid, BtrfsUtilError>(BtrfsUtilError::Glue(
                GlueError::UuidError,
            )),
    {
        if bytes.len() == 16 {
            Ok(Uuid { bytes })
        } else {
            Err(BtrfsUtilError::Glue(GlueError::UuidError))
        }
    }

    /// Whether this is the nil UUID (all zeroes), the store's sentinel for
    /// "not applicable".
    pub fn is_nil(&self) -> (r: bool)
        ensures
            r == all_zero(self@),
    {
        let n = self.bytes.len();
        let mut i: usize = 0;
        while i < n
            invariant
                n == self.bytes@.len(),
                0 <= i <= n,
                forall|j: int| 0 <= j < i ==> self.bytes@[j] == 0u8,
            decreases n - i,
        {
            if self.bytes[i] != 0 {
                return false;
            }
            i += 1;
        }
        true
    }

    /// The sixteen raw bytes of this UUID.
    pub fn as_bytes(&self) -> (r: &Vec<u8>)
        ensures
            r@ == self@,
            r@.len() == 16,
    {
        proof {
            use_type_invariant(self);
        }
        &self.bytes
    }
}

impl Clone for Uuid {
    /// Cloning keeps the bytes.
    fn clone(&self) -> (r: Self)
        ensures
            r@ == self@,
    {
        proof {
            use_type_invariant(self);
        }
        Uuid { bytes: self.bytes.clone() }
    }
}

impl PartialEq for Uuid {
    fn eq(&self, other: &Self) -> (r: bool) {
        common::bytes_eq(&self.bytes, &other.bytes)
    }
}

impl vstd::std_specs::cmp::PartialEqSpecImpl for Uuid {
    open spec fn obeys_eq_spec() -> bool {
        true
    }

    open spec fn eq_spec(&self, other: &Self) -> bool {
        self@ == other@
    }
}

/// The raw metadata record as the boundary fills it, as plain values.
#[derive(Clone, Debug)]
pub struct RawSubvolumeInfo {
    /// ID of the subvolume.
    pub id: u64,
    /// ID of the containing subvolume, zero for the root subvolume or
    /// orphaned subvolumes.
    pub parent_id: u64,
    /// Inode number of the containing directory, zero for the root subvolume
    /// or orphaned subvolumes.
    pub dir_id: u64,
    /// On-disk root item flags.
    pub flags: u64,
    /// UUID bytes of the subvolume.
    pub uuid: Vec<u8>,
    /// UUID bytes of the snapshotted subvolume, all zeroes if none.
    pub parent_uuid: Vec<u8>,
    /// UUID bytes of the sending subvolume, all zeroes if none.
    pub received_uuid: Vec<u8>,
    /// Transaction ID of the subvolume root.
    pub generation: u64,
    /// Transaction ID of the last change.
    pub ctransid: u64,
    /// Transaction ID at creation.
    pub otransid: u64,
    /// Transaction ID of the sent subvolume, zero if not received.
    pub stransid: u64,
    /// Transaction ID at reception, zero if not received.
    pub rtransid: u64,
    /// Time of the last change.
    pub ctime: RawTimespec,
    /// Time of creation.
    pub otime: RawTimespec,
    /// Send time, zero if never set.
    pub stime: RawTimespec,
    /// Reception time, zero if not received.
    pub rtime: RawTimespec,
}

/// A fully decoded metadata snapshot of a subvolume: the raw record with the
/// store's zero-as-absence conventions applied, plus the path of the
/// subvolume it was derived from. A pure value; computed on demand and never
/// cached.
#[derive(Clone, Debug)]
pub struct SubvolumeInfo {
    /// ID of this subvolume, unique across the filesystem.
    pub id: u64,
    /// The path of the subvolume.
    pub path: Vec<u8>,
    /// ID of the subvolume which contains this subvolume; absent for the
    /// root subvolume or orphaned subvolumes.
    pub parent_id: Option<u64>,
    /// Inode number of the directory containing this subvolume in the parent
    /// subvolume; absent for the root subvolume or orphaned subvolumes.
    pub dir_id: Option<u64>,
    /// On-disk root item flags.
    pub flags: u64,
    /// UUID of this subvolume.
    pub uuid: Uuid,
    /// UUID of the subvolume this one is a snapshot of; absent if it is not
    /// a snapshot.
    pub parent_uuid: Option<Uuid>,
    /// UUID of the subvolume this one was received from; absent if it was
    /// not received.
    pub received_uuid: Option<Uuid>,
    /// Transaction ID of the subvolume root.
    pub generation: u64,
    /// Transaction ID when an inode in this subvolume was last changed.
    pub ctransid: u64,
    /// Transaction ID when this subvolume was created.
    pub otransid: u64,
    /// Transaction ID of the sent subvolume this one was received from;
    /// absent if it was not received.
    pub stransid: Option<u64>,
    /// Transaction ID when this subvolume was received; absent if it was not
    /// received.
    pub rtransid: Option<u64>,
    /// Time when an inode in this subvolume was last changed.
    pub ctime: Timespec,
    /// Time when this subvolume was created.
    pub otime: Timespec,
    /// Send time; absent unless it was set.
    pub stime: Option<Timespec>,
    /// Time when this subvolume was received; absent if it was not received.
    pub rtime: Option<Timespec>,
}

/// Compare two optional UUIDs by their bytes.
pub open spec fn opt_uuid_eq_spec(a: Option<Uuid>, b: Option<Uuid>) -> bool {
    match (a, b) {
        (Option::None, Option::None) => true,
        (Option::Some(x), Option::Some(y)) => x@ == y@,
        _ => false,
    }
}

fn opt_uuid_eq(a: &Option<Uuid>, b: &Option<Uuid>) -> (r: bool)
    ensures
        r == opt_uuid_eq_spec(*a, *b),
{
    match (a, b) {
        (Option::None, Option::None) => true,
        (Option::Some(x), Option::Some(y)) => common::bytes_eq(x.as_bytes(), y.as_bytes()),
        _ => false,
    }
}

fn opt_u64_eq(a: &Option<u64>, b: &Option<u64>) -> (r: bool)
    ensures
        r == (*a == *b),
{
    match (a, b) {
        (Option::None, Option::None) => true,
        (Option::Some(x), Option::Some(y)) => *x == *y,
        _ => false,
    }
}

fn opt_ts_eq(a: &Option<Timespec>, b: &Option<Timespec>) -> (r: bool)
    ensures
        r == (*a == *b),
{
    match (a, b) {
        (Option::None, Option::None) => true,
        (Option::Some(x), Option::Some(y)) => x.sec == y.sec && x.nsec == y.nsec,
        _ => false,
    }
}

impl PartialEq for SubvolumeInfo {
    /// Field-for-field equality of two metadata snapshots.
    fn eq(&self, other: &Self) -> (r: bool) {
        self.id == other.id && common::bytes_eq(&self.path, &other.path) && opt_u64_eq(
            &self.parent_id,
            &other.parent_id,
        ) && opt_u64_eq(&self.dir_id, &other.dir_id) && self.flags == other.flags
            && common::bytes_eq(self.uuid.as_bytes(), other.uuid.as_bytes()) && opt_uuid_eq(
            &self.parent_uuid,
            &other.parent_uuid,
        ) && opt_uuid_eq(&self.received_uuid, &other.received_uuid) && self.generation
            == other.generation && self.ctransid == other.ctransid && self.otransid
            == other.otransid && opt_u64_eq(&self.stransid, &other.stransid) && opt_u64_eq(
            &self.rtransid,
            &other.rtransid,
        ) && self.ctime.sec == other.ctime.sec && self.ctime.nsec == other.ctime.nsec
            && self.otime.sec == other.otime.sec && self.otime.nsec == other.otime.nsec
            && opt_ts_eq(&self.stime, &other.stime) && opt_ts_eq(&self.rtime, &other.rtime)
    }
}

impl vstd::std_specs::cmp::PartialEqSpecImpl for SubvolumeInfo {
    open spec fn obeys_eq_spec() -> bool {
        true
    }

    open spec fn eq_spec(&self, other: &Self) -> bool {
        &&& self.id == other.id
        &&& self.path@ == other.path@
        &&& self.parent_id == other.parent_id
        &&& self.dir_id == other.dir_id
        &&& self.flags == other.flags
        &&& self.uuid@ == other.uuid@
        &&& opt_uuid_eq_spec(self.parent_uuid, other.parent_uuid)
        &&& opt_uuid_eq_spec(self.received_uuid, other.received_uuid)
        &&& self.generation == other.generation
        &&& self.ctransid == other.ctransid
        &&& self.otransid == other.otransid
        &&& self.stransid == other.stransid
        &&& self.rtransid == other.rtransid
        &&& self.ctime == other.ctime
        &&& self.otime == other.otime
        &&& self.stime == other.stime
        &&& self.rtime == other.rtime
    }
}

/// The boundary's answer decodes without error: the call succeeded, the id
/// is legal, the UUID fields have their sixteen bytes, and every non-sentinel
/// timestamp is representable.
pub open spec fn raw_accepted(code: u32, raw: RawSubvolumeInfo) -> bool {
    &&& code == 0
    &&& raw.id >= BTRFS_FS_TREE_OBJECTID
    &&& raw.uuid@.len() == 16
    &&& raw.parent_uuid@.len() == 16
    &&& raw.received_uuid@.len() == 16
    &&& ts_ok(raw.ctime)
    &&& ts_ok(raw.otime)
    &&& (ts_sentinel(raw.stime) || ts_ok(raw.stime))
    &&& (ts_sentinel(raw.rtime) || ts_ok(raw.rtime))
}

/// The error a rejected answer decodes to: the first failure in decode
/// order — status code, id, UUID fields, then the four timestamps.
pub open spec fn derive_err(code: u32, raw: RawSubvolumeInfo) -> BtrfsUtilError {
    if code != 0 {
        code_err(code)
    } else if raw.id < BTRFS_FS_TREE_OBJECTID {
        BtrfsUtilError::Glue(GlueError::BadId(raw.id))
    } else if raw.uuid@.len() != 16 || raw.parent_uuid@.len() != 16 || raw.received_uuid@.len()
        != 16 {
        BtrfsUtilError::Glue(GlueError::UuidError)
    } else if !ts_ok(raw.ctime) {
        BtrfsUtilError::Glue(GlueError::BadTimespec(raw.ctime.sec, raw.ctime.nsec))
    } else if !ts_ok(raw.otime) {
        BtrfsUtilError::Glue(GlueError::BadTimespec(raw.otime.sec, raw.otime.nsec))
    } else if !(ts_sentinel(raw.stime) || ts_ok(raw.stime)) {
        BtrfsUtilError::Glue(GlueError::BadTimespec(raw.stime.sec, raw.stime.nsec))
    } else {
        BtrfsUtilError::Glue(GlueError::BadTimespec(raw.rtime.sec, raw.rtime.nsec))
    }
}

impl SubvolumeInfo {
    /// Decode the boundary's answer to a metadata query against `src` into a
    /// metadata snapshot.
    ///
    /// `code` is the status the boundary reported and `raw` the record it
    /// filled; the record is an answer only on success. The zero-as-absence
    /// conventions are applied field by field; a malformed UUID field or an
    /// unrepresentable timestamp is a translation error, and an id below the
    /// minimum legal id a data error. The snapshot carries the path of `src`.
    pub fn try_derive(src: &Subvolume, code: u32, raw: &RawSubvolumeInfo) -> (r: Result<
        SubvolumeInfo,
        BtrfsUtilError,
    >)
        ensures
            !raw_accepted(code, *raw) ==> r == Err::<SubvolumeInfo, BtrfsUtilError>(
                derive_err(code, *raw),
            ),
            raw_accepted(code, *raw) ==> (r matches Ok(i) && {
                &&& i.id == raw.id
                &&& i.path@ == src@.path
                &&& i.parent_id == (if raw.parent_id == 0 {
                    Option::<u64>::None
                } else {
                    Option::<u64>::Some(raw.parent_id)
                })
                &&& i.dir_id == (if raw.dir_id == 0 {
                    Option::<u64>::None
                } else {
                    Option::<u64>::Some(raw.dir_id)
                })
                &&& i.flags == raw.flags
                &&& i.uuid@ == raw.uuid@
                &&& (i.parent_uuid is Some <==> !all_zero(raw.parent_uuid@))
                &&& (i.parent_uuid matches Some(u) ==> u@ == raw.parent_uuid@)
                &&& (i.received_uuid is Some <==> !all_zero(raw.received_uuid@))
                &&& (i.received_uuid matches Some(u) ==> u@ == raw.received_uuid@)
                &&& i.generation == raw.generation
                &&& i.ctransid == raw.ctransid
                &&& i.otransid == raw.otransid
                &&& i.stransid == (if raw.stransid == 0 {
                    Option::<u64>::None
                } else {
                    Option::<u64>::Some(raw.stransid)
                })
                &&& i.rtransid == (if raw.rtransid == 0 {
                    Option::<u64>::None
                } else {
                    Option::<u64>::Some(raw.rtransid)
                })
                &&& i.ctime == (Timespec { sec: raw.ctime.sec, nsec: raw.ctime.nsec as u32 })
                &&& i.otime == (Timespec { sec: raw.otime.sec, nsec: raw.otime.nsec as u32 })
                &&& i.stime == (if ts_sentinel(raw.stime) {
                    Option::<Timespec>::None
                } else {
                    Option::<Timespec>::Some(
                        Timespec { sec: raw.stime.sec, nsec: raw.stime.nsec as u32 },
                    )
                })
                &&& i.rtime == (if ts_sentinel(raw.rtime) {
                    Option::<Timespec>::None
                } else {
                    Option::<Timespec>::Some(
                        Timespec { sec: raw.rtime.sec, nsec: raw.rtime.nsec as u32 },
                    )
                })
            }),
    {
        if let Err(e) = crate::error::check_code(code) {
            return Err(e);
        }
        if raw.id < BTRFS_FS_TREE_OBJECTID {
            return Err(BtrfsUtilError::Glue(GlueError::BadId(raw.id)));
        }
        if raw.uuid.len() != 16 || raw.parent_uuid.len() != 16 || raw.received_uuid.len() != 16 {
            return Err(BtrfsUtilError::Glue(GlueError::UuidError));
        }
        let uuid = match Uuid::from_bytes(raw.uuid.clone()) {
            Ok(u) => u,
            Err(e) => {
                return Err(e);
            },
        };
        let parent_uuid_val = match Uuid::from_bytes(raw.parent_uuid.clone()) {
            Ok(u) => u,
            Err(e) => {
                return Err(e);
            },
        };
        let received_uuid_val = match Uuid::from_bytes(raw.received_uuid.clone()) {
            Ok(u) => u,
            Err(e) => {
                return Err(e);
            },
        };
        let ctime = decode_timespec(&raw.ctime)?;
        let otime = decode_timespec(&raw.otime)?;
        let stime = if raw.stime.sec == 0 && raw.stime.nsec == 0 {
            None
        } else {
            Some(decode_timespec(&raw.stime)?)
        };
        let rtime = if raw.rtime.sec == 0 && raw.rtime.nsec == 0 {
            None
        } else {
            Some(decode_timespec(&raw.rtime)?)
        };
        let parent_id = if raw.parent_id == 0 {
            None
        } else {
            Some(raw.parent_id)
        };
        let dir_id = if raw.dir_id == 0 {
            None
        } else {
            Some(raw.dir_id)
        };
        let parent_uuid = if parent_uuid_val.is_nil() {
            None
        } else {
            Some(parent_uuid_val)
        };
        let received_uuid = if received_uuid_val.is_nil() {
            None
        } else {
            Some(received_uuid_val)
        };
        let stransid = if raw.stransid == 0 {
            None
        } else {
            Some(raw.stransid)
        };
        let rtransid = if raw.rtransid == 0 {
            None
        } else {
            Some(raw.rtransid)
        };
        Ok(
            SubvolumeInfo {
                id: raw.id,
                path: src.path().clone(),
                parent_id,
                dir_id,
                flags: raw.flags,
                uuid,
                parent_uuid,
                received_uuid,
                generation: raw.generation,
                ctransid: raw.ctransid,
                otransid: raw.otransid,
                stransid,
                rtransid,
                ctime,
                otime,
                stime,
                rtime,
            },
        )
    }
}

impl SubvolumeInfo {
    /// The subvolume this snapshot describes, rebuilt from its id and path.
    ///
    /// The fields are open to unverified callers, so the id is validated
    /// again; a snapshot decoded by [`SubvolumeInfo::try_derive`] always
    /// passes.
    pub fn to_subvolume(&self) -> (r: Result<Subvolume, BtrfsUtilError>)
        ensures
            self.id < BTRFS_FS_TREE_OBJECTID ==> r == Err::<Subvolume, BtrfsUtilError>(
                BtrfsUtilError::Glue(GlueError::BadId(self.id)),
            ),
            self.id >= BTRFS_FS_TREE_OBJECTID ==> (r matches Ok(sv) && sv@.id == self.id && sv@.path
                == self.path@ && !sv@.confirmed),
    {
        Subvolume::new(
            self.id,
            crate::subvolume::subvol_path::SubvolumePath::NotConfirmed(self.path.clone()),
        )
    }
}

impl Subvolume {
    /// Settle a metadata query against this subvolume: decode the status
    /// `code` and the raw record `raw` the boundary answered with, as
    /// [`SubvolumeInfo::try_derive`] does.
    pub fn info(&self, code: u32, raw: &RawSubvolumeInfo) -> (r: Result<
        SubvolumeInfo,
        BtrfsUtilError,
    >)
        ensures
            !raw_accepted(code, *raw) ==> r == Err::<SubvolumeInfo, BtrfsUtilError>(
                derive_err(code, *raw),
            ),
            raw_accepted(code, *raw) ==> (r matches Ok(i) && i.id == raw.id && i.path@
                == self@.path),
    {
        SubvolumeInfo::try_derive(self, code, raw)
    }
}

/// The metadata decode reads nothing but the boundary's answer: two
/// derivations from one answer are decided alike, both in whether they are
/// accepted and in the error a rejected answer maps to. Since the accepting
/// decode pins every field as a function of the answer, immediate re-reads
/// without intervening mutation yield field-for-field identical snapshots.
pub proof fn lemma_info_idempotent(
    code1: u32,
    raw1: RawSubvolumeInfo,
    code2: u32,
    raw2: RawSubvolumeInfo,
)
    requires
        code1 == code2,
        raw1 == raw2,
    ensures
        raw_accepted(code1, raw1) == raw_accepted(code2, raw2),
        derive_err(code1, raw1) == derive_err(code2, raw2),
{
}

} // verus!
