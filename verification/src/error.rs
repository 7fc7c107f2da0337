//! The unified error taxonomy.
//!
//! Two failure domains are folded into one reportable type: status codes
//! reported by the boundary ([`LibError`], one named variant per code), and
//! translation failures local to the safe layer ([`GlueError`]). Codes outside
//! the known range map to an unknown-code variant carrying the raw value.

use vstd::prelude::*;

verus! {

/// Numeric status code as reported by the boundary.
pub type LibErrorCode = u32;

/// The highest status code the boundary defines; anything above is unknown.
pub const MAX_LIB_ERROR_CODE: u32 = 26;

/// Translation failures local to the safe layer.
#[derive(Clone, Copy, Debug, PartialEq, Eq, Structural)]
pub enum GlueError {
    /// A status code outside the known range, carrying the raw value.
    UnknownErrno(LibErrorCode),
    /// The boundary returned a null reference where data was expected.
    NullPointerReceived,
    /// A byte string could not be read back as a path.
    BadPath,
    /// A path holds an embedded terminator, so it cannot round-trip through
    /// the boundary's null-terminated representation.
    NulError,
    /// A byte sequence claimed to be a UUID is malformed.
    UuidError,
    /// A raw time value (seconds, nanoseconds) cannot be converted to a
    /// calendar timestamp.
    BadTimespec(i64, i64),
    /// An identity value below the minimum legal subvolume id.
    BadId(u64),
}

/// Status codes reported by the boundary, one named variant per code.
#[derive(Clone, Copy, Debug, PartialEq, Eq, Structural)]
pub enum LibError {
    /// Success
    Success,
    /// Stop iteration
    StopIteration,
    /// Cannot allocate memory
    NoMemory,
    /// Invalid argument
    InvalidArgument,
    /// Not a Btrfs filesystem
    NotBtrfs,
    /// Not a Btrfs subvolume
    NotSubvolume,
    /// Subvolume not found
    SubvolumeNotFound,
    /// Could not open
    OpenFailed,
    /// Could not rmdir
    RmdirFailed,
    /// Could not unlink
    UnlinkFailed,
    /// Could not stat
    StatFailed,
    /// Could not statfs
    StatfsFailed,
    /// Could not search B-tree
    SearchFailed,
    /// Could not lookup inode
    InoLookupFailed,
    /// Could not get subvolume flags
    SubvolGetflagsFailed,
    /// Could not set subvolume flags
    SubvolSetflagsFailed,
    /// Could not create subvolume
    SubvolCreateFailed,
    /// Could not create snapshot
    SnapCreateFailed,
    /// Could not destroy subvolume/snapshot
    SnapDestroyFailed,
    /// Could not set default subvolume
    DefaultSubvolFailed,
    /// Could not sync filesystem
    SyncFailed,
    /// Could not start filesystem sync
    StartSyncFailed,
    /// Could not wait for filesystem sync
    WaitSyncFailed,
    /// Could not get subvolume information
    GetSubvolInfoFailed,
    /// Could not get rootref information
    GetSubvolRootrefFailed,
    /// Could not resolve subvolume path
    InoLookupUserFailed,
    /// Could not get filesystem information
    FsInfoFailed,
}

/// Generic library error type: either a boundary-reported status or a local
/// translation failure.
#[derive(Clone, Copy, Debug, PartialEq, Eq, Structural)]
pub enum BtrfsUtilError {
    /// Translation failure local to the safe layer.
    Glue(GlueError),
    /// Status reported by the boundary.
    Lib(LibError),
}

impl LibError {
    /// The numeric code of this status, as the boundary reports it.
    pub open spec fn code_spec(self) -> u32 {
        match self {
            LibError::Success => 0,
            LibError::StopIteration => 1,
            LibError::NoMemory => 2,
            LibError::InvalidArgument => 3,
            LibError::NotBtrfs => 4,
            LibError::NotSubvolume => 5,
            LibError::SubvolumeNotFound => 6,
            LibError::OpenFailed => 7,
            LibError::RmdirFailed => 8,
            LibError::UnlinkFailed => 9,
            LibError::StatFailed => 10,
            LibError::StatfsFailed => 11,
            LibError::SearchFailed => 12,
            LibError::InoLookupFailed => 13,
            LibError::SubvolGetflagsFailed => 14,
            LibError::SubvolSetflagsFailed => 15,
            LibError::SubvolCreateFailed => 16,
            LibError::SnapCreateFailed => 17,
            LibError::SnapDestroyFailed => 18,
            LibError::DefaultSubvolFailed => 19,
            LibError::SyncFailed => 20,
            LibError::StartSyncFailed => 21,
            LibError::WaitSyncFailed => 22,
            LibError::GetSubvolInfoFailed => 23,
            LibError::GetSubvolRootrefFailed => 24,
            LibError::InoLookupUserFailed => 25,
            LibError::FsInfoFailed => 26,
        }
    }

    /// The status named by a code within the known range.
    pub open spec fn from_code_spec(code: u32) -> LibError
        recommends
            code <= MAX_LIB_ERROR_CODE,
    {
        if code == 0 {
            LibError::Success
        } else if code == 1 {
            LibError::StopIteration
        } else if code == 2 {
            LibError::NoMemory
        } else if code == 3 {
            LibError::InvalidArgument
        } else if code == 4 {
            LibError::NotBtrfs
        } else if code == 5 {
            LibError::NotSubvolume
        } else if code == 6 {
            LibError::SubvolumeNotFound
        } else if code == 7 {
            LibError::OpenFailed
        } else if code == 8 {
            LibError::RmdirFailed
        } else if code == 9 {
            LibError::UnlinkFailed
        } else if code == 10 {
            LibError::StatFailed
        } else if code == 11 {
            LibError::StatfsFailed
        } else if code == 12 {
            LibError::SearchFailed
        } else if code == 13 {
            LibError::InoLookupFailed
        } else if code == 14 {
            LibError::SubvolGetflagsFailed
        } else if code == 15 {
            LibError::SubvolSetflagsFailed
        } else if code == 16 {
            LibError::SubvolCreateFailed
        } else if code == 17 {
            LibError::SnapCreateFailed
        } else if code == 18 {
            LibError::SnapDestroyFailed
        } else if code == 19 {
            LibError::DefaultSubvolFailed
        } else if code == 20 {
            LibError::SyncFailed
        } else if code == 21 {
            LibError::StartSyncFailed
        } else if code == 22 {
            LibError::WaitSyncFailed
        } else if code == 23 {
            LibError::GetSubvolInfoFailed
        } else if code == 24 {
            LibError::GetSubvolRootrefFailed
        } else if code == 25 {
            LibError::InoLookupUserFailed
        } else {
            LibError::FsInfoFailed
        }
    }

    /// What [`LibError::try_from_code`] returns for any code.
    pub open spec fn try_from_code_spec(code: u32) -> Result<LibError, BtrfsUtilError> {
        if code <= MAX_LIB_ERROR_CODE {
            Ok(LibError::from_code_spec(code))
        } else {
            Err(BtrfsUtilError::Glue(GlueError::UnknownErrno(code)))
        }
    }

    /// The numeric code of this status.
    pub fn code(&self) -> (c: u32)
        ensures
            c == self.code_spec(),
    {
        match self {
            LibError::Success => 0,
            LibError::StopIteration => 1,
            LibError::NoMemory => 2,
            LibError::InvalidArgument => 3,
            LibError::NotBtrfs => 4,
            LibError::NotSubvolume => 5,
            LibError::SubvolumeNotFound => 6,
            LibError::OpenFailed => 7,
            LibError::RmdirFailed => 8,
            LibError::UnlinkFailed => 9,
            LibError::StatFailed => 10,
            LibError::StatfsFailed => 11,
            LibError::SearchFailed => 12,
            LibError::InoLookupFailed => 13,
            LibError::SubvolGetflagsFailed => 14,
            LibError::SubvolSetflagsFailed => 15,
            LibError::SubvolCreateFailed => 16,
            LibError::SnapCreateFailed => 17,
            LibError::SnapDestroyFailed => 18,
            LibError::DefaultSubvolFailed => 19,
            LibError::SyncFailed => 20,
            LibError::StartSyncFailed => 21,
            LibError::WaitSyncFailed => 22,
            LibError::GetSubvolInfoFailed => 23,
            LibError::GetSubvolRootrefFailed => 24,
            LibError::InoLookupUserFailed => 25,
            LibError::FsInfoFailed => 26,
        }
    }

    /// The text [`LibError::message`] returns for this status.
    pub open spec fn message_spec(self) -> Seq<char> {
        match self {
            LibError::Success => "Success"@,
            LibError::StopIteration => "Stop iteration"@,
            LibError::NoMemory => "Cannot allocate memory"@,
            LibError::InvalidArgument => "Invalid argument"@,
            LibError::NotBtrfs => "Not a Btrfs filesystem"@,
            LibError::NotSubvolume => "Not a Btrfs subvolume"@,
            LibError::SubvolumeNotFound => "Subvolume not found"@,
            LibError::OpenFailed => "Could not open"@,
            LibError::RmdirFailed => "Could not rmdir"@,
            LibError::UnlinkFailed => "Could not unlink"@,
            LibError::StatFailed => "Could not stat"@,
            LibError::StatfsFailed => "Could not statfs"@,
            LibError::SearchFailed => "Could not search B-tree"@,
            LibError::InoLookupFailed => "Could not lookup inode"@,
            LibError::SubvolGetflagsFailed => "Could not get subvolume flags"@,
            LibError::SubvolSetflagsFailed => "Could not set subvolume flags"@,
            LibError::SubvolCreateFailed => "Could not create subvolume"@,
            LibError::SnapCreateFailed => "Could not create snapshot"@,
            LibError::SnapDestroyFailed => "Could not destroy subvolume/snapshot"@,
            LibError::DefaultSubvolFailed => "Could not set default subvolume"@,
            LibError::SyncFailed => "Could not sync filesystem"@,
            LibError::StartSyncFailed => "Could not start filesystem sync"@,
            LibError::WaitSyncFailed => "Could not wait for filesystem sync"@,
            LibError::GetSubvolInfoFailed => "Could not get subvolume information"@,
            LibError::GetSubvolRootrefFailed => "Could not get rootref information"@,
            LibError::InoLookupUserFailed => "Could not resolve subvolume path"@,
            LibError::FsInfoFailed => "Could not get filesystem information"@,
        }
    }

    /// The library's own description of this status. It does not depend on
    /// asking the boundary for its canonical text.
    pub fn message(&self) -> (m: &'static str)
        ensures
            m@ == self.message_spec(),
    {
        match self {
            LibError::Success => "Success",
            LibError::StopIteration => "Stop iteration",
            LibError::NoMemory => "Cannot allocate memory",
            LibError::InvalidArgument => "Invalid argument",
            LibError::NotBtrfs => "Not a Btrfs filesystem",
            LibError::NotSubvolume => "Not a Btrfs subvolume",
            LibError::SubvolumeNotFound => "Subvolume not found",
            LibError::OpenFailed => "Could not open",
            LibError::RmdirFailed => "Could not rmdir",
            LibError::UnlinkFailed => "Could not unlink",
            LibError::StatFailed => "Could not stat",
            LibError::StatfsFailed => "Could not statfs",
            LibError::SearchFailed => "Could not search B-tree",
            LibError::InoLookupFailed => "Could not lookup inode",
            LibError::SubvolGetflagsFailed => "Could not get subvolume flags",
            LibError::SubvolSetflagsFailed => "Could not set subvolume flags",
            LibError::SubvolCreateFailed => "Could not create subvolume",
            LibError::SnapCreateFailed => "Could not create snapshot",
            LibError::SnapDestroyFailed => "Could not destroy subvolume/snapshot",
            LibError::DefaultSubvolFailed => "Could not set default subvolume",
            LibError::SyncFailed => "Could not sync filesystem",
            LibError::StartSyncFailed => "Could not start filesystem sync",
            LibError::WaitSyncFailed => "Could not wait for filesystem sync",
            LibError::GetSubvolInfoFailed => "Could not get subvolume information",
            LibError::GetSubvolRootrefFailed => "Could not get rootref information",
            LibError::InoLookupUserFailed => "Could not resolve subvolume path",
            LibError::FsInfoFailed => "Could not get filesystem information",
        }
    }

    /// Settle the boundary's canonical-message lookup for this status.
    ///
    /// `msg` is the raw null-terminated text the boundary returned, or absent
    /// when it returned a null reference — which is itself reported as a
    /// translation failure, never a crash. The library's own text
    /// ([`LibError::message`]) does not depend on this call succeeding.
    pub fn strerror(&self, msg: Option<Vec<u8>>) -> (r: Result<Vec<u8>, BtrfsUtilError>)
        ensures
            msg is None ==> r == Err::<Vec<u8>, BtrfsUtilError>(BtrfsUtilError::Glue(
                GlueError::NullPointerReceived,
            )),
            (msg matches Some(c) && !crate::common::has_nul(c@)) ==> r == Err::<
                Vec<u8>,
                BtrfsUtilError,
            >(BtrfsUtilError::Glue(GlueError::BadPath)),
            (msg matches Some(c) && crate::common::has_nul(c@)) ==> (r matches Ok(m)
                && crate::common::cstr_prefix_ok(msg->Some_0@, m@)),
    {
        match msg {
            None => Err(BtrfsUtilError::Glue(GlueError::NullPointerReceived)),
            Some(c) => crate::common::cstr_to_path(&c),
        }
    }

    /// Translate a boundary-reported code into the status it names; a code
    /// outside the known range is reported as an unknown-code failure, never
    /// accepted silently.
    pub fn try_from_code(code: u32) -> (r: Result<LibError, BtrfsUtilError>)
        ensures
            r == LibError::try_from_code_spec(code),
    {
        if code > MAX_LIB_ERROR_CODE {
            return Err(BtrfsUtilError::Glue(GlueError::UnknownErrno(code)));
        }
        let e = match code {
            0 => LibError::Success,
            1 => LibError::StopIteration,
            2 => LibError::NoMemory,
            3 => LibError::InvalidArgument,
            4 => LibError::NotBtrfs,
            5 => LibError::NotSubvolume,
            6 => LibError::SubvolumeNotFound,
            7 => LibError::OpenFailed,
            8 => LibError::RmdirFailed,
            9 => LibError::UnlinkFailed,
            10 => LibError::StatFailed,
            11 => LibError::StatfsFailed,
            12 => LibError::SearchFailed,
            13 => LibError::InoLookupFailed,
            14 => LibError::SubvolGetflagsFailed,
            15 => LibError::SubvolSetflagsFailed,
            16 => LibError::SubvolCreateFailed,
            17 => LibError::SnapCreateFailed,
            18 => LibError::SnapDestroyFailed,
            19 => LibError::DefaultSubvolFailed,
            20 => LibError::SyncFailed,
            21 => LibError::StartSyncFailed,
            22 => LibError::WaitSyncFailed,
            23 => LibError::GetSubvolInfoFailed,
            24 => LibError::GetSubvolRootrefFailed,
            25 => LibError::InoLookupUserFailed,
            _ => LibError::FsInfoFailed,
        };
        Ok(e)
    }
}

impl GlueError {
    /// The text [`GlueError::message`] returns for this failure.
    pub open spec fn message_spec(self) -> Seq<char> {
        match self {
            GlueError::UnknownErrno(_) => "Unknown error code"@,
            GlueError::NullPointerReceived => "Null pointer received"@,
            GlueError::BadPath => "Bad path"@,
            GlueError::NulError => "Path contains an embedded terminator"@,
            GlueError::UuidError => "Malformed UUID"@,
            GlueError::BadTimespec(_, _) => "Bad timespec"@,
            GlueError::BadId(_) => "Bad id"@,
        }
    }

    /// A short description of this failure.
    pub fn message(&self) -> (m: &'static str)
        ensures
            m@ == self.message_spec(),
    {
        match self {
            GlueError::UnknownErrno(_) => "Unknown error code",
            GlueError::NullPointerReceived => "Null pointer received",
            GlueError::BadPath => "Bad path",
            GlueError::NulError => "Path contains an embedded terminator",
            GlueError::UuidError => "Malformed UUID",
            GlueError::BadTimespec(_, _) => "Bad timespec",
            GlueError::BadId(_) => "Bad id",
        }
    }
}

/// The error a nonzero boundary code maps to.
pub open spec fn code_err(code: u32) -> BtrfsUtilError {
    if code <= MAX_LIB_ERROR_CODE {
        BtrfsUtilError::Lib(LibError::from_code_spec(code))
    } else {
        BtrfsUtilError::Glue(GlueError::UnknownErrno(code))
    }
}

/// What [`check_code`] returns for any code.
pub open spec fn check_code_spec(code: u32) -> Result<(), BtrfsUtilError> {
    if code == 0 {
        Ok(())
    } else {
        Err(code_err(code))
    }
}

/// Map a boundary-reported status code to a result: zero is success, every
/// known nonzero code is the boundary error it names, and anything else is
/// an unknown-code failure.
pub fn check_code(code: u32) -> (r: Result<(), BtrfsUtilError>)
    ensures
        r == check_code_spec(code),
{
    if code == 0 {
        return Ok(());
    }
    match LibError::try_from_code(code) {
        Ok(e) => Err(BtrfsUtilError::Lib(e)),
        Err(g) => Err(g),
    }
}

impl BtrfsUtilError {
    /// The text [`BtrfsUtilError::message`] returns for this error.
    pub open spec fn message_spec(self) -> Seq<char> {
        match self {
            BtrfsUtilError::Glue(g) => g.message_spec(),
            BtrfsUtilError::Lib(e) => e.message_spec(),
        }
    }

    /// A short description of this error, whichever domain it came from.
    pub fn message(&self) -> (m: &'static str)
        ensures
            m@ == self.message_spec(),
    {
        match self {
            BtrfsUtilError::Glue(g) => g.message(),
            BtrfsUtilError::Lib(e) => e.message(),
        }
    }
}

/// Each status maps to its code and back unchanged: the taxonomy names the
/// boundary's codes one for one.
pub proof fn lemma_code_round_trip(e: LibError)
    ensures
        LibError::try_from_code_spec(e.code_spec()) == Ok::<LibError, BtrfsUtilError>(e),
        e.code_spec() <= MAX_LIB_ERROR_CODE,
{
}

/// Each code within the known range maps to a status and back unchanged.
pub proof fn lemma_from_code_round_trip(code: u32)
    requires
        code <= MAX_LIB_ERROR_CODE,
    ensures
        LibError::from_code_spec(code).code_spec() == code,
{
}

} // verus!
