//! Device access gate: how a device node is to be opened.
//!
//! A device is asked for by path and by the flags of `open(2)`. Here the
//! access mode is read out of those flags, and the flags are handed on
//! unchanged; the open itself is the caller's business.

use vstd::prelude::*;

verus! {

/// The access with which a device node is opened.
#[derive(Clone, Copy, Debug, PartialEq, Eq, Structural)]
pub enum AccessMode {
    ReadOnly,
    WriteOnly,
    ReadWrite,
}

impl AccessMode {
    /// Whether the device is opened for reading.
    pub open spec fn spec_reads(self) -> bool {
        self != AccessMode::WriteOnly
    }

    /// Whether the device is opened for writing.
    pub open spec fn spec_writes(self) -> bool {
        self != AccessMode::ReadOnly
    }

    #[verifier::when_used_as_spec(spec_reads)]
    pub fn reads(self) -> (r: bool)
        ensures
            r == self.spec_reads(),
    {
        match self {
            AccessMode::WriteOnly => false,
            _ => true,
        }
    }

    #[verifier::when_used_as_spec(spec_writes)]
    pub fn writes(self) -> (r: bool)
        ensures
            r == self.spec_writes(),
    {
        match self {
            AccessMode::ReadOnly => false,
            _ => true,
        }
    }
}

/// The numbers by which a platform writes the three access modes into open
/// flags. They differ between platforms, so nothing here fixes their values.
#[derive(Clone, Copy, Debug, PartialEq, Eq, Structural)]
pub struct AccessCodes {
    pub read_only: i32,
    pub write_only: i32,
    pub read_write: i32,
}

impl AccessCodes {
    /// The bits of the flags in which an access mode is written.
    pub open spec fn mask(self) -> i32 {
        self.read_only | self.write_only | self.read_write
    }

    /// The codes of the platform this library was built for. Which numbers
    /// they are differs between platforms; on each, no two are the same.
    pub fn platform() -> (codes: AccessCodes)
        ensures
            codes.distinct(),
    {
        platform_codes()
    }

    /// No two of the three codes are the same number, so that each names one
    /// access mode and no other.
    pub open spec fn distinct(self) -> bool {
        &&& self.read_only != self.write_only
        &&& self.read_only != self.read_write
        &&& self.write_only != self.read_write
    }
}

/// `libc::O_RDONLY`, `libc::O_WRONLY` and `libc::O_RDWR`, in that order. Their
/// values depend on the target, so none is claimed; what is claimed is that
/// on every target for which libc defines them they are three different
/// numbers.
#[verifier::external_body]
fn platform_codes() -> (codes: AccessCodes)
    ensures
        codes.distinct(),
{
    AccessCodes {
        read_only: libc::O_RDONLY,
        write_only: libc::O_WRONLY,
        read_write: libc::O_RDWR,
    }
}

/// The access mode that `flags` ask for: read-only or write-only where the
/// access bits hold exactly that code, read-write otherwise.
pub open spec fn access_mode_of(flags: i32, codes: AccessCodes) -> AccessMode {
    let requested = flags & codes.mask();
    if requested == codes.read_only {
        AccessMode::ReadOnly
    } else if requested == codes.write_only {
        AccessMode::WriteOnly
    } else {
        AccessMode::ReadWrite
    }
}

/// With codes of which no two are the same, flags ask for read-only or for
/// write-only exactly where their access bits hold that code, and flags whose
/// access bits hold the code of read-write ask for read-write. Each code,
/// taken alone as flags, asks for its own mode.
pub proof fn lemma_distinct_codes_decode_exactly(flags: i32, codes: AccessCodes)
    requires
        codes.distinct(),
    ensures
        access_mode_of(flags, codes) == AccessMode::ReadOnly <==> flags & codes.mask()
            == codes.read_only,
        access_mode_of(flags, codes) == AccessMode::WriteOnly <==> flags & codes.mask()
            == codes.write_only,
        flags & codes.mask() == codes.read_write ==> access_mode_of(flags, codes)
            == AccessMode::ReadWrite,
        access_mode_of(codes.read_only, codes) == AccessMode::ReadOnly,
        access_mode_of(codes.write_only, codes) == AccessMode::WriteOnly,
        access_mode_of(codes.read_write, codes) == AccessMode::ReadWrite,
{
    let read_only = codes.read_only;
    let write_only = codes.write_only;
    let read_write = codes.read_write;
    assert(read_only & (read_only | write_only | read_write) == read_only) by (bit_vector);
    assert(write_only & (read_only | write_only | read_write) == write_only) by (bit_vector);
    assert(read_write & (read_only | write_only | read_write) == read_write) by (bit_vector);
}

/// What to open a device with: the access mode, and the flags as they came.
#[derive(Clone, Copy, Debug, PartialEq, Eq, Structural)]
pub struct OpenRequest {
    pub mode: AccessMode,
    pub custom_flags: i32,
}

impl OpenRequest {
    /// The request that `flags` make on a platform with the given codes.
    pub open spec fn of(flags: i32, codes: AccessCodes) -> OpenRequest {
        OpenRequest { mode: access_mode_of(flags, codes), custom_flags: flags }
    }

    /// Reads the request out of `flags`, given the platform's codes.
    pub fn decode(flags: i32, codes: AccessCodes) -> (request: OpenRequest)
        ensures
            request == OpenRequest::of(flags, codes),
    {
        let mask: i32 = codes.read_only | codes.write_only | codes.read_write;
        let requested: i32 = flags & mask;
        let mode = if requested == codes.read_only {
            AccessMode::ReadOnly
        } else if requested == codes.write_only {
            AccessMode::WriteOnly
        } else {
            AccessMode::ReadWrite
        };
        OpenRequest { mode, custom_flags: flags }
    }
}

/// The device access gate of one platform: it reads open flags by that
/// platform's own access codes, which it holds from the moment it is made.
pub struct Gate {
    codes: AccessCodes,
}

impl View for Gate {
    type V = AccessCodes;

    /// The access codes by which flags are read.
    closed spec fn view(&self) -> AccessCodes {
        self.codes
    }
}

impl Gate {
    /// No two of a gate's codes are the same number.
    #[verifier::type_invariant]
    spec fn well_formed(self) -> bool {
        self.codes.distinct()
    }

    /// A gate for the platform this library was built for.
    pub fn platform() -> (gate: Gate)
        ensures
            gate@.distinct(),
    {
        Gate { codes: AccessCodes::platform() }
    }

    /// The access codes by which this gate reads flags.
    pub fn codes(&self) -> (codes: AccessCodes)
        ensures
            codes == self@,
            codes.distinct(),
    {
        proof {
            use_type_invariant(self);
        }
        self.codes
    }

    /// Reads the request out of `flags`: the access mode that they ask for
    /// by this gate's codes, and the flags as they came.
    pub fn request(&self, flags: i32) -> (request: OpenRequest)
        ensures
            request == OpenRequest::of(flags, self@),
            self@.distinct(),
    {
        proof {
            use_type_invariant(self);
        }
        OpenRequest::decode(flags, self.codes)
    }
}

} // verus!
