//! The permission mask: a bitmask over the twelve low bits of a mode word —
//! three read/write/execute groups (owner, group, other) and the three
//! special bits (setuid, setgid, sticky) — with standard set algebra.

use vstd::prelude::*;

verus! {

/// A permission mask. Only the twelve low bits of a mode word are
/// permission bits; construction is strict, so a value of this type never
/// holds a bit outside them.
#[derive(Clone, Copy, Debug, PartialEq, Eq, PartialOrd, Ord, Hash, Structural)]
pub struct Mode {
    bits: u16,
}

impl View for Mode {
    type V = u16;

    closed spec fn view(&self) -> u16 {
        self.bits
    }
}

impl Mode {
    /// set user ID on exec
    pub const ISUID: u16 = 0o004000;

    /// set group ID on exec
    pub const ISGID: u16 = 0o002000;

    /// sticky
    pub const ISVTX: u16 = 0o001000;

    /// owner: read
    pub const IREAD: u16 = 0o000400;

    /// owner: write
    pub const IWRITE: u16 = 0o000200;

    /// owner: exec
    pub const IEXEC: u16 = 0o000100;

    /// owner: read
    pub const IRUSR: u16 = Mode::IREAD;

    /// owner: write
    pub const IWUSR: u16 = Mode::IWRITE;

    /// owner: exec
    pub const IXUSR: u16 = Mode::IEXEC;

    /// owner: all three bits
    pub const IRWXU: u16 = Mode::IRUSR | Mode::IWUSR | Mode::IXUSR;

    /// group: read
    pub const IRGRP: u16 = 0o000040;

    /// group: write
    pub const IWGRP: u16 = 0o000020;

    /// group: exec
    pub const IXGRP: u16 = 0o000010;

    /// group: all three bits
    pub const IRWXG: u16 = Mode::IRGRP | Mode::IWGRP | Mode::IXGRP;

    /// other: read
    pub const IROTH: u16 = 0o000004;

    /// other: write
    pub const IWOTH: u16 = 0o000002;

    /// other: exec
    pub const IXOTH: u16 = 0o000001;

    /// other: all three bits
    pub const IRWXO: u16 = Mode::IROTH | Mode::IWOTH | Mode::IXOTH;

    /// union of every defined permission bit
    pub const ALL_BITS: u16 = 0o007777;

    /// A mask is well formed when it holds no bit outside the twelve
    /// recognized permission bits.
    pub open spec fn wf(self) -> bool {
        self@ & 0o170000 == 0
    }

    /// Strict fallible constructor: succeeds iff `raw` holds no bit outside
    /// the twelve recognized permission bits; unknown bits are rejected,
    /// never silently dropped.
    pub fn from_bits(raw: u16) -> (r: Option<Mode>)
        ensures
            r is Some <==> raw & 0o170000 == 0,
            r matches Some(m) ==> m@ == raw && m.wf(),
    {
        if raw & 0o170000 == 0 {
            Some(Mode { bits: raw })
        } else {
            None
        }
    }

    /// The packed numeric value of the mask; total, never fails.
    pub fn bits(self) -> (r: u16)
        ensures
            r == self@,
    {
        self.bits
    }

    /// The empty mask: no bit set.
    pub fn empty() -> (r: Mode)
        ensures
            r@ == 0,
            r.wf(),
    {
        proof {
            assert(0u16 & 0o170000 == 0) by (bit_vector);
        }
        Mode { bits: 0 }
    }

    /// The full mask: every defined permission bit set.
    pub fn all() -> (r: Mode)
        ensures
            r@ == 0o007777,
            r.wf(),
    {
        proof {
            assert(0o007777u16 & 0o170000 == 0) by (bit_vector);
        }
        Mode { bits: 0o007777 }
    }

    /// Set union of two masks.
    pub fn union(self, other: Mode) -> (r: Mode)
        ensures
            r@ == (self@ | other@),
            self.wf() && other.wf() ==> r.wf(),
    {
        proof {
            let (a, b) = (self@, other@);
            assert(a & 0o170000 == 0 && b & 0o170000 == 0 ==> (a | b) & 0o170000 == 0)
                by (bit_vector);
        }
        Mode { bits: self.bits | other.bits }
    }

    /// Set intersection of two masks.
    pub fn intersection(self, other: Mode) -> (r: Mode)
        ensures
            r@ == (self@ & other@),
            self.wf() ==> r.wf(),
    {
        proof {
            let (a, b) = (self@, other@);
            assert(a & 0o170000 == 0 ==> (a & b) & 0o170000 == 0) by (bit_vector);
        }
        Mode { bits: self.bits & other.bits }
    }

    /// Set difference: the bits of `self` that are not in `other`.
    pub fn difference(self, other: Mode) -> (r: Mode)
        ensures
            r@ == (self@ & !other@),
            self.wf() ==> r.wf(),
    {
        proof {
            let (a, b) = (self@, other@);
            assert(a & 0o170000 == 0 ==> (a & !b) & 0o170000 == 0) by (bit_vector);
        }
        Mode { bits: self.bits & !other.bits }
    }

    /// Complement within the 12-bit permission domain.
    pub fn complement(self) -> (r: Mode)
        ensures
            r@ == (!self@ & 0o007777),
            r.wf(),
    {
        proof {
            let a = self@;
            assert((!a & 0o007777) & 0o170000 == 0) by (bit_vector);
        }
        Mode { bits: !self.bits & 0o007777 }
    }

    /// Containment test: true iff every bit of `other` is also in `self`.
    pub fn contains(self, other: Mode) -> (r: bool)
        ensures
            r == (self@ & other@ == other@),
    {
        self.bits & other.bits == other.bits
    }

    /// True iff no bit is set.
    pub fn is_empty(self) -> (r: bool)
        ensures
            r == (self@ == 0),
    {
        self.bits == 0
    }
}

impl From<Mode> for u16 {
    /// The packed numeric value of the mask.
    fn from(x: Mode) -> (r: u16)
        ensures
            r == x@,
    {
        x.bits
    }
}

impl vstd::std_specs::convert::FromSpecImpl<Mode> for u16 {
    open spec fn obeys_from_spec() -> bool {
        true
    }

    open spec fn from_spec(x: Mode) -> u16 {
        x@
    }
}

impl Default for Mode {
    /// The default mask is the empty mask.
    fn default() -> (r: Mode)
        ensures
            r@ == 0,
            r.wf(),
    {
        Mode::empty()
    }
}

/// Group-shift law: the permission groups are positionally shifted copies of
/// one 3-bit pattern — each group constant is the owner constant shifted
/// right by three bits per step down (owner, then group, then other), bit by
/// bit and for the composite three-bit patterns alike.
pub proof fn lemma_group_shift()
    by (bit_vector)
    ensures
        Mode::IRGRP == Mode::IRUSR >> 3,
        Mode::IWGRP == Mode::IWUSR >> 3,
        Mode::IXGRP == Mode::IXUSR >> 3,
        Mode::IRWXG == Mode::IRWXU >> 3,
        Mode::IROTH == Mode::IRGRP >> 3,
        Mode::IWOTH == Mode::IWGRP >> 3,
        Mode::IXOTH == Mode::IXGRP >> 3,
        Mode::IRWXO == Mode::IRWXG >> 3,
        Mode::IROTH == Mode::IRUSR >> 6,
        Mode::IWOTH == Mode::IWUSR >> 6,
        Mode::IXOTH == Mode::IXUSR >> 6,
        Mode::IRWXO == Mode::IRWXU >> 6,
{
}

} // verus!
