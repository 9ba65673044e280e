//! The boundary to a platform's native mask representation, where the
//! native bit positions coincide with POSIX's: the native form crosses this
//! boundary as a plain 32-bit word. Conversion out of the library is total;
//! conversion back in is fallible, since a native word may hold bits
//! unknown to this core.

use vstd::prelude::*;

use crate::mode::Mode;

verus! {

/// The native bits of a permission mask. Total: every mask this core can
/// represent is valid in the native representation.
pub fn mode_to_native_bits(m: &Mode) -> (r: u32)
    ensures
        r == m@ as u32,
{
    let b: u16 = m.bits();
    b as u32
}

/// Build a permission mask from a platform's native mode bits. Succeeds iff
/// the word holds no bit outside the twelve recognized permission bits;
/// unknown native bits are rejected, never silently dropped.
pub fn mode_from_native_bits(b: u32) -> (r: Option<Mode>)
    ensures
        r is Some <==> b & !0o7777u32 == 0,
        r matches Some(m) ==> m@ == b as u16 && m@ as u32 == b && m.wf(),
{
    if b & !0o7777u32 != 0 {
        None
    } else {
        let s: u16 = b as u16;
        proof {
            assert(s & 0o170000u16 == 0 && s as u32 == b) by (bit_vector)
                requires
                    b & !0o7777u32 == 0 && s == b as u16,
            ;
        }
        Mode::from_bits(s)
    }
}

} // verus!
