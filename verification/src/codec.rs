//! The codec: decomposition of a raw 16-bit mode word into a file-type tag
//! and a permission mask, and the lossless recomposition of the two.

use vstd::prelude::*;

use crate::file_type::FileType;
use crate::file_type::lemma_file_type_exhaustive;
use crate::mode::Mode;

verus! {

/// What `split` yields on a raw word: the tag for the word's type field and
/// the word's permission bits, if the type field holds one of the seven
/// defined file types.
pub open spec fn spec_split(raw: u16) -> Option<(FileType, u16)> {
    match FileType::spec_from_bits(raw & FileType::IFMT) {
        Some(ft) => Some((ft, raw & !FileType::IFMT)),
        None => None,
    }
}

/// What `unsplit` yields: the tag's bits in the type field joined with the
/// permission bits in the low field.
pub open spec fn spec_unsplit(ft: FileType, bits: u16) -> u16 {
    (ft.spec_bits() & FileType::IFMT) | (bits & !FileType::IFMT)
}

/// Split a file mode word into file type and protection bits. Succeeds iff
/// the word's type field holds one of the seven defined file types; the
/// twelve low bits are always recognized permission bits, so they never
/// make `split` fail.
pub fn split(fmode: u16) -> (r: Option<(FileType, Mode)>)
    ensures
        r is Some <==> spec_split(fmode) is Some,
        r is Some <==> FileType::spec_from_bits(fmode & FileType::IFMT) is Some,
        r matches Some((ft, m)) ==> spec_split(fmode) == Some((ft, m@)) && m.wf(),
{
    match FileType::from_bits(fmode & FileType::IFMT) {
        None => None,
        Some(ft) => {
            proof {
                assert((fmode & !0o170000u16) & 0o170000u16 == 0) by (bit_vector);
            }
            match Mode::from_bits(fmode & !FileType::IFMT) {
                Some(m) => Some((ft, m)),
                None => {
                    proof {
                        assert(false);
                    }
                    None
                },
            }
        },
    }
}

/// Undoes the effect of [`split`]: merge a [`FileType`] and a [`Mode`] back
/// into a packed mode word. Total, never fails — the two inputs occupy
/// disjoint bit ranges, so nothing is lost.
pub fn unsplit(ft: FileType, m: Mode) -> (r: u16)
    ensures
        r == spec_unsplit(ft, m@),
{
    (ft.bits() & FileType::IFMT) | (m.bits() & !FileType::IFMT)
}

/// Round-trip law: for every raw 16-bit word on which `split` succeeds,
/// merging the two parts with `unsplit` gives the word back.
pub proof fn lemma_split_unsplit(raw: u16)
    requires
        spec_split(raw) is Some,
    ensures
        spec_unsplit(spec_split(raw).unwrap().0, spec_split(raw).unwrap().1) == raw,
{
    let ft = spec_split(raw).unwrap().0;
    let fb = ft.spec_bits();
    assert(fb == raw & FileType::IFMT);
    assert((fb & 0o170000u16) | ((raw & !0o170000u16) & !0o170000u16) == raw) by (bit_vector)
        requires
            fb == raw & 0o170000u16,
    ;
}

/// Lossless merge: splitting the word built by `unsplit` yields exactly the
/// given parts, for every tag and every well-formed set of permission bits.
pub proof fn lemma_unsplit_split(ft: FileType, bits: u16)
    requires
        bits & 0o170000 == 0,
    ensures
        spec_split(spec_unsplit(ft, bits)) == Some((ft, bits)),
{
    let fb = ft.spec_bits();
    let w = spec_unsplit(ft, bits);
    assert(fb == 0o040000 || fb == 0o020000 || fb == 0o060000 || fb == 0o100000 || fb == 0o010000
        || fb == 0o120000 || fb == 0o140000);
    assert(((fb & 0o170000u16) | (bits & !0o170000u16)) & 0o170000u16 == fb
        && ((fb & 0o170000u16) | (bits & !0o170000u16)) & !0o170000u16 == bits) by (bit_vector)
        requires
            (fb == 0o040000 || fb == 0o020000 || fb == 0o060000 || fb == 0o100000 || fb
                == 0o010000 || fb == 0o120000 || fb == 0o140000) && bits & 0o170000 == 0,
    ;
    lemma_file_type_exhaustive(ft, fb);
}

} // verus!
