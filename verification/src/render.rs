//! The symbolic rendering: the `ls -l`-style 9-character permission string
//! (owner, group, other, most significant group first), and the full
//! 10-character form with the file-type glyph in front.

use vstd::prelude::*;

use crate::file_type::FileType;
use crate::mode::Mode;

verus! {

/// The 3-bit permission field of one group, selected by its shift index:
/// owner is 2, group is 1, other is 0 — the field sits `3 * shift` bits up.
pub open spec fn spec_group_field(bits: u16, shift: u16) -> u16 {
    if shift == 2 {
        (bits >> 6) & 0o7
    } else if shift == 1 {
        (bits >> 3) & 0o7
    } else {
        bits & 0o7
    }
}

/// The special bit that belongs to a group: setuid for owner, setgid for
/// group, sticky for other.
pub open spec fn spec_special_bit(bits: u16, shift: u16) -> bool {
    if shift == 2 {
        bits & 0o4000 != 0
    } else if shift == 1 {
        bits & 0o2000 != 0
    } else {
        bits & 0o1000 != 0
    }
}

/// The third character of a group's triple: the joint rendering of the
/// group's execute bit and its special bit. A set special bit shows as
/// `s`/`t` over a set execute bit and as uppercase `S`/`T` over a clear one;
/// without it the character is the plain `x` or `-`.
pub open spec fn spec_exec_char(shift: u16, exec: bool, special: bool) -> char {
    if special {
        if shift == 0 {
            if exec {
                't'
            } else {
                'T'
            }
        } else {
            if exec {
                's'
            } else {
                'S'
            }
        }
    } else {
        if exec {
            'x'
        } else {
            '-'
        }
    }
}

/// The 3-character rendering of one permission group.
pub open spec fn spec_rwx_triple(bits: u16, shift: u16) -> Seq<char> {
    let f = spec_group_field(bits, shift);
    seq![
        if f & 0o4 != 0 {
            'r'
        } else {
            '-'
        },
        if f & 0o2 != 0 {
            'w'
        } else {
            '-'
        },
        spec_exec_char(shift, f & 0o1 != 0, spec_special_bit(bits, shift)),
    ]
}

/// The canonical 9-character symbolic permission string of a mode's bits.
pub open spec fn spec_render(bits: u16) -> Seq<char> {
    spec_rwx_triple(bits, 2) + spec_rwx_triple(bits, 1) + spec_rwx_triple(bits, 0)
}

/// The full 10-character rendering: the file type's glyph followed
/// immediately by the 9-character permission string, with no separator.
pub open spec fn spec_render_full(ft: FileType, bits: u16) -> Seq<char> {
    seq![ft.spec_glyph()] + spec_render(bits)
}

/// Relies on `String::push`, which appends the given character to the string.
#[verifier::external_body]
fn push_char(s: &mut String, c: char)
    ensures
        final(s)@ == old(s)@.push(c),
{
    s.push(c);
}

impl Mode {
    /// Append the 3-character rendering of one permission group to `out`;
    /// `shift` selects the group (2 owner, 1 group, 0 other).
    pub fn fmt_rwx_bits(&self, shift: u8, out: &mut String)
        requires
            shift <= 2,
        ensures
            final(out)@ == old(out)@ + spec_rwx_triple(self@, shift as u16),
    {
        let b: u16 = self.bits();
        let sxbit: bool = if shift == 2 {
            b & 0o4000 != 0
        } else if shift == 1 {
            b & 0o2000 != 0
        } else {
            b & 0o1000 != 0
        };
        let protbits: u16 = if shift == 2 {
            (b >> 6) & 0o7
        } else if shift == 1 {
            (b >> 3) & 0o7
        } else {
            b & 0o7
        };
        push_char(out, if protbits & 0o4 != 0 { 'r' } else { '-' });
        push_char(out, if protbits & 0o2 != 0 { 'w' } else { '-' });
        let exec: bool = protbits & 0o1 != 0;
        let third: char = if sxbit {
            if shift == 0 {
                if exec { 't' } else { 'T' }
            } else {
                if exec { 's' } else { 'S' }
            }
        } else {
            if exec { 'x' } else { '-' }
        };
        push_char(out, third);
        proof {
            assert(out@ =~= old(out)@ + spec_rwx_triple(self@, shift as u16));
        }
    }

    /// Render the canonical 9-character symbolic permission string.
    pub fn render(&self) -> (r: String)
        ensures
            r@ == spec_render(self@),
            r@.len() == 9,
    {
        let mut s = String::new();
        self.fmt_rwx_bits(2, &mut s);
        self.fmt_rwx_bits(1, &mut s);
        self.fmt_rwx_bits(0, &mut s);
        proof {
            assert(s@ =~= spec_render(self@));
        }
        s
    }
}

/// Render a full mode: the type's glyph, then the 9-character permission
/// string — a fixed 10-character result.
pub fn render_full(ft: FileType, m: &Mode) -> (r: String)
    ensures
        r@ == spec_render_full(ft, m@),
        r@.len() == 10,
{
    let mut s = String::new();
    push_char(&mut s, ft.glyph());
    m.fmt_rwx_bits(2, &mut s);
    m.fmt_rwx_bits(1, &mut s);
    m.fmt_rwx_bits(0, &mut s);
    proof {
        assert(s@ =~= spec_render_full(ft, m@));
    }
    s
}

/// The third character pins both bits it renders: within one group, equal
/// characters mean equal execute bits and equal special bits.
proof fn lemma_exec_char_inj(shift: u16, e1: bool, s1: bool, e2: bool, s2: bool)
    ensures
        spec_exec_char(shift, e1, s1) == spec_exec_char(shift, e2, s2) ==> (e1 == e2 && s1
            == s2),
{
}

/// One group's triple pins the bits it renders: within one group, equal
/// 3-character renderings mean equal read, write and execute bits and an
/// equal special bit.
proof fn lemma_triple_inj(a: u16, b: u16, shift: u16)
    requires
        spec_rwx_triple(a, shift) == spec_rwx_triple(b, shift),
    ensures
        (spec_group_field(a, shift) & 0o4 != 0) == (spec_group_field(b, shift) & 0o4 != 0),
        (spec_group_field(a, shift) & 0o2 != 0) == (spec_group_field(b, shift) & 0o2 != 0),
        (spec_group_field(a, shift) & 0o1 != 0) == (spec_group_field(b, shift) & 0o1 != 0),
        spec_special_bit(a, shift) == spec_special_bit(b, shift),
{
    let ta = spec_rwx_triple(a, shift);
    let tb = spec_rwx_triple(b, shift);
    assert(ta[0] == tb[0]);
    assert(ta[1] == tb[1]);
    assert(ta[2] == tb[2]);
    lemma_exec_char_inj(shift, spec_group_field(a, shift) & 0o1 != 0, spec_special_bit(a, shift),
        spec_group_field(b, shift) & 0o1 != 0, spec_special_bit(b, shift));
}

/// Render determinism and distinctness: the 9-character rendering is a pure
/// function of the permission bits, and on the 12-bit permission domain it
/// has no collisions — two masks render to the same string iff they are the
/// same mask.
pub proof fn lemma_render_distinct(a: u16, b: u16)
    requires
        a & 0o170000 == 0,
        b & 0o170000 == 0,
    ensures
        (spec_render(a) == spec_render(b)) <==> a == b,
{
    if spec_render(a) == spec_render(b) {
        let ra = spec_render(a);
        let rb = spec_render(b);
        assert forall|s: u16| s <= 2 implies spec_rwx_triple(a, s) == spec_rwx_triple(b, s) by {
            let ta = spec_rwx_triple(a, s);
            let tb = spec_rwx_triple(b, s);
            let base: int = if s == 2 { 0 } else if s == 1 { 3 } else { 6 };
            assert forall|i: int| 0 <= i < 3 implies ta[i] == tb[i] by {
                assert(ra[base + i] == ta[i]);
                assert(rb[base + i] == tb[i]);
            }
            assert(ta =~= tb);
        }
        lemma_triple_inj(a, b, 2);
        lemma_triple_inj(a, b, 1);
        lemma_triple_inj(a, b, 0);
        assert(a == b) by (bit_vector)
            requires
                a & 0o170000 == 0,
                b & 0o170000 == 0,
                (((a >> 6) & 0o7) & 0o4 != 0) == (((b >> 6) & 0o7) & 0o4 != 0),
                (((a >> 6) & 0o7) & 0o2 != 0) == (((b >> 6) & 0o7) & 0o2 != 0),
                (((a >> 6) & 0o7) & 0o1 != 0) == (((b >> 6) & 0o7) & 0o1 != 0),
                (((a >> 3) & 0o7) & 0o4 != 0) == (((b >> 3) & 0o7) & 0o4 != 0),
                (((a >> 3) & 0o7) & 0o2 != 0) == (((b >> 3) & 0o7) & 0o2 != 0),
                (((a >> 3) & 0o7) & 0o1 != 0) == (((b >> 3) & 0o7) & 0o1 != 0),
                ((a & 0o7) & 0o4 != 0) == ((b & 0o7) & 0o4 != 0),
                ((a & 0o7) & 0o2 != 0) == ((b & 0o7) & 0o2 != 0),
                ((a & 0o7) & 0o1 != 0) == ((b & 0o7) & 0o1 != 0),
                (a & 0o4000 != 0) == (b & 0o4000 != 0),
                (a & 0o2000 != 0) == (b & 0o2000 != 0),
                (a & 0o1000 != 0) == (b & 0o1000 != 0),
        ;
    }
}

} // verus!
