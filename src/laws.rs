//! Properties that hold of every state and every input.
use vstd::prelude::*;
use crate::display::{collides, covers, drawn};
use crate::instruction::{decode, low_addr, low_byte, nib_n, nib_op, nib_x, nib_y, ChipInst};
use crate::semantics::{default_font, run, with_default_font, ChipView};

verus! {

/// Register arithmetic wraps modulo 256 and reports in `VF`: `8XY4` sets `VF` to 1 exactly when
/// the unsigned sum overflows, `8XY5` exactly when there is no borrow (`Vx >= Vy`), and `7XNN`
/// leaves `VF` alone. The result lands in `Vx` unless `Vx` is `VF` itself, which the flag
/// overwrites.
pub proof fn law_register_arithmetic(s: ChipView, x: u8, y: u8, nn: u8, keys: Seq<bool>, rnd: u8)
    requires
        s.wf(),
        x < 15,
        y < 16,
    ensures
        ({
            let (t, r) = run(s, ChipInst::AddReg { x, y }, keys, rnd);
            &&& r is Ok
            &&& t.v[x as int] == (s.v[x as int] + s.v[y as int]) % 256
            &&& t.v[15] == if s.v[x as int] + s.v[y as int] >= 256 { 1u8 } else { 0u8 }
        }),
        ({
            let (t, r) = run(s, ChipInst::SubReg { x, y }, keys, rnd);
            &&& r is Ok
            &&& t.v[x as int] == (s.v[x as int] - s.v[y as int]) % 256
            &&& t.v[15] == if s.v[x as int] >= s.v[y as int] { 1u8 } else { 0u8 }
        }),
        ({
            let (t, r) = run(s, ChipInst::AddImm { x, nn }, keys, rnd);
            &&& r is Ok
            &&& t.v[x as int] == (s.v[x as int] + nn) % 256
            &&& t.v[15] == s.v[15]
        }),
{
}

/// `FX1E` keeps the index register within the 4096-byte address space, wrapping round; with
/// the carry setting on it sets `VF` to 1 exactly when `I + Vx` reaches 4096 and to 0
/// otherwise, and with it off it leaves `VF` alone.
pub proof fn law_index_add(s: ChipView, x: u8, keys: Seq<bool>, rnd: u8)
    requires
        s.wf(),
        x < 16,
    ensures
        ({
            let (t, r) = run(s, ChipInst::AddI { x }, keys, rnd);
            let sum = s.i + s.v[x as int];
            &&& r is Ok
            &&& t.i == sum % 4096
            &&& t.wf()
            &&& s.cfg.index_add_carry ==> t.v[15] == if sum >= 4096 { 1u8 } else { 0u8 }
            &&& !s.cfg.index_add_carry ==> t.v[15] == s.v[15]
        }),
{
}

/// A word is its four nibbles, most significant first.
proof fn lemma_nibbles(w: u16)
    ensures
        w == nib_op(w) * 0x1000 + nib_x(w) * 0x100 + nib_y(w) * 0x10 + nib_n(w),
        low_byte(w) == nib_y(w) * 0x10 + nib_n(w),
        low_addr(w) == nib_x(w) * 0x100 + nib_y(w) * 0x10 + nib_n(w),
        low_addr(w) / 0x100 == nib_x(w),
        nib_op(w) < 16,
        nib_x(w) < 16,
        nib_y(w) < 16,
        nib_n(w) < 16,
{
    assert(w == (w / 0x1000) * 0x1000 + ((w / 0x100) % 0x10) * 0x100 + ((w / 0x10) % 0x10) * 0x10 + w % 0x10
        && w % 0x100 == ((w / 0x10) % 0x10) * 0x10 + w % 0x10
        && w % 0x1000 == ((w / 0x100) % 0x10) * 0x100 + ((w / 0x10) % 0x10) * 0x10 + w % 0x10
        && (w % 0x1000) / 0x100 == (w / 0x100) % 0x10
        && w / 0x1000 < 16) by (bit_vector);
}

/// Every 16-bit word decodes to an instruction whose operands fit their fields, and the word
/// can be read back from the instruction: decoding never fails and loses nothing.
pub proof fn law_decode_total(w: u16)
    ensures
        decode(w).wf(),
        decode(w).word() == w,
{
    lemma_nibbles(w);
}

/// With the built-in font loaded, `FX29` points `I` at `font_start + 5 * D` for the digit `D`
/// in `Vx`, and the five bytes there are that digit's glyph.
pub proof fn law_font_glyph(s: ChipView, x: u8, keys: Seq<bool>, rnd: u8)
    requires
        s.wf(),
        x < 16,
        s.v[x as int] < 16,
    ensures
        ({
            let (t, r) = run(with_default_font(s), ChipInst::LdFont { x }, keys, rnd);
            let d = s.v[x as int];
            &&& r is Ok
            &&& t.i == s.cfg.font_start + 5 * d
            &&& forall|k: int| 0 <= k < 5 ==> #[trigger] t.mem[t.i + k] == default_font()[5 * d + k]
        }),
{
}

/// Drawing a sprite twice at the same place gives back the surface as it was. On a clear
/// surface the first draw turns nothing off, and the second reports a collision exactly when
/// the sprite has a pixel on.
pub proof fn law_draw_twice(px: Seq<bool>, rows: Seq<u8>, x: int, y: int)
    requires
        px.len() == 2048,
    ensures
        drawn(drawn(px, rows, x, y), rows, x, y) == px,
        (forall|p: int| 0 <= p < 2048 ==> !#[trigger] px[p]) ==> {
            &&& !collides(px, rows, x, y)
            &&& collides(drawn(px, rows, x, y), rows, x, y) <==> exists|p: int|
                0 <= p < 2048 && #[trigger] covers(rows, x, y, p)
        },
{
    assert(drawn(drawn(px, rows, x, y), rows, x, y) =~= px);
    if forall|p: int| 0 <= p < 2048 ==> !#[trigger] px[p] {
        let once = drawn(px, rows, x, y);
        if exists|p: int| 0 <= p < 2048 && #[trigger] covers(rows, x, y, p) {
            let p = choose|p: int| 0 <= p < 2048 && #[trigger] covers(rows, x, y, p);
            assert(once[p]);
        }
    }
}

} // verus!
