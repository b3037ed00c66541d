//! The machine state as a mathematical value, and what each instruction does to it.
use vstd::prelude::*;
use crate::display::{collides, drawn};
use crate::instruction::{decode, ChipInst};

verus! {

/// Compatibility settings, fixed when a machine is built.
#[derive(Clone, Copy, Debug, PartialEq, Eq, Structural)]
pub struct ChipCfg {
    /// Address at which the font's glyphs start.
    pub font_start: u16,
    /// When set, `BNNN` jumps to `NNN + V0`; otherwise to `NNN + Vx`.
    pub off_jump_legacy: bool,
    /// When set, `FX55` and `FX65` leave `I` just past the registers they moved.
    pub reg_save_legacy: bool,
    /// When set, `FX1E` sets `VF` to whether `I` overflowed.
    pub index_add_carry: bool,
}

impl ChipCfg {
    /// The font fits in memory from `font_start` on.
    pub open spec fn wf(self) -> bool {
        self.font_start + 80 <= 4096
    }
}

/// Why an instruction could not run. The machine is left as it was when a fault is reported.
#[derive(Clone, Copy, Debug, PartialEq, Eq, Structural)]
pub enum Fault {
    /// A return with nothing on the stack.
    StackUnderflow,
    /// A call with the stack full.
    StackOverflow,
    /// A memory access past the end of memory.
    AddressOutOfRange,
    /// A word that names no operation.
    UnknownOpcode { word: u16 },
}

/// The whole state of a machine.
pub struct ChipView {
    /// Index register.
    pub i: u16,
    /// Program counter: the address of the next instruction.
    pub pc: u16,
    /// Delay timer.
    pub dt: u8,
    /// Sound timer.
    pub st: u8,
    /// Number of return addresses on the stack.
    pub sp: u8,
    /// Registers `V0` to `VF`.
    pub v: Seq<u8>,
    /// Return addresses; the first `sp` are in use.
    pub stack: Seq<u16>,
    /// Memory.
    pub mem: Seq<u8>,
    /// Pixels, row by row.
    pub disp: Seq<bool>,
    /// The register that receives the next key press, while the machine waits for one.
    pub waiting: Option<u8>,
    /// Compatibility settings.
    pub cfg: ChipCfg,
}

impl ChipView {
    /// Sizes are fixed, the stack pointer and the index register stay in range.
    pub open spec fn wf(self) -> bool {
        &&& self.v.len() == 16
        &&& self.stack.len() == 32
        &&& self.mem.len() == 4096
        &&& self.disp.len() == 2048
        &&& self.sp <= 32
        &&& self.i < 4096
        &&& self.cfg.wf()
        &&& (self.waiting matches Some(x) ==> x < 16)
    }
}

/// The built-in glyphs for the hexadecimal digits, five rows each.
pub open spec fn default_font() -> Seq<u8> {
    seq![
        0xF0u8, 0x90, 0x90, 0x90, 0xF0,
        0x20, 0x60, 0x20, 0x20, 0x70,
        0xF0, 0x10, 0xF0, 0x80, 0xF0,
        0xF0, 0x10, 0xF0, 0x10, 0xF0,
        0x90, 0x90, 0xF0, 0x10, 0x10,
        0xF0, 0x80, 0xF0, 0x10, 0xF0,
        0xF0, 0x80, 0xF0, 0x90, 0xF0,
        0xF0, 0x10, 0x20, 0x40, 0x40,
        0xF0, 0x90, 0xF0, 0x90, 0xF0,
        0xF0, 0x90, 0xF0, 0x10, 0xF0,
        0xF0, 0x90, 0xF0, 0x90, 0x90,
        0xE0, 0x90, 0xE0, 0x90, 0xE0,
        0xF0, 0x80, 0x80, 0x80, 0xF0,
        0xE0, 0x90, 0x90, 0x90, 0xE0,
        0xF0, 0x80, 0xF0, 0x80, 0xF0,
        0xF0, 0x80, 0xF0, 0x80, 0x80,
    ]
}

/// `mem` with `bytes` written from address `at` on.
pub open spec fn spliced(mem: Seq<u8>, at: int, bytes: Seq<u8>) -> Seq<u8> {
    Seq::new(mem.len(), |a: int| if at <= a < at + bytes.len() { bytes[a - at] } else { mem[a] })
}

/// The big-endian word at address `a`.
pub open spec fn word_at(mem: Seq<u8>, a: int) -> u16 {
    (mem[a] * 256 + mem[a + 1]) as u16
}

/// The lowest key from `from` on that is pressed, or 16 when there is none.
pub open spec fn first_pressed(keys: Seq<bool>, from: int) -> int
    decreases 16 - from,
{
    if from >= 16 {
        16
    } else if keys[from] {
        from
    } else {
        first_pressed(keys, from + 1)
    }
}

/// Whether the key that `k` names is pressed; a value past the keypad names no key.
pub open spec fn key_down(keys: Seq<bool>, k: u8) -> bool {
    k < 16 && keys[k as int]
}

/// `s` with register `x` set to `val`.
pub open spec fn set_v(s: ChipView, x: u8, val: u8) -> ChipView {
    ChipView { v: s.v.update(x as int, val), ..s }
}

/// `s` with `VF` set to 1 if `f` holds and to 0 otherwise.
pub open spec fn set_flag(s: ChipView, f: bool) -> ChipView {
    set_v(s, 15, if f { 1 } else { 0 })
}

/// `s` past one more instruction if `c` holds.
pub open spec fn skip_if(s: ChipView, c: bool) -> ChipView {
    if c {
        ChipView { pc: ((s.pc + 2) % 0x10000) as u16, ..s }
    } else {
        s
    }
}

/// The index register after `FX55` or `FX65` moved `count` registers.
pub open spec fn index_after_move(s: ChipView, count: int) -> u16 {
    if s.cfg.reg_save_legacy {
        ((s.i + count) % 4096) as u16
    } else {
        s.i
    }
}

/// `s` with the built-in font loaded.
pub open spec fn with_default_font(s: ChipView) -> ChipView {
    ChipView { mem: spliced(s.mem, s.cfg.font_start as int, default_font()), ..s }
}

/// `s` with the next instruction word fetched: the program counter moves past it.
pub open spec fn fetched(s: ChipView) -> ChipView {
    ChipView { pc: (s.pc + 2) as u16, ..s }
}

/// `s` after one tick of the timers: each counts down to zero and stays there.
pub open spec fn ticked(s: ChipView) -> ChipView {
    ChipView {
        dt: if s.dt > 0 { (s.dt - 1) as u8 } else { 0 },
        st: if s.st > 0 { (s.st - 1) as u8 } else { 0 },
        ..s
    }
}

/// What running `inst` on `s` gives, with `keys` the keypad and `rnd` the random byte for
/// `CXNN`: the next state and whether the instruction ran. On a fault the state is `s`.
pub open spec fn run(s: ChipView, inst: ChipInst, keys: Seq<bool>, rnd: u8) -> (ChipView, Result<(), Fault>) {
    match inst {
        ChipInst::Cls => (ChipView { disp: Seq::new(2048, |p: int| false), ..s }, Ok(())),
        ChipInst::Ret => if s.sp == 0 {
            (s, Err(Fault::StackUnderflow))
        } else {
            (ChipView { sp: (s.sp - 1) as u8, pc: s.stack[s.sp - 1], ..s }, Ok(()))
        },
        ChipInst::Sys { .. } => (s, Ok(())),
        ChipInst::Jp { nnn } => (ChipView { pc: nnn, ..s }, Ok(())),
        ChipInst::Call { nnn } => if s.sp >= 32 {
            (s, Err(Fault::StackOverflow))
        } else {
            (
                ChipView {
                    stack: s.stack.update(s.sp as int, s.pc),
                    sp: (s.sp + 1) as u8,
                    pc: nnn,
                    ..s
                },
                Ok(()),
            )
        },
        ChipInst::SeImm { x, nn } => (skip_if(s, s.v[x as int] == nn), Ok(())),
        ChipInst::SneImm { x, nn } => (skip_if(s, s.v[x as int] != nn), Ok(())),
        ChipInst::SeReg { x, y } => (skip_if(s, s.v[x as int] == s.v[y as int]), Ok(())),
        ChipInst::SneReg { x, y } => (skip_if(s, s.v[x as int] != s.v[y as int]), Ok(())),
        ChipInst::LdImm { x, nn } => (set_v(s, x, nn), Ok(())),
        ChipInst::AddImm { x, nn } => (set_v(s, x, ((s.v[x as int] + nn) % 256) as u8), Ok(())),
        ChipInst::LdReg { x, y } => (set_v(s, x, s.v[y as int]), Ok(())),
        ChipInst::Or { x, y } => (set_v(s, x, s.v[x as int] | s.v[y as int]), Ok(())),
        ChipInst::And { x, y } => (set_v(s, x, s.v[x as int] & s.v[y as int]), Ok(())),
        ChipInst::Xor { x, y } => (set_v(s, x, s.v[x as int] ^ s.v[y as int]), Ok(())),
        ChipInst::AddReg { x, y } => {
            let sum = s.v[x as int] + s.v[y as int];
            (set_flag(set_v(s, x, (sum % 256) as u8), sum >= 256), Ok(()))
        },
        ChipInst::SubReg { x, y } => {
            let (a, b) = (s.v[x as int], s.v[y as int]);
            (set_flag(set_v(s, x, ((a - b) % 256) as u8), a >= b), Ok(()))
        },
        ChipInst::Shr { x, .. } => {
            let a = s.v[x as int];
            (set_flag(set_v(s, x, a / 2), a % 2 == 1), Ok(()))
        },
        ChipInst::Subn { x, y } => {
            let (a, b) = (s.v[x as int], s.v[y as int]);
            (set_flag(set_v(s, x, ((b - a) % 256) as u8), b >= a), Ok(()))
        },
        ChipInst::Shl { x, .. } => {
            let a = s.v[x as int];
            (set_flag(set_v(s, x, ((a * 2) % 256) as u8), a >= 128), Ok(()))
        },
        ChipInst::LdI { nnn } => (ChipView { i: nnn, ..s }, Ok(())),
        ChipInst::JpOff { x, nnn } => {
            let base = if s.cfg.off_jump_legacy { s.v[0] } else { s.v[x as int] };
            (ChipView { pc: (nnn + base) as u16, ..s }, Ok(()))
        },
        ChipInst::Rnd { x, nn } => (set_v(s, x, rnd & nn), Ok(())),
        ChipInst::Drw { x, y, n } => if s.i + n > 4096 {
            (s, Err(Fault::AddressOutOfRange))
        } else {
            let rows = s.mem.subrange(s.i as int, s.i + n);
            let (px, py) = (s.v[x as int] as int, s.v[y as int] as int);
            (
                set_flag(
                    ChipView { disp: drawn(s.disp, rows, px, py), ..s },
                    collides(s.disp, rows, px, py),
                ),
                Ok(()),
            )
        },
        ChipInst::Skp { x } => (skip_if(s, key_down(keys, s.v[x as int])), Ok(())),
        ChipInst::Sknp { x } => (skip_if(s, !key_down(keys, s.v[x as int])), Ok(())),
        ChipInst::LdVxDt { x } => (set_v(s, x, s.dt), Ok(())),
        ChipInst::LdKey { x } => {
            let k = first_pressed(keys, 0);
            if k < 16 {
                (set_v(s, x, k as u8), Ok(()))
            } else {
                (ChipView { waiting: Some(x), ..s }, Ok(()))
            }
        },
        ChipInst::LdDtVx { x } => (ChipView { dt: s.v[x as int], ..s }, Ok(())),
        ChipInst::LdStVx { x } => (ChipView { st: s.v[x as int], ..s }, Ok(())),
        ChipInst::AddI { x } => {
            let sum = s.i + s.v[x as int];
            let t = ChipView { i: (sum % 4096) as u16, ..s };
            (if s.cfg.index_add_carry { set_flag(t, sum >= 4096) } else { t }, Ok(()))
        },
        ChipInst::LdFont { x } => (
            ChipView { i: (s.cfg.font_start + 5 * (s.v[x as int] % 16)) as u16, ..s },
            Ok(()),
        ),
        ChipInst::Bcd { x } => if s.i + 3 > 4096 {
            (s, Err(Fault::AddressOutOfRange))
        } else {
            let a = s.v[x as int];
            let digits = seq![(a / 100) as u8, ((a / 10) % 10) as u8, (a % 10) as u8];
            (ChipView { mem: spliced(s.mem, s.i as int, digits), ..s }, Ok(()))
        },
        ChipInst::Store { x } => if s.i + x + 1 > 4096 {
            (s, Err(Fault::AddressOutOfRange))
        } else {
            (
                ChipView {
                    mem: spliced(s.mem, s.i as int, s.v.subrange(0, x + 1)),
                    i: index_after_move(s, x + 1),
                    ..s
                },
                Ok(()),
            )
        },
        ChipInst::Load { x } => if s.i + x + 1 > 4096 {
            (s, Err(Fault::AddressOutOfRange))
        } else {
            (
                ChipView {
                    v: spliced(s.v, 0, s.mem.subrange(s.i as int, s.i + x + 1)),
                    i: index_after_move(s, x + 1),
                    ..s
                },
                Ok(()),
            )
        },
        ChipInst::Unknown { word } => (s, Err(Fault::UnknownOpcode { word })),
    }
}

/// One cycle of the machine on `s`. While it waits for a key it only takes the lowest pressed
/// key, if any. Otherwise it fetches the word at the program counter, moves past it, and runs
/// the instruction; a program counter whose word lies past the end of memory is a fault.
pub open spec fn cycle(s: ChipView, keys: Seq<bool>, rnd: u8) -> (ChipView, Result<(), Fault>) {
    match s.waiting {
        Some(x) => {
            let k = first_pressed(keys, 0);
            if k < 16 {
                (ChipView { waiting: None, ..set_v(s, x, k as u8) }, Ok(()))
            } else {
                (s, Ok(()))
            }
        },
        None => if s.pc + 1 >= 4096 {
            (s, Err(Fault::AddressOutOfRange))
        } else {
            run(fetched(s), decode(word_at(s.mem, s.pc as int)), keys, rnd)
        },
    }
}

} // verus!
