//! The machine: memory, registers, stack, timers and display, and the cycle that drives them.
use vstd::prelude::*;
use crate::display::Display;
use crate::instruction::{decode, ChipInst};
use crate::semantics::{
    cycle, default_font, fetched, first_pressed, run, spliced, ticked, with_default_font, word_at,
    ChipCfg, ChipView, Fault,
};

verus! {

/// Address at which programs are loaded.
pub const PROGRAM_START: usize = 0x200;

/// Size of memory in bytes.
pub const MEMORY_SIZE: usize = 4096;

/// Size of a font table: sixteen glyphs of five bytes.
pub const FONT_SIZE: usize = 80;

impl Default for ChipCfg {
    /// Font at 0x050, every legacy behaviour off.
    fn default() -> (c: ChipCfg)
        ensures
            c == (ChipCfg {
                font_start: 0x050,
                off_jump_legacy: false,
                reg_save_legacy: false,
                index_add_carry: false,
            }),
    {
        ChipCfg {
            font_start: 0x050,
            off_jump_legacy: false,
            reg_save_legacy: false,
            index_add_carry: false,
        }
    }
}

/// Why an image could not be loaded. Memory is left as it was.
#[derive(Clone, Copy, Debug, PartialEq, Eq, Structural)]
pub enum LoadError {
    /// The program is longer than the memory from the program start on.
    OutOfSpace,
    /// A font table is not sixteen glyphs of five bytes.
    FontSize,
}

/// A CHIP-8 machine.
pub struct Chip8 {
    i: u16,
    pc: u16,
    dt: u8,
    st: u8,
    sp: u8,
    v: [u8; 16],
    stack: [u16; 32],
    mem: [u8; 4096],
    disp: Display,
    config: ChipCfg,
    waiting: Option<u8>,
}

impl View for Chip8 {
    type V = ChipView;

    closed spec fn view(&self) -> ChipView {
        ChipView {
            i: self.i,
            pc: self.pc,
            dt: self.dt,
            st: self.st,
            sp: self.sp,
            v: self.v@,
            stack: self.stack@,
            mem: self.mem@,
            disp: self.disp@,
            waiting: self.waiting,
            cfg: self.config,
        }
    }
}

/// The built-in glyphs.
fn default_font_bytes() -> (f: [u8; 80])
    ensures
        f@ == default_font(),
{
    let f: [u8; 80] = [
        0xF0, 0x90, 0x90, 0x90, 0xF0,
        0x20, 0x60, 0x20, 0x20, 0x70,
        0xF0, 0x10, 0xF0, 0x80, 0xF0,
        0xF0, 0x10, 0xF0, 0x10, 0xF0,
        0x90, 0x90, 0xF0, 0x10, 0x10,
        0xF0, 0x80, 0xF0, 0x10, 0xF0,
        0xF0, 0x80, 0xF0, 0x90, 0xF0,
        0xF0, 0x10, 0x20, 0x40, 0x40,
        0xF0, 0x90, 0xF0, 0x90, 0xF0,
        0xF0, 0x90, 0xF0, 0x10, 0xF0,
        0xF0, 0x90, 0xF0, 0x90, 0x90,
        0xE0, 0x90, 0xE0, 0x90, 0xE0,
        0xF0, 0x80, 0x80, 0x80, 0xF0,
        0xE0, 0x90, 0x90, 0x90, 0xE0,
        0xF0, 0x80, 0xF0, 0x80, 0xF0,
        0xF0, 0x80, 0xF0, 0x80, 0x80,
    ];
    assert(f@ =~= default_font());
    f
}

/// The lowest pressed key, or 16 when none is.
fn lowest_pressed(keys: &[bool; 16]) -> (k: u8)
    ensures
        k as int == first_pressed(keys@, 0),
{
    let mut k: usize = 0;
    while k < 16
        invariant
            k <= 16,
            first_pressed(keys@, 0) == first_pressed(keys@, k as int),
        decreases 16 - k,
    {
        if keys[k] {
            return k as u8;
        }
        k += 1;
    }
    16
}

/// `a + b` modulo 256.
fn add_wrap(a: u8, b: u8) -> (r: u8)
    ensures
        r == ((a + b) % 256) as u8,
{
    ((a as u16 + b as u16) % 256) as u8
}

/// `a - b` modulo 256.
fn sub_wrap(a: u8, b: u8) -> (r: u8)
    ensures
        r == ((a - b) % 256) as u8,
{
    if a >= b {
        a - b
    } else {
        (256 - b as u16 + a as u16) as u8
    }
}

/// `2 * a` modulo 256.
fn shl_wrap(a: u8) -> (r: u8)
    ensures
        r == ((a * 2) % 256) as u8,
{
    ((a as u16 * 2) % 256) as u8
}

/// Jumps, calls, returns, skips and the screen clear.
spec fn is_flow(inst: ChipInst) -> bool {
    inst is Call
        || inst is Cls
        || inst is Jp
        || inst is JpOff
        || inst is Ret
        || inst is SeImm
        || inst is SeReg
        || inst is Sknp
        || inst is Skp
        || inst is SneImm
        || inst is SneReg
        || inst is Sys
}

/// Whether `inst` is a jump, call, return, skip or the screen clear.
fn is_flow_inst(inst: &ChipInst) -> (b: bool)
    ensures
        b == is_flow(*inst),
{
    match *inst {
        ChipInst::Call { .. }
            | ChipInst::Cls
            | ChipInst::Jp { .. }
            | ChipInst::JpOff { .. }
            | ChipInst::Ret
            | ChipInst::SeImm { .. }
            | ChipInst::SeReg { .. }
            | ChipInst::Sknp { .. }
            | ChipInst::Skp { .. }
            | ChipInst::SneImm { .. }
            | ChipInst::SneReg { .. }
            | ChipInst::Sys { .. } => true,
        _ => false,
    }
}

/// Operations on registers alone.
spec fn is_alu(inst: ChipInst) -> bool {
    inst is AddImm
        || inst is AddReg
        || inst is And
        || inst is LdImm
        || inst is LdReg
        || inst is Or
        || inst is Rnd
        || inst is Shl
        || inst is Shr
        || inst is SubReg
        || inst is Subn
        || inst is Xor
}

/// Whether `inst` works on registers alone.
fn is_alu_inst(inst: &ChipInst) -> (b: bool)
    ensures
        b == is_alu(*inst),
{
    match *inst {
        ChipInst::AddImm { .. }
            | ChipInst::AddReg { .. }
            | ChipInst::And { .. }
            | ChipInst::LdImm { .. }
            | ChipInst::LdReg { .. }
            | ChipInst::Or { .. }
            | ChipInst::Rnd { .. }
            | ChipInst::Shl { .. }
            | ChipInst::Shr { .. }
            | ChipInst::SubReg { .. }
            | ChipInst::Subn { .. }
            | ChipInst::Xor { .. } => true,
        _ => false,
    }
}

/// The instructions that touch memory, the index register, the timers or the keypad.
spec fn is_other(inst: ChipInst) -> bool {
    inst is AddI
        || inst is Bcd
        || inst is Drw
        || inst is LdDtVx
        || inst is LdFont
        || inst is LdI
        || inst is LdKey
        || inst is LdStVx
        || inst is LdVxDt
        || inst is Load
        || inst is Store
        || inst is Unknown
}

impl Chip8 {
    /// A machine with the given settings: memory, registers, stack and timers zeroed, the
    /// display off, and the program counter at the program start.
    pub fn with_config(config: ChipCfg) -> (m: Chip8)
        requires
            config.wf(),
        ensures
            m@.wf(),
            m@ == (ChipView {
                i: 0,
                pc: 0x200,
                dt: 0,
                st: 0,
                sp: 0,
                v: Seq::new(16, |r: int| 0u8),
                stack: Seq::new(32, |r: int| 0u16),
                mem: Seq::new(4096, |a: int| 0u8),
                disp: Seq::new(2048, |p: int| false),
                waiting: None,
                cfg: config,
            }),
    {
        let m = Chip8 {
            i: 0,
            pc: 0x200,
            dt: 0,
            st: 0,
            sp: 0,
            v: [0; 16],
            stack: [0; 32],
            mem: [0; 4096],
            disp: Display::new(),
            config,
            waiting: None,
        };
        assert(m.v@ =~= Seq::new(16, |r: int| 0u8));
        assert(m.stack@ =~= Seq::new(32, |r: int| 0u16));
        assert(m.mem@ =~= Seq::new(4096, |a: int| 0u8));
        m
    }

    /// A machine with the default settings, zeroed as `with_config` does.
    pub fn new() -> (m: Chip8)
        ensures
            m@.wf(),
            m@ == (ChipView {
                i: 0,
                pc: 0x200,
                dt: 0,
                st: 0,
                sp: 0,
                v: Seq::new(16, |r: int| 0u8),
                stack: Seq::new(32, |r: int| 0u16),
                mem: Seq::new(4096, |a: int| 0u8),
                disp: Seq::new(2048, |p: int| false),
                waiting: None,
                cfg: ChipCfg {
                    font_start: 0x050,
                    off_jump_legacy: false,
                    reg_save_legacy: false,
                    index_add_carry: false,
                },
            }),
    {
        Chip8::with_config(ChipCfg::default())
    }

    /// Copies a program image into memory from the program start on; an image longer than
    /// that part of memory is refused.
    pub fn load_program(&mut self, bytes: &[u8]) -> (r: Result<(), LoadError>)
        requires
            old(self)@.wf(),
        ensures
            final(self)@.wf(),
            bytes@.len() <= 4096 - 0x200 ==> r == Ok::<(), LoadError>(()) && final(self)@ == (
            ChipView { mem: spliced(old(self)@.mem, 0x200, bytes@), ..old(self)@ }),
            bytes@.len() > 4096 - 0x200 ==> r == Err::<(), LoadError>(LoadError::OutOfSpace)
                && final(self)@ == old(self)@,
    {
        if bytes.len() > MEMORY_SIZE - PROGRAM_START {
            return Err(LoadError::OutOfSpace);
        }
        let ghost before = self.mem@;
        assert(before == old(self)@.mem);
        let mut k: usize = 0;
        while k < bytes.len()
            invariant
                k <= bytes@.len() <= 4096 - 0x200,
                self.mem@.len() == 4096,
                self.mem@ == spliced(before, 0x200, bytes@.subrange(0, k as int)),
                self@ == (ChipView { mem: self.mem@, ..old(self)@ }),
            decreases bytes.len() - k,
        {
            self.mem[PROGRAM_START + k] = bytes[k];
            k += 1;
            assert(self.mem@ =~= spliced(before, 0x200, bytes@.subrange(0, k as int)));
        }
        assert(bytes@.subrange(0, k as int) =~= bytes@);
        Ok(())
    }

    /// Copies a font table of sixteen five-byte glyphs into memory at the font address; a
    /// table of another size is refused.
    pub fn load_font_bytes(&mut self, font: &[u8]) -> (r: Result<(), LoadError>)
        requires
            old(self)@.wf(),
        ensures
            final(self)@.wf(),
            font@.len() == 80 ==> r == Ok::<(), LoadError>(()) && final(self)@ == (ChipView {
                mem: spliced(old(self)@.mem, old(self)@.cfg.font_start as int, font@),
                ..old(self)@
            }),
            font@.len() != 80 ==> r == Err::<(), LoadError>(LoadError::FontSize) && final(self)@
                == old(self)@,
    {
        if font.len() != FONT_SIZE {
            return Err(LoadError::FontSize);
        }
        self.copy_font(font);
        Ok(())
    }

    /// Writes the 80 bytes of `font` at the font address.
    fn copy_font(&mut self, font: &[u8])
        requires
            old(self)@.wf(),
            font@.len() == 80,
        ensures
            final(self)@ == (ChipView {
                mem: spliced(old(self)@.mem, old(self)@.cfg.font_start as int, font@),
                ..old(self)@
            }),
    {
        let ghost before = self.mem@;
        let start = self.config.font_start as usize;
        let mut k: usize = 0;
        while k < FONT_SIZE
            invariant
                k <= 80,
                font@.len() == 80,
                start == self.config.font_start,
                start + 80 <= 4096,
                self.mem@.len() == 4096,
                self.mem@ == spliced(before, start as int, font@.subrange(0, k as int)),
                self@ == (ChipView { mem: self.mem@, ..old(self)@ }),
            decreases 80 - k,
        {
            self.mem[start + k] = font[k];
            k += 1;
            assert(self.mem@ =~= spliced(before, start as int, font@.subrange(0, k as int)));
        }
        assert(font@.subrange(0, 80) =~= font@);
    }

    /// Copies the built-in hexadecimal font into memory at the font address.
    pub fn load_default_font(&mut self)
        requires
            old(self)@.wf(),
        ensures
            final(self)@.wf(),
            final(self)@ == with_default_font(old(self)@),
    {
        let font = default_font_bytes();
        self.copy_font(font.as_slice());
    }

    /// Reads the instruction word at the program counter, moves the program counter past it,
    /// and decodes the word.
    pub fn fetch(&mut self) -> (inst: ChipInst)
        requires
            old(self)@.wf(),
            old(self)@.pc + 1 < 4096,
        ensures
            final(self)@.wf(),
            final(self)@ == fetched(old(self)@),
            inst == decode(word_at(old(self)@.mem, old(self)@.pc as int)),
            inst.wf(),
    {
        let hi = self.mem[self.pc as usize];
        let lo = self.mem[self.pc as usize + 1];
        self.pc = self.pc + 2;
        ChipInst::new(hi as u16 * 256 + lo as u16)
    }

    /// One tick of the timers: each counts down to zero and stays there.
    pub fn tick_timers(&mut self)
        requires
            old(self)@.wf(),
        ensures
            final(self)@.wf(),
            final(self)@ == ticked(old(self)@),
    {
        if self.dt > 0 {
            self.dt = self.dt - 1;
        }
        if self.st > 0 {
            self.st = self.st - 1;
        }
    }

    /// Moves the program counter past the next instruction.
    fn skip(&mut self)
        ensures
            final(self)@ == (ChipView { pc: ((old(self)@.pc + 2) % 0x10000) as u16, ..old(self)@ }),
    {
        self.pc = self.pc.wrapping_add(2);
    }

    /// Sets `VF` to 1 if `f` holds and to 0 otherwise.
    fn set_flag(&mut self, f: bool)
        ensures
            final(self)@ == (ChipView { v: old(self)@.v.update(15, if f { 1u8 } else { 0u8 }), ..old(self)@ }),
    {
        self.v[15] = if f { 1 } else { 0 };
    }

    /// `DXYN`: draws the `n` bytes at `I` as a sprite at (`Vx`, `Vy`).
    fn draw(&mut self, x: u8, y: u8, n: u8, keys: &[bool; 16], rnd: u8) -> (r: Result<(), Fault>)
        requires
            old(self)@.wf(),
            x < 16,
            y < 16,
            n < 16,
        ensures
            (final(self)@, r) == run(old(self)@, ChipInst::Drw { x, y, n }, keys@, rnd),
    {
        let start = self.i as usize;
        let len = n as usize;
        if start + len > MEMORY_SIZE {
            return Err(Fault::AddressOutOfRange);
        }
        let mut rows: Vec<u8> = Vec::new();
        let mut k: usize = 0;
        while k < len
            invariant
                k <= len,
                start + len <= 4096,
                self.mem@.len() == 4096,
                rows@ == self.mem@.subrange(start as int, (start + k) as int),
            decreases len - k,
        {
            rows.push(self.mem[start + k]);
            k += 1;
            assert(rows@ =~= self.mem@.subrange(start as int, (start + k) as int));
        }
        let collided = self.disp.draw_sprite(self.v[x as usize], self.v[y as usize], rows.as_slice());
        self.set_flag(collided);
        Ok(())
    }

    /// `FX55`: stores `V0..=Vx` at `I`.
    fn store_regs(&mut self, x: u8, keys: &[bool; 16], rnd: u8) -> (r: Result<(), Fault>)
        requires
            old(self)@.wf(),
            x < 16,
        ensures
            (final(self)@, r) == run(old(self)@, ChipInst::Store { x }, keys@, rnd),
    {
        let start = self.i as usize;
        let count = x as usize + 1;
        if start + count > MEMORY_SIZE {
            return Err(Fault::AddressOutOfRange);
        }
        let ghost before = self.mem@;
        let mut k: usize = 0;
        while k < count
            invariant
                k <= count <= 16,
                start + count <= 4096,
                start == old(self)@.i,
                before == old(self)@.mem,
                self.mem@.len() == 4096,
                self.mem@ == spliced(before, start as int, self.v@.subrange(0, k as int)),
                self@ == (ChipView { mem: self.mem@, ..old(self)@ }),
            decreases count - k,
        {
            self.mem[start + k] = self.v[k];
            k += 1;
            assert(self.mem@ =~= spliced(before, start as int, self.v@.subrange(0, k as int)));
        }
        if self.config.reg_save_legacy {
            self.i = ((start + count) % MEMORY_SIZE) as u16;
        }
        Ok(())
    }

    /// `FX65`: loads `V0..=Vx` from `I`.
    fn load_regs(&mut self, x: u8, keys: &[bool; 16], rnd: u8) -> (r: Result<(), Fault>)
        requires
            old(self)@.wf(),
            x < 16,
        ensures
            (final(self)@, r) == run(old(self)@, ChipInst::Load { x }, keys@, rnd),
    {
        let start = self.i as usize;
        let count = x as usize + 1;
        if start + count > MEMORY_SIZE {
            return Err(Fault::AddressOutOfRange);
        }
        let ghost src = self.mem@.subrange(start as int, (start + count) as int);
        let mut k: usize = 0;
        while k < count
            invariant
                k <= count <= 16,
                start + count <= 4096,
                start == old(self)@.i,
                src == old(self)@.mem.subrange(start as int, (start + count) as int),
                self.v@ == spliced(old(self)@.v, 0, src.subrange(0, k as int)),
                self@ == (ChipView { v: self.v@, ..old(self)@ }),
            decreases count - k,
        {
            self.v[k] = self.mem[start + k];
            k += 1;
            assert(self.v@ =~= spliced(old(self)@.v, 0, src.subrange(0, k as int)));
        }
        assert(src.subrange(0, count as int) =~= src);
        if self.config.reg_save_legacy {
            self.i = ((start + count) % MEMORY_SIZE) as u16;
        }
        Ok(())
    }

    /// `FX33`: stores the three decimal digits of `Vx` at `I`, `I+1` and `I+2`.
    fn store_bcd(&mut self, x: u8, keys: &[bool; 16], rnd: u8) -> (r: Result<(), Fault>)
        requires
            old(self)@.wf(),
            x < 16,
        ensures
            (final(self)@, r) == run(old(self)@, ChipInst::Bcd { x }, keys@, rnd),
    {
        let start = self.i as usize;
        if start + 3 > MEMORY_SIZE {
            return Err(Fault::AddressOutOfRange);
        }
        let a = self.v[x as usize];
        self.mem[start] = a / 100;
        self.mem[start + 1] = (a / 10) % 10;
        self.mem[start + 2] = a % 10;
        assert(self.mem@ =~= spliced(
            old(self)@.mem,
            start as int,
            seq![(a / 100) as u8, ((a / 10) % 10) as u8, (a % 10) as u8],
        ));
        Ok(())
    }

    /// Runs a jump, call, return, skip or screen clear.
    fn exec_flow(&mut self, inst: ChipInst, keys: &[bool; 16], rnd: u8) -> (r: Result<(), Fault>)
        requires
            old(self)@.wf(),
            inst.wf(),
            is_flow(inst),
        ensures
            (final(self)@, r) == run(old(self)@, inst, keys@, rnd),
    {
        match inst {
            ChipInst::Cls => {
                self.disp.clear();
                Ok(())
            },
            ChipInst::Ret => {
                if self.sp == 0 {
                    return Err(Fault::StackUnderflow);
                }
                self.sp = self.sp - 1;
                self.pc = self.stack[self.sp as usize];
                Ok(())
            },
            ChipInst::Sys { .. } => Ok(()),
            ChipInst::Jp { nnn } => {
                self.pc = nnn;
                Ok(())
            },
            ChipInst::Call { nnn } => {
                if self.sp >= 32 {
                    return Err(Fault::StackOverflow);
                }
                self.stack[self.sp as usize] = self.pc;
                self.sp = self.sp + 1;
                self.pc = nnn;
                Ok(())
            },
            ChipInst::SeImm { x, nn } => {
                if self.v[x as usize] == nn {
                    self.skip();
                }
                Ok(())
            },
            ChipInst::SneImm { x, nn } => {
                if self.v[x as usize] != nn {
                    self.skip();
                }
                Ok(())
            },
            ChipInst::SeReg { x, y } => {
                if self.v[x as usize] == self.v[y as usize] {
                    self.skip();
                }
                Ok(())
            },
            ChipInst::SneReg { x, y } => {
                if self.v[x as usize] != self.v[y as usize] {
                    self.skip();
                }
                Ok(())
            },
            ChipInst::JpOff { x, nnn } => {
                let base = if self.config.off_jump_legacy {
                    self.v[0]
                } else {
                    self.v[x as usize]
                };
                self.pc = nnn + base as u16;
                Ok(())
            },
            ChipInst::Skp { x } => {
                let k = self.v[x as usize];
                if k < 16 && keys[k as usize] {
                    self.skip();
                }
                Ok(())
            },
            ChipInst::Sknp { x } => {
                let k = self.v[x as usize];
                if !(k < 16 && keys[k as usize]) {
                    self.skip();
                }
                Ok(())
            },
            // the other instructions are left out by `requires`
            _ => Ok(()),
        }
    }

    /// Runs an operation on registers alone.
    fn exec_alu(&mut self, inst: ChipInst, keys: &[bool; 16], rnd: u8) -> (r: Result<(), Fault>)
        requires
            old(self)@.wf(),
            inst.wf(),
            is_alu(inst),
        ensures
            (final(self)@, r) == run(old(self)@, inst, keys@, rnd),
    {
        match inst {
            ChipInst::LdImm { x, nn } => {
                self.v[x as usize] = nn;
                Ok(())
            },
            ChipInst::AddImm { x, nn } => {
                self.v[x as usize] = add_wrap(self.v[x as usize], nn);
                Ok(())
            },
            ChipInst::LdReg { x, y } => {
                self.v[x as usize] = self.v[y as usize];
                Ok(())
            },
            ChipInst::Or { x, y } => {
                self.v[x as usize] = self.v[x as usize] | self.v[y as usize];
                Ok(())
            },
            ChipInst::And { x, y } => {
                self.v[x as usize] = self.v[x as usize] & self.v[y as usize];
                Ok(())
            },
            ChipInst::Xor { x, y } => {
                self.v[x as usize] = self.v[x as usize] ^ self.v[y as usize];
                Ok(())
            },
            ChipInst::AddReg { x, y } => {
                let (a, b) = (self.v[x as usize], self.v[y as usize]);
                self.v[x as usize] = add_wrap(a, b);
                self.set_flag(a as u16 + b as u16 >= 256);
                Ok(())
            },
            ChipInst::SubReg { x, y } => {
                let (a, b) = (self.v[x as usize], self.v[y as usize]);
                self.v[x as usize] = sub_wrap(a, b);
                self.set_flag(a >= b);
                Ok(())
            },
            ChipInst::Shr { x, .. } => {
                let a = self.v[x as usize];
                self.v[x as usize] = a / 2;
                self.set_flag(a % 2 == 1);
                Ok(())
            },
            ChipInst::Subn { x, y } => {
                let (a, b) = (self.v[x as usize], self.v[y as usize]);
                self.v[x as usize] = sub_wrap(b, a);
                self.set_flag(b >= a);
                Ok(())
            },
            ChipInst::Shl { x, .. } => {
                let a = self.v[x as usize];
                self.v[x as usize] = shl_wrap(a);
                self.set_flag(a >= 128);
                Ok(())
            },
            ChipInst::Rnd { x, nn } => {
                self.v[x as usize] = rnd & nn;
                Ok(())
            },
            // the other instructions are left out by `requires`
            _ => Ok(()),
        }
    }

    /// Runs an instruction that reads or writes memory, the index register, the timers or the keypad.
    fn exec_other(&mut self, inst: ChipInst, keys: &[bool; 16], rnd: u8) -> (r: Result<(), Fault>)
        requires
            old(self)@.wf(),
            inst.wf(),
            is_other(inst),
        ensures
            (final(self)@, r) == run(old(self)@, inst, keys@, rnd),
    {
        match inst {
            ChipInst::LdI { nnn } => {
                self.i = nnn;
                Ok(())
            },
            ChipInst::Drw { x, y, n } => self.draw(x, y, n, keys, rnd),
            ChipInst::LdVxDt { x } => {
                self.v[x as usize] = self.dt;
                Ok(())
            },
            ChipInst::LdKey { x } => {
                let k = lowest_pressed(keys);
                if k < 16 {
                    self.v[x as usize] = k;
                } else {
                    self.waiting = Some(x);
                }
                Ok(())
            },
            ChipInst::LdDtVx { x } => {
                self.dt = self.v[x as usize];
                Ok(())
            },
            ChipInst::LdStVx { x } => {
                self.st = self.v[x as usize];
                Ok(())
            },
            ChipInst::AddI { x } => {
                let sum: u16 = self.i + self.v[x as usize] as u16;
                self.i = sum % 4096;
                if self.config.index_add_carry {
                    self.set_flag(sum >= 4096);
                }
                Ok(())
            },
            ChipInst::LdFont { x } => {
                self.i = self.config.font_start + 5 * (self.v[x as usize] % 16) as u16;
                Ok(())
            },
            ChipInst::Bcd { x } => self.store_bcd(x, keys, rnd),
            ChipInst::Store { x } => self.store_regs(x, keys, rnd),
            ChipInst::Load { x } => self.load_regs(x, keys, rnd),
            ChipInst::Unknown { word } => Err(Fault::UnknownOpcode { word }),
            // the other instructions are left out by `requires`
            _ => Ok(()),
        }
    }

    /// Runs one decoded instruction. `keys` is the keypad, pressed keys `true`; `rnd` is the
    /// random byte that `CXNN` masks. The program counter is not moved past the instruction
    /// here: `fetch` does that. A fault leaves the machine as it was.
    pub fn execute(&mut self, inst: ChipInst, keys: &[bool; 16], rnd: u8) -> (r: Result<(), Fault>)
        requires
            old(self)@.wf(),
            inst.wf(),
        ensures
            final(self)@.wf(),
            (final(self)@, r) == run(old(self)@, inst, keys@, rnd),
    {
        if is_flow_inst(&inst) {
            self.exec_flow(inst, keys, rnd)
        } else if is_alu_inst(&inst) {
            self.exec_alu(inst, keys, rnd)
        } else {
            self.exec_other(inst, keys, rnd)
        }
    }


    /// One cycle: while waiting for a key, takes the lowest pressed key into the waiting
    /// register, if any; otherwise fetches, decodes and runs the next instruction. A program
    /// counter whose word lies past the end of memory is a fault.
    pub fn step(&mut self, keys: &[bool; 16], rnd: u8) -> (r: Result<(), Fault>)
        requires
            old(self)@.wf(),
        ensures
            final(self)@.wf(),
            (final(self)@, r) == cycle(old(self)@, keys@, rnd),
    {
        match self.waiting {
            Some(x) => {
                let k = lowest_pressed(keys);
                if k < 16 {
                    self.v[x as usize] = k;
                    self.waiting = None;
                }
                Ok(())
            },
            None => {
                if self.pc as usize + 1 >= MEMORY_SIZE {
                    return Err(Fault::AddressOutOfRange);
                }
                let inst = self.fetch();
                self.execute(inst, keys, rnd)
            },
        }
    }

    /// Register `Vx`.
    pub fn register(&self, x: u8) -> (r: u8)
        requires
            self@.wf(),
            x < 16,
        ensures
            r == self@.v[x as int],
    {
        self.v[x as usize]
    }

    /// The index register.
    pub fn index(&self) -> (r: u16)
        ensures
            r == self@.i,
    {
        self.i
    }

    /// The program counter.
    pub fn pc(&self) -> (r: u16)
        ensures
            r == self@.pc,
    {
        self.pc
    }

    /// The number of return addresses on the stack.
    pub fn stack_pointer(&self) -> (r: u8)
        ensures
            r == self@.sp,
    {
        self.sp
    }

    /// The delay timer.
    pub fn delay_timer(&self) -> (r: u8)
        ensures
            r == self@.dt,
    {
        self.dt
    }

    /// The sound timer.
    pub fn sound_timer(&self) -> (r: u8)
        ensures
            r == self@.st,
    {
        self.st
    }

    /// The byte at address `a`.
    pub fn memory(&self, a: u16) -> (r: u8)
        requires
            self@.wf(),
            a < 4096,
        ensures
            r == self@.mem[a as int],
    {
        self.mem[a as usize]
    }

    /// The display.
    pub fn display(&self) -> (d: &Display)
        ensures
            d@ == self@.disp,
    {
        &self.disp
    }

    /// The register that receives the next key press, while the machine waits for one.
    pub fn awaiting_key(&self) -> (r: Option<u8>)
        ensures
            r == self@.waiting,
    {
        self.waiting
    }

    /// The compatibility settings.
    pub fn config(&self) -> (c: ChipCfg)
        ensures
            c == self@.cfg,
    {
        self.config
    }
}

} // verus!
