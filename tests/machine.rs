use chip8::instruction::ChipInst;
use chip8::machine::{Chip8, LoadError};
use chip8::semantics::{ChipCfg, Fault};

const NO_KEYS: [bool; 16] = [false; 16];

fn run_words(chip: &mut Chip8, words: &[u16]) {
    for w in words {
        chip.execute(ChipInst::new(*w), &NO_KEYS, 0).unwrap();
    }
}

fn machine_with(cfg: ChipCfg) -> Chip8 {
    Chip8::with_config(cfg)
}

#[test]
fn new_machine_is_zeroed() {
    let chip = Chip8::new();
    assert_eq!(chip.pc(), 0x200);
    assert_eq!(chip.index(), 0);
    assert_eq!(chip.stack_pointer(), 0);
    assert_eq!(chip.delay_timer(), 0);
    assert_eq!(chip.sound_timer(), 0);
    for x in 0..16u8 {
        assert_eq!(chip.register(x), 0);
    }
    assert_eq!(chip.memory(0x200), 0);
    assert_eq!(chip.config().font_start, 0x050);
    assert!(!chip.config().off_jump_legacy);
    assert!(!chip.config().reg_save_legacy);
    assert!(!chip.config().index_add_carry);
    assert_eq!(chip.awaiting_key(), None);
}

#[test]
fn set_then_add_registers() {
    let mut chip = Chip8::new();
    chip.load_program(&[0x60, 0x05, 0x61, 0x08, 0x80, 0x14]).unwrap();
    for _ in 0..3 {
        chip.step(&NO_KEYS, 0).unwrap();
    }
    assert_eq!(chip.register(0), 0x0D);
    assert_eq!(chip.register(1), 0x08);
    assert_eq!(chip.register(0xF), 0);
    assert_eq!(chip.pc(), 0x206);
}

#[test]
fn return_with_empty_stack_faults() {
    let mut chip = Chip8::new();
    chip.load_program(&[0x00, 0xEE]).unwrap();
    assert_eq!(chip.execute(ChipInst::Ret, &NO_KEYS, 0), Err(Fault::StackUnderflow));
    assert_eq!(chip.pc(), 0x200);
    assert_eq!(chip.stack_pointer(), 0);
    assert_eq!(chip.step(&NO_KEYS, 0), Err(Fault::StackUnderflow));
    assert_eq!(chip.stack_pointer(), 0);
    assert_eq!(chip.pc(), 0x202);
}

#[test]
fn jump_with_offset_follows_setting() {
    let mut modern = Chip8::new();
    run_words(&mut modern, &[0x6003, 0x6210, 0xB234]);
    assert_eq!(modern.pc(), 0x234 + 0x10);

    let mut legacy = machine_with(ChipCfg {
        font_start: 0x050,
        off_jump_legacy: true,
        reg_save_legacy: false,
        index_add_carry: false,
    });
    run_words(&mut legacy, &[0x6003, 0x6210, 0xB234]);
    assert_eq!(legacy.pc(), 0x234 + 0x03);
}

#[test]
fn add_wraps_and_sets_carry() {
    let mut chip = Chip8::new();
    run_words(&mut chip, &[0x60FF, 0x6101, 0x8014]);
    assert_eq!(chip.register(0), 0x00);
    assert_eq!(chip.register(0xF), 1);
    run_words(&mut chip, &[0x6080, 0x617F, 0x8014]);
    assert_eq!(chip.register(0), 0xFF);
    assert_eq!(chip.register(0xF), 0);
}

#[test]
fn sub_sets_no_borrow_flag() {
    let mut chip = Chip8::new();
    run_words(&mut chip, &[0x6005, 0x6108, 0x8015]);
    assert_eq!(chip.register(0), 0xFD);
    assert_eq!(chip.register(0xF), 0);
    run_words(&mut chip, &[0x6008, 0x6105, 0x8015]);
    assert_eq!(chip.register(0), 0x03);
    assert_eq!(chip.register(0xF), 1);
    run_words(&mut chip, &[0x6007, 0x6107, 0x8015]);
    assert_eq!(chip.register(0), 0x00);
    assert_eq!(chip.register(0xF), 1);
}

#[test]
fn subn_sets_no_borrow_flag() {
    let mut chip = Chip8::new();
    run_words(&mut chip, &[0x6005, 0x6108, 0x8017]);
    assert_eq!(chip.register(0), 0x03);
    assert_eq!(chip.register(0xF), 1);
    run_words(&mut chip, &[0x6008, 0x6105, 0x8017]);
    assert_eq!(chip.register(0), 0xFD);
    assert_eq!(chip.register(0xF), 0);
}

#[test]
fn shifts_report_the_bit_shifted_out() {
    let mut chip = Chip8::new();
    run_words(&mut chip, &[0x6005, 0x8006]);
    assert_eq!(chip.register(0), 0x02);
    assert_eq!(chip.register(0xF), 1);
    run_words(&mut chip, &[0x6081, 0x800E]);
    assert_eq!(chip.register(0), 0x02);
    assert_eq!(chip.register(0xF), 1);
    run_words(&mut chip, &[0x6041, 0x800E]);
    assert_eq!(chip.register(0), 0x82);
    assert_eq!(chip.register(0xF), 0);
}

#[test]
fn add_immediate_wraps_without_flag() {
    let mut chip = Chip8::new();
    run_words(&mut chip, &[0x6F07, 0x60F0, 0x7020]);
    assert_eq!(chip.register(0), 0x10);
    assert_eq!(chip.register(0xF), 0x07);
}

#[test]
fn logic_operations() {
    let mut chip = Chip8::new();
    run_words(&mut chip, &[0x60CC, 0x61AA, 0x8011]);
    assert_eq!(chip.register(0), 0xEE);
    run_words(&mut chip, &[0x60CC, 0x8012]);
    assert_eq!(chip.register(0), 0x88);
    run_words(&mut chip, &[0x60CC, 0x8013]);
    assert_eq!(chip.register(0), 0x66);
    run_words(&mut chip, &[0x8010]);
    assert_eq!(chip.register(0), 0xAA);
}

#[test]
fn random_byte_is_masked() {
    let mut chip = Chip8::new();
    chip.execute(ChipInst::new(0xC30F), &NO_KEYS, 0xAB).unwrap();
    assert_eq!(chip.register(3), 0x0B);
}

#[test]
fn index_add_with_carry_setting() {
    let cfg = ChipCfg {
        font_start: 0x050,
        off_jump_legacy: false,
        reg_save_legacy: false,
        index_add_carry: true,
    };
    let mut chip = machine_with(cfg);
    run_words(&mut chip, &[0xAFFF, 0x6102, 0xF11E]);
    assert_eq!(chip.index(), 0x001);
    assert_eq!(chip.register(0xF), 1);
    run_words(&mut chip, &[0xAFFD, 0xF11E]);
    assert_eq!(chip.index(), 0xFFF);
    assert_eq!(chip.register(0xF), 0);
}

#[test]
fn index_add_without_carry_setting() {
    let mut chip = Chip8::new();
    run_words(&mut chip, &[0x6F07, 0xAFFF, 0x6102, 0xF11E]);
    assert_eq!(chip.index(), 0x001);
    assert_eq!(chip.register(0xF), 0x07);
}

#[test]
fn font_glyph_address() {
    let mut chip = Chip8::new();
    chip.load_default_font();
    let glyph_a = [0xF0, 0x90, 0xF0, 0x90, 0x90];
    for d in 0..16u16 {
        run_words(&mut chip, &[0x6300 | d, 0xF329]);
        assert_eq!(chip.index(), 0x050 + 5 * d);
    }
    run_words(&mut chip, &[0x630A, 0xF329]);
    for k in 0..5u16 {
        assert_eq!(chip.memory(chip.index() + k), glyph_a[k as usize]);
    }
    assert_eq!(chip.memory(0x050), 0xF0);
    assert_eq!(chip.memory(0x050 + 79), 0x80);
}

#[test]
fn font_at_another_address() {
    let mut chip = machine_with(ChipCfg {
        font_start: 0x100,
        off_jump_legacy: false,
        reg_save_legacy: false,
        index_add_carry: false,
    });
    chip.load_default_font();
    run_words(&mut chip, &[0x6307, 0xF329]);
    assert_eq!(chip.index(), 0x100 + 35);
    assert_eq!(chip.memory(0x100 + 35), 0xF0);
    assert_eq!(chip.memory(0x100 + 36), 0x10);
}

#[test]
fn font_table_from_bytes() {
    let mut chip = Chip8::new();
    let font: Vec<u8> = (0..80u8).collect();
    chip.load_font_bytes(&font).unwrap();
    assert_eq!(chip.memory(0x050), 0);
    assert_eq!(chip.memory(0x050 + 79), 79);
    assert_eq!(chip.load_font_bytes(&font[..79]), Err(LoadError::FontSize));
    assert_eq!(chip.memory(0x050 + 78), 78);
}

#[test]
fn program_too_long_is_refused() {
    let mut chip = Chip8::new();
    let long = vec![0xAAu8; 4096 - 0x200 + 1];
    assert_eq!(chip.load_program(&long), Err(LoadError::OutOfSpace));
    assert_eq!(chip.memory(0x200), 0);
    let full = vec![0xAAu8; 4096 - 0x200];
    assert_eq!(chip.load_program(&full), Ok(()));
    assert_eq!(chip.memory(0x200), 0xAA);
    assert_eq!(chip.memory(0xFFF), 0xAA);
    assert_eq!(chip.memory(0x1FF), 0);
}

#[test]
fn call_and_return() {
    let mut chip = Chip8::new();
    chip.load_program(&[0x23, 0x00]).unwrap();
    chip.step(&NO_KEYS, 0).unwrap();
    assert_eq!(chip.pc(), 0x300);
    assert_eq!(chip.stack_pointer(), 1);
    chip.execute(ChipInst::Ret, &NO_KEYS, 0).unwrap();
    assert_eq!(chip.pc(), 0x202);
    assert_eq!(chip.stack_pointer(), 0);
}

#[test]
fn call_with_full_stack_faults() {
    let mut chip = Chip8::new();
    for _ in 0..32 {
        chip.execute(ChipInst::Call { nnn: 0x400 }, &NO_KEYS, 0).unwrap();
    }
    assert_eq!(chip.stack_pointer(), 32);
    assert_eq!(chip.execute(ChipInst::Call { nnn: 0x500 }, &NO_KEYS, 0), Err(Fault::StackOverflow));
    assert_eq!(chip.stack_pointer(), 32);
    assert_eq!(chip.pc(), 0x400);
}

#[test]
fn unknown_word_faults() {
    let mut chip = Chip8::new();
    chip.load_program(&[0x51, 0x21]).unwrap();
    assert_eq!(chip.step(&NO_KEYS, 0), Err(Fault::UnknownOpcode { word: 0x5121 }));
    assert_eq!(chip.register(1), 0);
}

#[test]
fn fetch_past_memory_faults() {
    let mut chip = Chip8::new();
    chip.execute(ChipInst::Jp { nnn: 0xFFF }, &NO_KEYS, 0).unwrap();
    assert_eq!(chip.step(&NO_KEYS, 0), Err(Fault::AddressOutOfRange));
    assert_eq!(chip.pc(), 0xFFF);
}

#[test]
fn fetch_reads_big_endian() {
    let mut chip = Chip8::new();
    chip.load_program(&[0x12, 0x34]).unwrap();
    assert_eq!(chip.fetch(), ChipInst::Jp { nnn: 0x234 });
    assert_eq!(chip.pc(), 0x202);
}

#[test]
fn skips_move_past_one_instruction() {
    let mut chip = Chip8::new();
    run_words(&mut chip, &[0x6042, 0x6142]);
    let pc = chip.pc();
    run_words(&mut chip, &[0x3042]);
    assert_eq!(chip.pc(), pc + 2);
    run_words(&mut chip, &[0x3043]);
    assert_eq!(chip.pc(), pc + 2);
    run_words(&mut chip, &[0x4043]);
    assert_eq!(chip.pc(), pc + 4);
    run_words(&mut chip, &[0x5010]);
    assert_eq!(chip.pc(), pc + 6);
    run_words(&mut chip, &[0x9010]);
    assert_eq!(chip.pc(), pc + 6);
}

#[test]
fn key_skips() {
    let mut chip = Chip8::new();
    let mut keys = [false; 16];
    keys[5] = true;
    chip.execute(ChipInst::new(0x6505), &keys, 0).unwrap();
    chip.execute(ChipInst::new(0xE59E), &keys, 0).unwrap();
    assert_eq!(chip.pc(), 0x202);
    chip.execute(ChipInst::new(0xE5A1), &keys, 0).unwrap();
    assert_eq!(chip.pc(), 0x202);
    chip.execute(ChipInst::new(0xE5A1), &NO_KEYS, 0).unwrap();
    assert_eq!(chip.pc(), 0x204);
}

#[test]
fn wait_for_key() {
    let mut chip = Chip8::new();
    chip.load_program(&[0xF4, 0x0A, 0x60, 0x01]).unwrap();
    chip.step(&NO_KEYS, 0).unwrap();
    assert_eq!(chip.awaiting_key(), Some(4));
    chip.step(&NO_KEYS, 0).unwrap();
    assert_eq!(chip.awaiting_key(), Some(4));
    assert_eq!(chip.pc(), 0x202);
    let mut keys = [false; 16];
    keys[9] = true;
    keys[12] = true;
    chip.step(&keys, 0).unwrap();
    assert_eq!(chip.awaiting_key(), None);
    assert_eq!(chip.register(4), 9);
    chip.step(&keys, 0).unwrap();
    assert_eq!(chip.register(0), 1);
}

#[test]
fn timers_count_down_to_zero() {
    let mut chip = Chip8::new();
    run_words(&mut chip, &[0x6002, 0xF015, 0x6101, 0xF118]);
    assert_eq!(chip.delay_timer(), 2);
    assert_eq!(chip.sound_timer(), 1);
    chip.tick_timers();
    assert_eq!(chip.delay_timer(), 1);
    assert_eq!(chip.sound_timer(), 0);
    chip.tick_timers();
    chip.tick_timers();
    assert_eq!(chip.delay_timer(), 0);
    assert_eq!(chip.sound_timer(), 0);
    run_words(&mut chip, &[0xF207]);
    assert_eq!(chip.register(2), 0);
}

#[test]
fn decimal_digits() {
    let mut chip = Chip8::new();
    run_words(&mut chip, &[0x60FE, 0xA300, 0xF033]);
    assert_eq!(chip.memory(0x300), 2);
    assert_eq!(chip.memory(0x301), 5);
    assert_eq!(chip.memory(0x302), 4);
    run_words(&mut chip, &[0xAFFE]);
    assert_eq!(chip.execute(ChipInst::new(0xF033), &NO_KEYS, 0), Err(Fault::AddressOutOfRange));
}

#[test]
fn store_and_load_registers() {
    let mut chip = Chip8::new();
    run_words(&mut chip, &[0x6011, 0x6122, 0x6233, 0x6344, 0xA400, 0xF255]);
    assert_eq!(chip.memory(0x400), 0x11);
    assert_eq!(chip.memory(0x401), 0x22);
    assert_eq!(chip.memory(0x402), 0x33);
    assert_eq!(chip.memory(0x403), 0);
    assert_eq!(chip.index(), 0x400);
    run_words(&mut chip, &[0x6000, 0x6100, 0x6200, 0xF165]);
    assert_eq!(chip.register(0), 0x11);
    assert_eq!(chip.register(1), 0x22);
    assert_eq!(chip.register(2), 0);
    assert_eq!(chip.register(3), 0x44);
}

#[test]
fn store_and_load_move_index_when_legacy() {
    let mut chip = machine_with(ChipCfg {
        font_start: 0x050,
        off_jump_legacy: false,
        reg_save_legacy: true,
        index_add_carry: false,
    });
    run_words(&mut chip, &[0x6011, 0x6122, 0xA400, 0xF155]);
    assert_eq!(chip.index(), 0x402);
    run_words(&mut chip, &[0xA400, 0xF065]);
    assert_eq!(chip.index(), 0x401);
    assert_eq!(chip.register(0), 0x11);
    run_words(&mut chip, &[0xAFFE, 0xF155]);
    assert_eq!(chip.index(), 0x000);
    assert_eq!(chip.execute(ChipInst::new(0xF255), &NO_KEYS, 0).is_ok(), true);
    run_words(&mut chip, &[0xAFFE]);
    assert_eq!(chip.execute(ChipInst::new(0xF265), &NO_KEYS, 0), Err(Fault::AddressOutOfRange));
    assert_eq!(chip.index(), 0xFFE);
}

#[test]
fn draw_twice_restores_display() {
    let mut chip = Chip8::new();
    chip.load_default_font();
    run_words(&mut chip, &[0x6000, 0x6100, 0xA050, 0xD015]);
    assert_eq!(chip.register(0xF), 0);
    assert!(chip.display().pixel(0, 0));
    assert!(chip.display().pixel(3, 0));
    assert!(!chip.display().pixel(1, 1));
    assert!(!chip.display().pixel(4, 0));
    run_words(&mut chip, &[0xD015]);
    assert_eq!(chip.register(0xF), 1);
    assert!(chip.display().frame().iter().all(|p| !p));
}

#[test]
fn clear_screen() {
    let mut chip = Chip8::new();
    chip.load_default_font();
    run_words(&mut chip, &[0xA050, 0xD015, 0x00E0]);
    assert!(chip.display().frame().iter().all(|p| !p));
}

#[test]
fn draw_past_memory_faults() {
    let mut chip = Chip8::new();
    run_words(&mut chip, &[0xAFFD]);
    assert_eq!(chip.execute(ChipInst::new(0xD014), &NO_KEYS, 0), Err(Fault::AddressOutOfRange));
    assert!(chip.execute(ChipInst::new(0xD013), &NO_KEYS, 0).is_ok());
}

#[test]
fn machine_code_routine_is_ignored() {
    let mut chip = Chip8::new();
    assert_eq!(chip.execute(ChipInst::new(0x0123), &NO_KEYS, 0), Ok(()));
    assert_eq!(chip.pc(), 0x200);
}
