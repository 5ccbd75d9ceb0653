use esp_periph::aes::{Aes, AesRegisters, Endianness, Mode, KEY_WORDS, TEXT_WORDS};
use esp_periph::guard::{ClockControl, Peripheral};

fn engine() -> (ClockControl, Aes) {
    let mut clocks = ClockControl::new();
    let aes = Aes::new(&mut clocks, AesRegisters::new());
    (clocks, aes)
}

fn flag(big: bool) -> Endianness {
    if big {
        Endianness::BigEndian
    } else {
        Endianness::LittleEndian
    }
}

#[test]
fn new_lays_out_big_endian_and_opens_the_gate() {
    let (clocks, aes) = engine();
    assert_eq!(aes.registers().endian, 0x3f);
    assert!(clocks.is_enabled(Peripheral::Aes));
    assert_eq!(clocks.count_of(Peripheral::Aes), 1);
}

#[test]
fn init_then_all_big_endian_reads_0x3f() {
    let (_clocks, mut aes) = engine();
    aes.init();
    let b = Endianness::BigEndian;
    aes.write_endianness(b, b, b, b, b, b);
    assert_eq!(aes.registers().endian, 0x3F);
}

#[test]
fn all_little_endian_reads_zero() {
    let (_clocks, mut aes) = engine();
    let l = Endianness::LittleEndian;
    aes.write_endianness(l, l, l, l, l, l);
    assert_eq!(aes.registers().endian, 0);
}

#[test]
fn each_endianness_flag_has_its_own_bit() {
    let (_clocks, mut aes) = engine();
    let (l, b) = (Endianness::LittleEndian, Endianness::BigEndian);
    aes.write_endianness(l, l, l, l, l, b);
    assert_eq!(aes.registers().endian, 1 << 0);
    aes.write_endianness(l, l, l, l, b, l);
    assert_eq!(aes.registers().endian, 1 << 1);
    aes.write_endianness(l, b, l, l, l, l);
    assert_eq!(aes.registers().endian, 1 << 2);
    aes.write_endianness(b, l, l, l, l, l);
    assert_eq!(aes.registers().endian, 1 << 3);
    aes.write_endianness(l, l, l, b, l, l);
    assert_eq!(aes.registers().endian, 1 << 4);
    aes.write_endianness(l, l, b, l, l, l);
    assert_eq!(aes.registers().endian, 1 << 5);
}

#[test]
fn all_64_endianness_combinations_pack_exactly() {
    let (_clocks, mut aes) = engine();
    for v in 0u32..64 {
        let bit = |k: u32| (v >> k) & 1 == 1;
        aes.write_endianness(flag(bit(3)), flag(bit(2)), flag(bit(5)), flag(bit(4)), flag(bit(1)), flag(bit(0)));
        assert_eq!(aes.registers().endian, v);
    }
}

#[test]
fn write_endianness_touches_no_other_register() {
    let (_clocks, mut aes) = engine();
    aes.write_mode(Mode::Decryption256);
    aes.write_key(&[9u8; 16]);
    let l = Endianness::LittleEndian;
    aes.write_endianness(l, l, l, l, l, l);
    assert_eq!(aes.registers().mode, 6);
    assert_eq!(aes.registers().key[0], 0x0909_0909);
}

#[test]
fn key_of_24_bytes_fits_and_23_does_not() {
    assert!(Aes::key_fits(24));
    assert!(!Aes::key_fits(23));
    assert!(Aes::key_fits(16));
    assert!(Aes::key_fits(32));
    assert!(!Aes::key_fits(36));
    assert!(Aes::key_fits(0));
}

#[test]
fn aes192_key_loads_six_words() {
    let (_clocks, mut aes) = engine();
    let key: Vec<u8> = (1..=24).collect();
    assert!(Aes::key_fits(key.len()));
    aes.write_key(&key);
    let regs = aes.registers();
    assert_eq!(regs.key.len(), KEY_WORDS);
    assert_eq!(regs.key[0], 0x0403_0201);
    assert_eq!(regs.key[5], 0x1817_1615);
    assert_eq!(regs.key[6], 0);
    assert_eq!(regs.key[7], 0);
}

#[test]
fn block_written_reads_back_unchanged() {
    let (_clocks, mut aes) = engine();
    let block: Vec<u8> = (0..16).map(|i| 0xf0 ^ i as u8).collect();
    aes.write_block(&block);
    assert_eq!(aes.registers().text.len(), TEXT_WORDS);
    assert_eq!(aes.registers().text[0], 0xf3f2_f1f0);
    let mut out = [0u8; 16];
    aes.read_block(&mut out);
    assert_eq!(out.to_vec(), block);
}

#[test]
fn mode_values_are_written_as_is() {
    let (_clocks, mut aes) = engine();
    let cases = [
        (Mode::Encryption128, 0),
        (Mode::Encryption192, 1),
        (Mode::Encryption256, 2),
        (Mode::Decryption128, 4),
        (Mode::Decryption192, 5),
        (Mode::Decryption256, 6),
    ];
    for (m, v) in cases {
        aes.write_mode(m);
        assert_eq!(aes.registers().mode, v);
    }
}

#[test]
fn start_sets_the_start_bit() {
    let (_clocks, mut aes) = engine();
    assert_eq!(aes.registers().start, 0);
    aes.write_start();
    assert_eq!(aes.registers().start, 1);
}

#[test]
fn read_idle_reports_the_idle_bit() {
    let mut clocks = ClockControl::new();
    let mut aes = Aes::new(&mut clocks, AesRegisters::new());
    assert!(aes.read_idle());
    let mut regs = aes.free(&mut clocks);
    regs.idle = 0;
    let mut busy = Aes::new(&mut clocks, regs);
    assert!(!busy.read_idle());
}

#[test]
fn free_closes_the_gate_and_returns_registers() {
    let mut clocks = ClockControl::new();
    let mut aes = Aes::new(&mut clocks, AesRegisters::new());
    aes.write_mode(Mode::Encryption256);
    let regs = aes.free(&mut clocks);
    assert_eq!(regs.mode, 2);
    assert_eq!(regs.endian, 0x3f);
    assert!(!clocks.is_enabled(Peripheral::Aes));
}

#[test]
fn endianness_bits_are_numeric_values() {
    assert_eq!(Endianness::BigEndian.as_bit(), 1);
    assert_eq!(Endianness::LittleEndian.as_bit(), 0);
}
