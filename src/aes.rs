//! Register protocol of the cipher engine: endianness layout, key and text
//! registers, mode, start and idle.
//!
//! The engine computes on its own once started; the driver only sequences the
//! register accesses. A caller loads key and block, starts, polls `read_idle`
//! until it reports idle, then reads the result.
use vstd::prelude::*;
use crate::alignment::{ALIGN_SIZE, fits_words, written_words, read_bytes, write_words, read_words};
use crate::guard::{ClockControl, Peripheral, PeripheralGuard};

verus! {

/// Number of words in the key register array.
pub const KEY_WORDS: usize = 8;

/// Number of words in the text register array: one cipher block.
pub const TEXT_WORDS: usize = 4;

/// Byte or word order of one data stream, as the hardware lays it out.
#[derive(Clone, Copy, Debug, PartialEq, Eq, Structural)]
pub enum Endianness {
    BigEndian,
    LittleEndian,
}

impl Endianness {
    /// The bit that the layout register holds for this order.
    pub open spec fn bit(self) -> u32 {
        match self {
            Endianness::LittleEndian => 0,
            Endianness::BigEndian => 1,
        }
    }

    pub fn as_bit(&self) -> (r: u32)
        ensures
            r == self.bit(),
    {
        match self {
            Endianness::LittleEndian => 0,
            Endianness::BigEndian => 1,
        }
    }
}

/// Operation and key width of the cipher engine.
#[derive(Clone, Copy, Debug, PartialEq, Eq, Structural)]
pub enum Mode {
    Encryption128,
    Encryption192,
    Encryption256,
    Decryption128,
    Decryption192,
    Decryption256,
}

impl Mode {
    /// The value that the mode register takes for this mode.
    pub open spec fn value(self) -> u32 {
        match self {
            Mode::Encryption128 => 0,
            Mode::Encryption192 => 1,
            Mode::Encryption256 => 2,
            Mode::Decryption128 => 4,
            Mode::Decryption192 => 5,
            Mode::Decryption256 => 6,
        }
    }

    pub fn bits(&self) -> (r: u32)
        ensures
            r == self.value(),
    {
        match self {
            Mode::Encryption128 => 0,
            Mode::Encryption192 => 1,
            Mode::Encryption256 => 2,
            Mode::Decryption128 => 4,
            Mode::Decryption192 => 5,
            Mode::Decryption256 => 6,
        }
    }
}

/// The layout word of the endianness register: bit 0 key byte order, bit 1 key
/// word order, bit 2 input byte order, bit 3 input word order, bit 4 output byte
/// order, bit 5 output word order; the other bits zero.
pub open spec fn endian_word(
    input_text_word: Endianness,
    input_text_byte: Endianness,
    output_text_word: Endianness,
    output_text_byte: Endianness,
    key_word: Endianness,
    key_byte: Endianness,
) -> u32 {
    (key_byte.bit() + 2 * key_word.bit() + 4 * input_text_byte.bit() + 8 * input_text_word.bit()
        + 16 * output_text_byte.bit() + 32 * output_text_word.bit()) as u32
}

/// Each flag lands on its own bit of the layout word, and nothing above bit 5
/// is set.
pub proof fn lemma_endian_word_bits(
    input_text_word: Endianness,
    input_text_byte: Endianness,
    output_text_word: Endianness,
    output_text_byte: Endianness,
    key_word: Endianness,
    key_byte: Endianness,
)
    ensures
        ({
            let w = endian_word(
                input_text_word,
                input_text_byte,
                output_text_word,
                output_text_byte,
                key_word,
                key_byte,
            );
            &&& w < 64
            &&& w & 1 == key_byte.bit()
            &&& (w >> 1u32) & 1 == key_word.bit()
            &&& (w >> 2u32) & 1 == input_text_byte.bit()
            &&& (w >> 3u32) & 1 == input_text_word.bit()
            &&& (w >> 4u32) & 1 == output_text_byte.bit()
            &&& (w >> 5u32) & 1 == output_text_word.bit()
        }),
{
    let (a, b, c, d, e, f) = (
        key_byte.bit(),
        key_word.bit(),
        input_text_byte.bit(),
        input_text_word.bit(),
        output_text_byte.bit(),
        output_text_word.bit(),
    );
    let w = endian_word(
        input_text_word,
        input_text_byte,
        output_text_word,
        output_text_byte,
        key_word,
        key_byte,
    );
    assert(w == a | (b << 1u32) | (c << 2u32) | (d << 3u32) | (e << 4u32) | (f << 5u32)) by {
        lemma_or_is_sum(a, b, c, d, e, f);
    }
    assert({
        let w = a | (b << 1u32) | (c << 2u32) | (d << 3u32) | (e << 4u32) | (f << 5u32);
        &&& w < 64
        &&& w & 1 == a
        &&& (w >> 1u32) & 1 == b
        &&& (w >> 2u32) & 1 == c
        &&& (w >> 3u32) & 1 == d
        &&& (w >> 4u32) & 1 == e
        &&& (w >> 5u32) & 1 == f
    }) by (bit_vector)
        requires
            a <= 1 && b <= 1 && c <= 1 && d <= 1 && e <= 1 && f <= 1,
    ;
}

/// For single bits at distinct positions, or-ing the shifted bits is adding
/// their weights.
proof fn lemma_or_is_sum(a: u32, b: u32, c: u32, d: u32, e: u32, f: u32)
    requires
        a <= 1 && b <= 1 && c <= 1 && d <= 1 && e <= 1 && f <= 1,
    ensures
        a | (b << 1u32) | (c << 2u32) | (d << 3u32) | (e << 4u32) | (f << 5u32) == (a + 2 * b + 4
            * c + 8 * d + 16 * e + 32 * f) as u32,
{
    assert(a | (b << 1u32) | (c << 2u32) | (d << 3u32) | (e << 4u32) | (f << 5u32) == a + 2 * b
        + 4 * c + 8 * d + 16 * e + 32 * f) by (bit_vector)
        requires
            a <= 1 && b <= 1 && c <= 1 && d <= 1 && e <= 1 && f <= 1,
    ;
}

/// The registers of the cipher engine.
pub struct AesRegisters {
    pub mode: u32,
    pub endian: u32,
    pub start: u32,
    pub idle: u32,
    pub key: Vec<u32>,
    pub text: Vec<u32>,
}

/// The contents of the cipher engine's registers.
pub struct AesState {
    pub mode: u32,
    pub endian: u32,
    pub start: u32,
    pub idle: u32,
    pub key: Seq<u32>,
    pub text: Seq<u32>,
}

impl View for AesRegisters {
    type V = AesState;

    open spec fn view(&self) -> AesState {
        AesState {
            mode: self.mode,
            endian: self.endian,
            start: self.start,
            idle: self.idle,
            key: self.key@,
            text: self.text@,
        }
    }
}

impl AesRegisters {
    /// Register arrays of the sizes the engine has.
    pub open spec fn wf(&self) -> bool {
        self.key@.len() == KEY_WORDS && self.text@.len() == TEXT_WORDS
    }

    /// The registers as they come out of reset: all zero, the engine idle.
    pub fn new() -> (r: AesRegisters)
        ensures
            r.wf(),
            r@.mode == 0 && r@.endian == 0 && r@.start == 0 && r@.idle == 1,
            forall|i: int| 0 <= i < KEY_WORDS ==> r@.key[i] == 0,
            forall|i: int| 0 <= i < TEXT_WORDS ==> r@.text[i] == 0,
    {
        AesRegisters {
            mode: 0,
            endian: 0,
            start: 0,
            idle: 1,
            key: vec![0, 0, 0, 0, 0, 0, 0, 0],
            text: vec![0, 0, 0, 0],
        }
    }
}

/// Whether a key of `len` bytes fits the key registers: whole words, at most
/// `KEY_WORDS` of them.
pub open spec fn key_len_ok(len: nat) -> bool {
    fits_words(len, KEY_WORDS as nat)
}

/// Length in bytes of one cipher block.
pub open spec fn block_len() -> nat {
    (TEXT_WORDS * ALIGN_SIZE) as nat
}

/// Driver handle of the cipher engine; it keeps the engine's clock gate open
/// while it lives.
pub struct Aes {
    regs: AesRegisters,
    guard: PeripheralGuard,
}

impl View for Aes {
    type V = AesState;

    closed spec fn view(&self) -> AesState {
        self.regs@
    }
}

impl Aes {
    pub closed spec fn wf(&self) -> bool {
        self.regs.wf() && self.guard.spec_peripheral() == Peripheral::Aes
    }

    /// Takes a guard of the engine and lays out every data stream big-endian.
    pub fn new(clocks: &mut ClockControl, regs: AesRegisters) -> (r: Aes)
        requires
            old(clocks).wf(),
            old(clocks).count(Peripheral::Aes) < usize::MAX,
            regs.wf(),
        ensures
            r.wf(),
            r@ == (AesState { endian: 0x3f, ..regs@ }),
            final(clocks).wf(),
            final(clocks).gates_follow_counts(),
            final(clocks).count(Peripheral::Aes) == old(clocks).count(Peripheral::Aes) + 1,
            final(clocks).enabled(Peripheral::Aes),
            final(clocks).count(Peripheral::Pcnt) == old(clocks).count(Peripheral::Pcnt),
            final(clocks).enabled(Peripheral::Pcnt) == old(clocks).enabled(Peripheral::Pcnt),
    {
        let guard = clocks.acquire(Peripheral::Aes);
        let mut aes = Aes { regs, guard };
        aes.init();
        aes
    }

    /// Gives up the handle, releasing its guard, and hands back the registers.
    pub fn free(self, clocks: &mut ClockControl) -> (r: AesRegisters)
        requires
            self.wf(),
            old(clocks).wf(),
        ensures
            r@ == self@,
            final(clocks).wf(),
            final(clocks).gates_follow_counts(),
            old(clocks).count(Peripheral::Aes) > 0 ==> final(clocks).count(Peripheral::Aes)
                == old(clocks).count(Peripheral::Aes) - 1,
            final(clocks).enabled(Peripheral::Aes) == (final(clocks).count(Peripheral::Aes) > 0),
            final(clocks).count(Peripheral::Pcnt) == old(clocks).count(Peripheral::Pcnt),
    {
        let Aes { regs, guard } = self;
        clocks.release(guard);
        regs
    }

    /// The engine's registers.
    pub fn registers(&self) -> (r: &AesRegisters)
        ensures
            r@ == self@,
    {
        &self.regs
    }

    /// Lays out every data stream big-endian.
    pub fn init(&mut self)
        requires
            old(self).wf(),
        ensures
            final(self).wf(),
            final(self)@ == (AesState { endian: 0x3f, ..old(self)@ }),
    {
        self.write_endianness(
            Endianness::BigEndian,
            Endianness::BigEndian,
            Endianness::BigEndian,
            Endianness::BigEndian,
            Endianness::BigEndian,
            Endianness::BigEndian,
        );
    }

    /// Whether `write_key` accepts a key of `len` bytes.
    pub fn key_fits(len: usize) -> (r: bool)
        ensures
            r == key_len_ok(len as nat),
    {
        len % ALIGN_SIZE == 0 && len <= KEY_WORDS * ALIGN_SIZE
    }

    /// Loads a key of 16, 24 or 32 bytes (any whole number of words up to the
    /// size of the key array) into the first key registers.
    pub fn write_key(&mut self, key: &[u8])
        requires
            old(self).wf(),
            key_len_ok(key@.len()),
        ensures
            final(self).wf(),
            final(self)@ == (AesState { key: written_words(old(self)@.key, key@), ..old(self)@ }),
    {
        write_words(&mut self.regs.key, key, KEY_WORDS);
    }

    /// Loads one cipher block into the text registers.
    pub fn write_block(&mut self, block: &[u8])
        requires
            old(self).wf(),
            block@.len() == block_len(),
        ensures
            final(self).wf(),
            final(self)@ == (AesState { text: written_words(old(self)@.text, block@), ..old(self)@ }),
    {
        write_words(&mut self.regs.text, block, TEXT_WORDS);
    }

    /// Selects the operation and key width.
    pub fn write_mode(&mut self, mode: Mode)
        requires
            old(self).wf(),
        ensures
            final(self).wf(),
            final(self)@ == (AesState { mode: mode.value(), ..old(self)@ }),
    {
        self.regs.mode = mode.bits();
    }

    /// Configures how the state matrix is laid out: the byte and word order of
    /// the input text, the output text and the key.
    pub fn write_endianness(
        &mut self,
        input_text_word_endianess: Endianness,
        input_text_byte_endianess: Endianness,
        output_text_word_endianess: Endianness,
        output_text_byte_endianess: Endianness,
        key_word_endianess: Endianness,
        key_byte_endianess: Endianness,
    )
        requires
            old(self).wf(),
        ensures
            final(self).wf(),
            final(self)@ == (AesState {
                endian: endian_word(
                    input_text_word_endianess,
                    input_text_byte_endianess,
                    output_text_word_endianess,
                    output_text_byte_endianess,
                    key_word_endianess,
                    key_byte_endianess,
                ),
                ..old(self)@
            }),
    {
        let a = key_byte_endianess.as_bit();
        let b = key_word_endianess.as_bit();
        let c = input_text_byte_endianess.as_bit();
        let d = input_text_word_endianess.as_bit();
        let e = output_text_byte_endianess.as_bit();
        let f = output_text_word_endianess.as_bit();
        let mut to_write: u32 = 0;
        to_write = to_write | a;
        to_write = to_write | (b << 1u32);
        to_write = to_write | (c << 2u32);
        to_write = to_write | (d << 3u32);
        to_write = to_write | (e << 4u32);
        to_write = to_write | (f << 5u32);
        proof {
            assert(0u32 | a == a) by (bit_vector);
            lemma_or_is_sum(a, b, c, d, e, f);
        }
        self.regs.endian = to_write;
    }

    /// Sets the start bit; the engine then works on the loaded block.
    pub fn write_start(&mut self)
        requires
            old(self).wf(),
        ensures
            final(self).wf(),
            final(self)@ == (AesState { start: 1, ..old(self)@ }),
    {
        self.regs.start = 1;
    }

    /// Whether the engine is idle: its result can be read or a new operation
    /// started.
    pub fn read_idle(&mut self) -> (r: bool)
        ensures
            *final(self) == *old(self),
            r == (old(self)@.idle & 1 == 1),
    {
        self.regs.idle & 1 == 1
    }

    /// Reads one cipher block out of the text registers.
    pub fn read_block(&self, block: &mut [u8])
        requires
            self.wf(),
            old(block)@.len() == block_len(),
        ensures
            final(block)@ == read_bytes(self@.text, block_len()),
    {
        read_words(&self.regs.text, block, TEXT_WORDS);
    }
}

} // verus!
