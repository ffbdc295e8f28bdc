//! Snapshot of the whole observable machine state, and a textual
//! encoding of it.  The blob is the hexadecimal spelling (two lowercase
//! digits per byte) of a fixed-layout byte record; decoding rejects any
//! blob that does not parse, leaving the machine untouched.
//!
//! The byte record holds, in order: the CPU registers, SP, PC, IME,
//! HALT and the CPU cycle counter; IE, IF and the boot-overlay flag;
//! the MBC latches; the console cycle counter; the cartridge-RAM
//! presence flag and length; then VRAM, WRAM, OAM, the I/O page, HRAM
//! and the cartridge RAM bytes.

use vstd::prelude::*;

verus! {

/// CPU registers, interrupt latches and the cycle counter.
pub struct CpuSaveState {
    pub a: u8,
    pub f: u8,
    pub b: u8,
    pub c: u8,
    pub d: u8,
    pub e: u8,
    pub h: u8,
    pub l: u8,
    pub sp: u16,
    pub pc: u16,
    pub ime: bool,
    pub halt: bool,
    pub cycles: u32,
}

/// Memory bank controller latches of the cartridge.
pub struct MbcSaveState {
    pub rom_bank: usize,
    pub ram_bank: usize,
    pub ram_enabled: bool,
}

/// All writable memory regions, the interrupt registers, the boot-ROM
/// overlay flag, the cartridge RAM and the MBC latches.
pub struct MemorySaveState {
    pub vram: Vec<u8>,
    pub wram: Vec<u8>,
    pub oam: Vec<u8>,
    pub io: Vec<u8>,
    pub hram: Vec<u8>,
    pub interrupt_enable: u8,
    pub interrupt_flag: u8,
    pub boot_rom_enabled: bool,
    pub cartridge_ram: Option<Vec<u8>>,
    pub mbc_state: MbcSaveState,
}

/// The whole machine state that a load restores.
pub struct SaveState {
    pub cpu: CpuSaveState,
    pub memory: MemorySaveState,
    pub cycles: u32,
}

/// Everything a save state records, as one mathematical value.
pub struct SaveStateView {
    pub a: u8,
    pub f: u8,
    pub b: u8,
    pub c: u8,
    pub d: u8,
    pub e: u8,
    pub h: u8,
    pub l: u8,
    pub sp: u16,
    pub pc: u16,
    pub ime: bool,
    pub halt: bool,
    pub cpu_cycles: u32,
    pub vram: Seq<u8>,
    pub wram: Seq<u8>,
    pub oam: Seq<u8>,
    pub io: Seq<u8>,
    pub hram: Seq<u8>,
    pub interrupt_enable: u8,
    pub interrupt_flag: u8,
    pub boot_rom_enabled: bool,
    pub cartridge_ram: Option<Seq<u8>>,
    pub rom_bank: usize,
    pub ram_bank: usize,
    pub ram_enabled: bool,
    pub cycles: u32,
}

impl View for SaveState {
    type V = SaveStateView;

    open spec fn view(&self) -> SaveStateView {
        SaveStateView {
            a: self.cpu.a,
            f: self.cpu.f,
            b: self.cpu.b,
            c: self.cpu.c,
            d: self.cpu.d,
            e: self.cpu.e,
            h: self.cpu.h,
            l: self.cpu.l,
            sp: self.cpu.sp,
            pc: self.cpu.pc,
            ime: self.cpu.ime,
            halt: self.cpu.halt,
            cpu_cycles: self.cpu.cycles,
            vram: self.memory.vram@,
            wram: self.memory.wram@,
            oam: self.memory.oam@,
            io: self.memory.io@,
            hram: self.memory.hram@,
            interrupt_enable: self.memory.interrupt_enable,
            interrupt_flag: self.memory.interrupt_flag,
            boot_rom_enabled: self.memory.boot_rom_enabled,
            cartridge_ram: (match self.memory.cartridge_ram {
                Some(ref r) => Some(r@),
                None => None,
            }),
            rom_bank: self.memory.mbc_state.rom_bank,
            ram_bank: self.memory.mbc_state.ram_bank,
            ram_enabled: self.memory.mbc_state.ram_enabled,
            cycles: self.cycles,
        }
    }
}

impl SaveStateView {
    /// Region sizes fixed by the machine, and bank indices inside the
    /// ranges the MBC can select.
    pub open spec fn wf(self) -> bool {
        &&& self.vram.len() == 0x2000
        &&& self.wram.len() == 0x2000
        &&& self.oam.len() == 0xA0
        &&& self.io.len() == 0x80
        &&& self.hram.len() == 0x7F
        &&& self.rom_bank < 0x200
        &&& self.ram_bank < 0x10
        &&& (self.cartridge_ram matches Some(r) ==> r.len() < 0x100000000)
    }

    /// The cartridge-RAM byte count recorded in the blob.
    pub open spec fn spec_cart_len(self) -> int {
        match self.cartridge_ram {
            Some(r) => r.len() as int,
            None => 0,
        }
    }

    /// Length of the raw byte record.
    pub open spec fn spec_raw_len(self) -> int {
        RAW_FIXED_LEN + self.spec_cart_len()
    }

    /// The raw byte record, byte by byte.
    pub open spec fn spec_raw_byte(self, i: int) -> u8 {
        if i == 0 {
            self.a
        } else if i == 1 {
            self.f
        } else if i == 2 {
            self.b
        } else if i == 3 {
            self.c
        } else if i == 4 {
            self.d
        } else if i == 5 {
            self.e
        } else if i == 6 {
            self.h
        } else if i == 7 {
            self.l
        } else if i == 8 {
            crate::registers::high_byte(self.sp)
        } else if i == 9 {
            crate::registers::low_byte(self.sp)
        } else if i == 10 {
            crate::registers::high_byte(self.pc)
        } else if i == 11 {
            crate::registers::low_byte(self.pc)
        } else if i == 12 {
            spec_bool_byte(self.ime)
        } else if i == 13 {
            spec_bool_byte(self.halt)
        } else if 14 <= i < 18 {
            spec_u32_byte(self.cpu_cycles, i - 14)
        } else if i == 18 {
            self.interrupt_enable
        } else if i == 19 {
            self.interrupt_flag
        } else if i == 20 {
            spec_bool_byte(self.boot_rom_enabled)
        } else if 21 <= i < 25 {
            spec_u32_byte(self.rom_bank as u32, i - 21)
        } else if 25 <= i < 29 {
            spec_u32_byte(self.ram_bank as u32, i - 25)
        } else if i == 29 {
            spec_bool_byte(self.ram_enabled)
        } else if 30 <= i < 34 {
            spec_u32_byte(self.cycles, i - 30)
        } else if i == 34 {
            spec_bool_byte(self.cartridge_ram is Some)
        } else if 35 <= i < 39 {
            spec_u32_byte(self.spec_cart_len() as u32, i - 35)
        } else if OFF_VRAM <= i < OFF_WRAM {
            self.vram[i - OFF_VRAM]
        } else if OFF_WRAM <= i < OFF_OAM {
            self.wram[i - OFF_WRAM]
        } else if OFF_OAM <= i < OFF_IO {
            self.oam[i - OFF_OAM]
        } else if OFF_IO <= i < OFF_HRAM {
            self.io[i - OFF_IO]
        } else if OFF_HRAM <= i < RAW_FIXED_LEN {
            self.hram[i - OFF_HRAM]
        } else {
            match self.cartridge_ram {
                Some(r) => r[i - RAW_FIXED_LEN],
                None => 0,
            }
        }
    }

    /// The whole textual blob: two lowercase hex digits per raw byte.
    pub open spec fn spec_encoding(self) -> Seq<u8> {
        Seq::new(
            (2 * self.spec_raw_len()) as nat,
            |i: int|
                if i % 2 == 0 {
                    spec_hex_digit(self.spec_raw_byte(i / 2) / 16)
                } else {
                    spec_hex_digit(self.spec_raw_byte(i / 2) % 16)
                },
        )
    }
}

pub const OFF_VRAM: usize = 39;

pub const OFF_WRAM: usize = 0x2027;

pub const OFF_OAM: usize = 0x4027;

pub const OFF_IO: usize = 0x40C7;

pub const OFF_HRAM: usize = 0x4147;

pub const RAW_FIXED_LEN: usize = 0x41C6;

/// Decoding fails only on a malformed blob: a stray character, a
/// truncated record, an inconsistent length field, or a bank index the
/// MBC could never have selected.
pub struct SaveStateError {
    pub position: usize,
}

/// 1 for true, 0 for false.
pub open spec fn spec_bool_byte(b: bool) -> u8 {
    if b {
        1
    } else {
        0
    }
}

/// Big-endian byte k (0..4) of a 32-bit value.
pub open spec fn spec_u32_byte(v: u32, k: int) -> u8 {
    if k == 0 {
        (v >> 24) as u8
    } else if k == 1 {
        ((v >> 16) & 0xFF) as u8
    } else if k == 2 {
        ((v >> 8) & 0xFF) as u8
    } else {
        (v & 0xFF) as u8
    }
}

/// The lowercase hex digit of a value below 16.
pub open spec fn spec_hex_digit(n: u8) -> u8 {
    if n < 10 {
        (0x30 + n) as u8
    } else {
        (0x57 + n) as u8
    }
}

/// The value of a hex digit character, or -1 for any other character.
pub open spec fn spec_hex_value(c: u8) -> int {
    if 0x30 <= c <= 0x39 {
        c - 0x30
    } else if 0x61 <= c <= 0x66 {
        c - 0x57
    } else {
        -1
    }
}

/// Encoding a half-byte and reading it back is the identity, and every
/// encoded digit is a valid hex character.
pub proof fn lemma_hex_digit_roundtrip(n: u8)
    requires
        n < 16,
    ensures
        spec_hex_value(spec_hex_digit(n)) == n,
        0 <= spec_hex_value(spec_hex_digit(n)) < 16,
{
}

/// A 32-bit value is recovered from its four big-endian bytes.
pub proof fn lemma_u32_bytes_roundtrip(v: u32)
    ensures
        ((spec_u32_byte(v, 0) as u32) << 24 | (spec_u32_byte(v, 1) as u32) << 16 | (spec_u32_byte(
            v,
            2,
        ) as u32) << 8 | (spec_u32_byte(v, 3) as u32)) == v,
{
    assert(((v >> 24) as u8 as u32) << 24 | (((v >> 16) & 0xFF) as u8 as u32) << 16 | (((v >> 8)
        & 0xFF) as u8 as u32) << 8 | ((v & 0xFF) as u8 as u32) == v) by (bit_vector);
}

/// A valid hex character is the digit of its own value.
pub proof fn lemma_hex_char_roundtrip(c: u8)
    requires
        spec_hex_value(c) >= 0,
    ensures
        spec_hex_digit(spec_hex_value(c) as u8) == c,
{
}

/// The four big-endian bytes of a recomposed 32-bit value are the
/// bytes it was recomposed from.
pub proof fn lemma_u32_bytes_decompose(b0: u8, b1: u8, b2: u8, b3: u8)
    ensures
        ({
            let v = (b0 as u32) << 24 | (b1 as u32) << 16 | (b2 as u32) << 8 | (b3 as u32);
            &&& spec_u32_byte(v, 0) == b0
            &&& spec_u32_byte(v, 1) == b1
            &&& spec_u32_byte(v, 2) == b2
            &&& spec_u32_byte(v, 3) == b3
        }),
{
    let v = (b0 as u32) << 24 | (b1 as u32) << 16 | (b2 as u32) << 8 | (b3 as u32);
    assert((v >> 24) as u8 == b0 && ((v >> 16) & 0xFF) as u8 == b1 && ((v >> 8) & 0xFF) as u8 == b2
        && (v & 0xFF) as u8 == b3) by (bit_vector)
        requires
            v == (b0 as u32) << 24 | (b1 as u32) << 16 | (b2 as u32) << 8 | (b3 as u32),
    ;
}

/// The exec mirror of `spec_hex_digit`.
pub fn hex_digit(n: u8) -> (r: u8)
    requires
        n < 16,
    ensures
        r == spec_hex_digit(n),
{
    if n < 10 {
        0x30 + n
    } else {
        0x57 + n
    }
}

/// The exec mirror of `spec_hex_value`; None for a non-hex character.
pub fn hex_value(c: u8) -> (r: Option<u8>)
    ensures
        spec_hex_value(c) >= 0 ==> r == Some(spec_hex_value(c) as u8),
        spec_hex_value(c) < 0 ==> r is None,
{
    if 0x30 <= c && c <= 0x39 {
        Some(c - 0x30)
    } else if 0x61 <= c && c <= 0x66 {
        Some(c - 0x57)
    } else {
        None
    }
}

/// Appends the four big-endian bytes of a 32-bit value.
pub fn push_u32_bytes(out: &mut Vec<u8>, v: u32)
    ensures
        final(out)@ == old(out)@ + Seq::new(4nat, |k: int| spec_u32_byte(v, k)),
{
    out.push((v >> 24u32) as u8);
    out.push(((v >> 16u32) & 0xFF) as u8);
    out.push(((v >> 8u32) & 0xFF) as u8);
    out.push((v & 0xFF) as u8);
    proof {
        assert(v >> 24u32 <= 0xFF && (v >> 16u32) & 0xFF <= 0xFF && (v >> 8u32) & 0xFF <= 0xFF && v
            & 0xFF <= 0xFF) by (bit_vector);
        assert(final(out)@ =~= old(out)@ + Seq::new(4nat, |k: int| spec_u32_byte(v, k)));
    }
}

/// Reads a big-endian 32-bit value from four raw bytes.
pub fn read_u32_bytes(raw: &Vec<u8>, at: usize) -> (r: u32)
    requires
        at + 4 <= raw@.len(),
    ensures
        r == ((raw@[at as int] as u32) << 24 | (raw@[at as int + 1] as u32) << 16 | (raw@[at as int
            + 2] as u32) << 8 | (raw@[at as int + 3] as u32)),
{
    let n = raw.len();
    proof {
        assert(at + 4 <= n);
    }
    let b0 = raw[at];
    let b1 = raw[at + 1];
    let b2 = raw[at + 2];
    let b3 = raw[at + 3];
    (b0 as u32) << 24u32 | (b1 as u32) << 16u32 | (b2 as u32) << 8u32 | (b3 as u32)
}

/// Bytes `start..end` of a vector, as a fresh vector.
pub fn copy_range(src: &Vec<u8>, start: usize, end: usize) -> (r: Vec<u8>)
    requires
        start <= end <= src@.len(),
    ensures
        r@ == src@.subrange(start as int, end as int),
{
    let mut r: Vec<u8> = Vec::new();
    let mut i: usize = start;
    while i < end
        invariant
            start <= i <= end <= src@.len(),
            r@.len() == i - start,
            forall|j: int| 0 <= j < r@.len() ==> r@[j] == src@[start + j],
        decreases end - i,
    {
        r.push(src[i]);
        i += 1;
    }
    proof {
        assert(r@ =~= src@.subrange(start as int, end as int));
    }
    r
}

/// Every byte of `raw` is the value of its two hex digits in `data`.
pub open spec fn spec_hex_pair_at(data: Seq<u8>, raw: Seq<u8>, j: int) -> bool {
    &&& spec_hex_value(data[2 * j]) >= 0
    &&& spec_hex_value(data[2 * j + 1]) >= 0
    &&& raw[j] == 16 * spec_hex_value(data[2 * j]) + spec_hex_value(data[2 * j + 1])
}

pub open spec fn spec_hex_pairs(data: Seq<u8>, raw: Seq<u8>) -> bool {
    forall|j: int| 0 <= j < raw.len() ==> #[trigger] spec_hex_pair_at(data, raw, j)
}

/// From a blob equal to some well-formed snapshot's encoding, the raw
/// bytes the hex layer recovers are exactly that snapshot's raw record.
proof fn lemma_raw_matches(data: Seq<u8>, raw: Seq<u8>, v: SaveStateView)
    requires
        data == v.spec_encoding(),
        raw.len() * 2 == data.len(),
        spec_hex_pairs(data, raw),
    ensures
        raw.len() == v.spec_raw_len(),
        forall|j: int| 0 <= j < raw.len() ==> #[trigger] raw[j] == v.spec_raw_byte(j),
{
    assert forall|j: int| 0 <= j < raw.len() implies #[trigger] raw[j] == v.spec_raw_byte(j) by {
        let rb = v.spec_raw_byte(j);
        assert(spec_hex_pair_at(data, raw, j));
        assert(data[2 * j] == spec_hex_digit(rb / 16));
        assert(data[2 * j + 1] == spec_hex_digit(rb % 16));
        lemma_hex_digit_roundtrip(rb / 16);
        lemma_hex_digit_roundtrip(rb % 16);
    }
}

/// Decodes a whole blob of hex digit pairs into raw bytes; None on any
/// stray character or an odd length.
fn hex_decode(data: &[u8]) -> (r: Option<Vec<u8>>)
    ensures
        r matches Some(raw) ==> raw@.len() * 2 == data@.len() && spec_hex_pairs(data@, raw@),
        r is None ==> forall|v: SaveStateView| data@ != #[trigger] v.spec_encoding(),
{
    let n = data.len();
    if n % 2 != 0 {
        proof {
            assert forall|v: SaveStateView| data@ != #[trigger] v.spec_encoding() by {
                assert(v.spec_encoding().len() % 2 == 0);
            }
        }
        return None;
    }
    let half = n / 2;
    let mut raw: Vec<u8> = Vec::new();
    let mut i: usize = 0;
    while i < half
        invariant
            n == data@.len(),
            n % 2 == 0,
            half == n / 2,
            i <= half,
            raw@.len() == i,
            spec_hex_pairs(data@, raw@),
        decreases half - i,
    {
        let hi = hex_value(data[2 * i]);
        let lo = hex_value(data[2 * i + 1]);
        match (hi, lo) {
            (Some(h), Some(l)) => {
                let ghost raw_before = raw@;
                raw.push(h * 16 + l);
                proof {
                    assert forall|j: int| 0 <= j < raw@.len() implies #[trigger] spec_hex_pair_at(
                        data@,
                        raw@,
                        j,
                    ) by {
                        if j < i {
                            assert(raw@[j] == raw_before[j]);
                            assert(spec_hex_pair_at(data@, raw_before, j));
                        } else {
                            assert(raw@[j] == h * 16 + l);
                            assert(spec_hex_value(data@[2 * j]) == h);
                            assert(spec_hex_value(data@[2 * j + 1]) == l);
                        }
                    }
                }
            },
            _ => {
                proof {
                    assert forall|v: SaveStateView| data@ != #[trigger] v.spec_encoding() by {
                        if data@ == v.spec_encoding() {
                            let rb = v.spec_raw_byte(i as int);
                            lemma_hex_digit_roundtrip(rb / 16);
                            lemma_hex_digit_roundtrip(rb % 16);
                            assert(data@[2 * i as int] == spec_hex_digit(rb / 16));
                            assert(data@[2 * i as int + 1] == spec_hex_digit(rb % 16));
                        }
                    }
                }
                return None;
            },
        }
        i += 1;
    }
    Some(raw)
}

impl SaveState {
    /// Serializes the snapshot into its textual blob.
    #[verifier::rlimit(100)]
    pub fn encode(&self) -> (r: Vec<u8>)
        requires
            self@.wf(),
        ensures
            r@ == self@.spec_encoding(),
    {
        let mut raw: Vec<u8> = Vec::new();
        raw.push(self.cpu.a);
        raw.push(self.cpu.f);
        raw.push(self.cpu.b);
        raw.push(self.cpu.c);
        raw.push(self.cpu.d);
        raw.push(self.cpu.e);
        raw.push(self.cpu.h);
        raw.push(self.cpu.l);
        raw.push((self.cpu.sp >> 8u16) as u8);
        raw.push(self.cpu.sp as u8);
        raw.push((self.cpu.pc >> 8u16) as u8);
        raw.push(self.cpu.pc as u8);
        raw.push(if self.cpu.ime { 1 } else { 0 });
        raw.push(if self.cpu.halt { 1 } else { 0 });
        push_u32_bytes(&mut raw, self.cpu.cycles);
        raw.push(self.memory.interrupt_enable);
        raw.push(self.memory.interrupt_flag);
        raw.push(if self.memory.boot_rom_enabled { 1 } else { 0 });
        push_u32_bytes(&mut raw, self.memory.mbc_state.rom_bank as u32);
        push_u32_bytes(&mut raw, self.memory.mbc_state.ram_bank as u32);
        raw.push(if self.memory.mbc_state.ram_enabled { 1 } else { 0 });
        push_u32_bytes(&mut raw, self.cycles);
        match &self.memory.cartridge_ram {
            Some(ram) => {
                raw.push(1);
                push_u32_bytes(&mut raw, ram.len() as u32);
            },
            None => {
                raw.push(0);
                push_u32_bytes(&mut raw, 0);
            },
        }
        raw.extend_from_slice(self.memory.vram.as_slice());
        raw.extend_from_slice(self.memory.wram.as_slice());
        raw.extend_from_slice(self.memory.oam.as_slice());
        raw.extend_from_slice(self.memory.io.as_slice());
        raw.extend_from_slice(self.memory.hram.as_slice());
        match &self.memory.cartridge_ram {
            Some(ram) => {
                raw.extend_from_slice(ram.as_slice());
            },
            None => {},
        }
        proof {
            assert(raw@ =~= Seq::new(
                self@.spec_raw_len() as nat,
                |i: int| self@.spec_raw_byte(i),
            ));
        }

        let mut out: Vec<u8> = Vec::new();
        let n = raw.len();
        let mut i: usize = 0;
        while i < n
            invariant
                n == raw@.len(),
                raw@ == Seq::new(self@.spec_raw_len() as nat, |k: int| self@.spec_raw_byte(k)),
                i <= n,
                out@.len() == 2 * i,
                forall|j: int|
                    0 <= j < out@.len() ==> #[trigger] out@[j] == (if j % 2 == 0 {
                        spec_hex_digit(self@.spec_raw_byte(j / 2) / 16)
                    } else {
                        spec_hex_digit(self@.spec_raw_byte(j / 2) % 16)
                    }),
            decreases n - i,
        {
            let b = raw[i];
            out.push(hex_digit(b / 16));
            out.push(hex_digit(b % 16));
            i += 1;
        }
        proof {
            assert(out@ =~= self@.spec_encoding());
        }
        out
    }

    /// Parses a textual blob back into a snapshot.  Exactly the blobs
    /// that are the encoding of a well-formed snapshot parse, and they
    /// parse back to that very snapshot.
    #[verifier::rlimit(100)]
    pub fn decode(data: &[u8]) -> (r: Result<SaveState, SaveStateError>)
        ensures
            (exists|v: SaveStateView| v.wf() && data@ == v.spec_encoding()) ==> r is Ok,
            r matches Ok(st) ==> st@.wf(),
            // Only encodings parse: what parsed re-encodes to the input,
            // so a malformed blob is always refused.
            r matches Ok(st) ==> data@ == st@.spec_encoding(),
            r matches Ok(st) ==> forall|v: SaveStateView|
                v.wf() && data@ == #[trigger] v.spec_encoding() ==> st@ == v,
    {
        let raw = match hex_decode(data) {
            Some(raw) => raw,
            None => {
                return Err(SaveStateError { position: 0 });
            },
        };
        let half = raw.len();
        if half < RAW_FIXED_LEN {
            proof {
                assert forall|v: SaveStateView| v.wf() implies data@ != v.spec_encoding() by {
                    assert(v.spec_encoding().len() == 2 * v.spec_raw_len());
                }
            }
            return Err(SaveStateError { position: 0 });
        }

        proof {
            assert forall|v: SaveStateView|
                v.wf() && data@ == #[trigger] v.spec_encoding() implies raw@.len()
                == v.spec_raw_len() && (forall|j: int|
                0 <= j < raw@.len() ==> #[trigger] raw@[j] == v.spec_raw_byte(j)) by {
                lemma_raw_matches(data@, raw@, v);
            }
        }

        let a = raw[0];
        let f = raw[1];
        let b = raw[2];
        let c = raw[3];
        let d = raw[4];
        let e = raw[5];
        let h = raw[6];
        let l = raw[7];
        let sp = (raw[8] as u16) << 8u16 | raw[9] as u16;
        let pc = (raw[10] as u16) << 8u16 | raw[11] as u16;
        let ime_byte = raw[12];
        let halt_byte = raw[13];
        let cpu_cycles = read_u32_bytes(&raw, 14);
        let interrupt_enable = raw[18];
        let interrupt_flag = raw[19];
        let boot_byte = raw[20];
        let rom_bank_value = read_u32_bytes(&raw, 21);
        let ram_bank_value = read_u32_bytes(&raw, 25);
        let ram_enabled_byte = raw[29];
        let cycles = read_u32_bytes(&raw, 30);
        let present_byte = raw[34];
        let cart_len_value = read_u32_bytes(&raw, 35);

        if ime_byte > 1 || halt_byte > 1 || boot_byte > 1 || ram_enabled_byte > 1 || present_byte
            > 1 {
            return Err(SaveStateError { position: 12 });
        }
        if rom_bank_value >= 0x200 || ram_bank_value >= 0x10 {
            proof {
                assert forall|v: SaveStateView| v.wf() implies data@ != v.spec_encoding() by {
                    if data@ == v.spec_encoding() {
                        lemma_raw_matches(data@, raw@, v);
                        lemma_u32_bytes_roundtrip(v.rom_bank as u32);
                        lemma_u32_bytes_roundtrip(v.ram_bank as u32);
                    }
                }
            }
            return Err(SaveStateError { position: 21 });
        }
        if cart_len_value as usize != half - RAW_FIXED_LEN || (present_byte == 0 && cart_len_value
            != 0) {
            proof {
                assert forall|v: SaveStateView| v.wf() implies data@ != v.spec_encoding() by {
                    if data@ == v.spec_encoding() {
                        lemma_raw_matches(data@, raw@, v);
                        lemma_u32_bytes_roundtrip(v.spec_cart_len() as u32);
                    }
                }
            }
            return Err(SaveStateError { position: 35 });
        }

        let vram = copy_range(&raw, OFF_VRAM, OFF_WRAM);
        let wram = copy_range(&raw, OFF_WRAM, OFF_OAM);
        let oam = copy_range(&raw, OFF_OAM, OFF_IO);
        let io = copy_range(&raw, OFF_IO, OFF_HRAM);
        let hram = copy_range(&raw, OFF_HRAM, RAW_FIXED_LEN);
        let cartridge_ram: Option<Vec<u8>> = if present_byte == 1 {
            Some(copy_range(&raw, RAW_FIXED_LEN, half))
        } else {
            None
        };

        let st = SaveState {
            cpu: CpuSaveState {
                a,
                f,
                b,
                c,
                d,
                e,
                h,
                l,
                sp,
                pc,
                ime: ime_byte == 1,
                halt: halt_byte == 1,
                cycles: cpu_cycles,
            },
            memory: MemorySaveState {
                vram,
                wram,
                oam,
                io,
                hram,
                interrupt_enable,
                interrupt_flag,
                boot_rom_enabled: boot_byte == 1,
                cartridge_ram,
                mbc_state: MbcSaveState {
                    rom_bank: rom_bank_value as usize,
                    ram_bank: ram_bank_value as usize,
                    ram_enabled: ram_enabled_byte == 1,
                },
            },
            cycles,
        };

        proof {
            // The parsed snapshot's raw record is the raw bytes.
            assert(st@.spec_cart_len() == half - RAW_FIXED_LEN);
            assert(st@.spec_raw_len() == half);
            crate::registers::lemma_bytes_word(raw[8], raw[9]);
            crate::registers::lemma_bytes_word(raw[10], raw[11]);
            lemma_u32_bytes_decompose(raw[14], raw[15], raw[16], raw[17]);
            lemma_u32_bytes_decompose(raw[21], raw[22], raw[23], raw[24]);
            lemma_u32_bytes_decompose(raw[25], raw[26], raw[27], raw[28]);
            lemma_u32_bytes_decompose(raw[30], raw[31], raw[32], raw[33]);
            lemma_u32_bytes_decompose(raw[35], raw[36], raw[37], raw[38]);
            assert forall|j: int| 0 <= j < half implies raw@[j] == st@.spec_raw_byte(j) by {
                if OFF_VRAM <= j < OFF_WRAM {
                    assert(st@.vram[j - OFF_VRAM] == raw@[j]);
                } else if OFF_WRAM <= j < OFF_OAM {
                    assert(st@.wram[j - OFF_WRAM] == raw@[j]);
                } else if OFF_OAM <= j < OFF_IO {
                    assert(st@.oam[j - OFF_OAM] == raw@[j]);
                } else if OFF_IO <= j < OFF_HRAM {
                    assert(st@.io[j - OFF_IO] == raw@[j]);
                } else if OFF_HRAM <= j < RAW_FIXED_LEN {
                    assert(st@.hram[j - OFF_HRAM] == raw@[j]);
                } else if j >= RAW_FIXED_LEN {
                    assert(st@.cartridge_ram matches Some(r) && r[j - RAW_FIXED_LEN] == raw@[j]);
                }
            }
            assert forall|i: int| 0 <= i < data@.len() implies data@[i] == st@.spec_encoding()[i]
                by {
                let j = i / 2;
                assert(spec_hex_pair_at(data@, raw@, j));
                let rb = raw@[j];
                vstd::arithmetic::div_mod::lemma_fundamental_div_mod_converse(
                    rb as int,
                    16,
                    spec_hex_value(data@[2 * j]),
                    spec_hex_value(data@[2 * j + 1]),
                );
                lemma_hex_char_roundtrip(data@[2 * j]);
                lemma_hex_char_roundtrip(data@[2 * j + 1]);
            }
            assert(data@ =~= st@.spec_encoding());

            assert forall|v: SaveStateView|
                v.wf() && data@ == #[trigger] v.spec_encoding() implies st@ == v by {
                lemma_raw_matches(data@, raw@, v);
                crate::registers::lemma_word_bytes(v.sp);
                crate::registers::lemma_word_bytes(v.pc);
                assert(st@.sp == crate::registers::word(
                    crate::registers::high_byte(v.sp),
                    crate::registers::low_byte(v.sp),
                ));
                lemma_u32_bytes_roundtrip(v.cpu_cycles);
                lemma_u32_bytes_roundtrip(v.rom_bank as u32);
                lemma_u32_bytes_roundtrip(v.ram_bank as u32);
                lemma_u32_bytes_roundtrip(v.cycles);
                lemma_u32_bytes_roundtrip(v.spec_cart_len() as u32);
                assert(st@.vram =~= v.vram);
                assert(st@.wram =~= v.wram);
                assert(st@.oam =~= v.oam);
                assert(st@.io =~= v.io);
                assert(st@.hram =~= v.hram);
                if v.cartridge_ram is Some {
                    assert(st@.cartridge_ram matches Some(cr) && cr =~= v.cartridge_ram.unwrap());
                }
            }
        }

        Ok(st)
    }
}

} // verus!
