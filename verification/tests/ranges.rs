use lay::Measured;

struct BitsBuffer {
    bits: Vec<bool>,
}

impl Measured for BitsBuffer {
    type Slot = u32;

    fn bit(&self, n: u32) -> bool {
        self.bits.get(n as usize).copied().unwrap_or(false)
    }

    fn get(&self, n: u32) -> bool {
        self.bits.get(n as usize).copied().unwrap_or(false)
    }
}

fn buffer_of(value: u64, n: usize) -> BitsBuffer {
    let mut bits = Vec::new();
    let mut i: usize = 0;
    while i < n {
        bits.push((value >> i) & 1 == 1);
        i += 1;
    }
    BitsBuffer { bits }
}

#[test]
fn range_u8_packs_low_bit_first() {
    let b = buffer_of(0xB5, 8);
    assert!(b.get(0));
    assert!(!b.get(1));
    assert_eq!(b.get_range_u8(0, 8), 0xB5);
    assert_eq!(b.get_range_u8(2, 6), 0xD);
    assert_eq!(b.get_range_u8(3, 3), 0);
}

#[test]
fn range_u16_composes_from_u8_halves() {
    let b = buffer_of(0xBEEF, 16);
    let whole = b.get_range_u16(0, 16);
    assert_eq!(whole, 0xBEEF);
    let lo = b.get_range_u8(0, 8);
    let hi = b.get_range_u8(8, 16);
    assert_eq!(whole, lo as u16 | ((hi as u16) << 8));
    // a narrow request takes the direct path
    assert_eq!(b.get_range_u16(0, 8), 0xEF);
    assert_eq!(b.get_range_u16(4, 16), 0xBEE);
}

#[test]
fn range_u32_composes_from_u16_halves() {
    let b = buffer_of(0xDEADBEEF, 32);
    let whole = b.get_range_u32(0, 32);
    assert_eq!(whole, 0xDEADBEEF);
    let lo = b.get_range_u16(0, 16);
    let hi = b.get_range_u16(16, 32);
    assert_eq!(whole, lo as u32 | ((hi as u32) << 16));
    assert_eq!(b.get_range_u32(0, 20), 0xDBEEF);
    assert_eq!(b.get_range_u32(8, 24), 0xADBE);
}

#[test]
fn range_u64_composes_from_u32_halves() {
    let v: u64 = 0xDEADBEEFCAFEF00D;
    let b = buffer_of(v, 64);
    let whole = b.get_range_u64(0, 64);
    assert_eq!(whole, v);
    let lo = b.get_range_u32(0, 32);
    let hi = b.get_range_u32(32, 64);
    assert_eq!(whole, lo as u64 | ((hi as u64) << 32));
    assert_eq!(b.get_range_u64(4, 40), (v >> 4) & 0xF_FFFF_FFFF);
    assert_eq!(b.get_range_u64(0, 8), 0x0D);
}

#[test]
fn range_reads_past_stored_bits_are_zero() {
    let b = buffer_of(0xFF, 8);
    assert_eq!(b.get_range_u16(0, 16), 0x00FF);
    assert_eq!(b.get_range_u8(8, 16), 0);
}

#[test]
fn failed_outcome_get_reads_false() {
    let failed: Result<BitsBuffer, u32> = Err(42);
    assert!(!failed.get(0));
    assert!(!failed.get(7));
    assert!(!failed.get(4096));
}

#[test]
fn failed_outcome_ranges_read_zero() {
    let failed: Result<BitsBuffer, u32> = Err(7);
    assert_eq!(failed.get_range_u8(0, 8), 0);
    assert_eq!(failed.get_range_u16(0, 16), 0);
    assert_eq!(failed.get_range_u32(0, 32), 0);
    assert_eq!(failed.get_range_u64(0, 64), 0);
    assert_eq!(failed.get_range_u64(3, 61), 0);
}

#[test]
fn ok_outcome_reads_pass_through() {
    let ok: Result<BitsBuffer, u32> = Ok(buffer_of(0xB5, 8));
    assert!(ok.get(0));
    assert!(!ok.get(1));
    assert_eq!(ok.get_range_u8(0, 8), 0xB5);
    assert_eq!(ok.get_range_u16(0, 16), 0xB5);
}
