//! Tests of the resource subsystem: container parsing, the backward
//! bit-oriented depacker, and the bitmap de-planarization.

use awlib::resources_manager::{LoadError, ResourcesManager};

/// Packs `x` with a compatible encoder: short literal runs of up to eight
/// bytes, bits gathered into 32-bit words consumed backward, a three-word
/// header on top carrying the initial shift register, the checksum word and
/// the unpacked size.
fn pack_bytes(x: &[u8]) -> Vec<u8> {
    let mut bits: Vec<bool> = Vec::new();
    let mut rem = x.len();
    while rem > 0 {
        let k = rem.min(8);
        bits.push(false);
        bits.push(false);
        let c = (k - 1) as u8;
        for i in (0..3).rev() {
            bits.push((c >> i) & 1 == 1);
        }
        for t in 0..k {
            let b = x[rem - 1 - t];
            for i in (0..8).rev() {
                bits.push((b >> i) & 1 == 1);
            }
        }
        rem -= k;
    }

    fn lsb_val(bs: &[bool]) -> u32 {
        let mut v = 0u32;
        for (i, &b) in bs.iter().enumerate() {
            if b {
                v |= 1 << i;
            }
        }
        v
    }

    let j = bits.len() % 32;
    let m = bits.len() / 32;
    let chk0 = lsb_val(&bits[..j]) | (1u32 << j);
    let mut words = Vec::new();
    for t in 0..m {
        words.push(lsb_val(&bits[j + 32 * t..j + 32 * (t + 1)]));
    }
    let mut crc = chk0;
    for &w in &words {
        crc ^= w;
    }

    let mut out = Vec::new();
    for u in 0..m {
        out.extend_from_slice(&words[m - 1 - u].to_be_bytes());
    }
    out.extend_from_slice(&chk0.to_be_bytes());
    out.extend_from_slice(&crc.to_be_bytes());
    out.extend_from_slice(&(x.len() as u32).to_be_bytes());
    out
}

/// Builds a container: a length-prefixed index with the given records, then
/// thirteen length-prefixed banks.
fn build_container(records: &[(u8, u8, u32, u16, u16)], banks: &[Vec<u8>]) -> Vec<u8> {
    assert_eq!(banks.len(), 13);
    let mut memlist = Vec::new();
    for &(ftype, bank_id, offset, packed, size) in records {
        memlist.push(0u8);
        memlist.push(ftype);
        memlist.extend_from_slice(&[0u8; 4]);
        memlist.push(0u8);
        memlist.push(bank_id);
        memlist.extend_from_slice(&offset.to_be_bytes());
        memlist.extend_from_slice(&[0u8; 2]);
        memlist.extend_from_slice(&packed.to_be_bytes());
        memlist.extend_from_slice(&[0u8; 2]);
        memlist.extend_from_slice(&size.to_be_bytes());
    }
    memlist.push(0xff);

    let mut out = Vec::new();
    out.extend_from_slice(&(memlist.len() as u32).to_le_bytes());
    out.extend_from_slice(&memlist);
    for b in banks {
        out.extend_from_slice(&(b.len() as u32).to_le_bytes());
        out.extend_from_slice(b);
    }
    out
}

fn empty_banks() -> Vec<Vec<u8>> {
    (0..13).map(|_| Vec::new()).collect()
}

#[test]
fn depack_round_trip_short() {
    let original: Vec<u8> = vec![1, 2, 3];
    let packed = pack_bytes(&original);
    let mut banks = empty_banks();
    banks[0] = packed.clone();
    let container = build_container(
        &[(4, 1, 0, packed.len() as u16, original.len() as u16)],
        &banks,
    );
    let mut rm = ResourcesManager::new();
    assert!(rm.init(&container).is_ok());
    assert_eq!(rm.get_file(0), &original[..]);
}

#[test]
fn depack_round_trip_long() {
    let original: Vec<u8> = (0..1000u32).map(|i| (i * 37 + 11) as u8).collect();
    let packed = pack_bytes(&original);
    let mut banks = empty_banks();
    banks[2] = packed.clone();
    let container = build_container(
        &[(4, 3, 0, packed.len() as u16, original.len() as u16)],
        &banks,
    );
    let mut rm = ResourcesManager::new();
    assert!(rm.init(&container).is_ok());
    assert_eq!(rm.get_file(0), &original[..]);
}

#[test]
fn depack_round_trip_at_offset() {
    let original: Vec<u8> = vec![0xde, 0xad, 0xbe, 0xef, 0x42, 0x42, 0x42, 0x42, 0x99];
    let packed = pack_bytes(&original);
    let mut banks = empty_banks();
    banks[0] = vec![0u8; 16];
    banks[0].extend_from_slice(&packed);
    let container = build_container(
        &[(4, 1, 16, packed.len() as u16, original.len() as u16)],
        &banks,
    );
    let mut rm = ResourcesManager::new();
    assert!(rm.init(&container).is_ok());
    assert_eq!(rm.get_file(0), &original[..]);
}

#[test]
fn raw_record_is_copied() {
    let content: Vec<u8> = vec![9, 8, 7, 6, 5];
    let mut banks = empty_banks();
    banks[0] = content.clone();
    let container = build_container(&[(4, 1, 0, 5, 5)], &banks);
    let mut rm = ResourcesManager::new();
    assert!(rm.init(&container).is_ok());
    assert_eq!(rm.get_file(0), &content[..]);
    assert_eq!(rm.get_file_type(0), 4);
}

#[test]
fn corrupt_checksum_is_fatal() {
    let original: Vec<u8> = vec![1, 2, 3, 4];
    let mut packed = pack_bytes(&original);
    // Flip a bit of the checksum word (third word from the top).
    let crc_pos = packed.len() - 8;
    packed[crc_pos] ^= 0x40;
    let mut banks = empty_banks();
    banks[0] = packed.clone();
    let container = build_container(
        &[(4, 1, 0, packed.len() as u16, original.len() as u16)],
        &banks,
    );
    let mut rm = ResourcesManager::new();
    assert_eq!(rm.init(&container), Err(LoadError::CorruptChecksum));
}

#[test]
fn unknown_bank_is_fatal() {
    let banks = empty_banks();
    let container = build_container(&[(4, 14, 0, 0, 0)], &banks);
    let mut rm = ResourcesManager::new();
    assert_eq!(rm.init(&container), Err(LoadError::UnknownBank));
}

#[test]
fn record_past_bank_end_is_fatal() {
    let mut banks = empty_banks();
    banks[0] = vec![1, 2, 3];
    let container = build_container(&[(4, 1, 0, 8, 8)], &banks);
    let mut rm = ResourcesManager::new();
    assert_eq!(rm.init(&container), Err(LoadError::BankRangeOutOfBounds));
}

#[test]
fn missing_terminator_is_fatal() {
    // A container whose index holds no terminator byte.
    let mut out = Vec::new();
    out.extend_from_slice(&0u32.to_le_bytes());
    for _ in 0..13 {
        out.extend_from_slice(&0u32.to_le_bytes());
    }
    let mut rm = ResourcesManager::new();
    assert_eq!(rm.init(&out), Err(LoadError::MalformedIndex));
}

#[test]
fn bitmap_is_deplanarized() {
    // One planar bitmap, stored raw: plane bytes chosen so the first eight
    // pixels read back as the plane bits, highest plane to bit 3.
    let mut content = vec![0u8; 32000];
    content[24000] = 0b1000_0000; // bit 3 of pixel 0
    content[16000] = 0b1100_0000; // bit 2 of pixels 0 and 1
    content[8000] = 0b0100_0000; // bit 1 of pixel 1
    content[0] = 0b0000_0001; // bit 0 of pixel 7
    let mut banks = empty_banks();
    banks[0] = content.clone();
    let container = build_container(&[(2, 1, 0, 32000, 32000)], &banks);
    let mut rm = ResourcesManager::new();
    assert!(rm.init(&container).is_ok());
    let bitmap = rm.get_file(0);
    assert_eq!(bitmap.len(), 64000);
    assert_eq!(bitmap[0], 0b1100);
    assert_eq!(bitmap[1], 0b0110);
    assert_eq!(bitmap[7], 0b0001);
    assert_eq!(bitmap[2], 0);
}

#[test]
fn bitmap_rederivation_is_identical() {
    let mut content = vec![0u8; 32000];
    for i in 0..32000usize {
        content[i] = (i * 31 + 7) as u8;
    }
    let mut banks = empty_banks();
    banks[0] = content.clone();
    let container = build_container(&[(2, 1, 0, 32000, 32000)], &banks);
    let mut rm1 = ResourcesManager::new();
    let mut rm2 = ResourcesManager::new();
    assert!(rm1.init(&container).is_ok());
    assert!(rm2.init(&container).is_ok());
    assert_eq!(rm1.get_file(0), rm2.get_file(0));
}

#[test]
fn short_bitmap_is_fatal() {
    let mut banks = empty_banks();
    banks[0] = vec![0u8; 100];
    let container = build_container(&[(2, 1, 0, 100, 100)], &banks);
    let mut rm = ResourcesManager::new();
    assert_eq!(rm.init(&container), Err(LoadError::MalformedBitmap));
}

#[test]
fn several_records_keep_their_order() {
    let a: Vec<u8> = vec![1, 1, 1];
    let b: Vec<u8> = vec![2, 2];
    let mut banks = empty_banks();
    banks[0] = a.clone();
    banks[1] = b.clone();
    let container = build_container(&[(4, 1, 0, 3, 3), (3, 2, 0, 2, 2)], &banks);
    let mut rm = ResourcesManager::new();
    assert!(rm.init(&container).is_ok());
    assert_eq!(rm.get_file(0), &a[..]);
    assert_eq!(rm.get_file(1), &b[..]);
    assert_eq!(rm.get_file_type(1), 3);
}
