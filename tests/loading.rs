use breadboard::hex::{hex_byte, parse_hex_line};
use breadboard::memory::FLASH_SIZE;
use breadboard::{ATmemory, LoaderError};

#[test]
fn oversized_binary_is_refused_and_flash_kept() {
    let mut cpu = ATmemory::init();
    cpu.load_bin(&[1, 2, 3]).unwrap();
    let image = vec![0xAAu8; FLASH_SIZE + 1];
    assert_eq!(cpu.load_bin(&image), Err(LoaderError::CapacityExceeded));
    assert_eq!(&cpu.flash()[..4], &[1, 2, 3, 0]);
}

#[test]
fn binary_of_exact_size_loads() {
    let mut cpu = ATmemory::init();
    let image = vec![0x55u8; FLASH_SIZE];
    assert_eq!(cpu.load_bin(&image), Ok(()));
    assert!(cpu.flash().iter().all(|&b| b == 0x55));
}

#[test]
fn binary_load_keeps_the_rest_of_flash() {
    let mut cpu = ATmemory::init();
    cpu.load_bin(&[9, 9, 9, 9]).unwrap();
    cpu.load_bin(&[1, 2]).unwrap();
    assert_eq!(&cpu.flash()[..5], &[1, 2, 9, 9, 0]);
}

#[test]
fn vector_load_erases_first() {
    let mut cpu = ATmemory::init();
    cpu.load_bin(&[9, 9, 9, 9]).unwrap();
    cpu.load_flash_from_vec(vec![1, 2]).unwrap();
    assert_eq!(&cpu.flash()[..5], &[1, 2, 0, 0, 0]);
}

#[test]
fn oversized_vector_leaves_flash_erased() {
    let mut cpu = ATmemory::init();
    cpu.load_bin(&[9, 9]).unwrap();
    let image = vec![0xAAu8; FLASH_SIZE + 1];
    assert_eq!(cpu.load_flash_from_vec(image), Err(LoaderError::CapacityExceeded));
    assert!(cpu.flash().iter().all(|&b| b == 0));
    assert_eq!(cpu.pc(), 0);
}

#[test]
fn hex_digits_in_either_case() {
    assert_eq!(hex_byte(b'a', b'F'), Ok(0xAF));
    assert_eq!(hex_byte(b'0', b'9'), Ok(0x09));
    assert_eq!(hex_byte(b'g', b'0'), Err(LoaderError::MalformedRecord));
}

#[test]
fn parse_data_record() {
    let rec = parse_hex_line(b":0300100001020304").unwrap().unwrap();
    assert_eq!(rec.address, 0x0010);
    assert_eq!(rec.byte_count, 3);
    assert_eq!(rec.data, vec![1, 2, 3]);
}

#[test]
fn parse_end_of_file_record() {
    assert!(parse_hex_line(b":00000001FF").unwrap().is_none());
}

#[test]
fn parse_rejects_malformed_lines() {
    // odd length
    assert!(matches!(parse_hex_line(b":0000000"), Err(LoaderError::MalformedRecord)));
    // not hexadecimal
    assert!(matches!(parse_hex_line(b":00000Z01FF"), Err(LoaderError::MalformedRecord)));
    // too short
    assert!(matches!(parse_hex_line(b":00000001"), Err(LoaderError::MalformedRecord)));
    // byte count does not match the length
    assert!(matches!(parse_hex_line(b":0200000001FF"), Err(LoaderError::MalformedRecord)));
    // empty line
    assert!(matches!(parse_hex_line(b""), Err(LoaderError::MalformedRecord)));
}

#[test]
fn parse_rejects_other_record_types() {
    assert!(matches!(
        parse_hex_line(b":020000021000EC"),
        Err(LoaderError::UnsupportedRecordType)
    ));
}

#[test]
fn hex_load_places_records() {
    let mut cpu = ATmemory::init();
    let text = ":020000001FEFF0\r\n:02000400010FEA\n:00000001FF\n";
    assert_eq!(cpu.load_hex(text), Ok(()));
    assert_eq!(&cpu.flash()[..6], &[0x1F, 0xEF, 0, 0, 0x01, 0x0F]);
}

#[test]
fn hex_load_skips_bad_lines() {
    let mut cpu = ATmemory::init();
    let text = "garbage\n:010000009966\n:02000002100000\n:01000100AA54\n";
    assert_eq!(cpu.load_hex(text), Ok(()));
    assert_eq!(&cpu.flash()[..3], &[0x99, 0xAA, 0]);
}

#[test]
fn hex_load_stops_at_end_of_file() {
    let mut cpu = ATmemory::init();
    let text = ":0100000011EE\n:00000001FF\n:0100010022DD\n";
    assert_eq!(cpu.load_hex(text), Ok(()));
    assert_eq!(&cpu.flash()[..2], &[0x11, 0]);
}

#[test]
fn hex_load_last_line_without_newline() {
    let mut cpu = ATmemory::init();
    assert_eq!(cpu.load_hex(":0100050042B8"), Ok(()));
    assert_eq!(cpu.flash()[5], 0x42);
}

#[test]
fn hex_load_out_of_range_aborts() {
    let mut cpu = ATmemory::init();
    let text = ":023FFF00ABCDE8\n:0100000011EE\n";
    assert_eq!(cpu.load_hex(text), Err(LoaderError::AddressOutOfRange));
    // the byte that fits is written, the next line is never read
    assert_eq!(cpu.flash()[0x3FFF], 0xAB);
    assert_eq!(cpu.flash()[0], 0);
}

#[test]
fn hex_reload_after_erase_is_identical() {
    let text = ":0400000001020304F2\n:02001000AABB89\n:00000001FF\n";
    let mut cpu = ATmemory::init();
    cpu.erase_flash();
    cpu.load_hex(text).unwrap();
    let first = cpu.flash().to_vec();
    cpu.erase_flash();
    cpu.load_hex(text).unwrap();
    assert_eq!(cpu.flash().to_vec(), first);
    assert_eq!(&first[..4], &[1, 2, 3, 4]);
    assert_eq!(&first[0x10..0x12], &[0xAA, 0xBB]);
}

#[test]
fn hex_load_twice_equals_once() {
    // overlapping records: the later one wins both times
    let text = ":0400000001020304F2\n:02000100AABB98\n";
    let mut cpu = ATmemory::init();
    cpu.load_bin(&[7, 7, 7, 7, 7, 7]).unwrap();
    cpu.load_hex(text).unwrap();
    let once = cpu.flash().to_vec();
    cpu.load_hex(text).unwrap();
    assert_eq!(cpu.flash().to_vec(), once);
    assert_eq!(&once[..6], &[1, 0xAA, 0xBB, 4, 7, 7]);
}
