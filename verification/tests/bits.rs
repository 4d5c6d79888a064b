use stm32g0_ll_drivers::bits::{read_bit, read_field, write_bit, write_field};

#[test]
fn write_bit_sets_one_bit() {
    assert_eq!(write_bit(0, 0, true), 1);
    assert_eq!(write_bit(0, 31, true), 0x8000_0000);
    assert_eq!(write_bit(0x0000_0500, 24, true), 0x0100_0500);
}

#[test]
fn write_bit_clears_one_bit() {
    assert_eq!(write_bit(0xffff_ffff, 0, false), 0xffff_fffe);
    assert_eq!(write_bit(0xffff_ffff, 31, false), 0x7fff_ffff);
    assert_eq!(write_bit(0x0100_0500, 24, false), 0x0000_0500);
}

#[test]
fn write_bit_that_changes_nothing() {
    assert_eq!(write_bit(0x0000_0500, 8, true), 0x0000_0500);
    assert_eq!(write_bit(0x0000_0500, 9, false), 0x0000_0500);
}

#[test]
fn read_bit_reads_one_bit() {
    assert!(read_bit(0x0000_0500, 8));
    assert!(read_bit(0x0000_0500, 10));
    assert!(!read_bit(0x0000_0500, 9));
    assert!(read_bit(0x8000_0000, 31));
    assert!(!read_bit(0x7fff_ffff, 31));
}

#[test]
fn write_field_replaces_the_field() {
    assert_eq!(write_field(0, 3, 2, 2), 0x10);
    assert_eq!(write_field(0xffff_ffff, 3, 2, 2), 0xffff_fff7);
    assert_eq!(write_field(0xffff_ffff, 30, 2, 0), 0x3fff_ffff);
    assert_eq!(write_field(0x1234_5678, 0, 32, 0x9abc_def0), 0x9abc_def0);
    assert_eq!(write_field(0x1234_5678, 28, 4, 0xf), 0xf234_5678);
}

#[test]
fn write_field_cuts_the_value_to_the_width() {
    assert_eq!(write_field(0, 4, 3, 0xff), 0x70);
    assert_eq!(write_field(0xffff_ffff, 4, 3, 0x8), 0xffff_ff8f);
}

#[test]
fn read_field_reads_the_field() {
    assert_eq!(read_field(0x0000_0018, 3, 3), 3);
    assert_eq!(read_field(0xffff_ffff, 11, 3), 7);
    assert_eq!(read_field(0x1234_5678, 0, 32), 0x1234_5678);
    assert_eq!(read_field(0x1234_5678, 28, 4), 1);
    assert_eq!(read_field(0x1234_5678, 31, 1), 0);
}

#[test]
fn a_field_reads_back_what_was_written() {
    let mut offset = 0;
    while offset + 4 <= 32 {
        let word = write_field(0xa5a5_a5a5, offset, 4, 0x9);
        assert_eq!(read_field(word, offset, 4), 0x9);
        let mut other = 0;
        while other + 4 <= 32 {
            if other != offset {
                assert_eq!(read_field(word, other, 4), read_field(0xa5a5_a5a5, other, 4));
            }
            other += 4;
        }
        offset += 4;
    }
}
