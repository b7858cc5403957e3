use ipv4_header::big_endian::push_u16;
use ipv4_header::big_endian::push_u32;
use ipv4_header::big_endian::read_u16;
use ipv4_header::big_endian::read_u32;

#[test]
fn push_u16_puts_the_high_byte_first() {
    let mut out = vec![0x99u8];
    push_u16(&mut out, 0x1234);
    assert_eq!(out, vec![0x99, 0x12, 0x34]);
    push_u16(&mut out, 0);
    push_u16(&mut out, 0xFFFF);
    push_u16(&mut out, 0x00FF);
    push_u16(&mut out, 0xFF00);
    assert_eq!(out, vec![0x99, 0x12, 0x34, 0, 0, 0xFF, 0xFF, 0x00, 0xFF, 0xFF, 0x00]);
}

#[test]
fn push_u32_puts_the_high_byte_first() {
    let mut out = Vec::new();
    push_u32(&mut out, 0x0A00_0001);
    assert_eq!(out, vec![0x0A, 0x00, 0x00, 0x01]);
    push_u32(&mut out, 0xDEAD_BEEF);
    assert_eq!(out, vec![0x0A, 0x00, 0x00, 0x01, 0xDE, 0xAD, 0xBE, 0xEF]);
}

#[test]
fn read_u16_reads_at_the_offset() {
    let bytes = [0x01u8, 0x02, 0x03, 0xFF];
    assert_eq!(read_u16(&bytes, 0), 0x0102);
    assert_eq!(read_u16(&bytes, 1), 0x0203);
    assert_eq!(read_u16(&bytes, 2), 0x03FF);
}

#[test]
fn read_u32_reads_at_the_offset() {
    let bytes = [0x01u8, 0x02, 0x03, 0x04, 0xFF];
    assert_eq!(read_u32(&bytes, 0), 0x0102_0304);
    assert_eq!(read_u32(&bytes, 1), 0x0203_04FF);
}

#[test]
fn agrees_with_the_standard_conversions() {
    for x in [0u16, 1, 255, 256, 0x7FFF, 0x8000, 0xABCD, 0xFFFF] {
        let mut out = Vec::new();
        push_u16(&mut out, x);
        assert_eq!(out, x.to_be_bytes().to_vec());
        assert_eq!(read_u16(&out, 0), x);
    }
    for x in [0u32, 1, 0xFF, 0x100, 0xFFFF, 0x1_0000, 0x7FFF_FFFF, 0x8000_0000, 0x1234_5678, u32::MAX] {
        let mut out = Vec::new();
        push_u32(&mut out, x);
        assert_eq!(out, x.to_be_bytes().to_vec());
        assert_eq!(read_u32(&out, 0), x);
    }
}
