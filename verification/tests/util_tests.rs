use gblite::util::join_u8;
use gblite::util::split_u16;

#[test]
fn split_and_join_are_little_endian() {
    assert_eq!(split_u16(0x1234), (0x34, 0x12));
    assert_eq!(join_u8((0x34, 0x12)), 0x1234);
    assert_eq!(split_u16(0x00FF), (0xFF, 0x00));
    assert_eq!(join_u8((0xFF, 0x00)), 0x00FF);
    assert_eq!(join_u8((0x00, 0xFF)), 0xFF00);
    let v: u16 = 0xFFFF;
    let (lo, hi) = split_u16(v);
    assert_eq!(join_u8((lo, hi)), v);
}
