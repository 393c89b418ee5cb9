use gblite::memory::MemClient;
use gblite::memory::Memory;

#[test]
fn image_fills_low_addresses() {
    let mem = Memory::new(vec![0x11, 0x22, 0x33]);
    assert_eq!(mem.get(0x0000, MemClient::CPU), 0x11);
    assert_eq!(mem.get(0x0001, MemClient::CPU), 0x22);
    assert_eq!(mem.get(0x0002, MemClient::PPU), 0x33);
    assert_eq!(mem.get(0x0003, MemClient::CPU), 0x00);
    assert_eq!(mem.get(0xFFFF, MemClient::CPU), 0x00);
}

#[test]
fn empty_image_reads_as_zero() {
    let mem = Memory::new(vec![]);
    assert_eq!(mem.get(0x0000, MemClient::CPU), 0x00);
    assert_eq!(mem.get(0x8000, MemClient::PPU), 0x00);
    assert_eq!(mem.get(0xFFFF, MemClient::CPU), 0x00);
}

#[test]
fn writes_read_back() {
    let mut mem = Memory::new(vec![]);
    mem.set(0xAB, 0x1234, MemClient::CPU);
    assert_eq!(mem.get(0x1234, MemClient::CPU), 0xAB);
    assert_eq!(mem.get(0x1233, MemClient::CPU), 0x00);
    assert_eq!(mem.get(0x1235, MemClient::CPU), 0x00);
    mem.set(0xCD, 0xFFFF, MemClient::PPU);
    assert_eq!(mem.get(0xFFFF, MemClient::CPU), 0xCD);
}
