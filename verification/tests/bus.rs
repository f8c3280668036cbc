use nes6502::bus::Bus;

#[test]
fn test_construct_bus() {
    let bus = Bus::new();
    assert_eq!(bus.ram.len(), 2048);
    assert_eq!(bus.ppu.len(), 7);
}
