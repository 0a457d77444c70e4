use gamerboy::Addressable;
use gamerboy::AddressError;
use gamerboy::Bus as _;
use gamerboy::CopyOf;
use gamerboy::GPU as _;
use gamerboy::RAM as _;
use gamerboy::Word;
use gamerboy::gameboy_bus::Bus;
use gamerboy::gameboy_gpu::GPU;
use gamerboy::gameboy_ram::RAM;

#[test]
fn ram_address_partitioning() {
    // Every address within the configured range round-trips; every address
    // outside it fails with OutOfBounds carrying that address.
    const START: u16 = 0xC000;
    const SIZE: usize = 0x100;
    let mut ram = RAM::<SIZE>::create(START);
    for offset in 0..SIZE as u16 {
        let addr = START + offset;
        assert_eq!(ram.read_byte(addr), Ok(0));
        let value = (offset % 251) as u8;
        assert_eq!(ram.write_byte(addr, value), Ok(()));
        assert_eq!(ram.read_byte(addr), Ok(value));
    }
    for addr in [0x0000u16, 0xBFFF, 0xC100, 0xFFFF] {
        assert_eq!(ram.read_byte(addr), Err(AddressError::OutOfBounds(addr)));
        assert_eq!(ram.write_byte(addr, 1), Err(AddressError::OutOfBounds(addr)));
    }
}

#[test]
fn disjoint_ram_devices_do_not_interfere() {
    let mut first = RAM::<0x100>::create(0xC000);
    let mut second = RAM::<0x100>::create(0xD000);
    assert_eq!(first.write_byte(0xC010, 0xAA), Ok(()));
    assert_eq!(second.write_byte(0xD010, 0xBB), Ok(()));
    assert_eq!(first.read_byte(0xC010), Ok(0xAA));
    assert_eq!(second.read_byte(0xD010), Ok(0xBB));
    assert_eq!(first.read_byte(0xD010), Err(AddressError::OutOfBounds(0xD010)));
    assert_eq!(second.read_byte(0xC010), Err(AddressError::OutOfBounds(0xC010)));
}

fn setup_bus() -> Bus<0x2000, 0x2000> {
    // RAM covers [0xC000, 0xDFFF], the peripheral covers [0x8000, 0x9FFF].
    let ram = RAM::<0x2000>::create(0xC000);
    let vram = RAM::<0x2000>::create(0x8000);
    let gpu = GPU::create(vram);
    Bus::create(ram, gpu)
}

#[test]
fn bus_fallback_routes_to_peripheral() {
    let mut bus = setup_bus();
    // An address the peripheral maps resolves to the peripheral's result.
    assert_eq!(bus.read_byte(0x8000), Ok(0));
    assert_eq!(bus.write_byte(0x8000, 0x5A), Ok(()));
    assert_eq!(bus.read_byte(0x8000), Ok(0x5A));
    // The write went to the peripheral, not to RAM.
    assert_eq!(bus.copy_of(CopyOf::VRAM)[0], 0x5A);
    assert!(bus.copy_of(CopyOf::RAM).iter().all(|b| *b == 0));
    // An address neither device maps fails with the propagated fault.
    assert_eq!(bus.read_byte(0xA000), Err(AddressError::OutOfBounds(0xA000)));
    assert_eq!(bus.write_byte(0xA000, 1), Err(AddressError::OutOfBounds(0xA000)));
}

#[test]
fn bus_prefers_ram() {
    let mut bus = setup_bus();
    assert_eq!(bus.write_byte(0xC123, 0x77), Ok(()));
    assert_eq!(bus.read_byte(0xC123), Ok(0x77));
    assert_eq!(bus.copy_of(CopyOf::RAM)[0x123], 0x77);
    assert!(bus.copy_of(CopyOf::VRAM).iter().all(|b| *b == 0));
}

#[test]
fn snapshot_isolation() {
    let mut bus = setup_bus();
    assert_eq!(bus.write_byte(0xC000, 0xAB), Ok(()));
    let snapshot = bus.copy_of(CopyOf::RAM);
    assert_eq!(snapshot[0], 0xAB);
    // Mutating RAM after the copy must not change the snapshot.
    assert_eq!(bus.write_byte(0xC000, 0xCD), Ok(()));
    assert_eq!(snapshot[0], 0xAB);
    assert_eq!(bus.copy_of(CopyOf::RAM)[0], 0xCD);
}

#[test]
fn deep_copy_spans_whole_store() {
    let mut ram = RAM::<0x2000>::create(0xC000);
    assert_eq!(ram.write_byte(0xDFFF, 9), Ok(()));
    let copy = ram.deep_copy();
    assert_eq!(copy.len(), 0x2000);
    assert_eq!(copy[0x1FFF], 9);
    assert_eq!(copy[0], 0);
}

#[test]
fn word_byte_independence() {
    // set_high then set_low, and the other order, leave both halves exact.
    for &(h, l) in &[(0u8, 0u8), (0xFF, 0xFF), (0x12, 0x34), (0xAB, 0x01), (1, 255)] {
        let mut w = Word::nil();
        w.set_high(h);
        w.set_low(l);
        assert_eq!(w.get_high(), h);
        assert_eq!(w.get_low(), l);

        let mut v = Word::from(0x5A5Au16);
        v.set_low(l);
        v.set_high(h);
        assert_eq!(v.get_high(), h);
        assert_eq!(v.get_low(), l);
    }
}

#[test]
fn word_bit_operations() {
    let mut w = Word::nil();
    w.set_bit(4);
    assert_eq!(w.value(), 0x10);
    w.set_bit(7);
    assert_eq!(w.value(), 0x90);
    w.unset_bit(4);
    assert_eq!(w.value(), 0x80);
    w.unset_bit(4);
    assert_eq!(w.value(), 0x80);
}

#[test]
fn word_wrapping_add() {
    assert_eq!(Word::from(0xFFFFu16).wrapping_add(Word::from(1u16)), Word::nil());
    assert_eq!(Word::from(0xFFFEu16).wrapping_add(Word::from(5u16)).value(), 3);
    assert_eq!(Word::from(7u16).wrapping_add(Word::from(8u16)).value(), 15);
}
