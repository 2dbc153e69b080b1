use nes::bus::BUS;
use nes::cartridges::{test_rom, Mirroring, ROM};
use nes::joypads::{Joypad, JoypadButton};
use nes::memmory::Memmory;
use nes::ppu::{Color, MaskRegister, PPU};
use nes::ram::RAM;
use nes::render::{render, show_tiles, Frame};

#[test]
fn test_memory_read_write_to_ram() {
    let mut bus = BUS::new(test_rom());
    bus.memory_write(0x01, 0x55).unwrap();
    assert_eq!(bus.memory_read(0x01), 0x55);
}

#[test]
fn test_ram_region_mirrors() {
    // the 2KB of work RAM repeats every 0x0800 bytes
    let mut bus = BUS::new(test_rom());
    bus.memory_write(0x0005, 0x99).unwrap();
    assert_eq!(bus.memory_read(0x0805), 0x99);
    assert_eq!(bus.memory_read(0x1005), 0x99);
    assert_eq!(bus.memory_read(0x1805), 0x99);
}

#[test]
fn test_prg_rom_read_and_mirror() {
    // a 16KB image repeats across the 32KB window
    let mut prg_rom = vec![0u8; 0x4000];
    prg_rom[0x0123] = 0xab;
    let rom = ROM {
        prg_rom,
        chr_rom: vec![0u8; 8192],
        mapper: 0,
        screen_mirroring: Mirroring::Horizontal,
    };
    let mut bus = BUS::new(rom);
    assert_eq!(bus.memory_read(0x8123), 0xab);
    assert_eq!(bus.memory_read(0xC123), 0xab);
}

#[test]
fn test_oam_dma_through_bus() {
    // a write to the transfer register copies one RAM page into sprite
    // memory through ordinary reads
    let mut bus = BUS::new(test_rom());
    for i in 0..256u16 {
        bus.memory_write(0x0200 + i, i as u8).unwrap();
    }
    bus.memory_write(0x2003, 0x00).unwrap(); // sprite-memory cursor
    bus.memory_write(0x4014, 0x02).unwrap(); // transfer from page 0x02
    assert_eq!(bus.ppu.oam_data[0], 0);
    assert_eq!(bus.ppu.oam_data[17], 17);
    assert_eq!(bus.ppu.oam_data[255], 255);
}

#[test]
fn test_bus_tick_advances_three_dots_per_cycle() {
    let mut bus = BUS::new(test_rom());
    bus.tick(10);
    assert_eq!(bus.ppu.cycles, 30);
    assert_eq!(bus.cycles, 10);
}

#[test]
fn test_rom_parse_rejects_bad_magic() {
    let data = vec![0u8; 32];
    match ROM::new(&data) {
        Err(msg) => assert_eq!(msg, "File is not in iNES file format"),
        Ok(_) => panic!("a bad tag must not parse"),
    }
}

#[test]
fn test_rom_parse_rejects_new_header_version() {
    let mut data = vec![0u8; 16];
    data[0] = 0x4E;
    data[1] = 0x45;
    data[2] = 0x53;
    data[3] = 0x1A;
    data[7] = 0b0000_1000; // a non-zero format-version field
    match ROM::new(&data) {
        Err(msg) => assert_eq!(msg, "NES2.0 format is not supported"),
        Ok(_) => panic!("an unsupported version must not parse"),
    }
}

#[test]
fn test_rom_parse_rejects_truncated_image() {
    let mut data = vec![0u8; 16];
    data[0] = 0x4E;
    data[1] = 0x45;
    data[2] = 0x53;
    data[3] = 0x1A;
    data[4] = 1; // declares one 16KB page that is not there
    match ROM::new(&data) {
        Err(msg) => assert_eq!(msg, "File is shorter than its header declares"),
        Ok(_) => panic!("a truncated image must not parse"),
    }
}

#[test]
fn test_rom_parse_fields() {
    let rom = test_rom();
    assert_eq!(rom.prg_rom.len(), 2 * 16384);
    assert_eq!(rom.chr_rom.len(), 8192);
    assert_eq!(rom.mapper, 3);
    assert_eq!(rom.screen_mirroring, Mirroring::Vertical);
    assert!(rom.prg_rom.iter().all(|&b| b == 1));
    assert!(rom.chr_rom.iter().all(|&b| b == 2));
}

#[test]
fn test_joypad_strobe_protocol() {
    let mut joypad = Joypad::new();
    joypad.set_button_pressed_status(JoypadButton::ButtonA, true);
    joypad.set_button_pressed_status(JoypadButton::Up, true);

    joypad.write(1); // hold the strobe: reads stay on button A
    assert_eq!(joypad.read(), 1);
    assert_eq!(joypad.read(), 1);

    joypad.write(0); // release: reads walk the eight buttons
    let bits: Vec<u8> = (0..8).map(|_| joypad.read()).collect();
    assert_eq!(bits, vec![1, 0, 0, 0, 1, 0, 0, 0]);
    // past the eighth button every read returns 1
    assert_eq!(joypad.read(), 1);
    assert_eq!(joypad.read(), 1);
}

#[test]
fn test_joypad_through_bus() {
    let mut bus = BUS::new(test_rom());
    bus.joypad1.set_button_pressed_status(JoypadButton::Start, true);
    bus.memory_write(0x4016, 1).unwrap();
    bus.memory_write(0x4016, 0).unwrap();
    let mut bits = Vec::new();
    for _ in 0..8 {
        bits.push(bus.memory_read(0x4016));
    }
    assert_eq!(bits, vec![0, 0, 0, 1, 0, 0, 0, 0]);
}

#[test]
fn test_memmory_u16_round_trip() {
    let mut memory = Memmory::new();
    memory.write_u16(0x0600, 0xBEEF);
    assert_eq!(memory.read_u16(0x0600), 0xBEEF);
    assert_eq!(memory.read(0x0600), 0xEF);
    assert_eq!(memory.read(0x0601), 0xBE);
}

#[test]
fn test_ram_read_write() {
    let mut ram = RAM::new();
    assert_eq!(ram.read(100), 0);
    ram.write(100, 0x42);
    assert_eq!(ram.read(100), 0x42);
}

#[test]
fn test_frame_set_pixel() {
    let mut frame = Frame::new();
    frame.set_pixel(1, 0, (10, 20, 30));
    assert_eq!(frame.data[3], 10);
    assert_eq!(frame.data[4], 20);
    assert_eq!(frame.data[5], 30);
    // out-of-range coordinates are ignored
    frame.set_pixel(256, 0, (1, 2, 3));
    frame.set_pixel(0, 240, (1, 2, 3));
}

#[test]
fn test_render_uses_backdrop_color() {
    // with cleared video memory every background pixel maps palette
    // entry 0 through the system palette
    let ppu = PPU::new_empty_rom();
    let mut frame = Frame::new();
    render(&ppu, &mut frame);
    assert_eq!(frame.data[0], 0x80);
    assert_eq!(frame.data[1], 0x80);
    assert_eq!(frame.data[2], 0x80);
}

#[test]
fn test_show_tiles_dimensions() {
    let chr_rom = vec![0u8; 8192];
    let frame = show_tiles(&chr_rom, 1);
    assert_eq!(frame.data.len(), 256 * 240 * 3);
}

#[test]
fn test_mask_register_emphasis() {
    let mut mask = MaskRegister::new();
    mask.update(0b1010_0000);
    let channels = mask.emphasise();
    assert_eq!(channels, vec![Color::Red, Color::Blue]);
    assert!(!mask.show_background());
    mask.update(0b0000_1000);
    assert!(mask.show_background());
}
