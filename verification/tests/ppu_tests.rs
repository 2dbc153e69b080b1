use nes::cartridges::Mirroring;
use nes::ppu::PPU;

#[test]
fn test_ppu_vram_writes() {
    let mut ppu = PPU::new_empty_rom();
    ppu.write_to_ppu_address(0x23);
    ppu.write_to_ppu_address(0x05);
    ppu.write_to_data(0x66);

    assert_eq!(ppu.vram[0x0305], 0x66);
}

#[test]
fn test_ppu_vram_reads() {
    let mut ppu = PPU::new_empty_rom();
    ppu.write_to_control(0);
    ppu.vram[0x0305] = 0x66;

    ppu.write_to_ppu_address(0x23);
    ppu.write_to_ppu_address(0x05);

    ppu.read_data(); //load_into_buffer
    assert_eq!(ppu.address.get(), 0x2306);
    assert_eq!(ppu.read_data(), 0x66);
}

#[test]
fn test_ppu_vram_reads_cross_page() {
    let mut ppu = PPU::new_empty_rom();
    ppu.write_to_control(0);
    ppu.vram[0x01ff] = 0x66;
    ppu.vram[0x0200] = 0x77;

    ppu.write_to_ppu_address(0x21);
    ppu.write_to_ppu_address(0xff);

    ppu.read_data(); //load_into_buffer
    assert_eq!(ppu.read_data(), 0x66);
    assert_eq!(ppu.read_data(), 0x77);
}

#[test]
fn test_ppu_vram_reads_step_32() {
    let mut ppu = PPU::new_empty_rom();
    ppu.write_to_control(0b100);
    ppu.vram[0x01ff] = 0x66;
    ppu.vram[0x01ff + 32] = 0x77;
    ppu.vram[0x01ff + 64] = 0x88;

    ppu.write_to_ppu_address(0x21);
    ppu.write_to_ppu_address(0xff);

    ppu.read_data(); //load_into_buffer
    assert_eq!(ppu.read_data(), 0x66);
    assert_eq!(ppu.read_data(), 0x77);
    assert_eq!(ppu.read_data(), 0x88);
}

// Horizontal mirroring:
//   [0x2000 A ] [0x2400 a ]
//   [0x2800 B ] [0x2C00 b ]
#[test]
fn test_vram_horizontal_mirror() {
    let mut ppu = PPU::new_empty_rom();
    ppu.write_to_ppu_address(0x24);
    ppu.write_to_ppu_address(0x05);

    ppu.write_to_data(0x66); //write to a

    ppu.write_to_ppu_address(0x28);
    ppu.write_to_ppu_address(0x05);

    ppu.write_to_data(0x77); //write to B

    ppu.write_to_ppu_address(0x20);
    ppu.write_to_ppu_address(0x05);

    ppu.read_data(); //load into buffer
    assert_eq!(ppu.read_data(), 0x66); //read from A

    ppu.write_to_ppu_address(0x2C);
    ppu.write_to_ppu_address(0x05);

    ppu.read_data(); //load into buffer
    assert_eq!(ppu.read_data(), 0x77); //read from b
}

// Vertical mirroring:
//   [0x2000 A ] [0x2400 B ]
//   [0x2800 a ] [0x2C00 b ]
#[test]
fn test_vram_vertical_mirror() {
    let mut ppu = PPU::new(vec![0; 2048], Mirroring::Vertical);

    ppu.write_to_ppu_address(0x20);
    ppu.write_to_ppu_address(0x05);

    ppu.write_to_data(0x66); //write to A

    ppu.write_to_ppu_address(0x2C);
    ppu.write_to_ppu_address(0x05);

    ppu.write_to_data(0x77); //write to b

    ppu.write_to_ppu_address(0x28);
    ppu.write_to_ppu_address(0x05);

    ppu.read_data(); //load into buffer
    assert_eq!(ppu.read_data(), 0x66); //read from a

    ppu.write_to_ppu_address(0x24);
    ppu.write_to_ppu_address(0x05);

    ppu.read_data(); //load into buffer
    assert_eq!(ppu.read_data(), 0x77); //read from B
}

#[test]
fn test_read_status_resets_latch() {
    let mut ppu = PPU::new_empty_rom();
    ppu.vram[0x0305] = 0x66;

    ppu.write_to_ppu_address(0x21);
    ppu.write_to_ppu_address(0x23);
    ppu.write_to_ppu_address(0x05);

    ppu.read_data(); //load_into_buffer
    assert_ne!(ppu.read_data(), 0x66);

    ppu.read_status();

    ppu.write_to_ppu_address(0x23);
    ppu.write_to_ppu_address(0x05);

    ppu.read_data(); //load_into_buffer
    assert_eq!(ppu.read_data(), 0x66);
}

#[test]
fn test_ppu_vram_mirroring() {
    let mut ppu = PPU::new_empty_rom();
    ppu.write_to_control(0);
    ppu.vram[0x0305] = 0x66;

    ppu.write_to_ppu_address(0x63); //0x6305 -> 0x2305
    ppu.write_to_ppu_address(0x05);

    ppu.read_data(); //load into_buffer
    assert_eq!(ppu.read_data(), 0x66);
}

#[test]
fn test_read_status_resets_vblank() {
    let mut ppu = PPU::new_empty_rom();
    ppu.status.set_vblank_status(true);

    let status = ppu.read_status();

    assert_eq!(status >> 7, 1);
    assert_eq!(ppu.status.snapshot() >> 7, 0);
}

#[test]
fn test_oam_read_write() {
    let mut ppu = PPU::new_empty_rom();
    ppu.write_to_oam_address(0x10);
    ppu.write_to_oam_data(0x66);
    ppu.write_to_oam_data(0x77);

    ppu.write_to_oam_address(0x10);
    assert_eq!(ppu.read_oam_data(), 0x66);

    ppu.write_to_oam_address(0x11);
    assert_eq!(ppu.read_oam_data(), 0x77);
}

#[test]
fn test_oam_dma() {
    let mut ppu = PPU::new_empty_rom();

    let mut data = vec![0x66u8; 256];
    data[0] = 0x77;
    data[255] = 0x88;

    ppu.write_to_oam_address(0x10);
    ppu.write_oam_dma(&data);

    ppu.write_to_oam_address(0xf); //wrap around
    assert_eq!(ppu.read_oam_data(), 0x88);

    ppu.write_to_oam_address(0x10);
    ppu.write_to_oam_address(0x77);
    ppu.write_to_oam_address(0x11);
    ppu.write_to_oam_address(0x66);
}

#[test]
fn test_frame_boundary_single_signal() {
    // one full frame is 341 dots on each of 262 scanlines
    let mut ppu = PPU::new_empty_rom();
    let total: u32 = 341 * 262;
    let mut advanced: u32 = 0;
    let mut frames: u32 = 0;
    while advanced < total {
        let chunk = if total - advanced > 255 { 255 } else { (total - advanced) as u8 };
        if ppu.tick(chunk) {
            frames += 1;
        }
        advanced += chunk as u32;
    }
    assert_eq!(frames, 1);
    assert_eq!(ppu.status.snapshot() >> 7, 0);
    assert_eq!(ppu.scanline, 0);
}

#[test]
fn test_vblank_sets_and_nmi_raised() {
    let mut ppu = PPU::new_empty_rom();
    ppu.write_to_control(0x80); // enable the vblank interrupt
    let mut advanced: u32 = 0;
    while advanced < 242 * 341 {
        ppu.tick(241);
        advanced += 241;
    }
    assert!(ppu.status.is_in_vblank());
    assert_eq!(ppu.poll_nmi_interrupt(), Some(1));
    assert_eq!(ppu.poll_nmi_interrupt(), None); // consumed once
}

#[test]
fn test_nmi_retrigger_inside_vblank() {
    let mut ppu = PPU::new_empty_rom();
    ppu.status.set_vblank_status(true);
    ppu.write_to_control(0x80); // enabling inside vblank re-raises at once
    assert_eq!(ppu.poll_nmi_interrupt(), Some(1));
}

#[test]
fn test_control_register_helpers() {
    let mut ppu = PPU::new_empty_rom();
    ppu.write_to_control(0b0000_0100);
    assert_eq!(ppu.control.vram_address_increment(), 32);
    ppu.write_to_control(0);
    assert_eq!(ppu.control.vram_address_increment(), 1);
    ppu.write_to_control(0b11);
    assert_eq!(ppu.control.nametable_address(), 0x2c00);
    ppu.write_to_control(0b01);
    assert_eq!(ppu.control.nametable_address(), 0x2400);
    ppu.write_to_control(0b0100_0000);
    assert_eq!(ppu.control.master_slave_select(), 1);
    ppu.write_to_control(0b0010_0000);
    assert_eq!(ppu.control.master_slave_select(), 0);
    assert_eq!(ppu.control.sprite_size(), 16);
}

#[test]
fn test_palette_write_and_mirror() {
    let mut ppu = PPU::new_empty_rom();
    ppu.write_to_ppu_address(0x3f);
    ppu.write_to_ppu_address(0x10); // aliases 0x3f00
    ppu.write_to_data(0x2a);
    assert_eq!(ppu.palette_table[0], 0x2a);

    ppu.write_to_ppu_address(0x3f);
    ppu.write_to_ppu_address(0x01);
    ppu.write_to_data(0x15);
    // palette reads bypass the internal buffer
    ppu.write_to_ppu_address(0x3f);
    ppu.write_to_ppu_address(0x01);
    assert_eq!(ppu.read_data(), 0x15);
}
