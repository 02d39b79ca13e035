use nesemu::controller::Controller;
use nesemu::cpu::bus::CpuBus;
use nesemu::cpu::memory::Ram;
use nesemu::cpu::register::StatusFlags;
use nesemu::cpu::Cpu;
use nesemu::ppu::colors::color_rgb;
use nesemu::ppu::sprite::Sprite;
use nesemu::ppu::tile::Tile;
use nesemu::ppu::Ppu;
use nesemu::ppu::PpuStatus;
use nesemu::renderer::get_coords;
use nesemu::renderer::get_rgb;
use nesemu::renderer::Frame;
use nesemu::rom::Cartbridge;
use nesemu::rom::Mirroring;
use nesemu::rom::RomLoadError;

fn machine(program: &Vec<u8>) -> (Cpu, CpuBus) {
    let mut cartbridge = Cartbridge::new();
    cartbridge.load_from_vec(program);
    let cpu = Cpu::new();
    let cpu_bus = CpuBus::new(Ram::new(), cartbridge, Ppu::new(), Controller::new());
    (cpu, cpu_bus)
}

#[test]
fn reset_vector_establishes_power_state() {
    let (mut cpu, mut cpu_bus) = machine(&Vec::new());
    cpu_bus.rom.write(0x3FFC, 0x00);
    cpu_bus.rom.write(0x3FFD, 0x80);
    let cycles = cpu.reset(&mut cpu_bus);
    assert_eq!(cpu.register.get_pc(), 0x8000);
    assert_eq!(cpu.register.get_sp(), 0xFD);
    assert_eq!(cpu.register.get_sr(), 0x24);
    assert_eq!(cycles, 7);
}

#[test]
fn adc_sets_carry_and_overflow() {
    let program: Vec<u8> = vec![0x69, 0x50];
    let (mut cpu, mut cpu_bus) = machine(&program);
    cpu.register.set_a(0x50);
    cpu.register.set_sr(0x00);
    cpu.run_instructions(1, &mut cpu_bus);
    assert_eq!(cpu.register.get_a(), 0xA0);
    assert!(cpu.register.get_flag(StatusFlags::NEGATIVE));
    assert!(cpu.register.get_flag(StatusFlags::OVERFLOW));
    assert!(!cpu.register.get_flag(StatusFlags::ZERO));
    assert!(!cpu.register.get_flag(StatusFlags::CARRY));
}

#[test]
fn zeropage_x_wraps_inside_page_zero() {
    let program: Vec<u8> = vec![0xB5, 0x80];
    let (mut cpu, mut cpu_bus) = machine(&program);
    cpu.register.set_x(0xFF);
    cpu_bus.ram.write(0x007F, 0x42);
    cpu.run_instructions(1, &mut cpu_bus);
    assert_eq!(cpu.register.get_a(), 0x42);
}

#[test]
fn branch_page_cross_costs_two_extra_cycles() {
    let mut program: Vec<u8> = vec![0; 0xF0];
    program.push(0xF0);
    program.push(0x20);
    let (mut cpu, mut cpu_bus) = machine(&program);
    cpu.register.set_pc(0x80F0);
    cpu.register.set_flag(StatusFlags::ZERO, true);
    let res = cpu.run(&mut cpu_bus);
    assert_eq!(cpu.register.get_pc(), 0x8112);
    assert_eq!(res.0, 4);
}

#[test]
fn vblank_rises_at_scanline_241_dot_1() {
    let mut ppu = Ppu::new();
    let mut frame = Frame::new();
    // process every dot up to and including (241, 1)
    let steps = 241 * 341 + 1 + 1;
    let mut nmi_seen = false;
    for _ in 0..steps {
        if ppu.run(&mut frame) == PpuStatus::INTERRUPTNMI {
            nmi_seen = true;
        }
    }
    // NMI is only requested when PPUCTRL enables it
    assert!(!nmi_seen);
    assert_eq!(ppu.peek(0x2002), 0x80);
    assert_eq!(ppu.peek(0x2002), 0x00);
}

#[test]
fn status_read_reports_pre_read_state_and_clears() {
    let mut ppu = Ppu::new();
    ppu.register.set_status(0x80);
    ppu.write(0x2006, 0x10);
    // one $2006 write leaves the toggle waiting for the second byte
    let first = ppu.peek(0x2002);
    assert_eq!(first, 0x80);
    let second = ppu.peek(0x2002);
    assert_eq!(second, 0x00);
    // the read reset the write toggle: a fresh $2006 pair lands whole
    ppu.write(0x2006, 0x21);
    ppu.write(0x2006, 0x08);
    assert_eq!(ppu.register.get_addr(), 0x2108);
}

#[test]
fn frame_has_exactly_89342_dots() {
    let mut ppu = Ppu::new();
    let mut frame = Frame::new();
    let mut rendering = 0;
    for _ in 0..89342 {
        if ppu.run(&mut frame) == PpuStatus::RENDERING {
            rendering += 1;
        }
    }
    assert_eq!(rendering, 1);
    assert_eq!(ppu.dot, 0);
    assert_eq!(ppu.line, 0);
}

#[test]
fn addr_pair_write_lands_in_v() {
    let mut ppu = Ppu::new();
    ppu.write(0x2006, 0x21);
    ppu.write(0x2006, 0x08);
    assert_eq!(ppu.register.get_addr(), 0x2108);
}

#[test]
fn addr_high_write_masks_to_14_bits() {
    let mut ppu = Ppu::new();
    ppu.write(0x2006, 0xFF);
    ppu.write(0x2006, 0xFF);
    assert_eq!(ppu.register.get_addr(), 0x3FFF);
    assert!(ppu.register.get_addr() < 0x8000);
    assert!(ppu.register.get_temp_addr() < 0x8000);
}

#[test]
fn ppudata_reads_are_buffered_below_palette() {
    let mut ppu = Ppu::new();
    ppu.write(0x2006, 0x20);
    ppu.write(0x2006, 0x00);
    ppu.write(0x2007, 0xAB);
    ppu.write(0x2006, 0x20);
    ppu.write(0x2006, 0x00);
    let stale = ppu.peek(0x2007);
    let fresh = ppu.peek(0x2007);
    assert_eq!(stale, 0x00);
    assert_eq!(fresh, 0xAB);
}

#[test]
fn oam_dma_copies_a_full_page() {
    let program: Vec<u8> = vec![0x8D, 0x14, 0x40];
    let (mut cpu, mut cpu_bus) = machine(&program);
    for i in 0..256u16 {
        cpu_bus.ram.write(0x0200 + i, i as u8);
    }
    cpu.register.set_a(0x02);
    let res = cpu.run(&mut cpu_bus);
    let oam = cpu_bus.ppu.mem.spr_mem.get_oam();
    for i in 0..256usize {
        assert_eq!(oam[i], i as u8);
    }
    // 4 cycles for the store itself, then the 513-cycle DMA stall
    assert_eq!(res.0, 4 + 513);
}

#[test]
fn stack_round_trip_preserves_accumulator_and_flags() {
    for b in [0x00u8, 0x42u8, 0x90u8] {
        let program: Vec<u8> = vec![0xA9, b, 0x48, 0xA9, 0x00, 0x68];
        let (mut cpu, mut cpu_bus) = machine(&program);
        cpu.run_instructions(4, &mut cpu_bus);
        assert_eq!(cpu.register.get_a(), b);
        assert_eq!(cpu.register.get_flag(StatusFlags::ZERO), b == 0);
        assert_eq!(cpu.register.get_flag(StatusFlags::NEGATIVE), b & 0x80 != 0);
    }
}

#[test]
fn stack_stays_inside_its_page() {
    let (mut cpu, mut cpu_bus) = machine(&Vec::new());
    cpu.register.set_sp(0x00);
    cpu.register.push_stack(0xAB, &mut cpu_bus);
    assert_eq!(cpu_bus.peek(0x0100), 0xAB);
    assert_eq!(cpu.register.get_sp(), 0xFF);
    let popped = cpu.register.pop_stack(&mut cpu_bus);
    assert_eq!(popped, 0xAB);
    assert_eq!(cpu.register.get_sp(), 0x00);
}

#[test]
fn php_pushes_status_with_bit_5_set() {
    let program: Vec<u8> = vec![0x08];
    let (mut cpu, mut cpu_bus) = machine(&program);
    cpu.run_instructions(1, &mut cpu_bus);
    let pushed = cpu_bus.peek(0x01FF);
    assert_eq!(pushed & 0x20, 0x20);
    assert_eq!(pushed & 0x10, 0x10);
}

#[test]
fn random_port_feeds_bytes_below_255() {
    let program: Vec<u8> = vec![0xEA];
    let (mut cpu, mut cpu_bus) = machine(&program);
    cpu.run_instructions(1, &mut cpu_bus);
    assert!(cpu_bus.peek(0x00FE) < 255);
}

#[test]
fn ines_header_parses_into_banks() {
    let mut data: Vec<u8> = vec![0x4E, 0x45, 0x53, 0x1A, 1, 1, 0x01, 0, 0, 0, 0, 0, 0, 0, 0, 0];
    for i in 0..0x4000 {
        data.push((i % 251) as u8);
    }
    for i in 0..0x2000 {
        data.push((i % 241) as u8);
    }
    let mut cart = Cartbridge::new();
    assert!(cart.load_program(&data).is_ok());
    assert_eq!(cart.get_program().len(), 0x4000);
    assert_eq!(cart.get_character().len(), 0x2000);
    assert_eq!(cart.mirroring, Mirroring::Vertical);
    assert_eq!(cart.get_program()[5], data[16 + 5]);
    assert_eq!(cart.get_character()[7], data[16 + 0x4000 + 7]);
}

#[test]
fn ines_bad_magic_is_invalid_header() {
    let mut cart = Cartbridge::new();
    let data: Vec<u8> = vec![0x4E, 0x45, 0x53, 0x00, 1, 1, 0, 0, 0, 0, 0, 0, 0, 0, 0, 0];
    assert_eq!(cart.load_program(&data), Err(RomLoadError::InvalidHeader));
}

#[test]
fn ines_nonzero_mapper_is_unsupported() {
    let mut cart = Cartbridge::new();
    let data: Vec<u8> = vec![0x4E, 0x45, 0x53, 0x1A, 1, 1, 0x10, 0, 0, 0, 0, 0, 0, 0, 0, 0];
    assert_eq!(cart.load_program(&data), Err(RomLoadError::UnsupportedMapper));
}

#[test]
fn ines_short_file_is_truncated() {
    let mut cart = Cartbridge::new();
    let mut data: Vec<u8> = vec![0x4E, 0x45, 0x53, 0x1A, 1, 1, 0, 0, 0, 0, 0, 0, 0, 0, 0, 0];
    data.push(0);
    assert_eq!(cart.load_program(&data), Err(RomLoadError::TruncatedFile));
}

#[test]
fn ram_mirrors_every_2k() {
    let mut ram = Ram::new();
    ram.write(0x0000, 0x5A);
    assert_eq!(ram.peek(0x0800), 0x5A);
    assert_eq!(ram.peek(0x1800), 0x5A);
}

#[test]
fn nametable_mirroring_follows_cartridge() {
    let mut ppu = Ppu::new();
    // horizontal arrangement: $2000 and $2400 share a physical table
    ppu.mem.write(0x2005, 0x77);
    assert_eq!(ppu.mem.peek(0x2405), 0x77);
    assert_eq!(ppu.mem.peek(0x2805), 0x00);
    let mut cart = Cartbridge::new();
    cart.load_from_vec(&Vec::new());
    cart.mirroring = Mirroring::Vertical;
    let mut ppu2 = Ppu::new();
    ppu2.init(&cart);
    ppu2.mem.write(0x2005, 0x66);
    assert_eq!(ppu2.mem.peek(0x2805), 0x66);
    assert_eq!(ppu2.mem.peek(0x2405), 0x00);
}

#[test]
fn palette_aliases_sprite_zero_columns() {
    let mut ppu = Ppu::new();
    ppu.write(0x2006, 0x3F);
    ppu.write(0x2006, 0x10);
    ppu.write(0x2007, 0x2A);
    // $3F10 aliases $3F00: a read of either sees the write
    assert_eq!(ppu.mem.peek(0x3F00), 0x2A);
    assert_eq!(ppu.mem.peek(0x3F10), 0x2A);
}

#[test]
fn master_palette_starts_grey() {
    assert_eq!(color_rgb(0x00), 0x666666);
    assert_eq!(color_rgb(0x20), 0xFFFEFF);
    assert_eq!(color_rgb(0x40), color_rgb(0x00));
}

#[test]
fn rgb_splits_into_channels() {
    assert_eq!(get_rgb(0x123456), (0x12, 0x34, 0x56));
    assert_eq!(get_coords(0, 0), 0);
    assert_eq!(get_coords(1, 1), (1 + 256) * 3);
    assert_eq!(get_coords(256, 240), 0);
}

#[test]
fn tile_decode_puts_low_plane_in_bit_1() {
    let mut slice: Vec<u8> = vec![0; 16];
    slice[0] = 0x80;
    slice[8] = 0x01;
    let mut tile = Tile::new();
    tile.build_tile(&slice, 3);
    assert_eq!(tile.pixel(0, 0), 2);
    assert_eq!(tile.pixel(0, 7), 1);
    assert_eq!(tile.pixel(1, 0), 0);
    assert_eq!(tile.index, 3);
}

#[test]
fn nmi_is_requested_when_enabled_at_vblank() {
    let mut ppu = Ppu::new();
    let mut frame = Frame::new();
    ppu.write(0x2000, 0x80);
    let steps = 241 * 341 + 1 + 1;
    let mut nmi_seen = false;
    for _ in 0..steps {
        if ppu.run(&mut frame) == PpuStatus::INTERRUPTNMI {
            nmi_seen = true;
        }
    }
    assert!(nmi_seen);
}

#[test]
fn ctrl_write_during_vblank_latches_immediate_nmi() {
    let mut ppu = Ppu::new();
    ppu.register.set_status(0x80);
    ppu.write(0x2000, 0x80);
    assert!(ppu.nmi_latch);
}

#[test]
fn sprite_decode_matches_tile_convention() {
    let mut slice: Vec<u8> = vec![0; 16];
    slice[0] = 0x80;
    slice[8] = 0x01;
    let mut sprite = Sprite::new(0x0F);
    assert_eq!(sprite.coord_x, 0x08);
    assert_eq!(sprite.coord_y, 0x01);
    assert_eq!(sprite.get_index(), 0x02);
    sprite.build_sprite(&slice);
    assert_eq!(sprite.pixels[0][0], 2);
    assert_eq!(sprite.pixels[0][7], 1);
}

#[test]
fn init_decodes_pattern_table_into_tileset() {
    let mut data: Vec<u8> = vec![0x4E, 0x45, 0x53, 0x1A, 1, 1, 0x00, 0, 0, 0, 0, 0, 0, 0, 0, 0];
    data.extend(vec![0u8; 0x4000]);
    let mut chr = vec![0u8; 0x2000];
    chr[0] = 0x80;
    chr[8] = 0x01;
    chr[16] = 0xFF;
    data.extend(chr);
    let mut cart = Cartbridge::new();
    assert!(cart.load_program(&data).is_ok());
    let mut ppu = Ppu::new();
    ppu.init(&cart);
    assert_eq!(ppu.tileset.len(), 256);
    assert_eq!(ppu.tileset[0].pixels[0][0], 2);
    assert_eq!(ppu.tileset[0].pixels[0][7], 1);
    assert_eq!(ppu.tileset[1].pixels[0][3], 2);
}

#[test]
fn ram_loader_skips_zero_bytes() {
    let mut ram = Ram::new();
    ram.write(0x0001, 0x77);
    let data: Vec<u8> = vec![0x11, 0x00, 0x33];
    ram.load_program(&data);
    assert_eq!(ram.peek(0x0000), 0x11);
    // the zero byte is skipped: the old cell shows through
    assert_eq!(ram.peek(0x0001), 0x77);
    assert_eq!(ram.peek(0x0002), 0x33);
    assert_eq!(ram.get_size(), 2);
}

#[test]
fn bare_image_grows_to_two_banks() {
    let mut cart = Cartbridge::new();
    let big: Vec<u8> = vec![0xEA; 0x4001];
    cart.load_from_vec(&big);
    assert_eq!(cart.get_program().len(), 0x8000);
    assert_eq!(cart.get_program()[0x4000], 0xEA);
    assert_eq!(cart.get_program()[0x4001], 0x00);
    let mut small = Cartbridge::new();
    small.load_from_vec(&vec![0xEA]);
    assert_eq!(small.get_program().len(), 0x4000);
}

#[test]
fn indexed_reads_pay_the_page_cross_cycle() {
    // ADC ($10),Y with the pointer at $01F0 and Y = $20 crosses a page
    let program: Vec<u8> = vec![0x71, 0x10];
    let (mut cpu, mut cpu_bus) = machine(&program);
    cpu_bus.ram.write(0x0010, 0xF0);
    cpu_bus.ram.write(0x0011, 0x01);
    cpu_bus.ram.write(0x0210, 0x05);
    cpu.register.set_y(0x20);
    let res = cpu.run(&mut cpu_bus);
    assert_eq!(cpu.register.get_a(), 0x05);
    assert_eq!(res.0, 5 + 1);
    // the same read without a crossing stays at the base count
    let program: Vec<u8> = vec![0x71, 0x10];
    let (mut cpu, mut cpu_bus) = machine(&program);
    cpu_bus.ram.write(0x0010, 0xF0);
    cpu_bus.ram.write(0x0011, 0x01);
    cpu_bus.ram.write(0x01F1, 0x05);
    cpu.register.set_y(0x01);
    let res = cpu.run(&mut cpu_bus);
    assert_eq!(cpu.register.get_a(), 0x05);
    assert_eq!(res.0, 5);
}
