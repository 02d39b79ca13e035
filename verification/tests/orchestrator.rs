use nesemu::context::Context;
use nesemu::ppu::Ppu;
use nesemu::renderer::Frame;
use nesemu::rom::Cartbridge;

fn nop_cartridge() -> Cartbridge {
    // a bank of NOPs with the reset vector at $8000 and the NMI vector at $8100
    let mut prg: Vec<u8> = vec![0xEA; 0x3FFA];
    prg.extend_from_slice(&[0x00, 0x81, 0x00, 0x80, 0x00, 0x80]);
    let mut cart = Cartbridge::new();
    cart.load_from_vec(&prg);
    cart
}

#[test]
fn orchestrator_keeps_ppu_three_times_ahead() {
    let mut ctx = Context::new(nop_cartridge());
    ctx.init();
    assert_eq!(ctx.cpu_cycle, 7);
    let before = ctx.cpu_cycle;
    for _ in 0..100 {
        ctx.run();
    }
    assert!(ctx.cpu_cycle > before);
    assert_eq!(ctx.ppu_cycle, (ctx.cpu_cycle - 7) * 3);
}

#[test]
fn nmi_reaches_the_cpu_after_vblank() {
    let mut ctx = Context::new(nop_cartridge());
    ctx.init();
    assert_eq!(ctx.cpu.register.get_pc(), 0x8000);
    // enable NMI in PPUCTRL by running a write through the bus
    ctx.bus.write(0x2000, 0x80);
    while ctx.ppu_cycle < 82190 {
        ctx.run();
    }
    for _ in 0..4 {
        ctx.run();
    }
    let pc = ctx.cpu.register.get_pc();
    assert!(pc >= 0x8100 && pc < 0x8200, "PC {:04x} should sit in the NMI handler", pc);
}

#[test]
fn frame_ready_rises_once_per_frame() {
    let mut ctx = Context::new(nop_cartridge());
    ctx.init();
    let mut frames = 0;
    while ctx.ppu_cycle < 2 * 89342 + 1000 {
        ctx.run();
        if ctx.frame_ready {
            ctx.frame_ready = false;
            frames += 1;
        }
    }
    assert_eq!(frames, 2);
}

#[test]
fn enabled_background_paints_the_universal_colour() {
    let mut ppu = Ppu::new();
    let mut frame = Frame::new();
    // show the background; palette cell $3F00 stays 0, whose colour is grey
    ppu.write(0x2001, 0x08);
    for _ in 0..89342 {
        ppu.run(&mut frame);
    }
    let bytes = frame.bytes();
    assert_eq!(bytes[0], 0x66);
    assert_eq!(bytes[1], 0x66);
    assert_eq!(bytes[2], 0x66);
}

#[test]
fn sprite_zero_hit_rises_and_clears() {
    let mut data: Vec<u8> = vec![0x4E, 0x45, 0x53, 0x1A, 1, 1, 0x00, 0, 0, 0, 0, 0, 0, 0, 0, 0];
    data.extend(vec![0u8; 0x4000]);
    let mut chr = vec![0u8; 0x2000];
    for i in 0..8 {
        // background tile 0: low plane solid on every row
        chr[i] = 0xFF;
    }
    // sprite tile 1: top row solid
    chr[16] = 0xFF;
    data.extend(chr);
    let mut cart = Cartbridge::new();
    assert!(cart.load_program(&data).is_ok());
    let mut ppu = Ppu::new();
    ppu.init(&cart);
    // sprite 0 at (16, one line above 11), tile 1; both pipelines shown
    ppu.mem.spr_mem.write_data(0, 10);
    ppu.mem.spr_mem.write_data(1, 1);
    ppu.mem.spr_mem.write_data(2, 0);
    ppu.mem.spr_mem.write_data(3, 16);
    ppu.write(0x2001, 0x18);
    let mut frame = Frame::new();
    // run through scanline 11, dot 24: the overlap scores the hit
    for _ in 0..(11 * 341 + 25) {
        ppu.run(&mut frame);
    }
    assert_eq!(ppu.register.get_status() & 0x40, 0x40);
    // the pre-render line clears it again
    for _ in 0..(89342 - (11 * 341 + 25)) {
        ppu.run(&mut frame);
    }
    assert_eq!(ppu.register.get_status() & 0x40, 0x00);
}
