use nesemu::controller::Controller;
use nesemu::cpu::bus::CpuBus;
use nesemu::cpu::memory::Ram;
use nesemu::cpu::register::StatusFlags;
use nesemu::cpu::Cpu;
use nesemu::ppu::Ppu;
use nesemu::rom::Cartbridge;

fn create_test_context(program: &Vec<u8>) -> (Cpu, CpuBus) {
    let mut cartbridge = Cartbridge::new();
    cartbridge.load_from_vec(program);
    let cpu = Cpu::new();
    let cpu_bus = CpuBus::new(Ram::new(), cartbridge, Ppu::new(), Controller::new());
    (cpu, cpu_bus)
}

#[test]
fn reset_cpu() {
    let (mut cpu, mut cpu_bus) = create_test_context(&Vec::new());
    cpu_bus.rom.write(0xFFFC - 0xC000, 0x01);
    cpu_bus.rom.write(0xFFFD - 0xC000, 0x80);
    cpu.reset(&mut cpu_bus);
    assert_eq!(cpu.register.get_x(), 0);
    assert_eq!(cpu.register.get_a(), 0);
    assert_eq!(cpu.register.get_y(), 0);
    assert_eq!(cpu.register.get_pc(), 0x8001);
}

#[test]
fn adc_immediate_should_add_to_acc() {
    let program: Vec<u8> = vec![0x69, 0xfe, 0x69, 0x01];
    let (mut cpu, mut cpu_bus) = create_test_context(&program);
    cpu.register.set_a(0x01);
    cpu.run_instructions(1, &mut cpu_bus);
    assert_eq!(cpu.register.get_a(), 0xff);
    assert!(cpu.register.get_flag(StatusFlags::NEGATIVE));
    assert!(!cpu.register.get_flag(StatusFlags::OVERFLOW));
    assert!(!cpu.register.get_flag(StatusFlags::ZERO));
    assert!(cpu.register.get_flag(StatusFlags::NEGATIVE));
    cpu.run_instructions(1, &mut cpu_bus);
    assert_eq!(cpu.register.get_a(), 0x00);
    assert!(!cpu.register.get_flag(StatusFlags::NEGATIVE));
    assert!(!cpu.register.get_flag(StatusFlags::OVERFLOW));
    assert!(cpu.register.get_flag(StatusFlags::ZERO));
    assert!(cpu.register.get_flag(StatusFlags::CARRY));
}

#[test]
fn mod_test_adc_zeropage() {
    let program: Vec<u8> = vec![0x65, 0xa1];
    let (mut cpu, mut cpu_bus) = create_test_context(&program);
    cpu_bus.ram.write(0x00a1, 0x08);
    cpu.run_instructions(1, &mut cpu_bus);
    assert_eq!(cpu.register.get_a(), 0x08);
}

#[test]
fn mod_test_adc_zeropagex() {
    let program: Vec<u8> = vec![0x75, 0xa1];
    let (mut cpu, mut cpu_bus) = create_test_context(&program);
    cpu_bus.ram.write(0x00a2, 0x08);
    cpu.register.set_x(0x01);
    cpu.run_instructions(1, &mut cpu_bus);
    assert_eq!(cpu.register.get_a(), 0x08);
}

#[test]
fn mod_test_adc_absolute() {
    let program: Vec<u8> = vec![0x6D, 0xa1, 0x00];
    let (mut cpu, mut cpu_bus) = create_test_context(&program);
    cpu_bus.ram.write(0x00a1, 0x08);
    cpu.run_instructions(1, &mut cpu_bus);
    assert_eq!(cpu.register.get_a(), 0x08);
}

#[test]
fn mod_test_adc_absolutex() {
    let program: Vec<u8> = vec![0x7D, 0xa1, 0x00];
    let (mut cpu, mut cpu_bus) = create_test_context(&program);
    cpu_bus.ram.write(0x00a2, 0x08);
    cpu.register.set_x(0x01);
    cpu.run_instructions(1, &mut cpu_bus);
    assert_eq!(cpu.register.get_a(), 0x08);
}

#[test]
fn mod_test_asl_accumulator() {
    let program: Vec<u8> = vec![0x0A];
    let (mut cpu, mut cpu_bus) = create_test_context(&program);
    cpu.register.set_a(0x02);
    cpu.run_instructions(1, &mut cpu_bus);
    assert_eq!(cpu.register.get_a(), 0x04);
}

#[test]
fn mod_test_asl() {
    let program: Vec<u8> = vec![0x06, 0x04];
    let (mut cpu, mut cpu_bus) = create_test_context(&program);
    cpu_bus.ram.write(0x0004, 0x02);
    cpu.run_instructions(1, &mut cpu_bus);
    assert_eq!(cpu_bus.ram.peek(0x0004), 0x04);
}

#[test]
fn test_bit() {
    let program: Vec<u8> = vec![0x24, 0x04];
    let (mut cpu, mut cpu_bus) = create_test_context(&program);
    cpu_bus.ram.write(0x0004, 0xaa);
    cpu.register.set_a(0x40);
    cpu.run_instructions(1, &mut cpu_bus);
    assert!(cpu.register.get_flag(StatusFlags::ZERO));
    assert!(cpu.register.get_flag(StatusFlags::NEGATIVE));
    let program: Vec<u8> = vec![0x24, 0x04];
    let (mut cpu, mut cpu_bus) = create_test_context(&program);
    cpu.register.set_a(0x40);
    cpu_bus.ram.write(0x0004, 0x40);
    cpu.run_instructions(1, &mut cpu_bus);
    assert!(cpu.register.get_flag(StatusFlags::OVERFLOW));
}

#[test]
fn test_lsr_accumulator() {
    let program: Vec<u8> = vec![0x4a];
    let (mut cpu, mut cpu_bus) = create_test_context(&program);
    cpu.register.set_a(0x41);
    cpu.run_instructions(1, &mut cpu_bus);
    assert_eq!(cpu.register.get_a(), 0x20);
    assert_eq!(cpu.register.get_flag(StatusFlags::CARRY), true);
}

#[test]
fn test_plp() {
    let program: Vec<u8> = vec![0x28];
    let (mut cpu, mut cpu_bus) = create_test_context(&program);
    cpu.register.set_flag(StatusFlags::CARRY, true);
    cpu.register.set_flag(StatusFlags::NEGATIVE, true);
    let sr = cpu.register.get_sr();
    cpu.register.push_stack(sr, &mut cpu_bus);
    cpu.register.set_flag(StatusFlags::CARRY, false);
    cpu.run_instructions(1, &mut cpu_bus);
    assert!(cpu.register.get_flag(StatusFlags::CARRY));
    assert!(cpu.register.get_flag(StatusFlags::NEGATIVE));
    assert!(!cpu.register.get_flag(StatusFlags::ZERO));
}

#[test]
fn mod_test_lda_immediate() {
    let program: Vec<u8> = vec![0xa9, 0xff];
    let (mut cpu, mut cpu_bus) = create_test_context(&program);
    cpu.run_instructions(1, &mut cpu_bus);
    assert_eq!(cpu.register.get_a(), 0xFF);
}

#[test]
fn test_bne() {
    let program: Vec<u8> = vec![0xD0, 0x02, 0xa9, 0xff, 0x00];
    let (mut cpu, mut cpu_bus) = create_test_context(&program);
    cpu_bus.ram.write(0x10, 0x0c);
    cpu.register.set_flag(StatusFlags::ZERO, true);
    cpu.run_instructions(2, &mut cpu_bus);
    assert_eq!(cpu.register.get_a(), 0xff);
}

#[test]
fn test_bmi() {
    let program: Vec<u8> = vec![0x30, 0x02, 0xa9, 0xff, 0x00];
    let (mut cpu, mut cpu_bus) = create_test_context(&program);
    cpu_bus.ram.write(0x10, 0x0c);
    cpu.register.set_flag(StatusFlags::NEGATIVE, false);
    cpu.run_instructions(2, &mut cpu_bus);
    assert_eq!(cpu.register.get_a(), 0xff);
}

#[test]
fn test_bpl() {
    let program: Vec<u8> = vec![0x10, 0x02, 0xa9, 0xff, 0x00];
    let (mut cpu, mut cpu_bus) = create_test_context(&program);
    cpu_bus.ram.write(0x10, 0x0c);
    cpu.register.set_flag(StatusFlags::NEGATIVE, true);
    cpu.run_instructions(2, &mut cpu_bus);
    assert_eq!(cpu.register.get_a(), 0xff);
}

#[test]
fn test_bvc() {
    let program: Vec<u8> = vec![0x50, 0x02, 0xa9, 0xff, 0x00];
    let (mut cpu, mut cpu_bus) = create_test_context(&program);
    cpu_bus.ram.write(0x10, 0x0c);
    cpu.register.set_flag(StatusFlags::OVERFLOW, true);
    let res = cpu.run_instructions(3, &mut cpu_bus);
    assert_eq!(cpu.register.get_a(), 0xff);
    assert_eq!(res.0, 2 + 2 + 7);
    let (mut cpu, mut cpu_bus) = create_test_context(&program);
    cpu.register.set_flag(StatusFlags::OVERFLOW, false);
    let res = cpu.run_instructions(2, &mut cpu_bus);
    assert_eq!(cpu.register.get_a(), 0x00);
    assert_eq!(res.0, 2 + 1 + 7);
}

#[test]
fn test_bvs() {
    let program: Vec<u8> = vec![0x70, 0x02, 0xa9, 0xff, 0x00];
    let (mut cpu, mut cpu_bus) = create_test_context(&program);
    cpu_bus.ram.write(0x10, 0x0c);
    cpu.register.set_flag(StatusFlags::OVERFLOW, false);
    let res = cpu.run_instructions(3, &mut cpu_bus);
    assert_eq!(cpu.register.get_a(), 0xff);
    assert_eq!(res.0, 2 + 2 + 7);
    let (mut cpu, mut cpu_bus) = create_test_context(&program);
    cpu_bus.ram.write(0x10, 0x0c);
    cpu.register.set_flag(StatusFlags::OVERFLOW, true);
    let res = cpu.run_instructions(2, &mut cpu_bus);
    assert_eq!(cpu.register.get_a(), 0x00);
    assert_eq!(res.0, 2 + 1 + 7);
}

#[test]
fn test_dec_zeropage() {
    let program: Vec<u8> = vec![0xC6, 0x10, 0xC6, 0x10, 0xD6, 0x0F];
    let (mut cpu, mut cpu_bus) = create_test_context(&program);
    cpu_bus.ram.write(0x10, 0x02);
    let res = cpu.run_instructions(1, &mut cpu_bus);
    assert_eq!(cpu_bus.peek(0x10), 0x01);
    assert!(!cpu.register.get_flag(StatusFlags::ZERO));
    assert!(!cpu.register.get_flag(StatusFlags::NEGATIVE));
    assert_eq!(res.0, 5);
    let res = cpu.run_instructions(1, &mut cpu_bus);
    assert_eq!(cpu_bus.peek(0x10), 0x00);
    assert!(cpu.register.get_flag(StatusFlags::ZERO));
    assert!(!cpu.register.get_flag(StatusFlags::NEGATIVE));
    assert_eq!(res.0, 5);
    cpu.register.set_x(0x01);
    let res = cpu.run_instructions(1, &mut cpu_bus);
    assert_eq!(cpu_bus.peek(0x10), 0xff);
    assert!(!cpu.register.get_flag(StatusFlags::ZERO));
    assert!(cpu.register.get_flag(StatusFlags::NEGATIVE));
    assert_eq!(res.0, 6);
}

#[test]
fn test_dec_absolute() {
    let program: Vec<u8> = vec![0xCE, 0x01, 0x10, 0xCE, 0x01, 0x10, 0xDE, 0x00, 0x10];
    let (mut cpu, mut cpu_bus) = create_test_context(&program);
    cpu_bus.ram.write(0x1001, 0x02);
    let res = cpu.run_instructions(1, &mut cpu_bus);
    assert_eq!(cpu_bus.peek(0x1001), 0x01);
    assert!(!cpu.register.get_flag(StatusFlags::ZERO));
    assert!(!cpu.register.get_flag(StatusFlags::NEGATIVE));
    assert_eq!(res.0, 6);
    let res = cpu.run_instructions(1, &mut cpu_bus);
    assert_eq!(cpu_bus.peek(0x1001), 0x00);
    assert!(cpu.register.get_flag(StatusFlags::ZERO));
    assert!(!cpu.register.get_flag(StatusFlags::NEGATIVE));
    assert_eq!(res.0, 6);
    cpu.register.set_x(0x1);
    let res = cpu.run_instructions(1, &mut cpu_bus);
    assert_eq!(cpu_bus.peek(0x1001), 0xff);
    assert!(!cpu.register.get_flag(StatusFlags::ZERO));
    assert!(cpu.register.get_flag(StatusFlags::NEGATIVE));
    assert_eq!(res.0, 7);
}

#[test]
fn mod_test_lda_zeroepage() {
    let program: Vec<u8> = vec![0xa5, 0xa0];
    let (mut cpu, mut cpu_bus) = create_test_context(&program);
    cpu_bus.ram.write(0x00a0, 0x08);
    cpu.run_instructions(1, &mut cpu_bus);
    assert_eq!(cpu.register.get_a(), 0x08);
}

#[test]
fn mod_test_lda_zeroepagex() {
    let program: Vec<u8> = vec![0xb5, 0xa0];
    let (mut cpu, mut cpu_bus) = create_test_context(&program);
    cpu_bus.ram.write(0x00a5, 0x08);
    cpu.register.set_x(0x05);
    cpu.run_instructions(1, &mut cpu_bus);
    assert_eq!(cpu.register.get_a(), 0x08);
}

#[test]
fn mod_test_lda_absolute() {
    let program: Vec<u8> = vec![0xad, 0x00, 0x1F];
    let (mut cpu, mut cpu_bus) = create_test_context(&program);
    cpu_bus.ram.write(0x1f00, 0x0F);
    cpu.run_instructions(1, &mut cpu_bus);
    assert_eq!(cpu.register.get_a(), 0x0F);
}

#[test]
fn mod_test_lda_absolutex() {
    let program: Vec<u8> = vec![0xbd, 0xa5, 0x00];
    let (mut cpu, mut cpu_bus) = create_test_context(&program);
    cpu_bus.ram.write(0x00aa, 0x0F);
    cpu.register.set_x(0x05);
    cpu.run_instructions(1, &mut cpu_bus);
    assert_eq!(cpu.register.get_a(), 0x0F);
}

#[test]
fn mod_test_lda_absolutey() {
    let program: Vec<u8> = vec![0xb9, 0xa5, 0x00];
    let (mut cpu, mut cpu_bus) = create_test_context(&program);
    cpu_bus.ram.write(0x00aa, 0x0F);
    cpu.register.set_y(0x05);
    cpu.run_instructions(1, &mut cpu_bus);
    assert_eq!(cpu.register.get_a(), 0x0F);
}

#[test]
fn mod_test_lda_indirectx() {
    let program: Vec<u8> = vec![0xa1, 0xa0];
    let (mut cpu, mut cpu_bus) = create_test_context(&program);
    cpu_bus.ram.write(0x00a1, 0xA3);
    cpu_bus.ram.write(0x00a3, 0xA0);
    cpu.register.set_x(0x01);
    cpu.run_instructions(1, &mut cpu_bus);
    assert_eq!(cpu.register.get_a(), 0xA0);
}

#[test]
fn mod_test_lda_indirecty() {
    let program: Vec<u8> = vec![0xb1, 0xa5];
    let (mut cpu, mut cpu_bus) = create_test_context(&program);
    cpu_bus.ram.write(0x00a4, 0xA0);
    cpu_bus.ram.write(0x00a5, 0xA3);
    cpu.register.set_y(0x01);
    cpu.run_instructions(1, &mut cpu_bus);
    assert_eq!(cpu.register.get_a(), 0xA0);
}

#[test]
fn mod_test_rol_accumulator() {
    let program: Vec<u8> = vec![0xA9, 146, 0x2A, 0x2A];
    let (mut cpu, mut cpu_bus) = create_test_context(&program);
    cpu.run_instructions(2, &mut cpu_bus);
    assert_eq!(cpu.register.get_a(), 36);
    assert!(cpu.register.get_flag(StatusFlags::CARRY));
    cpu.run_instructions(1, &mut cpu_bus);
    assert_eq!(cpu.register.get_a(), 73);
    assert!(!cpu.register.get_flag(StatusFlags::CARRY));
}

#[test]
fn mod_test_rol() {
    let program: Vec<u8> = vec![0x26, 0x22, 0x26, 0x22];
    let (mut cpu, mut cpu_bus) = create_test_context(&program);
    cpu_bus.ram.write(0x0022, 146);
    cpu.run_instructions(1, &mut cpu_bus);
    assert_eq!(cpu_bus.ram.peek(0x0022), 36);
    assert!(cpu.register.get_flag(StatusFlags::CARRY));
    cpu.run_instructions(1, &mut cpu_bus);
    assert_eq!(cpu_bus.ram.peek(0x0022), 73);
    assert!(!cpu.register.get_flag(StatusFlags::CARRY));
}

#[test]
fn mod_test_ror_accumulator() {
    let program: Vec<u8> = vec![0xA9, 147, 0x6A, 0x6A];
    let (mut cpu, mut cpu_bus) = create_test_context(&program);
    cpu.run_instructions(2, &mut cpu_bus);
    assert_eq!(cpu.register.get_a(), 73);
    assert!(cpu.register.get_flag(StatusFlags::CARRY));
    cpu.run_instructions(1, &mut cpu_bus);
    assert_eq!(cpu.register.get_a(), 164);
    assert!(cpu.register.get_flag(StatusFlags::CARRY));
}

#[test]
fn mod_test_ror() {
    let program: Vec<u8> = vec![0x66, 0x22, 0x66, 0x22];
    let (mut cpu, mut cpu_bus) = create_test_context(&program);
    cpu_bus.ram.write(0x0022, 147);
    cpu.run_instructions(1, &mut cpu_bus);
    assert_eq!(cpu_bus.ram.peek(0x0022), 73);
    assert!(cpu.register.get_flag(StatusFlags::CARRY));
    cpu.run_instructions(1, &mut cpu_bus);
    assert_eq!(cpu_bus.ram.peek(0x0022), 164);
    assert!(cpu.register.get_flag(StatusFlags::CARRY));
}

#[test]
fn test_sbc() {
    let program: Vec<u8> = vec![0xe5, 0x05, 0xe9, 0x0b];
    let (mut cpu, mut cpu_bus) = create_test_context(&program);
    cpu.register.set_a(0x00);
    cpu_bus.ram.write(0x05, 0x01);
    cpu.run_instructions(1, &mut cpu_bus);
    assert_eq!(cpu.register.get_a(), 0xfe);
    assert!(!cpu.register.get_flag(StatusFlags::OVERFLOW));
    assert!(!cpu.register.get_flag(StatusFlags::CARRY));
    assert!(cpu.register.get_flag(StatusFlags::NEGATIVE));
    cpu.register.set_a(0x09);
    cpu.run_instructions(1, &mut cpu_bus);
    assert_eq!(cpu.register.get_a(), 0xfd);
    assert!(!cpu.register.get_flag(StatusFlags::CARRY));
    assert!(!cpu.register.get_flag(StatusFlags::OVERFLOW));
    assert!(cpu.register.get_flag(StatusFlags::NEGATIVE));
}

#[test]
fn mod_test_sta() {
    let program: Vec<u8> = vec![0x8d, 0xa5, 0x00];
    let (mut cpu, mut cpu_bus) = create_test_context(&program);
    cpu.register.set_a(0x05);
    cpu.run_instructions(1, &mut cpu_bus);
    assert_eq!(cpu_bus.ram.peek(0xa5u16), 0x05);
}

#[test]
fn test_stx() {
    let program: Vec<u8> = vec![0x96, 0xa5, 0x8e, 0xa7, 0x00, 0x86, 0xaa];
    let (mut cpu, mut cpu_bus) = create_test_context(&program);
    cpu_bus.ram.write(0x00a7, 0x00);
    cpu.register.set_y(0x02);
    cpu.register.set_x(0xaa);
    let res = cpu.run_instructions(1, &mut cpu_bus);
    assert_eq!(cpu_bus.peek(0x00a7), 0xaa);
    assert_eq!(res.0, 4);
    cpu.register.set_x(0xff);
    let res = cpu.run_instructions(1, &mut cpu_bus);
    assert_eq!(cpu_bus.peek(0x00a7), 0xff);
    assert_eq!(res.0, 4);
    cpu.register.set_x(0x01);
    let res = cpu.run_instructions(1, &mut cpu_bus);
    assert_eq!(cpu_bus.peek(0x00aa), 0x01);
    assert_eq!(res.0, 3);
}
