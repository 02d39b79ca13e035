use nesemu::controller::Controller;
use nesemu::cpu::bus::CpuBus;
use nesemu::cpu::memory::Ram;
use nesemu::cpu::register::StatusFlags;
use nesemu::cpu::Cpu;
use nesemu::ppu::Ppu;
use nesemu::rom::Cartbridge;

fn create_test_context(program: &Vec<u8>) -> (Cpu, CpuBus) {
    let mut cartbridge = Cartbridge::new();
    cartbridge.load_from_vec(program);
    let cpu = Cpu::new();
    let cpu_bus = CpuBus::new(Ram::new(), cartbridge, Ppu::new(), Controller::new());
    (cpu, cpu_bus)
}

#[test]
fn test_adc_immediate() {
    let program: Vec<u8> = vec![0x69, 0xa1];
    let (mut cpu, mut cpu_bus) = create_test_context(&program);
    cpu.run_instructions(1, &mut cpu_bus);
    assert_eq!(cpu.register.get_a(), 0xa1);
}

#[test]
fn cpu_test_adc_zeropage() {
    let program: Vec<u8> = vec![0x65, 0xa1];
    let (mut cpu, mut cpu_bus) = create_test_context(&program);
    cpu_bus.ram.write(0x00a1, 0x08);
    cpu.run_instructions(1, &mut cpu_bus);
    assert_eq!(cpu.register.get_a(), 0x08);
}

#[test]
fn cpu_test_adc_zeropagex() {
    let program: Vec<u8> = vec![0x75, 0xa1];
    let (mut cpu, mut cpu_bus) = create_test_context(&program);
    cpu_bus.ram.write(0x00a2, 0x08);
    cpu.register.set_x(0x01);
    cpu.run_instructions(1, &mut cpu_bus);
    assert_eq!(cpu.register.get_a(), 0x08);
}

#[test]
fn cpu_test_adc_absolute() {
    let program: Vec<u8> = vec![0x6D, 0xa1, 0x00];
    let (mut cpu, mut cpu_bus) = create_test_context(&program);
    cpu_bus.ram.write(0x00a1, 0x08);
    cpu.run_instructions(1, &mut cpu_bus);
    assert_eq!(cpu.register.get_a(), 0x08);
}

#[test]
fn cpu_test_adc_absolutex() {
    let program: Vec<u8> = vec![0x7D, 0xa1, 0x00];
    let (mut cpu, mut cpu_bus) = create_test_context(&program);
    cpu_bus.ram.write(0x00a2, 0x08);
    cpu.register.set_x(0x01);
    cpu.run_instructions(1, &mut cpu_bus);
    assert_eq!(cpu.register.get_a(), 0x08);
}

#[test]
fn cpu_test_asl_accumulator() {
    let program: Vec<u8> = vec![0x0A];
    let (mut cpu, mut cpu_bus) = create_test_context(&program);
    cpu.register.set_a(0x02);
    cpu.run_instructions(1, &mut cpu_bus);
    assert_eq!(cpu.register.get_a(), 0x04);
}

#[test]
fn cpu_test_asl() {
    let program: Vec<u8> = vec![0x06, 0x04];
    let (mut cpu, mut cpu_bus) = create_test_context(&program);
    cpu_bus.ram.write(0x0004, 0x02);
    cpu.run_instructions(1, &mut cpu_bus);
    assert_eq!(cpu_bus.ram.peek(0x0004), 0x04);
}

#[test]
fn cpu_test_lda_immediate() {
    let program: Vec<u8> = vec![0xa9, 0xff];
    let (mut cpu, mut cpu_bus) = create_test_context(&program);
    cpu.run_instructions(1, &mut cpu_bus);
    assert_eq!(cpu.register.get_a(), 0xFF);
}

#[test]
fn cpu_test_lda_zeroepage() {
    let program: Vec<u8> = vec![0xa5, 0xa0];
    let (mut cpu, mut cpu_bus) = create_test_context(&program);
    cpu_bus.ram.write(0x00a0, 0x08);
    cpu.run_instructions(1, &mut cpu_bus);
    assert_eq!(cpu.register.get_a(), 0x08);
}

#[test]
fn cpu_test_lda_zeroepagex() {
    let program: Vec<u8> = vec![0xb5, 0xa0];
    let (mut cpu, mut cpu_bus) = create_test_context(&program);
    cpu_bus.ram.write(0x00a5, 0x08);
    cpu.register.set_x(0x05);
    cpu.run_instructions(1, &mut cpu_bus);
    assert_eq!(cpu.register.get_a(), 0x08);
}

#[test]
fn cpu_test_lda_absolutex() {
    let program: Vec<u8> = vec![0xbd, 0xa5, 0x00];
    let (mut cpu, mut cpu_bus) = create_test_context(&program);
    cpu_bus.ram.write(0x00aa, 0x0F);
    cpu.register.set_x(0x05);
    cpu.run_instructions(1, &mut cpu_bus);
    assert_eq!(cpu.register.get_a(), 0x0F);
}

#[test]
fn cpu_test_lda_absolutey() {
    let program: Vec<u8> = vec![0xb9, 0xa5, 0x00];
    let (mut cpu, mut cpu_bus) = create_test_context(&program);
    cpu_bus.ram.write(0x00aa, 0x0F);
    cpu.register.set_y(0x05);
    cpu.run_instructions(1, &mut cpu_bus);
    assert_eq!(cpu.register.get_a(), 0x0F);
}

#[test]
fn cpu_test_lda_indirectx() {
    let program: Vec<u8> = vec![0xa1, 0xa0];
    let (mut cpu, mut cpu_bus) = create_test_context(&program);
    cpu_bus.ram.write(0x00a1, 0xA3);
    cpu_bus.ram.write(0x00a3, 0xA0);
    cpu.register.set_x(0x01);
    cpu.run_instructions(1, &mut cpu_bus);
    assert_eq!(cpu.register.get_a(), 0xA0);
}

#[test]
fn cpu_test_lda_indirecty() {
    let program: Vec<u8> = vec![0xb1, 0xa5];
    let (mut cpu, mut cpu_bus) = create_test_context(&program);
    cpu_bus.ram.write(0x00a4, 0xA0);
    cpu_bus.ram.write(0x00a5, 0xA3);
    cpu.register.set_y(0x01);
    cpu.run_instructions(1, &mut cpu_bus);
    assert_eq!(cpu.register.get_a(), 0xA0);
}

#[test]
fn cpu_test_rol_accumulator() {
    let program: Vec<u8> = vec![0xA9, 146, 0x2A, 0x2A];
    let (mut cpu, mut cpu_bus) = create_test_context(&program);
    cpu.run_instructions(2, &mut cpu_bus);
    assert_eq!(cpu.register.get_a(), 36);
    assert!(cpu.register.get_flag(StatusFlags::CARRY));
    cpu.run_instructions(1, &mut cpu_bus);
    assert_eq!(cpu.register.get_a(), 73);
    assert!(!cpu.register.get_flag(StatusFlags::CARRY));
}

#[test]
fn cpu_test_rol() {
    let program: Vec<u8> = vec![0x26, 0x22, 0x26, 0x22];
    let (mut cpu, mut cpu_bus) = create_test_context(&program);
    cpu_bus.ram.write(0x0022, 146);
    cpu.run_instructions(1, &mut cpu_bus);
    assert_eq!(cpu_bus.ram.peek(0x0022), 36);
    assert!(cpu.register.get_flag(StatusFlags::CARRY));
    cpu.run_instructions(1, &mut cpu_bus);
    assert_eq!(cpu_bus.ram.peek(0x0022), 73);
    assert!(!cpu.register.get_flag(StatusFlags::CARRY));
}

#[test]
fn cpu_test_ror_accumulator() {
    let program: Vec<u8> = vec![0xA9, 147, 0x6A, 0x6A];
    let (mut cpu, mut cpu_bus) = create_test_context(&program);
    cpu.run_instructions(2, &mut cpu_bus);
    assert_eq!(cpu.register.get_a(), 73);
    assert!(cpu.register.get_flag(StatusFlags::CARRY));
    cpu.run_instructions(1, &mut cpu_bus);
    assert_eq!(cpu.register.get_a(), 164);
    assert!(cpu.register.get_flag(StatusFlags::CARRY));
}

#[test]
fn cpu_test_ror() {
    let program: Vec<u8> = vec![0x66, 0x22, 0x66, 0x22];
    let (mut cpu, mut cpu_bus) = create_test_context(&program);
    cpu_bus.ram.write(0x0022, 147);
    cpu.run_instructions(1, &mut cpu_bus);
    assert_eq!(cpu_bus.ram.peek(0x0022), 73);
    assert!(cpu.register.get_flag(StatusFlags::CARRY));
    cpu.run_instructions(1, &mut cpu_bus);
    assert_eq!(cpu_bus.ram.peek(0x0022), 164);
    assert!(cpu.register.get_flag(StatusFlags::CARRY));
}

#[test]
fn cpu_test_sta() {
    let program: Vec<u8> = vec![0x8d, 0xa5, 0x00];
    let (mut cpu, mut cpu_bus) = create_test_context(&program);
    cpu.register.set_a(0x05);
    cpu.run_instructions(1, &mut cpu_bus);
    assert_eq!(cpu_bus.ram.peek(0xa5), 0x05);
}
