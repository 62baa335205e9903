use m68k_rt::critical_section::M68kCriticalSection;
use m68k_rt::critical_section::Machine;
use m68k_rt::critical_section::nested_sections;
use m68k_rt::interrupt::Cpu;
use m68k_rt::interrupt::disable;
use m68k_rt::interrupt::get;
use m68k_rt::interrupt::mask_round_trip;
use m68k_rt::interrupt::read;
use m68k_rt::mmio::Device;
use m68k_rt::mmio::putc;
use m68k_rt::register::Ccr;
use m68k_rt::register::Sr;
use m68k_rt::traps::Trap;

#[test]
fn get_reads_mask_bits() {
    let cpu = Cpu::new(0x2300);
    assert_eq!(get(&cpu), 3);
}

#[test]
fn disable_raises_mask_to_seven() {
    let mut cpu = Cpu::new(0x2300);
    disable(&mut cpu);
    assert_eq!(get(&cpu), 7);
    assert_eq!(cpu.sr(), 0x2700);
}

#[test]
fn set_restores_observed_mask() {
    let mut cpu = Cpu::new(0x2700);
    m68k_rt::interrupt::set(&mut cpu, 2);
    assert_eq!(get(&cpu), 2);
    assert_eq!(cpu.sr(), 0x2200);
}

#[test]
fn get_then_set_is_noop() {
    let mut cpu = Cpu::new(0xA51F);
    let mask = get(&cpu);
    m68k_rt::interrupt::set(&mut cpu, mask);
    assert_eq!(cpu.sr(), 0xA51F);
}

#[test]
fn mask_round_trip_preserves_status_register() {
    let mut cpu = Cpu::new(0x2642);
    mask_round_trip(&mut cpu);
    assert_eq!(cpu.sr(), 0x2642);
}

#[test]
fn acquire_masks_and_release_restores() {
    let mut cpu = Cpu::new(0x2100);
    let token = M68kCriticalSection::acquire(&mut cpu);
    assert_eq!(get(&cpu), 7);
    M68kCriticalSection::release(&mut cpu, token);
    assert_eq!(get(&cpu), 1);
    assert_eq!(cpu.sr(), 0x2100);
}

#[test]
fn nested_sections_restore_outermost_mask() {
    let mut cpu = Cpu::new(0x2100);
    nested_sections(&mut cpu, 5);
    assert_eq!(cpu.sr(), 0x2100);
    let mut deep = Cpu::new(0x2000);
    nested_sections(&mut deep, 200);
    assert_eq!(deep.sr(), 0x2000);
}

#[test]
fn locked_increment_loses_no_update() {
    let cpu = Cpu::new(0x2000);
    let mut m = Machine::new(cpu, 10, 3, 4);
    m.locked_increment();
    let delivered = m.irq_done();
    assert_eq!(m.counter(), 10 + 1 + delivered);
    assert_eq!(m.irq_done() + m.irq_pending(), 3);
}

#[test]
fn masked_machine_delivers_nothing() {
    let mut cpu = Cpu::new(0x2000);
    disable(&mut cpu);
    let mut m = Machine::new(cpu, 0, 5, 6);
    m.poll();
    assert_eq!(m.counter(), 0);
    assert_eq!(m.irq_done(), 0);
}

#[test]
fn unmasked_machine_delivers_pending_interrupt() {
    let cpu = Cpu::new(0x2000);
    let mut m = Machine::new(cpu, 0, 2, 4);
    m.poll();
    assert_eq!(m.counter(), 1);
    assert_eq!(m.irq_done(), 1);
    assert_eq!(m.irq_pending(), 1);
}

#[test]
fn sr_decodes_system_byte() {
    let sr = Sr::from_bits(0xA70F);
    assert_eq!(sr.i(), 7);
    assert!(sr.s());
    assert!(sr.t());
    let quiet = Sr::from_bits(0x0200);
    assert_eq!(quiet.i(), 2);
    assert!(!quiet.s());
    assert!(!quiet.t());
}

#[test]
fn read_decodes_cpu_status() {
    let cpu = Cpu::new(0x2315);
    let sr = read(&cpu);
    assert_eq!(sr.i(), 3);
    assert!(sr.s());
    assert!(!sr.t());
}

#[test]
fn ccr_reads_flags() {
    let ccr = Ccr::from_bits(0b10101);
    assert!(ccr.c());
    assert!(!ccr.v());
    assert!(ccr.z());
    assert!(!ccr.n());
    assert!(ccr.x());
    assert_eq!(ccr.bits(), 0b10101);
}

#[test]
fn trap_vector_numbers() {
    assert_eq!(Trap::Trap0.number(), 0);
    assert_eq!(Trap::Trap9.number(), 9);
    assert_eq!(Trap::Trap15.number(), 15);
}

#[test]
fn putc_writes_output_byte() {
    let mut uart = Device::new(0);
    putc(&mut uart);
    assert_eq!(uart.p.reg.read(), 5);
}
