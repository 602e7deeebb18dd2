use ratto::arch::aarch64::cpu::{DAIF_BITS, DAIF_IRQ};
use ratto::arch::aarch64::Cpu;
use ratto::cpu::CpuOps;

#[test]
fn it_works() {
    assert_eq!(2 + 2, 4);
}

#[test]
fn disable_then_enable_restores_the_mask_register() {
    let mut cpu = Cpu::new(0x40);
    let token = cpu.disable_interrupts();
    assert_eq!(token, 0x40);
    assert_eq!(cpu.daif(), 0xc0);
    cpu.enable_interrupts(token);
    assert_eq!(cpu.daif(), 0x40);
}

#[test]
fn disable_then_enable_restores_every_mask_state() {
    for bits in 0..16u64 {
        let daif = bits << 6;
        let mut cpu = Cpu::new(daif);
        let token = cpu.disable_interrupts();
        assert_eq!(token, daif);
        assert_eq!(cpu.daif() & DAIF_IRQ, DAIF_IRQ);
        assert_eq!(cpu.daif(), daif | DAIF_IRQ);
        cpu.enable_interrupts(token);
        assert_eq!(cpu.daif(), daif);
    }
}

#[test]
fn nested_sections_restore_in_reverse_order() {
    let mut cpu = Cpu::new(0);
    let outer = cpu.disable_interrupts();
    let inner = cpu.disable_interrupts();
    assert_eq!(outer, 0);
    assert_eq!(inner, DAIF_IRQ);
    cpu.enable_interrupts(inner);
    assert_eq!(cpu.daif(), DAIF_IRQ);
    cpu.enable_interrupts(outer);
    assert_eq!(cpu.daif(), 0);
}

#[test]
fn a_core_keeps_mask_bits_only() {
    let cpu = Cpu::new(0xffff_ffff_ffff_ffff);
    assert_eq!(cpu.daif(), DAIF_BITS);
    let mut cpu = Cpu::new(0);
    cpu.enable_interrupts(0x3ff);
    assert_eq!(cpu.daif(), 0x3c0);
}
