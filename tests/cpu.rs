use nes_cpu::bus::Bus;
use nes_cpu::cartridge::Rom;
use nes_cpu::cpu::{Mem, CPU, STACK, STACK_RESET};

#[test]
fn test_0xa9_lda_immediate_load_data() {
    let mut cpu = CPU::new(Bus::new(Rom::empty()));
    cpu.load(vec![0xa9, 0x05, 0x00]);
    cpu.reset();
    cpu.status = 0;
    cpu.run().unwrap();
    assert_eq!(cpu.register_a, 5);
    assert!(cpu.status & 0b0000_0010 == 0);
    assert!(cpu.status & 0b1000_0000 == 0);
}

#[test]
fn test_0xa9_lda_zero_flag() {
    let mut cpu = CPU::new(Bus::new(Rom::empty()));
    cpu.load_and_run(vec![0xa9, 0x00, 0x00]).unwrap();
    assert!(cpu.status & 0b0000_0010 == 0b10);
}

#[test]
fn test_0xa9_lda_negative_flag() {
    let mut cpu = CPU::new(Bus::new(Rom::empty()));
    cpu.load_and_run(vec![0xa9, 0xff, 0x00]).unwrap();
    assert!(cpu.status & 0b1000_0000 == 0b1000_0000);
}
#[test]
fn test_ldx_negative_flag() {
    let mut cpu = CPU::new(Bus::new(Rom::empty()));
    cpu.load_and_run(vec![0xa2, 0xff, 0x00]).unwrap();
    assert!(cpu.status & 0b1000_0000 == 0b1000_0000);
}
#[test]
fn test_ldy_negative_flag() {
    let mut cpu = CPU::new(Bus::new(Rom::empty()));
    cpu.load_and_run(vec![0xa0, 0xff, 0x00]).unwrap();
    assert!(cpu.status & 0b1000_0000 == 0b1000_0000);
}

#[test]
fn test_0xaa_tax_move_a_to_x() {
    let mut cpu = CPU::new(Bus::new(Rom::empty()));
    cpu.load_and_run(vec![0xa9, 0x0A, 0xaa, 0x00]).unwrap();

    assert_eq!(cpu.register_x, 10)
}

#[test]
fn test_5_ops_working_together() {
    let mut cpu = CPU::new(Bus::new(Rom::empty()));
    cpu.load_and_run(vec![0xa9, 0xc0, 0xaa, 0xe8, 0x00]).unwrap();

    assert_eq!(cpu.register_x, 0xc1)
}
#[test]
fn test_sta() {
    let mut cpu = CPU::new(Bus::new(Rom::empty()));
    cpu.load(vec![0x85, 0x00]);
    cpu.reset();
    cpu.register_a = 0xff;
    cpu.run().unwrap();
    assert_eq!(cpu.mem_read(0x00), 0xff)
}
#[test]
fn test_stx() {
    let mut cpu = CPU::new(Bus::new(Rom::empty()));
    cpu.load(vec![0x86, 0x00]);
    cpu.reset();
    cpu.register_x = 0xff;
    cpu.run().unwrap();
    assert_eq!(cpu.mem_read(0x00), 0xff)
}
#[test]
fn test_sty() {
    let mut cpu = CPU::new(Bus::new(Rom::empty()));
    cpu.load(vec![0x84, 0x00]);
    cpu.reset();
    cpu.register_y = 0xff;
    cpu.run().unwrap();
    assert_eq!(cpu.mem_read(0x00), 0xff)
}
#[test]
fn test_tax() {
    let mut cpu = CPU::new(Bus::new(Rom::empty()));
    cpu.load(vec![0xAA]);
    cpu.reset();
    cpu.register_a = 0xff;
    cpu.run().unwrap();
    assert_eq!(cpu.register_x, 0xff)
}
#[test]
fn test_txa() {
    let mut cpu = CPU::new(Bus::new(Rom::empty()));
    cpu.load(vec![0x8A]);
    cpu.reset();
    cpu.register_x = 0xff;
    cpu.run().unwrap();
    assert_eq!(cpu.register_a, 0xff)
}
#[test]
fn test_tay() {
    let mut cpu = CPU::new(Bus::new(Rom::empty()));
    cpu.load(vec![0xA8]);
    cpu.reset();
    cpu.register_a = 0xff;
    cpu.run().unwrap();
    assert_eq!(cpu.register_y, 0xff)
}
#[test]
fn test_tya() {
    let mut cpu = CPU::new(Bus::new(Rom::empty()));
    cpu.load(vec![0x98]);
    cpu.reset();
    cpu.register_y = 0xff;
    cpu.run().unwrap();
    assert_eq!(cpu.register_y, 0xff)
}
#[test]
fn test_tsx() {
    let mut cpu = CPU::new(Bus::new(Rom::empty()));
    cpu.load(vec![0xBA]);
    cpu.reset();
    cpu.run().unwrap();
    assert_eq!(cpu.register_x, STACK_RESET)
}
#[test]
fn test_txs() {
    let mut cpu = CPU::new(Bus::new(Rom::empty()));
    cpu.load(vec![0x9A]);
    cpu.reset();
    cpu.register_x = 0xff;
    cpu.run().unwrap();
    assert_eq!(cpu.stack_pointer, 0xff)
}
#[test]
fn test_inx_overflow() {
    let mut cpu = CPU::new(Bus::new(Rom::empty()));
    cpu.register_x = 0xff;
    cpu.load_and_run(vec![0xa9, 0xff, 0xaa, 0xe8, 0xe8, 0x00]).unwrap();

    assert_eq!(cpu.register_x, 1)
}

#[test]
fn test_lda_from_memory() {
    let mut cpu = CPU::new(Bus::new(Rom::empty()));
    cpu.mem_write(0x10, 0x55);

    cpu.load_and_run(vec![0xa5, 0x10, 0x00]).unwrap();

    assert_eq!(cpu.register_a, 0x55);
}

#[test]
fn test_adc_no_carry_and_no_overflow() {
    let mut cpu = CPU::new(Bus::new(Rom::empty()));
    cpu.load(vec![0x69, 0x01]);
    cpu.reset();
    cpu.register_a = 0x01;
    cpu.status = 0;
    cpu.run().unwrap();

    assert_eq!(cpu.register_a, 0x02);
    assert_eq!(cpu.status, 0b0000_0000);
}

#[test]
fn test_adc_has_carry() {
    let mut cpu = CPU::new(Bus::new(Rom::empty()));
    cpu.load(vec![0x69, 0x01]);
    cpu.reset();
    cpu.register_a = 0x01;
    cpu.status = 0x01;
    cpu.run().unwrap();

    assert_eq!(cpu.register_a, 0x03);
    assert_eq!(cpu.status, 0x00);
}

#[test]
fn test_adc_occurs_carry() {
    let mut cpu = CPU::new(Bus::new(Rom::empty()));
    cpu.load(vec![0x69, 0xd0]);
    cpu.reset();
    cpu.register_a = 0x50;
    cpu.status = 0x00;
    cpu.run().unwrap();

    assert_eq!(cpu.register_a, 0x20);
    assert_eq!(cpu.status, 0x01);
}

#[test]
fn test_adc_occurs_overflow_plus() {
    let mut cpu = CPU::new(Bus::new(Rom::empty()));
    cpu.load(vec![0x69, 0x50]);
    cpu.reset();
    cpu.register_a = 0x50;
    cpu.status = 0x00;
    cpu.run().unwrap();

    assert_eq!(cpu.register_a, 0xA0);
    assert_eq!(cpu.status, 0xC0);
}
#[test]
fn test_adc_occurs_overflow_plus_with_carry() {
    let mut cpu = CPU::new(Bus::new(Rom::empty()));
    cpu.load(vec![0x69, 0x50]);
    cpu.reset();
    cpu.register_a = 0x4F;
    cpu.status = 0x01;
    cpu.run().unwrap();

    assert_eq!(cpu.register_a, 0xA0);
    assert_eq!(cpu.status, 0xC0);
}
#[test]
fn test_adc_occurs_no_overflow() {
    let mut cpu = CPU::new(Bus::new(Rom::empty()));
    cpu.load(vec![0x69, 0x7f]);
    cpu.reset();
    cpu.register_a = 0x82;
    cpu.status = 0x00;
    cpu.run().unwrap();

    assert_eq!(cpu.register_a, 0x01);
    assert_eq!(cpu.status, 0x01);
}

#[test]
fn test_and() {
    let mut cpu = CPU::new(Bus::new(Rom::empty()));
    cpu.load(vec![0x29, 0x01]);
    cpu.reset();
    cpu.register_a = 0x01;
    cpu.status = 0x00;
    cpu.run().unwrap();

    assert_eq!(cpu.register_a, 0x01);
    assert_eq!(cpu.status, 0x00);
}

#[test]
fn test_and_occurs_register_a_0() {
    let mut cpu = CPU::new(Bus::new(Rom::empty()));
    cpu.load(vec![0x29, 0x00]);
    cpu.reset();
    cpu.register_a = 0x01;
    cpu.status = 0x00;
    cpu.run().unwrap();

    assert_eq!(cpu.register_a, 0x00);
    assert_eq!(cpu.status, 0x02);
}

#[test]
fn test_asl_immediate() {
    let mut cpu = CPU::new(Bus::new(Rom::empty()));
    cpu.load(vec![0x0A]);
    cpu.reset();
    cpu.register_a = 0x01;
    cpu.status = 0x00;
    cpu.run().unwrap();

    assert_eq!(cpu.register_a, 0x02);
    assert_eq!(cpu.status, 0x00);
}

#[test]
fn test_asl_accumulate_occurs_carry() {
    let mut cpu = CPU::new(Bus::new(Rom::empty()));
    cpu.load(vec![0x0A]);
    cpu.reset();
    cpu.register_a = 0x80;
    cpu.status = 0x00;
    cpu.run().unwrap();

    assert_eq!(cpu.register_a, 0x00);
    assert_eq!(cpu.status, 0x03);
}

#[test]
fn test_asl_zeropage() {
    let mut cpu = CPU::new(Bus::new(Rom::empty()));
    cpu.mem_write(0x10, 0x01);
    cpu.load(vec![0x16, 0x10]);
    cpu.reset();
    cpu.status = 0;
    cpu.run().unwrap();

    assert_eq!(cpu.mem_read(0x10), 0x02);
    assert_eq!(cpu.status, 0x00);
}

#[test]
fn test_asl_register_x_occurs_carry() {
    let mut cpu = CPU::new(Bus::new(Rom::empty()));
    cpu.mem_write(0x10, 0x80);
    cpu.load(vec![0x16, 0x10]);
    cpu.reset();
    cpu.status = 0;
    cpu.run().unwrap();

    assert_eq!(cpu.mem_read(0x10), 0x00);
    assert_eq!(cpu.status, 0x03);
}

#[test]
fn test_bit_zero() {
    let mut cpu = CPU::new(Bus::new(Rom::empty()));
    cpu.mem_write(0x00, 0x80);
    cpu.load(vec![0x24, 0x00]);
    cpu.reset();
    cpu.status = 0x00;
    cpu.register_a = 0x01;
    cpu.run().unwrap();

    // negative comes from bit 7 of the operand, not of the AND result
    assert_eq!(cpu.status, 0x82);
}

#[test]
fn test_bit_zero_neg_overflow_flags() {
    let mut cpu = CPU::new(Bus::new(Rom::empty()));
    cpu.mem_write(0x00, 0xc0);
    cpu.load(vec![0x24, 0x00]);
    cpu.reset();
    cpu.status = 0x00;
    cpu.register_a = 0xc0;
    cpu.run().unwrap();

    assert_eq!(cpu.status, 0xc0);
}

#[test]
fn test_cmp_registera_larger() {
    let mut cpu = CPU::new(Bus::new(Rom::empty()));
    cpu.load(vec![0xC9, 0x00]);
    cpu.reset();
    cpu.status = 0x00;
    cpu.register_a = 0x01;
    cpu.run().unwrap();

    assert_eq!(cpu.status, 0x01);
}

#[test]
fn test_cmp_registera_equal() {
    let mut cpu = CPU::new(Bus::new(Rom::empty()));
    cpu.load(vec![0xC9, 0x01]);
    cpu.reset();
    cpu.status = 0x00;
    cpu.register_a = 0x01;
    cpu.run().unwrap();

    assert_eq!(cpu.status, 0x03);
}

#[test]
fn test_cmp_registera_smaller() {
    let mut cpu = CPU::new(Bus::new(Rom::empty()));
    cpu.load(vec![0xC9, 0x01]);
    cpu.reset();
    cpu.status = 0x00;
    cpu.register_a = 0x00;
    cpu.run().unwrap();

    assert_eq!(cpu.status, 0x80);
}

#[test]
fn test_cmp_registerx_larger() {
    let mut cpu = CPU::new(Bus::new(Rom::empty()));
    cpu.load(vec![0xE0, 0x00]);
    cpu.reset();
    cpu.status = 0x00;
    cpu.register_x = 0x01;
    cpu.run().unwrap();

    assert_eq!(cpu.status, 0x01);
}

#[test]
fn test_cmp_registerx_equal() {
    let mut cpu = CPU::new(Bus::new(Rom::empty()));
    cpu.load(vec![0xE0, 0x01]);
    cpu.reset();
    cpu.status = 0x00;
    cpu.register_x = 0x01;
    cpu.run().unwrap();

    assert_eq!(cpu.status, 0x03);
}

#[test]
fn test_cmp_registerx_smaller() {
    let mut cpu = CPU::new(Bus::new(Rom::empty()));
    cpu.load(vec![0xE0, 0x01]);
    cpu.reset();
    cpu.status = 0x00;
    cpu.register_x = 0x00;
    cpu.run().unwrap();

    assert_eq!(cpu.status, 0x80);
}

#[test]
fn test_cmp_registery_larger() {
    let mut cpu = CPU::new(Bus::new(Rom::empty()));
    cpu.load(vec![0xC0, 0x00]);
    cpu.reset();
    cpu.status = 0x00;
    cpu.register_y = 0x01;
    cpu.run().unwrap();

    assert_eq!(cpu.status, 0x01);
}

#[test]
fn test_cmp_registery_equal() {
    let mut cpu = CPU::new(Bus::new(Rom::empty()));
    cpu.load(vec![0xC0, 0x01]);
    cpu.reset();
    cpu.status = 0x00;
    cpu.register_y = 0x01;
    cpu.run().unwrap();

    assert_eq!(cpu.status, 0x03);
}

#[test]
fn test_cmp_registery_smaller() {
    let mut cpu = CPU::new(Bus::new(Rom::empty()));
    cpu.load(vec![0xC0, 0x01]);
    cpu.reset();
    cpu.status = 0x00;
    cpu.register_y = 0x00;
    cpu.run().unwrap();

    assert_eq!(cpu.status, 0x80);
}
#[test]
fn test_dec() {
    let mut cpu = CPU::new(Bus::new(Rom::empty()));
    cpu.mem_write(0x00, 0x01);
    cpu.load(vec![0xC6, 0x00]);
    cpu.reset();
    cpu.status = 0x00;
    cpu.run().unwrap();

    assert_eq!(cpu.status, 0x02);
}
#[test]
fn test_dex() {
    let mut cpu = CPU::new(Bus::new(Rom::empty()));
    cpu.load(vec![0xCA]);
    cpu.reset();
    cpu.status = 0x00;
    cpu.register_x = 0x01;
    cpu.run().unwrap();

    assert_eq!(cpu.status, 0x02);
}
#[test]
fn test_dey() {
    let mut cpu = CPU::new(Bus::new(Rom::empty()));
    cpu.load(vec![0x88]);
    cpu.reset();
    cpu.status = 0x00;
    cpu.register_y = 0x01;
    cpu.run().unwrap();

    assert_eq!(cpu.status, 0x02);
}
#[test]
fn test_eor() {
    let mut cpu = CPU::new(Bus::new(Rom::empty()));
    cpu.load(vec![0x49, 0x80]);
    cpu.reset();
    cpu.status = 0x00;
    cpu.register_a = 0x01;
    cpu.run().unwrap();

    assert_eq!(cpu.register_a, 0x81);
}

#[test]
fn test_inc() {
    let mut cpu = CPU::new(Bus::new(Rom::empty()));
    cpu.mem_write(0x00, 0x01);
    cpu.load(vec![0xE6, 0x00]);
    cpu.reset();
    cpu.status = 0x00;
    cpu.run().unwrap();

    assert_eq!(cpu.mem_read(0x00), 0x02);
}
#[test]
fn test_inx() {
    let mut cpu = CPU::new(Bus::new(Rom::empty()));
    cpu.load(vec![0xE8]);
    cpu.reset();
    cpu.status = 0x00;
    cpu.register_x = 0x01;
    cpu.run().unwrap();

    assert_eq!(cpu.register_x, 0x02);
}
#[test]
fn test_iny() {
    let mut cpu = CPU::new(Bus::new(Rom::empty()));
    cpu.load(vec![0xC8]);
    cpu.reset();
    cpu.status = 0x00;
    cpu.register_y = 0x01;
    cpu.run().unwrap();

    assert_eq!(cpu.register_y, 0x02);
}
#[test]
fn test_lsr_accumulator() {
    let mut cpu = CPU::new(Bus::new(Rom::empty()));
    cpu.load(vec![0x4A]);
    cpu.reset();
    cpu.register_a = 0x3;
    cpu.status = 0x00;
    cpu.run().unwrap();

    assert_eq!(cpu.register_a, 0x01);
    assert_eq!(cpu.status, 0x01);
}

#[test]
fn test_lsr_zeropage() {
    let mut cpu = CPU::new(Bus::new(Rom::empty()));
    cpu.mem_write(0x10, 0x02);
    cpu.load(vec![0x46, 0x10]);
    cpu.reset();
    cpu.status = 0;
    cpu.run().unwrap();

    assert_eq!(cpu.mem_read(0x10), 0x01);
    assert_eq!(cpu.status, 0x00);
}
#[test]
fn test_ora() {
    let mut cpu = CPU::new(Bus::new(Rom::empty()));
    cpu.load(vec![0x09, 0x02]);
    cpu.reset();
    cpu.status = 0x00;
    cpu.register_a = 0x01;
    cpu.run().unwrap();

    assert_eq!(cpu.register_a, 0x03);
}

#[test]
fn test_rol_accumulator() {
    let mut cpu = CPU::new(Bus::new(Rom::empty()));
    cpu.load(vec![0x2A]);
    cpu.reset();
    cpu.register_a = 0b0000_0010;
    cpu.status = 0x01;
    cpu.run().unwrap();

    assert_eq!(cpu.register_a, 0b0000_0101);
    assert_eq!(cpu.status, 0x00);
}

#[test]
fn test_rol_zeropage() {
    let mut cpu = CPU::new(Bus::new(Rom::empty()));
    cpu.mem_write(0x10, 0b0000_0001);
    cpu.load(vec![0x26, 0x10]);
    cpu.reset();
    cpu.status = 0x01;
    cpu.run().unwrap();

    assert_eq!(cpu.mem_read(0x10), 0x03);
    assert_eq!(cpu.status, 0x00);
}

#[test]
fn test_ror_accumulator() {
    let mut cpu = CPU::new(Bus::new(Rom::empty()));
    cpu.load(vec![0x6A]);
    cpu.reset();
    cpu.register_a = 0b1000_0000;
    cpu.status = 0x01;
    cpu.run().unwrap();

    assert_eq!(cpu.register_a, 0b1100_0000);
    // carry receives bit 0, the bit that a right rotate moves out
    assert_eq!(cpu.status, 0x80);
}

#[test]
fn test_ror_zeropage() {
    let mut cpu = CPU::new(Bus::new(Rom::empty()));
    cpu.mem_write(0x10, 0b1000_0000);
    cpu.load(vec![0x66, 0x10]);
    cpu.reset();
    cpu.status = 0x01;
    cpu.run().unwrap();

    assert_eq!(cpu.mem_read(0x10), 0b1100_0000);
    // assert_eq!(cpu.status, 0x81);
}

#[test]
fn test_sbc_no_carry_and_no_overflow() {
    let mut cpu = CPU::new(Bus::new(Rom::empty()));
    cpu.load(vec![0xE9, 0xf0]);
    cpu.reset();
    cpu.register_a = 0x50;
    cpu.status = 0x00;
    cpu.run().unwrap();

    assert_eq!(cpu.register_a, 0x5f);
    assert_eq!(cpu.status, 0b0000_0000);
}

#[test]
fn test_sbc_has_carry() {
    let mut cpu = CPU::new(Bus::new(Rom::empty()));
    cpu.load(vec![0xE9, 0xf0]);
    cpu.reset();
    cpu.register_a = 0x50;
    cpu.status = 0x01;
    cpu.run().unwrap();

    assert_eq!(cpu.register_a, 0x60);
    assert_eq!(cpu.status, 0b0000_0000);
}

#[test]
fn test_sbc_occurs_carry() {
    let mut cpu = CPU::new(Bus::new(Rom::empty()));
    cpu.load(vec![0xE9, 0x30]);
    cpu.reset();
    cpu.register_a = 0x50;
    cpu.status = 0x00;
    cpu.run().unwrap();

    assert_eq!(cpu.register_a, 0x1F);
    assert_eq!(cpu.status, 0b0000_0001);
}

#[test]
fn test_sbc_occurs_overflow_plus() {
    let mut cpu = CPU::new(Bus::new(Rom::empty()));
    cpu.load(vec![0xE9, 0xb0]);
    cpu.reset();
    cpu.register_a = 0x50;
    cpu.status = 0x00;
    cpu.run().unwrap();

    assert_eq!(cpu.register_a, 0x9f);
    assert_eq!(cpu.status, 0b1100_0000);
}
#[test]
fn test_sbc_occurs_overflow_plus_with_carry() {
    let mut cpu = CPU::new(Bus::new(Rom::empty()));
    cpu.load(vec![0xE9, 0xb0]);
    cpu.reset();
    cpu.register_a = 0x50;
    cpu.status = 0x01;
    cpu.run().unwrap();

    assert_eq!(cpu.register_a, 0xa0);
    assert_eq!(cpu.status, 0b1100_0000);
}
#[test]
fn test_pha() {
    let mut cpu = CPU::new(Bus::new(Rom::empty()));
    cpu.load(vec![0x48]);
    cpu.reset();
    cpu.register_a = 0xff;
    cpu.run().unwrap();

    assert_eq!(
        cpu.mem_read((STACK as u16) + cpu.stack_pointer.wrapping_add(1) as u16),
        0xff
    );
}
#[test]
fn test_php() {
    let mut cpu = CPU::new(Bus::new(Rom::empty()));
    cpu.load(vec![0x08]);
    cpu.reset();
    cpu.status = 0xff;
    cpu.run().unwrap();

    assert_eq!(
        cpu.mem_read((STACK as u16) + cpu.stack_pointer.wrapping_add(1) as u16),
        0xff
    );
}
#[test]
fn test_clc_cld_cli_clv() {
    let mut cpu = CPU::new(Bus::new(Rom::empty()));
    cpu.load(vec![0x18, 0xD8, 0x58, 0xB8]);
    cpu.reset();
    cpu.status = 0b0100_1101;
    cpu.run().unwrap();

    assert_eq!(cpu.status, 0);
}
#[test]
fn test_sec_sed_sei() {
    let mut cpu = CPU::new(Bus::new(Rom::empty()));
    cpu.load(vec![0x38, 0xF8, 0x78]);
    cpu.reset();
    cpu.status = 0;
    cpu.run().unwrap();

    assert_eq!(cpu.status, 0b0000_1101);
}
#[test]
fn test_bcc() {
    let mut cpu = CPU::new(Bus::new(Rom::empty()));
    cpu.load(vec![0x90, 0x02, 0x00, 0x00, 0xE8, 0x00]);
    cpu.reset();
    cpu.status = 0b0000_0000;
    cpu.run().unwrap();

    assert_eq!(cpu.register_x, 1);
}
#[test]
fn test_bcc_with_carry() {
    let mut cpu = CPU::new(Bus::new(Rom::empty()));
    cpu.load(vec![0x90, 0x02, 0x00, 0x00, 0xE8, 0x00]);
    cpu.reset();
    cpu.status = 0b0000_0001;
    cpu.run().unwrap();

    assert_eq!(cpu.register_x, 0);
}
#[test]
fn test_bcc_negative_value() {
    let mut cpu = CPU::new(Bus::new(Rom::empty()));
    cpu.load(vec![0x90, 0xfc]);
    cpu.reset();
    cpu.mem_write(0x7FFF, 0x00);
    cpu.mem_write(0x7FFE, 0xe8);
    cpu.status = 0b0000_0000;
    cpu.run().unwrap();

    assert_eq!(cpu.register_x, 1);
}
#[test]
fn test_bcs() {
    let mut cpu = CPU::new(Bus::new(Rom::empty()));
    cpu.load(vec![0xB0, 0x02, 0x00, 0x00, 0xE8, 0x00]);
    cpu.reset();
    cpu.status = 0b0000_0000;
    cpu.run().unwrap();

    assert_eq!(cpu.register_x, 0);
}
#[test]
fn test_bcs_with_carry() {
    let mut cpu = CPU::new(Bus::new(Rom::empty()));
    cpu.load(vec![0xB0, 0x02, 0x00, 0x00, 0xE8, 0x00]);
    cpu.reset();
    cpu.status = 0b0000_0001;
    cpu.run().unwrap();

    assert_eq!(cpu.register_x, 1);
}
#[test]
fn test_bcs_negative_value() {
    let mut cpu = CPU::new(Bus::new(Rom::empty()));
    cpu.load(vec![0xB0, 0xFC]);
    cpu.reset();
    cpu.mem_write_u16(0x7FFF, 0x00);
    cpu.mem_write_u16(0x7FFE, 0xe8);
    cpu.status = 0b0000_0001;
    cpu.run().unwrap();

    assert_eq!(cpu.register_x, 0);
}
#[test]
fn test_beq() {
    let mut cpu = CPU::new(Bus::new(Rom::empty()));
    cpu.load(vec![0xF0, 0x02, 0x00, 0x00, 0xE8, 0x00]);
    cpu.reset();
    cpu.status = 0b0000_0010;
    cpu.run().unwrap();

    assert_eq!(cpu.register_x, 1);
}
#[test]
fn test_beq_with_carry() {
    let mut cpu = CPU::new(Bus::new(Rom::empty()));
    cpu.load(vec![0xF0, 0x02, 0x00, 0x00, 0xE8, 0x00]);
    cpu.reset();
    cpu.status = 0b0000_0000;
    cpu.run().unwrap();

    assert_eq!(cpu.register_x, 0);
}
#[test]
fn test_beq_negative_value() {
    let mut cpu = CPU::new(Bus::new(Rom::empty()));
    cpu.load(vec![0xF0, 0xFC]);
    cpu.reset();
    cpu.mem_write(0x7FFF, 0x00);
    cpu.mem_write(0x7FFE, 0xE8);
    cpu.status = 0b0000_0010;
    cpu.run().unwrap();

    assert_eq!(cpu.register_x, 1);
}
#[test]
fn test_bmi() {
    let mut cpu = CPU::new(Bus::new(Rom::empty()));
    cpu.load(vec![0x30, 0x02, 0x00, 0x00, 0xE8, 0x00]);
    cpu.reset();
    cpu.status = 0b0000_0000;
    cpu.run().unwrap();

    assert_eq!(cpu.register_x, 0);
}
#[test]
fn test_bmi_with_carry() {
    let mut cpu = CPU::new(Bus::new(Rom::empty()));
    cpu.load(vec![0x30, 0x02, 0x00, 0x00, 0xE8, 0x00]);
    cpu.reset();
    cpu.status = 0b1000_0000;
    cpu.run().unwrap();

    assert_eq!(cpu.register_x, 1);
}
#[test]
fn test_bmi_negative_value() {
    let mut cpu = CPU::new(Bus::new(Rom::empty()));
    cpu.load(vec![0x30, 0xFC]);
    cpu.reset();
    cpu.mem_write(0x7FFF, 0x00);
    cpu.mem_write(0x7FFE, 0xE8);
    cpu.status = 0b1000_0000;
    cpu.run().unwrap();

    assert_eq!(cpu.register_x, 1);
}
#[test]
fn test_bne() {
    let mut cpu = CPU::new(Bus::new(Rom::empty()));
    cpu.load(vec![0xD0, 0x02, 0x00, 0x00, 0xE8, 0x00]);
    cpu.reset();
    cpu.status = 0b0000_0000;
    cpu.run().unwrap();

    assert_eq!(cpu.register_x, 1);
}
#[test]
fn test_bne_with_carry() {
    let mut cpu = CPU::new(Bus::new(Rom::empty()));
    cpu.load(vec![0xD0, 0x02, 0x00, 0x00, 0xE8, 0x00]);
    cpu.reset();
    cpu.status = 0b0000_0010;
    cpu.run().unwrap();

    assert_eq!(cpu.register_x, 0);
}
#[test]
fn test_bne_negative_value() {
    let mut cpu = CPU::new(Bus::new(Rom::empty()));
    cpu.load(vec![0xD0, 0xFC]);
    cpu.reset();
    cpu.mem_write(0x7FFF, 0x00);
    cpu.mem_write(0x7FFE, 0xE8);
    cpu.status = 0b0000_0000;
    cpu.run().unwrap();

    assert_eq!(cpu.register_x, 1);
}
#[test]
fn test_bpl() {
    let mut cpu = CPU::new(Bus::new(Rom::empty()));
    cpu.load(vec![0x10, 0x02, 0x00, 0x00, 0xE8, 0x00]);
    cpu.reset();
    cpu.status = 0b0000_0000;
    cpu.run().unwrap();

    assert_eq!(cpu.register_x, 1);
}
#[test]
fn test_bpl_with_carry() {
    let mut cpu = CPU::new(Bus::new(Rom::empty()));
    cpu.load(vec![0x10, 0x02, 0x00, 0x00, 0xE8, 0x00]);
    cpu.reset();
    cpu.status = 0b1000_0000;
    cpu.run().unwrap();

    assert_eq!(cpu.register_x, 0);
}
#[test]
fn test_bpl_negative_value() {
    let mut cpu = CPU::new(Bus::new(Rom::empty()));
    cpu.load(vec![0x10, 0xFC]);
    cpu.reset();
    cpu.mem_write(0x7FFF, 0x00);
    cpu.mem_write(0x7FFE, 0xE8);
    cpu.status = 0b0000_0000;
    cpu.run().unwrap();

    assert_eq!(cpu.register_x, 1);
}
#[test]
fn test_bvc() {
    let mut cpu = CPU::new(Bus::new(Rom::empty()));
    cpu.load(vec![0x50, 0x02, 0x00, 0x00, 0xE8, 0x00]);
    cpu.reset();
    cpu.status = 0b0000_0000;
    cpu.run().unwrap();

    assert_eq!(cpu.register_x, 1);
}
#[test]
fn test_bvc_with_carry() {
    let mut cpu = CPU::new(Bus::new(Rom::empty()));
    cpu.load(vec![0x50, 0x02, 0x00, 0x00, 0xE8, 0x00]);
    cpu.reset();
    cpu.status = 0b0100_0000;
    cpu.run().unwrap();

    assert_eq!(cpu.register_x, 0);
}
#[test]
fn test_bvc_negative_value() {
    let mut cpu = CPU::new(Bus::new(Rom::empty()));
    cpu.load(vec![0x50, 0xFC]);
    cpu.reset();
    cpu.mem_write(0x7FFF, 0x00);
    cpu.mem_write(0x7FFE, 0xE8);
    cpu.status = 0b0000_0000;
    cpu.run().unwrap();

    assert_eq!(cpu.register_x, 1);
}
#[test]
fn test_bvs() {
    let mut cpu = CPU::new(Bus::new(Rom::empty()));
    cpu.load(vec![0x70, 0x02, 0x00, 0x00, 0xE8, 0x00]);
    cpu.reset();
    cpu.status = 0b0000_0000;
    cpu.run().unwrap();

    assert_eq!(cpu.register_x, 0);
}
#[test]
fn test_bvs_with_carry() {
    let mut cpu = CPU::new(Bus::new(Rom::empty()));
    cpu.load(vec![0x70, 0x02, 0x00, 0x00, 0xE8, 0x00]);
    cpu.reset();
    cpu.status = 0b0100_0000;
    cpu.run().unwrap();

    assert_eq!(cpu.register_x, 1);
}
#[test]
fn test_bvs_negative_value() {
    let mut cpu = CPU::new(Bus::new(Rom::empty()));
    cpu.load(vec![0x70, 0xFC]);
    cpu.reset();
    cpu.mem_write(0x7FFF, 0x00);
    cpu.mem_write(0x7FFE, 0xE8);
    cpu.status = 0b0100_0000;
    cpu.run().unwrap();

    assert_eq!(cpu.register_x, 1);
}
