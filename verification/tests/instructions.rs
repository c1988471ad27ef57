use vcpu::cpu::{Cpu, MEM_SIZE};
use vcpu::fault::CpuError;

/// A fresh CPU whose RAM starts with the given bytes (zero-filled after).
fn cpu_with_ram(bytes: &[u8]) -> Cpu {
    let mut ram = vec![0u8; MEM_SIZE];
    ram[..bytes.len()].copy_from_slice(bytes);
    let mut c = Cpu::new();
    c.load_ram(ram);
    c
}

#[test]
fn new_cpu_is_zeroed() {
    let c = Cpu::new();
    assert_eq!(c.a, 0);
    assert_eq!(c.b, 0);
    assert_eq!(c.ic, 0);
    assert_eq!(c.counter_register_pos(), 0);
    assert!(c.stack.is_empty());
    assert_eq!(c.ram.len(), MEM_SIZE);
    assert_eq!(c.rom.len(), MEM_SIZE);
    assert!(c.ram.iter().all(|&x| x == 0));
    assert!(c.rom.iter().all(|&x| x == 0));
}

#[test]
fn load_ram_replaces_the_whole_image() {
    let mut c = Cpu::new();
    let mut ram = vec![0u8; MEM_SIZE];
    ram[0] = 11;
    ram[MEM_SIZE - 1] = 22;
    c.load_ram(ram);
    assert_eq!(c.ram[0], 11);
    assert_eq!(c.ram[MEM_SIZE - 1], 22);
    assert!(c.rom.iter().all(|&x| x == 0));
}

#[test]
fn load_rom_replaces_the_whole_image() {
    let mut c = Cpu::new();
    let mut rom = vec![0u8; MEM_SIZE];
    rom[7] = 33;
    c.load_rom(rom);
    assert_eq!(c.rom[7], 33);
    assert!(c.ram.iter().all(|&x| x == 0));
}

#[test]
fn add_stores_sum_into_a_and_advances_by_two() {
    let mut c = cpu_with_ram(&[1, 5]);
    assert_eq!(c.add(), Ok(()));
    assert_eq!(c.a, 5);
    assert_eq!(c.b, 0);
    assert_eq!(c.ic, 2);
}

#[test]
fn add_reads_selected_source_but_always_writes_a() {
    let mut c = cpu_with_ram(&[2, 10]);
    c.b = 30;
    assert_eq!(c.add(), Ok(()));
    assert_eq!(c.a, 40);
    assert_eq!(c.b, 30);
}

#[test]
fn add_wraps_on_overflow() {
    let mut c = cpu_with_ram(&[1, 100]);
    c.a = 200;
    assert_eq!(c.add(), Ok(()));
    assert_eq!(c.a, 44);
}

#[test]
fn sub_wraps_on_underflow() {
    let mut c = cpu_with_ram(&[1, 1]);
    c.a = 0;
    assert_eq!(c.sub(), Ok(()));
    assert_eq!(c.a, 255);
}

#[test]
fn add_then_sub_restores_a() {
    let mut c = cpu_with_ram(&[1, 7, 1, 7]);
    c.a = 19;
    assert_eq!(c.add(), Ok(()));
    assert_eq!(c.sub(), Ok(()));
    assert_eq!(c.a, 19);
    assert_eq!(c.ic, 4);
}

#[test]
fn add_then_sub_restores_a_at_wraparound_boundaries() {
    for start in [0u8, 255u8] {
        for imm in [0u8, 1u8, 255u8] {
            let mut c = cpu_with_ram(&[1, imm, 1, imm]);
            c.a = start;
            assert_eq!(c.add(), Ok(()));
            assert_eq!(c.sub(), Ok(()));
            assert_eq!(c.a, start, "start {} imm {}", start, imm);
        }
    }
}

#[test]
fn mult_multiplies_and_wraps() {
    let mut c = cpu_with_ram(&[1, 12]);
    c.a = 12;
    assert_eq!(c.mult(), Ok(()));
    assert_eq!(c.a, 144);

    let mut c = cpu_with_ram(&[1, 16]);
    c.a = 16;
    assert_eq!(c.mult(), Ok(()));
    assert_eq!(c.a, 0);
}

#[test]
fn div_truncates() {
    let mut c = cpu_with_ram(&[1, 2]);
    c.a = 7;
    assert_eq!(c.div(), Ok(()));
    assert_eq!(c.a, 3);
}

#[test]
fn div_by_zero_faults_without_touching_register_a() {
    let mut c = cpu_with_ram(&[1, 0]);
    c.a = 77;
    assert_eq!(c.div(), Err(CpuError::DivisionByZero));
    assert_eq!(c.a, 77);
    assert_eq!(c.ic, 0);
}

#[test]
fn arith_invalid_selector_faults() {
    let mut c = cpu_with_ram(&[3, 5]);
    assert_eq!(c.add(), Err(CpuError::InvalidRegisterSelector));
    assert_eq!(c.a, 0);
    assert_eq!(c.ic, 0);
}

#[test]
fn arith_at_the_memory_edge_faults() {
    let mut c = Cpu::new();
    c.ic = MEM_SIZE - 1;
    assert_eq!(c.add(), Err(CpuError::AddressOutOfRange));
    assert_eq!(c.ic, MEM_SIZE - 1);
}

#[test]
fn jmp_follows_one_level_of_indirection() {
    let mut c = Cpu::new();
    let mut ram = vec![0u8; MEM_SIZE];
    ram[1] = 10;
    ram[10] = 42;
    c.load_ram(ram);
    assert_eq!(c.jmp(), Ok(()));
    assert_eq!(c.ic, 42);
}

#[test]
fn jmp_target_is_independent_of_prior_ic() {
    let mut c = Cpu::new();
    let mut ram = vec![0u8; MEM_SIZE];
    ram[6] = 10;
    ram[10] = 99;
    c.load_ram(ram);
    c.ic = 5;
    assert_eq!(c.jmp(), Ok(()));
    assert_eq!(c.ic, 99);
}

#[test]
fn jmp_at_the_memory_edge_faults() {
    let mut c = Cpu::new();
    c.ic = MEM_SIZE - 1;
    assert_eq!(c.jmp(), Err(CpuError::AddressOutOfRange));
    assert_eq!(c.ic, MEM_SIZE - 1);
}

#[test]
fn jmp_if_a_taken_matches_jmp_from_one_past_the_selector() {
    let mut ram = vec![0u8; MEM_SIZE];
    ram[0] = 1; // selector names register A
    ram[2] = 20; // pointer byte of the indirection
    ram[20] = 77; // the jump target
    let mut c = Cpu::new();
    c.load_ram(ram.clone());
    c.a = 0;
    assert_eq!(c.jmp_if_a(), Ok(()));
    assert_eq!(c.ic, 77);

    // The plain jump, fed from one past the selector, lands the same.
    let mut d = Cpu::new();
    d.load_ram(ram);
    d.ic = 1;
    assert_eq!(d.jmp(), Ok(()));
    assert_eq!(d.ic, c.ic);
}

#[test]
fn jmp_if_a_not_taken_advances_by_two_and_leaves_memory_alone() {
    let mut ram = vec![0u8; MEM_SIZE];
    ram[0] = 1;
    ram[2] = 20;
    ram[20] = 77;
    let mut c = Cpu::new();
    c.load_ram(ram.clone());
    c.a = 9;
    assert_eq!(c.jmp_if_a(), Ok(()));
    assert_eq!(c.ic, 2);
    assert_eq!(c.a, 9);
    assert_eq!(c.ram, ram);
}

#[test]
fn jmp_if_a_rejects_the_other_registers_selector() {
    let mut c = cpu_with_ram(&[2]);
    assert_eq!(c.jmp_if_a(), Err(CpuError::RegisterSelectorMismatch));
    assert_eq!(c.ic, 0);
}

#[test]
fn jmp_if_a_rejects_a_selector_that_names_no_register() {
    let mut c = cpu_with_ram(&[9]);
    assert_eq!(c.jmp_if_a(), Err(CpuError::InvalidRegisterSelector));
    assert_eq!(c.ic, 0);
}

#[test]
fn jmp_if_b_taken_and_not_taken() {
    let mut ram = vec![0u8; MEM_SIZE];
    ram[0] = 2; // selector names register B
    ram[2] = 30;
    ram[30] = 55;
    let mut c = Cpu::new();
    c.load_ram(ram.clone());
    c.b = 0;
    assert_eq!(c.jmp_if_b(), Ok(()));
    assert_eq!(c.ic, 55);

    let mut d = Cpu::new();
    d.load_ram(ram);
    d.b = 3;
    assert_eq!(d.jmp_if_b(), Ok(()));
    assert_eq!(d.ic, 2);
}

#[test]
fn jmp_if_a_taken_at_the_memory_edge_faults() {
    // The selector byte is readable but the pointer byte of the taken
    // branch would sit past the end of memory.
    let mut ram = vec![0u8; MEM_SIZE];
    ram[MEM_SIZE - 2] = 1;
    let mut c = Cpu::new();
    c.load_ram(ram);
    c.a = 0;
    c.ic = MEM_SIZE - 2;
    assert_eq!(c.jmp_if_a(), Err(CpuError::AddressOutOfRange));
    assert_eq!(c.ic, MEM_SIZE - 2);
}

#[test]
fn jmp_if_a_not_taken_at_the_memory_edge_succeeds() {
    // Not taken, the branch touches no memory past the selector byte.
    let mut ram = vec![0u8; MEM_SIZE];
    ram[MEM_SIZE - 1] = 1;
    let mut c = Cpu::new();
    c.load_ram(ram);
    c.a = 1;
    c.ic = MEM_SIZE - 1;
    assert_eq!(c.jmp_if_a(), Ok(()));
    assert_eq!(c.ic, MEM_SIZE + 1);
}

#[test]
fn push_at_the_memory_edge_faults() {
    let mut c = Cpu::new();
    c.ic = MEM_SIZE - 1;
    assert_eq!(c.push(), Err(CpuError::AddressOutOfRange));
    assert!(c.stack.is_empty());
    assert_eq!(c.ic, MEM_SIZE - 1);
}

#[test]
fn jmp_if_b_rejects_register_a_selector() {
    let mut c = cpu_with_ram(&[1]);
    assert_eq!(c.jmp_if_b(), Err(CpuError::RegisterSelectorMismatch));
}

#[test]
fn push_reads_one_past_the_pointer_and_advances_by_two() {
    let mut c = cpu_with_ram(&[0, 7]);
    assert_eq!(c.push(), Ok(()));
    assert_eq!(c.stack, vec![7]);
    assert_eq!(c.ic, 2);
}

#[test]
fn push_then_pop_leaves_the_stack_as_it_was() {
    let mut c = cpu_with_ram(&[0, 7]);
    assert_eq!(c.push(), Ok(()));
    assert_eq!(c.stack.len(), 1);
    assert_eq!(c.pop(), Ok(()));
    assert!(c.stack.is_empty());
    assert_eq!(c.ic, 3);
}

#[test]
fn pop_on_empty_stack_faults_with_underflow() {
    let mut c = Cpu::new();
    assert_eq!(c.pop(), Err(CpuError::StackUnderflow));
    assert_eq!(c.ic, 0);
}

#[test]
fn pop_discards_the_top_and_writes_no_register() {
    let mut c = cpu_with_ram(&[0, 9]);
    c.a = 1;
    c.b = 2;
    assert_eq!(c.push(), Ok(()));
    assert_eq!(c.pop(), Ok(()));
    assert_eq!(c.a, 1);
    assert_eq!(c.b, 2);
    assert!(c.stack.is_empty());
}

#[test]
fn mov_copies_source_into_destination() {
    // destination selector first, source selector second
    let mut c = cpu_with_ram(&[2, 1]);
    c.a = 5;
    c.b = 9;
    assert_eq!(c.mov(), Ok(()));
    assert_eq!(c.a, 5);
    assert_eq!(c.b, 5);
    assert_eq!(c.ic, 2);

    let mut d = cpu_with_ram(&[1, 2]);
    d.a = 5;
    d.b = 9;
    assert_eq!(d.mov(), Ok(()));
    assert_eq!(d.a, 9);
    assert_eq!(d.b, 9);
}

#[test]
fn mov_rejects_an_invalid_selector() {
    let mut c = cpu_with_ram(&[4, 1]);
    assert_eq!(c.mov(), Err(CpuError::InvalidRegisterSelector));
    let mut d = cpu_with_ram(&[1, 0]);
    assert_eq!(d.mov(), Err(CpuError::InvalidRegisterSelector));
}

#[test]
fn print_returns_the_selected_register_and_advances_by_one() {
    let mut c = cpu_with_ram(&[1]);
    c.a = 42;
    assert_eq!(c.print(), Ok(42));
    assert_eq!(c.ic, 1);

    let mut d = cpu_with_ram(&[2]);
    d.b = 17;
    assert_eq!(d.print(), Ok(17));
}

#[test]
fn print_rejects_an_invalid_selector() {
    let mut c = cpu_with_ram(&[0]);
    assert_eq!(c.print(), Err(CpuError::InvalidRegisterSelector));
}
