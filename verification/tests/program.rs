use cpu_emulator::cpu::CPU;
use cpu_emulator::error::ExecError;
use cpu_emulator::instruction::Instruction;
use cpu_emulator::memory::SectionType;
use cpu_emulator::registers::{Flags, Registers};

fn demo() -> CPU {
    CPU::new(
        Some(1504),
        Some(vec![(SectionType::Code, 0, 501), (SectionType::Data, 501, 1504)]),
    )
}

fn with_code(size: usize, start: usize, end: usize) -> CPU {
    CPU::new(Some(size), Some(vec![(SectionType::Code, start, end)]))
}

#[test]
fn end_to_end_scenario() {
    let mut cpu = demo();
    cpu.append(Instruction::new(1, 0, 0, 1, 1337));
    assert_eq!(&cpu.ram.memory[0..8], &[1, 0, 0, 1, 0, 0, 5, 57]);
    assert!(cpu.ram.memory[8..].iter().all(|byte| *byte == 0));

    let result = cpu.run();
    assert_eq!(result, Err(ExecError::InvalidMnemonic { mnemonic: 0, address: 8 }));
    assert_eq!(cpu.registers, Registers { r1: 0, r2: 1337, r3: 0, r4: 0, rip: 8 });
    assert_eq!(cpu.flags, Flags { zf: false, of: false, tf: false });
    assert_eq!(
        result.unwrap_err().message(),
        "error: invalid mnemonic 00 address 0x8"
    );
}

#[test]
fn append_fills_slots_in_order() {
    let mut cpu = with_code(64, 0, 32);
    cpu.append(Instruction::new(1, 0, 0, 0, 10));
    cpu.append(Instruction::new(1, 0, 0, 1, 20));
    cpu.append(Instruction::new(1, 0, 0, 2, 30));
    assert_eq!(&cpu.ram.memory[0..8], &[1, 0, 0, 0, 0, 0, 0, 10]);
    assert_eq!(&cpu.ram.memory[8..16], &[1, 0, 0, 1, 0, 0, 0, 20]);
    assert_eq!(&cpu.ram.memory[16..24], &[1, 0, 0, 2, 0, 0, 0, 30]);
    assert!(cpu.ram.memory[24..].iter().all(|byte| *byte == 0));
}

#[test]
fn append_starts_at_the_region_start() {
    let mut cpu = with_code(64, 16, 48);
    cpu.append(Instruction::new(1, 0, 0, 0, 7));
    assert!(cpu.ram.memory[..16].iter().all(|byte| *byte == 0));
    assert_eq!(&cpu.ram.memory[16..24], &[1, 0, 0, 0, 0, 0, 0, 7]);
    assert!(cpu.ram.memory[24..].iter().all(|byte| *byte == 0));
}

#[test]
fn append_uses_slots_aligned_to_the_region_start() {
    let mut cpu = with_code(64, 3, 30);
    cpu.append(Instruction::new(1, 0, 0, 0, 7));
    cpu.append(Instruction::new(1, 0, 0, 1, 8));
    assert_eq!(&cpu.ram.memory[3..11], &[1, 0, 0, 0, 0, 0, 0, 7]);
    assert_eq!(&cpu.ram.memory[11..19], &[1, 0, 0, 1, 0, 0, 0, 8]);
}

#[test]
fn append_uses_only_the_first_code_region() {
    let mut cpu = CPU::new(
        Some(64),
        Some(vec![
            (SectionType::Data, 0, 8),
            (SectionType::Code, 8, 16),
            (SectionType::Code, 32, 64),
        ]),
    );
    cpu.append(Instruction::new(1, 0, 0, 0, 1));
    cpu.append(Instruction::new(1, 0, 0, 0, 2));
    assert_eq!(&cpu.ram.memory[8..16], &[1, 0, 0, 0, 0, 0, 0, 1]);
    assert!(cpu.ram.memory[..8].iter().all(|byte| *byte == 0));
    assert!(cpu.ram.memory[16..].iter().all(|byte| *byte == 0));
}

#[test]
fn append_to_a_full_region_changes_nothing() {
    let mut cpu = with_code(64, 0, 16);
    cpu.append(Instruction::new(1, 0, 0, 0, 1));
    cpu.append(Instruction::new(1, 0, 0, 1, 2));
    let before = cpu.ram.memory.clone();
    cpu.append(Instruction::new(1, 0, 0, 2, 3));
    assert_eq!(cpu.ram.memory, before);
    assert_eq!(cpu.registers, Registers { r1: 0, r2: 0, r3: 0, r4: 0, rip: 0 });
}

#[test]
fn append_to_an_empty_region_changes_nothing() {
    let mut cpu = with_code(64, 8, 8);
    cpu.append(Instruction::new(1, 0, 0, 0, 1));
    assert_eq!(cpu.ram.memory, vec![0u8; 64]);
    let mut cpu = with_code(64, 16, 8);
    cpu.append(Instruction::new(1, 0, 0, 0, 1));
    assert_eq!(cpu.ram.memory, vec![0u8; 64]);
}

#[test]
fn append_takes_a_slot_as_free_by_its_first_byte_alone() {
    let mut cpu = with_code(64, 0, 32);
    cpu.ram.memory[1] = 0xEE;
    cpu.ram.memory[7] = 0xEE;
    cpu.append(Instruction::new(1, 0, 0, 0, 5));
    assert_eq!(&cpu.ram.memory[0..8], &[1, 0, 0, 0, 0, 0, 0, 5]);
}

#[test]
fn append_of_a_zero_mnemonic_leaves_the_slot_free() {
    let mut cpu = with_code(64, 0, 32);
    cpu.append(Instruction::new(0, 9, 9, 9, 0x0A0B_0C0D));
    assert_eq!(&cpu.ram.memory[0..8], &[0, 9, 9, 9, 0x0A, 0x0B, 0x0C, 0x0D]);
    cpu.append(Instruction::new(1, 0, 0, 0, 5));
    assert_eq!(&cpu.ram.memory[0..8], &[1, 0, 0, 0, 0, 0, 0, 5]);
    assert!(cpu.ram.memory[8..].iter().all(|byte| *byte == 0));
}

#[test]
fn append_skips_slots_in_use() {
    let mut cpu = with_code(64, 0, 32);
    cpu.ram.memory[0] = 0x55;
    cpu.ram.memory[8] = 0x66;
    cpu.append(Instruction::new(1, 0, 0, 3, 9));
    assert_eq!(cpu.ram.memory[0], 0x55);
    assert_eq!(cpu.ram.memory[8], 0x66);
    assert_eq!(&cpu.ram.memory[16..24], &[1, 0, 0, 3, 0, 0, 0, 9]);
}

#[test]
fn append_last_slot_may_reach_past_the_region() {
    let mut cpu = with_code(64, 0, 12);
    cpu.append(Instruction::new(1, 0, 0, 0, 1));
    cpu.append(Instruction::new(1, 0, 0, 1, 0x0203_0405));
    assert_eq!(&cpu.ram.memory[8..16], &[1, 0, 0, 1, 2, 3, 4, 5]);
}

#[test]
fn fetch_returns_eight_bytes_at_the_address() {
    let mut cpu = CPU::new(Some(32), None);
    for (i, byte) in cpu.ram.memory.iter_mut().enumerate() {
        *byte = i as u8;
    }
    assert_eq!(cpu.fetch(0), vec![0, 1, 2, 3, 4, 5, 6, 7]);
    assert_eq!(cpu.fetch(5), vec![5, 6, 7, 8, 9, 10, 11, 12]);
    assert_eq!(cpu.fetch(24), vec![24, 25, 26, 27, 28, 29, 30, 31]);
}

#[test]
fn run_over_an_empty_region_does_nothing() {
    let mut cpu = with_code(64, 8, 8);
    assert_eq!(cpu.run(), Ok(()));
    assert_eq!(cpu.registers, Registers { r1: 0, r2: 0, r3: 0, r4: 0, rip: 0 });
    let mut cpu = with_code(64, 16, 8);
    assert_eq!(cpu.run(), Ok(()));
    assert_eq!(cpu.registers, Registers { r1: 0, r2: 0, r3: 0, r4: 0, rip: 0 });
}

#[test]
fn run_executes_every_slot_of_a_full_region() {
    let mut cpu = with_code(64, 0, 32);
    cpu.append(Instruction::new(1, 0, 0, 0, 10));
    cpu.append(Instruction::new(1, 0, 0, 1, 20));
    cpu.append(Instruction::new(1, 0, 0, 2, 30));
    cpu.append(Instruction::new(1, 0, 0, 3, 0xFFFF_FFFF));
    assert_eq!(cpu.run(), Ok(()));
    assert_eq!(cpu.registers, Registers { r1: 10, r2: 20, r3: 30, r4: -1, rip: 32 });
}

#[test]
fn run_counts_a_partial_last_slot() {
    let mut cpu = with_code(64, 0, 9);
    cpu.append(Instruction::new(1, 0, 0, 0, 10));
    cpu.append(Instruction::new(1, 0, 0, 1, 20));
    assert_eq!(cpu.run(), Ok(()));
    assert_eq!(cpu.registers, Registers { r1: 10, r2: 20, r3: 0, r4: 0, rip: 16 });
}

#[test]
fn run_stops_at_the_first_error() {
    let mut cpu = with_code(64, 0, 32);
    cpu.append(Instruction::new(1, 0, 0, 0, 10));
    cpu.append(Instruction::new(1, 0, 0, 7, 20));
    cpu.append(Instruction::new(1, 0, 0, 2, 30));
    let result = cpu.run();
    assert_eq!(result, Err(ExecError::InvalidRegister { register: 7, address: 11 }));
    assert_eq!(cpu.registers, Registers { r1: 10, r2: 0, r3: 0, r4: 0, rip: 8 });
}

#[test]
fn run_reports_reserved_byte_and_modifier_with_their_addresses() {
    let mut cpu = with_code(64, 0, 32);
    cpu.append(Instruction::new(1, 0, 0, 0, 10));
    cpu.append(Instruction::new(1, 0, 0, 1, 20));
    cpu.append(Instruction::new(1, 0, 5, 2, 30));
    assert_eq!(cpu.run(), Err(ExecError::ReservedByte { address: 18 }));
    assert_eq!(cpu.registers, Registers { r1: 10, r2: 20, r3: 0, r4: 0, rip: 16 });

    let mut cpu = with_code(64, 0, 32);
    cpu.append(Instruction::new(1, 3, 0, 0, 10));
    assert_eq!(cpu.run(), Err(ExecError::InvalidModifier { modifier: 3, address: 1 }));
    assert_eq!(cpu.registers, Registers { r1: 0, r2: 0, r3: 0, r4: 0, rip: 0 });
}

#[test]
fn run_fetches_at_the_program_counter_not_at_the_region() {
    let mut cpu = with_code(64, 16, 32);
    cpu.ram.memory[0..8].copy_from_slice(&[1, 0, 0, 0, 0, 0, 0, 7]);
    cpu.ram.memory[8..16].copy_from_slice(&[1, 0, 0, 1, 0, 0, 0, 8]);
    cpu.ram.memory[16..24].copy_from_slice(&[1, 0, 0, 2, 0, 0, 0, 9]);
    assert_eq!(cpu.run(), Ok(()));
    assert_eq!(cpu.registers, Registers { r1: 7, r2: 8, r3: 0, r4: 0, rip: 16 });
}

#[test]
fn run_goes_on_from_the_program_counter() {
    let mut cpu = with_code(64, 0, 16);
    cpu.ram.memory[8..16].copy_from_slice(&[1, 0, 0, 1, 0, 0, 0, 8]);
    cpu.ram.memory[16..24].copy_from_slice(&[1, 0, 0, 2, 0, 0, 0, 9]);
    cpu.registers.rip = 8;
    assert_eq!(cpu.run(), Ok(()));
    assert_eq!(cpu.registers, Registers { r1: 0, r2: 8, r3: 9, r4: 0, rip: 24 });
}

#[test]
fn run_leaves_memory_and_flags() {
    let mut cpu = demo();
    cpu.flags = Flags { zf: true, of: true, tf: false };
    cpu.append(Instruction::new(1, 0, 0, 1, 1337));
    let before = cpu.ram.memory.clone();
    let regions = cpu.ram.regions.clone();
    let _ = cpu.run();
    assert_eq!(cpu.ram.memory, before);
    assert_eq!(cpu.ram.regions, regions);
    assert_eq!(cpu.flags, Flags { zf: true, of: true, tf: false });
}

#[test]
fn run_never_reports_a_decode_failure() {
    let mut cpu = with_code(64, 0, 64);
    for (i, byte) in cpu.ram.memory.iter_mut().enumerate() {
        *byte = (i as u8).wrapping_mul(37);
    }
    assert_ne!(cpu.run(), Err(ExecError::Decode));
}

#[test]
fn can_append_needs_a_code_region() {
    assert!(!CPU::new(Some(64), None).can_append());
    assert!(!CPU::new(Some(64), Some(Vec::new())).can_append());
    assert!(!CPU::default().can_append());
    assert!(with_code(64, 0, 32).can_append());
}

#[test]
fn can_append_needs_the_scanned_slots_inside_memory() {
    assert!(with_code(64, 0, 64).can_append());
    assert!(with_code(64, 56, 64).can_append());
    assert!(!with_code(64, 57, 64).can_append());
    assert!(!with_code(64, 64, 72).can_append());
    assert!(with_code(64, 100, 100).can_append());
    assert!(with_code(64, 100, 50).can_append());
    assert!(with_code(1504, 0, 501).can_append());

    let mut cpu = with_code(16, 0, 24);
    assert!(cpu.can_append());
    cpu.ram.memory[0] = 1;
    assert!(cpu.can_append());
    cpu.ram.memory[8] = 1;
    assert!(!cpu.can_append());

    let mut cpu = with_code(12, 0, 12);
    assert!(cpu.can_append());
    cpu.ram.memory[0] = 1;
    assert!(!cpu.can_append());
}

#[test]
fn can_run_needs_a_code_region() {
    assert!(!CPU::new(Some(64), None).can_run());
    assert!(!CPU::default().can_run());
    assert!(with_code(64, 0, 32).can_run());
    assert!(with_code(64, 32, 32).can_run());
    assert!(demo().can_run());
}

#[test]
fn can_run_follows_the_program_counter() {
    let full = |cpu: &mut CPU| {
        for slot in 0..cpu.ram.memory.len() / 8 {
            cpu.ram.memory[slot * 8..slot * 8 + 8].copy_from_slice(&[1, 0, 0, 0, 0, 0, 0, 1]);
        }
    };
    let mut cpu = with_code(64, 0, 64);
    full(&mut cpu);
    assert!(cpu.can_run());
    cpu.registers.rip = 8;
    assert!(!cpu.can_run());
    cpu.registers.rip = -8;
    assert!(!cpu.can_run());

    let mut cpu = with_code(64, 0, 65);
    full(&mut cpu);
    assert!(!cpu.can_run());
    cpu.ram.memory[56] = 0;
    assert!(cpu.can_run());
    assert_eq!(
        cpu.run(),
        Err(ExecError::InvalidMnemonic { mnemonic: 0, address: 56 })
    );

    let mut cpu = with_code(4, 0, 8);
    assert!(!cpu.can_run());
    cpu.registers.rip = 60;
    assert!(!cpu.can_run());
}
