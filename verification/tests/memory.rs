use cpu_emulator::memory::{clamp, Memory, SectionType};

#[test]
fn clamp_keeps_small_values() {
    assert_eq!(clamp(0, 10), 0);
    assert_eq!(clamp(7, 10), 7);
    assert_eq!(clamp(10, 10), 10);
}

#[test]
fn clamp_caps_large_values() {
    assert_eq!(clamp(11, 10), 10);
    assert_eq!(clamp(usize::MAX, 0), 0);
    assert_eq!(clamp(usize::MAX, u32::MAX as usize), u32::MAX as usize);
}

#[test]
fn new_memory_is_zero_filled() {
    let memory = Memory::new(Some(1504), None);
    assert_eq!(memory.memory.len(), 1504);
    assert!(memory.memory.iter().all(|byte| *byte == 0));
}

#[test]
fn new_memory_without_size_is_empty() {
    let memory = Memory::new(None, None);
    assert_eq!(memory.memory.len(), 0);
    assert_eq!(memory.regions, vec![(SectionType::Data, 0, 0)]);
}

#[test]
fn new_memory_without_regions_is_one_data_region() {
    let memory = Memory::new(Some(64), None);
    assert_eq!(memory.regions, vec![(SectionType::Data, 0, 64)]);
    assert_eq!(memory.get_range(SectionType::Data), vec![(0, 64)]);
    assert_eq!(memory.get_range(SectionType::Code), Vec::<(usize, usize)>::new());
}

#[test]
fn new_memory_keeps_declared_regions_unchecked() {
    let declared = vec![
        (SectionType::Code, 100, 50),
        (SectionType::Data, 0, 9999),
        (SectionType::Code, 0, 9999),
    ];
    let memory = Memory::new(Some(16), Some(declared.clone()));
    assert_eq!(memory.memory.len(), 16);
    assert_eq!(memory.regions, declared);
}

#[test]
fn new_memory_with_empty_region_list_has_no_region() {
    let memory = Memory::new(Some(16), Some(Vec::new()));
    assert_eq!(memory.regions, Vec::new());
    assert_eq!(memory.get_range(SectionType::Data), Vec::<(usize, usize)>::new());
    assert_eq!(memory.get_range(SectionType::Code), Vec::<(usize, usize)>::new());
}

#[test]
fn get_range_filters_by_kind_in_declaration_order() {
    let declared = vec![
        (SectionType::Code, 0, 8),
        (SectionType::Data, 8, 16),
        (SectionType::Code, 16, 24),
        (SectionType::Data, 24, 32),
        (SectionType::Data, 32, 40),
        (SectionType::Code, 40, 48),
    ];
    let memory = Memory::new(Some(48), Some(declared));
    assert_eq!(
        memory.get_range(SectionType::Code),
        vec![(0, 8), (16, 24), (40, 48)]
    );
    assert_eq!(
        memory.get_range(SectionType::Data),
        vec![(8, 16), (24, 32), (32, 40)]
    );
}

#[test]
fn get_range_keeps_duplicates_and_order() {
    let declared = vec![
        (SectionType::Code, 40, 48),
        (SectionType::Code, 0, 8),
        (SectionType::Code, 40, 48),
    ];
    let memory = Memory::new(Some(48), Some(declared));
    assert_eq!(
        memory.get_range(SectionType::Code),
        vec![(40, 48), (0, 8), (40, 48)]
    );
}

#[test]
fn get_range_of_the_demo_layout() {
    let memory = Memory::new(
        Some(1504),
        Some(vec![(SectionType::Code, 0, 501), (SectionType::Data, 501, 1504)]),
    );
    assert_eq!(memory.get_range(SectionType::Code), vec![(0, 501)]);
    assert_eq!(memory.get_range(SectionType::Data), vec![(501, 1504)]);
}

#[test]
fn default_memory_is_empty_with_no_region() {
    let memory = Memory::default();
    assert!(memory.memory.is_empty());
    assert!(memory.regions.is_empty());
}
