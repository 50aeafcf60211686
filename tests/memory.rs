use yace::memory::{Memory, MEMORY_SIZE};

#[test]
fn memory_starts_zeroed() {
    let memory = Memory::default();
    assert_eq!(memory.read(0), 0);
    assert_eq!(memory.read(MEMORY_SIZE - 1), 0);
}

#[test]
fn slices_round_trip() {
    let mut memory = Memory::new();
    memory.write_slice(0x300, 0x304, &[1, 2, 3, 4]);
    assert_eq!(memory.read_slice(0x2FF, 0x305), vec![0, 1, 2, 3, 4, 0]);
    memory.write(0x301, 9);
    assert_eq!(memory.read(0x301), 9);
    memory.clear();
    assert_eq!(memory.read_slice(0x300, 0x304), vec![0, 0, 0, 0]);
}
