use wasmer_runtime::vm::LocalMemory;
use wasmer_runtime::vmcalls::{memory_grow_dynamic, memory_grow_static, PAGE_SIZE};

fn memories(sizes: &[usize]) -> Vec<LocalMemory> {
    sizes
        .iter()
        .enumerate()
        .map(|(i, &size)| LocalMemory { base: 0x1000 * (i + 1), size })
        .collect()
}

#[test]
fn successful_grow_stores_new_size_and_returns_old_pages() {
    let mut m = memories(&[2 * PAGE_SIZE]);
    let result = memory_grow_static(&mut m, 0, Some(2), 3);
    assert_eq!(result, 2);
    assert_eq!(m[0].size, 5 * 65536);
    assert_eq!(m[0].base, 0x1000);
}

#[test]
fn refused_grow_returns_minus_one_and_keeps_memory() {
    let mut m = memories(&[7 * PAGE_SIZE]);
    let result = memory_grow_static(&mut m, 0, None, 3);
    assert_eq!(result, -1);
    assert_eq!(m[0].size, 7 * PAGE_SIZE);
    assert_eq!(m[0].base, 0x1000);
}

#[test]
fn grow_by_zero_pages_keeps_size() {
    let mut m = memories(&[4 * PAGE_SIZE]);
    let result = memory_grow_static(&mut m, 0, Some(4), 0);
    assert_eq!(result, 4);
    assert_eq!(m[0].size, 4 * PAGE_SIZE);
}

#[test]
fn grow_from_empty_memory() {
    let mut m = memories(&[0]);
    let result = memory_grow_static(&mut m, 0, Some(0), 1);
    assert_eq!(result, 0);
    assert_eq!(m[0].size, 65536);
}

#[test]
fn grown_size_uses_reported_pages_not_stored_size() {
    let mut m = memories(&[123]);
    let result = memory_grow_static(&mut m, 0, Some(10), 6);
    assert_eq!(result, 10);
    assert_eq!(m[0].size, 16 * 65536);
}

#[test]
fn only_the_indexed_entry_changes() {
    let mut m = memories(&[PAGE_SIZE, 2 * PAGE_SIZE, 3 * PAGE_SIZE]);
    assert_eq!(memory_grow_static(&mut m, 1, Some(2), 5), 2);
    assert_eq!(m.len(), 3);
    assert_eq!(m[0].size, PAGE_SIZE);
    assert_eq!(m[1].size, 7 * PAGE_SIZE);
    assert_eq!(m[1].base, 0x2000);
    assert_eq!(m[2].size, 3 * PAGE_SIZE);
    assert_eq!(memory_grow_dynamic(&mut m, 2, Some(3), 1), 3);
    assert_eq!(m[0].size, PAGE_SIZE);
    assert_eq!(m[1].size, 7 * PAGE_SIZE);
    assert_eq!(m[2].size, 4 * PAGE_SIZE);
}

#[test]
fn page_size_is_sixty_four_kibibytes() {
    assert_eq!(PAGE_SIZE, 65536);
}

#[test]
fn dynamic_grow_records_like_static_grow() {
    let mut a = memories(&[PAGE_SIZE]);
    let mut b = memories(&[PAGE_SIZE]);
    assert_eq!(
        memory_grow_dynamic(&mut a, 0, Some(1), 2),
        memory_grow_static(&mut b, 0, Some(1), 2)
    );
    assert_eq!(a[0].size, 3 * 65536);
    assert_eq!(a[0].size, b[0].size);
    assert_eq!(memory_grow_dynamic(&mut a, 0, None, 2), -1);
    assert_eq!(a[0].size, 3 * 65536);
}

#[test]
fn grown_size_is_a_whole_number_of_pages() {
    let mut m = memories(&[12345]);
    assert_eq!(memory_grow_static(&mut m, 0, Some(3), 4), 3);
    assert_eq!(m[0].size % PAGE_SIZE, 0);
    assert_eq!(m[0].size / PAGE_SIZE, 7);
}
