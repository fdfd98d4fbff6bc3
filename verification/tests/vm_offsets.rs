use wasmer_runtime::vm::{
    Anyfunc, Ctx, ImportedFunc, ImportedGlobal, ImportedMemory, ImportedTable, LocalGlobal,
    LocalMemory, LocalTable,
};

fn word() -> usize {
    std::mem::size_of::<usize>()
}

#[test]
fn vmctx() {
    assert_eq!(Ctx::offset_memories() as usize, 0);
    assert_eq!(Ctx::offset_tables() as usize, word());
    assert_eq!(Ctx::offset_globals() as usize, 2 * word());
    assert_eq!(Ctx::offset_imported_memories() as usize, 3 * word());
    assert_eq!(Ctx::offset_imported_tables() as usize, 4 * word());
    assert_eq!(Ctx::offset_imported_globals() as usize, 5 * word());
    assert_eq!(Ctx::offset_imported_funcs() as usize, 6 * word());
}

#[test]
fn imported_func() {
    assert_eq!(ImportedFunc::offset_func() as usize, 0);
    assert_eq!(ImportedFunc::offset_vmctx() as usize, word());
}

#[test]
fn local_table() {
    assert_eq!(LocalTable::offset_base() as usize, 0);
    assert_eq!(LocalTable::offset_current_elements() as usize, word());
}

#[test]
fn imported_table() {
    assert_eq!(ImportedTable::offset_table() as usize, 0);
    assert_eq!(ImportedTable::offset_vmctx() as usize, word());
}

#[test]
fn local_memory() {
    assert_eq!(LocalMemory::offset_base() as usize, 0);
    assert_eq!(LocalMemory::offset_size() as usize, word());
}

#[test]
fn imported_memory() {
    assert_eq!(ImportedMemory::offset_memory() as usize, 0);
    assert_eq!(ImportedMemory::offset_vmctx() as usize, word());
}

#[test]
fn local_global() {
    assert_eq!(LocalGlobal::offset_data() as usize, 0);
}

#[test]
fn imported_global() {
    assert_eq!(ImportedGlobal::offset_global() as usize, 0);
}

#[test]
fn cc_anyfunc() {
    assert_eq!(Anyfunc::offset_func() as usize, 0);
    assert_eq!(Anyfunc::offset_vmctx() as usize, word());
    assert_eq!(Anyfunc::offset_sig_id() as usize, 2 * word());
}

#[test]
fn ctx_signature_slot_follows_imported_funcs() {
    assert_eq!(Ctx::offset_signatures() as usize, 7 * word());
    assert_eq!(
        Ctx::offset_signatures() - Ctx::offset_imported_funcs(),
        Ctx::offset_tables()
    );
}

#[test]
fn two_word_structures_are_two_words() {
    assert_eq!(ImportedFunc::size() as usize, 2 * word());
    assert_eq!(LocalTable::size() as usize, 2 * word());
    assert_eq!(ImportedTable::size() as usize, 2 * word());
    assert_eq!(LocalMemory::size() as usize, 2 * word());
    assert_eq!(ImportedMemory::size() as usize, 2 * word());
}

#[test]
fn one_field_structures() {
    assert_eq!(LocalGlobal::size() as usize, 8);
    assert_eq!(ImportedGlobal::size() as usize, word());
}

#[test]
fn anyfunc_size_pads_signature_to_word_alignment() {
    let expected = if word() == 8 { 24 } else { 12 };
    assert_eq!(Anyfunc::size() as usize, expected);
    assert_eq!(Anyfunc::size() as usize, 3 * word());
    assert!(Anyfunc::offset_sig_id() as usize + std::mem::size_of::<u32>() <= Anyfunc::size() as usize);
    assert_eq!(Anyfunc::offset_sig_id(), ImportedFunc::size());
}

#[test]
fn sizes_match_the_rust_structures() {
    assert_eq!(ImportedFunc::size() as usize, std::mem::size_of::<ImportedFunc>());
    assert_eq!(LocalTable::size() as usize, std::mem::size_of::<LocalTable>());
    assert_eq!(ImportedTable::size() as usize, std::mem::size_of::<ImportedTable>());
    assert_eq!(LocalMemory::size() as usize, std::mem::size_of::<LocalMemory>());
    assert_eq!(ImportedMemory::size() as usize, std::mem::size_of::<ImportedMemory>());
    assert_eq!(LocalGlobal::size() as usize, std::mem::size_of::<LocalGlobal>());
    assert_eq!(ImportedGlobal::size() as usize, std::mem::size_of::<ImportedGlobal>());
    assert_eq!(Anyfunc::size() as usize, std::mem::size_of::<Anyfunc>());
}

#[test]
fn owning_context_is_second_word_of_every_import() {
    assert_eq!(ImportedFunc::offset_vmctx(), ImportedTable::offset_vmctx());
    assert_eq!(ImportedTable::offset_vmctx(), ImportedMemory::offset_vmctx());
    assert_eq!(ImportedMemory::offset_vmctx(), Anyfunc::offset_vmctx());
}

#[test]
fn null_values() {
    let g = LocalGlobal::null();
    assert_eq!(g.data, 0);
    let f = Anyfunc::null();
    assert_eq!(f.func_data.func, 0);
    assert_eq!(f.func_data.vmctx, 0);
    assert_eq!(f.sig_id.0, u32::MAX);
}

#[test]
fn ctx_slots_are_one_word_apart() {
    let offsets = [
        Ctx::offset_memories(),
        Ctx::offset_tables(),
        Ctx::offset_globals(),
        Ctx::offset_imported_memories(),
        Ctx::offset_imported_tables(),
        Ctx::offset_imported_globals(),
        Ctx::offset_imported_funcs(),
        Ctx::offset_signatures(),
    ];
    for i in 1..offsets.len() {
        assert_eq!((offsets[i] - offsets[i - 1]) as usize, word());
    }
}
