use wasmer_runtime::vm::{Ctx, ImportBacking, LocalBacking};

fn local_backing() -> LocalBacking {
    LocalBacking {
        memories: 0x100,
        tables: 0x200,
        vm_memories: 0x10,
        vm_tables: 0x20,
        vm_globals: 0x30,
    }
}

fn import_backing() -> ImportBacking {
    ImportBacking {
        functions: 0x70,
        memories: 0x40,
        tables: 0x50,
        globals: 0x60,
    }
}

#[test]
fn new_context_points_at_backing_arrays_without_host_data() {
    let ctx = Ctx::new(&local_backing(), 0x80, &import_backing());
    assert_eq!(ctx.memories, 0x10);
    assert_eq!(ctx.tables, 0x20);
    assert_eq!(ctx.globals, 0x30);
    assert_eq!(ctx.imported_memories, 0x40);
    assert_eq!(ctx.imported_tables, 0x50);
    assert_eq!(ctx.imported_globals, 0x60);
    assert_eq!(ctx.imported_funcs, 0x70);
    assert_eq!(ctx.local_backing, 0x80);
    assert_eq!(ctx.data, 0);
    assert_eq!(ctx.data_finalizer, None);
    assert_eq!(ctx.pending_finalizer(), None);
}

#[test]
fn finalizer_is_due_on_host_data() {
    let ctx = Ctx::new_with_data(&local_backing(), 0x80, &import_backing(), 0xdead, Some(0xbeef));
    assert_eq!(ctx.data, 0xdead);
    assert_eq!(ctx.data_finalizer, Some(0xbeef));
    assert_eq!(ctx.pending_finalizer(), Some((0xbeef, 0xdead)));
    assert_eq!(ctx.memories, 0x10);
    assert_eq!(ctx.imported_funcs, 0x70);
    assert_eq!(ctx.local_backing, 0x80);
}

#[test]
fn host_data_without_finalizer_is_left_alone() {
    let ctx = Ctx::new_with_data(&local_backing(), 0x80, &import_backing(), 0xdead, None);
    assert_eq!(ctx.data, 0xdead);
    assert_eq!(ctx.pending_finalizer(), None);
}
