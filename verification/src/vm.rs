//! The structures that generated code reads through the VM context, and the
//! byte offsets and sizes that code generators ask of them.
//!
//! In memory, the VM lays these structures out by the `repr(C)` rules, with a
//! word-sized pointer for each address (and for the optional finalizer of a
//! context). Each type's `layout_fields` gives the shapes of its fields in that
//! layout, and the offsets and sizes answered here are those of that layout.
//! The Rust structs below carry the same values, with addresses as `usize`,
//! but their own layout is whatever the compiler picks: `data_finalizer`, for
//! one, is an `Option<usize>`, wider than a word.
use vstd::prelude::*;
use vstd::layout::{size_of, align_of};
use vstd::arithmetic::div_mod::lemma_fundamental_div_mod_converse;
use crate::layout::{
    align_up,
    align_up_usize,
    field_offset,
    fields_end,
    lemma_align_up_aligned,
    lemma_single_field,
    lemma_two_words_u32_aligned,
    lemma_word_facts,
    lemma_word_fields_layout,
    lemma_word_struct_size,
    lemma_words_aligned,
    struct_align,
    struct_size,
    u32_shape,
    u64_shape,
    word_fields,
};

verus! {

/// Where an instance keeps what it defines itself: the base addresses of its
/// arrays of memories and tables, and of the VM-facing arrays of its
/// memories, tables and globals that compiled code reads.
#[derive(Debug)]
pub struct LocalBacking {
    /// Base address of the instance's memories.
    pub memories: usize,
    /// Base address of the instance's tables.
    pub tables: usize,
    /// Base address of the `LocalMemory` entries of its memories.
    pub vm_memories: usize,
    /// Base address of the `LocalTable` entries of its tables.
    pub vm_tables: usize,
    /// Base address of the `LocalGlobal` entries of its globals.
    pub vm_globals: usize,
}

/// Where an instance keeps what it imports: the base addresses of its arrays
/// of imported functions, memories, tables and globals.
#[derive(Debug)]
pub struct ImportBacking {
    /// Base address of the `ImportedFunc` entries.
    pub functions: usize,
    /// Base address of the `ImportedMemory` entries.
    pub memories: usize,
    /// Base address of the `ImportedTable` entries.
    pub tables: usize,
    /// Base address of the `ImportedGlobal` entries.
    pub globals: usize,
}

/// The VM context handed to every compiled function.
#[derive(Debug)]
pub struct Ctx {
    /// Address of the array of locally-defined memories, indexed by `MemoryIndex`.
    pub memories: usize,
    /// Address of the array of locally-defined tables, indexed by `TableIndex`.
    pub tables: usize,
    /// Address of the array of locally-defined globals, indexed by `GlobalIndex`.
    pub globals: usize,
    /// Address of the array of imported memories, indexed by `MemoryIndex`.
    pub imported_memories: usize,
    /// Address of the array of imported tables, indexed by `TableIndex`.
    pub imported_tables: usize,
    /// Address of the array of imported globals, indexed by `GlobalIndex`.
    pub imported_globals: usize,
    /// Address of the array of imported functions, indexed by `FuncIndex`.
    pub imported_funcs: usize,
    /// Address of the local backing of the instance that created this context.
    pub local_backing: usize,
    /// Address of the host data.
    pub data: usize,
    /// Address of the host data finalizer, if there is one.
    pub data_finalizer: Option<usize>,
}

impl Ctx {
    /// A context over the arrays of the given backings, with no host data and
    /// no finalizer. `local_backing_address` is where `local_backing` itself
    /// lives.
    pub fn new(
        local_backing: &LocalBacking,
        local_backing_address: usize,
        import_backing: &ImportBacking,
    ) -> (ctx: Self)
        ensures
            ctx.memories == local_backing.vm_memories,
            ctx.tables == local_backing.vm_tables,
            ctx.globals == local_backing.vm_globals,
            ctx.imported_memories == import_backing.memories,
            ctx.imported_tables == import_backing.tables,
            ctx.imported_globals == import_backing.globals,
            ctx.imported_funcs == import_backing.functions,
            ctx.local_backing == local_backing_address,
            ctx.data == 0,
            ctx.data_finalizer == None::<usize>,
            ctx == Ctx::over_backings(local_backing, local_backing_address, import_backing, 0, None),
    {
        Self {
            memories: local_backing.vm_memories,
            tables: local_backing.vm_tables,
            globals: local_backing.vm_globals,
            imported_memories: import_backing.memories,
            imported_tables: import_backing.tables,
            imported_globals: import_backing.globals,
            imported_funcs: import_backing.functions,
            local_backing: local_backing_address,
            data: 0,
            data_finalizer: None,
        }
    }

    /// A context over the arrays of the given backings that carries host
    /// data, with the finalizer to run on that data when the context goes
    /// away.
    pub fn new_with_data(
        local_backing: &LocalBacking,
        local_backing_address: usize,
        import_backing: &ImportBacking,
        data: usize,
        data_finalizer: Option<usize>,
    ) -> (ctx: Self)
        ensures
            ctx.memories == local_backing.vm_memories,
            ctx.tables == local_backing.vm_tables,
            ctx.globals == local_backing.vm_globals,
            ctx.imported_memories == import_backing.memories,
            ctx.imported_tables == import_backing.tables,
            ctx.imported_globals == import_backing.globals,
            ctx.imported_funcs == import_backing.functions,
            ctx.local_backing == local_backing_address,
            ctx.data == data,
            ctx.data_finalizer == data_finalizer,
            ctx == Ctx::over_backings(
                local_backing,
                local_backing_address,
                import_backing,
                data,
                data_finalizer,
            ),
    {
        Self {
            memories: local_backing.vm_memories,
            tables: local_backing.vm_tables,
            globals: local_backing.vm_globals,
            imported_memories: import_backing.memories,
            imported_tables: import_backing.tables,
            imported_globals: import_backing.globals,
            imported_funcs: import_backing.functions,
            local_backing: local_backing_address,
            data,
            data_finalizer,
        }
    }

    /// The context over the given backings: the instance's own memories,
    /// tables and globals are its VM-facing arrays, the imported ones those of
    /// the import backing.
    pub open spec fn over_backings(
        local_backing: &LocalBacking,
        local_backing_address: usize,
        import_backing: &ImportBacking,
        data: usize,
        data_finalizer: Option<usize>,
    ) -> Ctx {
        Ctx {
            memories: local_backing.vm_memories,
            tables: local_backing.vm_tables,
            globals: local_backing.vm_globals,
            imported_memories: import_backing.memories,
            imported_tables: import_backing.tables,
            imported_globals: import_backing.globals,
            imported_funcs: import_backing.functions,
            local_backing: local_backing_address,
            data,
            data_finalizer,
        }
    }

    /// What has to happen when the context goes away: the finalizer to call
    /// and the host data to call it on, if a finalizer was given.
    pub fn pending_finalizer(&self) -> (call: Option<(usize, usize)>)
        ensures
            call == (match self.data_finalizer {
                Some(finalizer) => Some((finalizer, self.data)),
                None => None,
            }),
    {
        match self.data_finalizer {
            Some(finalizer) => Some((finalizer, self.data)),
            None => None,
        }
    }

    /// Field shapes of the context in the VM's layout: ten word-sized fields,
    /// in declaration order (the optional finalizer is a nullable function
    /// pointer there, one word).
    pub open spec fn layout_fields() -> Seq<(nat, nat)> {
        word_fields(10)
    }

    /// Slot `i` of the context sits `i` words in.
    proof fn lemma_layout()
        ensures
            0 < size_of::<usize>() <= 8,
            forall|i: int|
                0 <= i < 10 ==> #[trigger] field_offset(Self::layout_fields(), i) == i
                    * size_of::<usize>(),
    {
        lemma_word_facts();
        lemma_word_fields_layout(10);
    }

    /// Offset of `memories`.
    pub fn offset_memories() -> (r: u8)
        ensures
            r == field_offset(Self::layout_fields(), 0),
            r == 0 * size_of::<usize>(),
    {
        proof {
            Self::lemma_layout();
        }
        0 * (std::mem::size_of::<usize>() as u8)
    }

    /// Offset of `tables`.
    pub fn offset_tables() -> (r: u8)
        ensures
            r == field_offset(Self::layout_fields(), 1),
            r == 1 * size_of::<usize>(),
    {
        proof {
            Self::lemma_layout();
        }
        1 * (std::mem::size_of::<usize>() as u8)
    }

    /// Offset of `globals`.
    pub fn offset_globals() -> (r: u8)
        ensures
            r == field_offset(Self::layout_fields(), 2),
            r == 2 * size_of::<usize>(),
    {
        proof {
            Self::lemma_layout();
        }
        2 * (std::mem::size_of::<usize>() as u8)
    }

    /// Offset of `imported_memories`.
    pub fn offset_imported_memories() -> (r: u8)
        ensures
            r == field_offset(Self::layout_fields(), 3),
            r == 3 * size_of::<usize>(),
    {
        proof {
            Self::lemma_layout();
        }
        3 * (std::mem::size_of::<usize>() as u8)
    }

    /// Offset of `imported_tables`.
    pub fn offset_imported_tables() -> (r: u8)
        ensures
            r == field_offset(Self::layout_fields(), 4),
            r == 4 * size_of::<usize>(),
    {
        proof {
            Self::lemma_layout();
        }
        4 * (std::mem::size_of::<usize>() as u8)
    }

    /// Offset of `imported_globals`.
    pub fn offset_imported_globals() -> (r: u8)
        ensures
            r == field_offset(Self::layout_fields(), 5),
            r == 5 * size_of::<usize>(),
    {
        proof {
            Self::lemma_layout();
        }
        5 * (std::mem::size_of::<usize>() as u8)
    }

    /// Offset of `imported_funcs`.
    pub fn offset_imported_funcs() -> (r: u8)
        ensures
            r == field_offset(Self::layout_fields(), 6),
            r == 6 * size_of::<usize>(),
    {
        proof {
            Self::lemma_layout();
        }
        6 * (std::mem::size_of::<usize>() as u8)
    }

    /// Offset of the slot that follows `imported_funcs`.
    pub fn offset_signatures() -> (r: u8)
        ensures
            r == field_offset(Self::layout_fields(), 7),
            r == 7 * size_of::<usize>(),
    {
        proof {
            Self::lemma_layout();
        }
        7 * (std::mem::size_of::<usize>() as u8)
    }
}

/// Stands for the code of a function. Only its address is ever handled: the
/// field is private and nothing in the library makes a value of this type.
pub struct Func {
    _code: (),
}

/// An imported function, with the context that owns it.
#[derive(Debug, Clone)]
pub struct ImportedFunc {
    /// Address of the function's code.
    pub func: usize,
    /// Address of the context that owns the function.
    pub vmctx: usize,
}

impl ImportedFunc {
    /// Field shapes: `func` and `vmctx`, two addresses.
    pub open spec fn layout_fields() -> Seq<(nat, nat)> {
        word_fields(2)
    }

    /// Where the two fields of an `ImportedFunc` land, and how large it is, in words.
    proof fn lemma_layout()
        ensures
            0 < size_of::<usize>() <= 8,
            field_offset(Self::layout_fields(), 0) == 0,
            field_offset(Self::layout_fields(), 1) == size_of::<usize>(),
            struct_size(Self::layout_fields()) == 2 * size_of::<usize>(),
    {
        lemma_word_facts();
        lemma_word_fields_layout(2);
        lemma_word_struct_size(2);
    }

    /// Offset of `func`.
    pub fn offset_func() -> (r: u8)
        ensures
            r == field_offset(Self::layout_fields(), 0),
            r == 0 * size_of::<usize>(),
    {
        proof {
            Self::lemma_layout();
        }
        0 * (std::mem::size_of::<usize>() as u8)
    }

    /// Offset of `vmctx`.
    pub fn offset_vmctx() -> (r: u8)
        ensures
            r == field_offset(Self::layout_fields(), 1),
            r == 1 * size_of::<usize>(),
    {
        proof {
            Self::lemma_layout();
        }
        1 * (std::mem::size_of::<usize>() as u8)
    }

    /// Size of the structure in the VM's layout.
    pub fn size() -> (r: u8)
        ensures
            r == struct_size(Self::layout_fields()),
            r == 2 * size_of::<usize>(),
    {
        proof {
            Self::lemma_layout();
        }
        (2 * std::mem::size_of::<usize>()) as u8
    }
}

/// A table defined by the instance.
#[derive(Debug, Clone)]
pub struct LocalTable {
    /// Address of the elements of the table.
    pub base: usize,
    /// Number of elements in the table (not necessarily its size in bytes).
    pub current_elements: usize,
}

impl LocalTable {
    /// Field shapes: `base`, an address, and `current_elements`, a `usize`.
    pub open spec fn layout_fields() -> Seq<(nat, nat)> {
        word_fields(2)
    }

    /// Where the two fields of a `LocalTable` land, and how large it is, in words.
    proof fn lemma_layout()
        ensures
            0 < size_of::<usize>() <= 8,
            field_offset(Self::layout_fields(), 0) == 0,
            field_offset(Self::layout_fields(), 1) == size_of::<usize>(),
            struct_size(Self::layout_fields()) == 2 * size_of::<usize>(),
    {
        lemma_word_facts();
        lemma_word_fields_layout(2);
        lemma_word_struct_size(2);
    }

    /// Offset of `base`.
    pub fn offset_base() -> (r: u8)
        ensures
            r == field_offset(Self::layout_fields(), 0),
            r == 0 * size_of::<usize>(),
    {
        proof {
            Self::lemma_layout();
        }
        0 * (std::mem::size_of::<usize>() as u8)
    }

    /// Offset of `current_elements`.
    pub fn offset_current_elements() -> (r: u8)
        ensures
            r == field_offset(Self::layout_fields(), 1),
            r == 1 * size_of::<usize>(),
    {
        proof {
            Self::lemma_layout();
        }
        1 * (std::mem::size_of::<usize>() as u8)
    }

    /// Size of the structure in the VM's layout.
    pub fn size() -> (r: u8)
        ensures
            r == struct_size(Self::layout_fields()),
            r == 2 * size_of::<usize>(),
    {
        proof {
            Self::lemma_layout();
        }
        (2 * std::mem::size_of::<usize>()) as u8
    }
}

/// A table imported from another instance.
#[derive(Debug, Clone)]
pub struct ImportedTable {
    /// Address of the table definition.
    pub table: usize,
    /// Address of the context that owns the table definition.
    pub vmctx: usize,
}

impl ImportedTable {
    /// Field shapes: `table` and `vmctx`, two addresses.
    pub open spec fn layout_fields() -> Seq<(nat, nat)> {
        word_fields(2)
    }

    /// Where the two fields of an `ImportedTable` land, and how large it is, in words.
    proof fn lemma_layout()
        ensures
            0 < size_of::<usize>() <= 8,
            field_offset(Self::layout_fields(), 0) == 0,
            field_offset(Self::layout_fields(), 1) == size_of::<usize>(),
            struct_size(Self::layout_fields()) == 2 * size_of::<usize>(),
    {
        lemma_word_facts();
        lemma_word_fields_layout(2);
        lemma_word_struct_size(2);
    }

    /// Offset of `table`.
    pub fn offset_table() -> (r: u8)
        ensures
            r == field_offset(Self::layout_fields(), 0),
            r == 0 * size_of::<usize>(),
    {
        proof {
            Self::lemma_layout();
        }
        0 * (std::mem::size_of::<usize>() as u8)
    }

    /// Offset of `vmctx`.
    pub fn offset_vmctx() -> (r: u8)
        ensures
            r == field_offset(Self::layout_fields(), 1),
            r == 1 * size_of::<usize>(),
    {
        proof {
            Self::lemma_layout();
        }
        1 * (std::mem::size_of::<usize>() as u8)
    }

    /// Size of the structure in the VM's layout.
    pub fn size() -> (r: u8)
        ensures
            r == struct_size(Self::layout_fields()),
            r == 2 * size_of::<usize>(),
    {
        proof {
            Self::lemma_layout();
        }
        (2 * std::mem::size_of::<usize>()) as u8
    }
}

/// A linear memory defined by the instance.
#[derive(Debug, Clone)]
pub struct LocalMemory {
    /// Address of the bottom of the linear memory.
    pub base: usize,
    /// Current size of the linear memory in bytes.
    pub size: usize,
}

impl LocalMemory {
    /// Field shapes: `base`, an address, and `size`, a `usize`.
    pub open spec fn layout_fields() -> Seq<(nat, nat)> {
        word_fields(2)
    }

    /// Where the two fields of a `LocalMemory` land, and how large it is, in words.
    proof fn lemma_layout()
        ensures
            0 < size_of::<usize>() <= 8,
            field_offset(Self::layout_fields(), 0) == 0,
            field_offset(Self::layout_fields(), 1) == size_of::<usize>(),
            struct_size(Self::layout_fields()) == 2 * size_of::<usize>(),
    {
        lemma_word_facts();
        lemma_word_fields_layout(2);
        lemma_word_struct_size(2);
    }

    /// Offset of `base`.
    pub fn offset_base() -> (r: u8)
        ensures
            r == field_offset(Self::layout_fields(), 0),
            r == 0 * size_of::<usize>(),
    {
        proof {
            Self::lemma_layout();
        }
        0 * (std::mem::size_of::<usize>() as u8)
    }

    /// Offset of `size`.
    pub fn offset_size() -> (r: u8)
        ensures
            r == field_offset(Self::layout_fields(), 1),
            r == 1 * size_of::<usize>(),
    {
        proof {
            Self::lemma_layout();
        }
        1 * (std::mem::size_of::<usize>() as u8)
    }

    /// Size of the structure in the VM's layout.
    pub fn size() -> (r: u8)
        ensures
            r == struct_size(Self::layout_fields()),
            r == 2 * size_of::<usize>(),
    {
        proof {
            Self::lemma_layout();
        }
        (2 * std::mem::size_of::<usize>()) as u8
    }
}

/// A linear memory imported from another instance.
#[derive(Debug, Clone)]
pub struct ImportedMemory {
    /// Address of the memory definition.
    pub memory: usize,
    /// Address of the context that owns the memory definition.
    pub vmctx: usize,
}

impl ImportedMemory {
    /// Field shapes: `memory` and `vmctx`, two addresses.
    pub open spec fn layout_fields() -> Seq<(nat, nat)> {
        word_fields(2)
    }

    /// Where the two fields of an `ImportedMemory` land, and how large it is, in words.
    proof fn lemma_layout()
        ensures
            0 < size_of::<usize>() <= 8,
            field_offset(Self::layout_fields(), 0) == 0,
            field_offset(Self::layout_fields(), 1) == size_of::<usize>(),
            struct_size(Self::layout_fields()) == 2 * size_of::<usize>(),
    {
        lemma_word_facts();
        lemma_word_fields_layout(2);
        lemma_word_struct_size(2);
    }

    /// Offset of `memory`.
    pub fn offset_memory() -> (r: u8)
        ensures
            r == field_offset(Self::layout_fields(), 0),
            r == 0 * size_of::<usize>(),
    {
        proof {
            Self::lemma_layout();
        }
        0 * (std::mem::size_of::<usize>() as u8)
    }

    /// Offset of `vmctx`.
    pub fn offset_vmctx() -> (r: u8)
        ensures
            r == field_offset(Self::layout_fields(), 1),
            r == 1 * size_of::<usize>(),
    {
        proof {
            Self::lemma_layout();
        }
        1 * (std::mem::size_of::<usize>() as u8)
    }

    /// Size of the structure in the VM's layout.
    pub fn size() -> (r: u8)
        ensures
            r == struct_size(Self::layout_fields()),
            r == 2 * size_of::<usize>(),
    {
        proof {
            Self::lemma_layout();
        }
        (2 * std::mem::size_of::<usize>()) as u8
    }
}

/// A global defined by the instance.
#[derive(Debug, Clone)]
pub struct LocalGlobal {
    /// The global's value, as raw bits.
    pub data: u64,
}

impl LocalGlobal {
    /// Field shapes: `data`, a `u64`.
    pub open spec fn layout_fields() -> Seq<(nat, nat)> {
        seq![u64_shape()]
    }

    /// `data` starts a `LocalGlobal`, which is exactly as large as a `u64`.
    proof fn lemma_layout()
        ensures
            0 < size_of::<usize>() <= 8,
            size_of::<u64>() == 8,
            field_offset(Self::layout_fields(), 0) == 0,
            struct_size(Self::layout_fields()) == size_of::<u64>(),
    {
        lemma_word_facts();
        lemma_single_field(u64_shape());
    }

    /// Offset of `data`.
    pub fn offset_data() -> (r: u8)
        ensures
            r == field_offset(Self::layout_fields(), 0),
            r == 0 * size_of::<usize>(),
    {
        proof {
            Self::lemma_layout();
        }
        0 * (std::mem::size_of::<usize>() as u8)
    }

    /// A global whose bits are all zero.
    pub fn null() -> (g: Self)
        ensures
            g.data == 0,
    {
        Self { data: 0 }
    }

    /// Size of the structure in the VM's layout.
    pub fn size() -> (r: u8)
        ensures
            r == struct_size(Self::layout_fields()),
            r == size_of::<u64>(),
    {
        proof {
            Self::lemma_layout();
        }
        std::mem::size_of::<u64>() as u8
    }
}

/// A global imported from another instance.
#[derive(Debug, Clone)]
pub struct ImportedGlobal {
    /// Address of the global definition.
    pub global: usize,
}

impl ImportedGlobal {
    /// Field shapes: `global`, one address.
    pub open spec fn layout_fields() -> Seq<(nat, nat)> {
        word_fields(1)
    }

    /// `global` starts an `ImportedGlobal`, which is exactly one word.
    proof fn lemma_layout()
        ensures
            0 < size_of::<usize>() <= 8,
            field_offset(Self::layout_fields(), 0) == 0,
            struct_size(Self::layout_fields()) == size_of::<usize>(),
    {
        lemma_word_facts();
        lemma_word_fields_layout(1);
        lemma_word_struct_size(1);
    }

    /// Offset of `global`.
    pub fn offset_global() -> (r: u8)
        ensures
            r == field_offset(Self::layout_fields(), 0),
            r == 0 * size_of::<usize>(),
    {
        proof {
            Self::lemma_layout();
        }
        0 * (std::mem::size_of::<usize>() as u8)
    }

    /// Size of the structure in the VM's layout.
    pub fn size() -> (r: u8)
        ensures
            r == struct_size(Self::layout_fields()),
            r == size_of::<usize>(),
    {
        proof {
            Self::lemma_layout();
        }
        std::mem::size_of::<usize>() as u8
    }
}

/// Identifier of a function signature.
#[derive(Debug, Clone, Copy)]
pub struct SigId(pub u32);

/// A function reference that callers check against its signature before
/// calling it.
#[derive(Debug, Clone)]
pub struct Anyfunc {
    /// The function and the context that owns it.
    pub func_data: ImportedFunc,
    /// The function's signature.
    pub sig_id: SigId,
}

impl Anyfunc {
    /// Field shapes: `func_data`, shaped as a whole `ImportedFunc`, then
    /// `sig_id`, a `u32`.
    pub open spec fn layout_fields() -> Seq<(nat, nat)> {
        seq![
            (struct_size(ImportedFunc::layout_fields()), struct_align(ImportedFunc::layout_fields())),
            u32_shape(),
        ]
    }

    /// A reference to no function: null addresses and the largest signature id.
    pub fn null() -> (f: Self)
        ensures
            f.func_data.func == 0,
            f.func_data.vmctx == 0,
            f.sig_id.0 == u32::MAX,
    {
        Self { func_data: ImportedFunc { func: 0, vmctx: 0 }, sig_id: SigId(u32::MAX) }
    }

    /// Offset of `func_data.func`.
    pub fn offset_func() -> (r: u8)
        ensures
            r == field_offset(Self::layout_fields(), 0) + field_offset(
                ImportedFunc::layout_fields(),
                0,
            ),
            r == 0 * size_of::<usize>(),
    {
        proof {
            Self::lemma_layout();
        }
        0 * (std::mem::size_of::<usize>() as u8)
    }

    /// Offset of `func_data.vmctx`.
    pub fn offset_vmctx() -> (r: u8)
        ensures
            r == field_offset(Self::layout_fields(), 0) + field_offset(
                ImportedFunc::layout_fields(),
                1,
            ),
            r == 1 * size_of::<usize>(),
    {
        proof {
            Self::lemma_layout();
        }
        1 * (std::mem::size_of::<usize>() as u8)
    }

    /// Offset of `sig_id`.
    pub fn offset_sig_id() -> (r: u8)
        ensures
            r == field_offset(Self::layout_fields(), 1),
            r == 2 * size_of::<usize>(),
    {
        proof {
            Self::lemma_layout();
        }
        2 * (std::mem::size_of::<usize>() as u8)
    }

    /// Size of the structure in the VM's layout: the two words of `func_data`
    /// and the four bytes of `sig_id`, padded to the struct's alignment.
    pub fn size() -> (r: u8)
        ensures
            r == struct_size(Self::layout_fields()),
            2 * size_of::<usize>() + 4 <= r,
            align_of::<usize>() == size_of::<usize>() ==> r == 3 * size_of::<usize>(),
            size_of::<usize>() == 4 ==> r == 3 * size_of::<usize>(),
    {
        proof {
            Self::lemma_layout();
            if align_of::<usize>() == size_of::<usize>() || size_of::<usize>() == 4 {
                anyfunc_size_is_three_words();
            }
        }
        let word = std::mem::size_of::<usize>();
        let word_align = std::mem::align_of::<usize>();
        let sig_align = std::mem::align_of::<u32>();
        let align = if word_align >= sig_align {
            word_align
        } else {
            sig_align
        };
        align_up_usize(2 * word + std::mem::size_of::<u32>(), align) as u8
    }

    /// Where each field of an `Anyfunc` lands, in terms of the machine word.
    proof fn lemma_layout()
        ensures
            field_offset(Self::layout_fields(), 0) == 0,
            field_offset(ImportedFunc::layout_fields(), 0) == 0,
            field_offset(ImportedFunc::layout_fields(), 1) == size_of::<usize>(),
            field_offset(Self::layout_fields(), 1) == 2 * size_of::<usize>(),
            fields_end(Self::layout_fields()) == 2 * size_of::<usize>() + 4,
            struct_align(Self::layout_fields()) == (if align_of::<usize>() >= align_of::<u32>() {
                align_of::<usize>()
            } else {
                align_of::<u32>()
            }),
            struct_size(Self::layout_fields()) < 256,
            fields_end(Self::layout_fields()) <= struct_size(Self::layout_fields()),
            0 < size_of::<usize>() <= 8,
            0 < align_of::<usize>() <= 8,
            0 < align_of::<u32>() <= 4,
            size_of::<u32>() == 4,
    {
        lemma_word_facts();
        lemma_word_fields_layout(2);
        lemma_word_struct_size(2);
        lemma_two_words_u32_aligned();
        let fields = Self::layout_fields();
        let head = fields[0];
        assert(head == (2 * size_of::<usize>(), align_of::<usize>()));
        lemma_align_up_aligned(0, align_of::<usize>());
        lemma_align_up_aligned(2 * size_of::<usize>(), align_of::<u32>());
        assert(fields.take(0) =~= Seq::<(nat, nat)>::empty());
        assert(fields.take(1) =~= seq![head]);
        assert(fields.drop_last() =~= seq![head]);
        lemma_words_aligned(2);
        lemma_single_field(head);
        let m = struct_align(fields);
        let end = fields_end(fields);
        assert(end <= align_up(end, m) <= end + m - 1) by (nonlinear_arith)
            requires
                m > 0,
                align_up(end, m) == (((end + m - 1) as nat) / m) * m,
        ;
    }
}

/// The context's slots follow one another a word apart, with no padding
/// between them, so slot `i` sits `i` words from the start.
pub proof fn ctx_slots_are_consecutive_words()
    ensures
        forall|i: int|
            0 <= i < 10 ==> #[trigger] field_offset(Ctx::layout_fields(), i) == i * size_of::<
                usize,
            >(),
        forall|i: int|
            0 <= i < 9 ==> field_offset(Ctx::layout_fields(), i + 1) == #[trigger] field_offset(
                Ctx::layout_fields(),
                i,
            ) + size_of::<usize>(),
        struct_size(Ctx::layout_fields()) == 10 * size_of::<usize>(),
{
    lemma_word_fields_layout(10);
    lemma_word_struct_size(10);
    assert forall|i: int| 0 <= i < 9 implies field_offset(Ctx::layout_fields(), i + 1)
        == #[trigger] field_offset(Ctx::layout_fields(), i) + size_of::<usize>() by {
        assert(field_offset(Ctx::layout_fields(), i + 1) == (i + 1) * size_of::<usize>());
        assert((i + 1) * size_of::<usize>() == i * size_of::<usize>() + size_of::<usize>())
            by (nonlinear_arith);
    }
}

/// An `Anyfunc` starts with a whole `ImportedFunc`: its function and context
/// addresses sit where they sit in an `ImportedFunc`, and its signature id
/// comes right after the `ImportedFunc`.
pub proof fn anyfunc_begins_with_imported_func()
    ensures
        field_offset(Anyfunc::layout_fields(), 0) + field_offset(ImportedFunc::layout_fields(), 0)
            == field_offset(ImportedFunc::layout_fields(), 0),
        field_offset(Anyfunc::layout_fields(), 0) + field_offset(ImportedFunc::layout_fields(), 1)
            == field_offset(ImportedFunc::layout_fields(), 1),
        field_offset(Anyfunc::layout_fields(), 1) == struct_size(ImportedFunc::layout_fields()),
{
    Anyfunc::lemma_layout();
    lemma_word_struct_size(2);
}

/// Every import record keeps the address of the context that owns the
/// imported item in its second word, and starts with the item's own address.
pub proof fn owning_context_sits_one_word_in()
    ensures
        field_offset(ImportedFunc::layout_fields(), 1) == size_of::<usize>(),
        field_offset(ImportedTable::layout_fields(), 1) == size_of::<usize>(),
        field_offset(ImportedMemory::layout_fields(), 1) == size_of::<usize>(),
        field_offset(Anyfunc::layout_fields(), 0) + field_offset(ImportedFunc::layout_fields(), 1)
            == size_of::<usize>(),
        field_offset(ImportedFunc::layout_fields(), 0) == 0,
        field_offset(ImportedTable::layout_fields(), 0) == 0,
        field_offset(ImportedMemory::layout_fields(), 0) == 0,
        field_offset(ImportedGlobal::layout_fields(), 0) == 0,
{
    lemma_word_facts();
    lemma_word_fields_layout(2);
    lemma_word_fields_layout(1);
    Anyfunc::lemma_layout();
}

/// Where a word is aligned to its own size (as on the usual 32- and 64-bit
/// targets), and wherever a word is four bytes, an `Anyfunc` takes exactly
/// three words: its two words of `func_data`, then `sig_id` padded out to a
/// whole word.
pub proof fn anyfunc_size_is_three_words()
    requires
        align_of::<usize>() == size_of::<usize>() || size_of::<usize>() == 4,
    ensures
        struct_size(Anyfunc::layout_fields()) == 3 * size_of::<usize>(),
{
    Anyfunc::lemma_layout();
    lemma_word_facts();
    let s = size_of::<usize>();
    let m = struct_align(Anyfunc::layout_fields());
    let end = fields_end(Anyfunc::layout_fields());
    assert(end == 2 * s + 4);
    if align_of::<usize>() == s {
        assert(m == s);
        lemma_fundamental_div_mod_converse((end + m - 1) as int, m as int, 3, 3);
    } else {
        assert(s == 4);
        let a = align_of::<usize>();
        let b = align_of::<u32>();
        if a == 3 {
            assert(4nat % 3nat == 1);
        }
        if b == 3 {
            assert(4nat % 3nat == 1);
        }
        assert(m == 1 || m == 2 || m == 4);
        assert(12nat % 1nat == 0 && 12nat % 2nat == 0 && 12nat % 4nat == 0);
        lemma_align_up_aligned(end, m);
    }
}

/// A context points at its backings' arrays, each in its own slot: the
/// instance's VM-facing memories, tables and globals, the imported memories,
/// tables, globals and functions, and the local backing itself, whole
/// addresses all. Host data and a finalizer change none of these: a context
/// built with them points where one built without them does, and carries
/// exactly the data and finalizer it was given.
pub proof fn context_slots_come_from_backings(
    local_backing: LocalBacking,
    local_backing_address: usize,
    import_backing: ImportBacking,
    data: usize,
    data_finalizer: Option<usize>,
    plain: Ctx,
    with_data: Ctx,
)
    requires
        call_ensures(Ctx::new, (&local_backing, local_backing_address, &import_backing), plain),
        call_ensures(
            Ctx::new_with_data,
            (&local_backing, local_backing_address, &import_backing, data, data_finalizer),
            with_data,
        ),
    ensures
        plain.memories == local_backing.vm_memories,
        plain.tables == local_backing.vm_tables,
        plain.globals == local_backing.vm_globals,
        plain.imported_memories == import_backing.memories,
        plain.imported_tables == import_backing.tables,
        plain.imported_globals == import_backing.globals,
        plain.imported_funcs == import_backing.functions,
        plain.local_backing == local_backing_address,
        plain.data == 0,
        plain.data_finalizer is None,
        with_data.memories == plain.memories,
        with_data.tables == plain.tables,
        with_data.globals == plain.globals,
        with_data.imported_memories == plain.imported_memories,
        with_data.imported_tables == plain.imported_tables,
        with_data.imported_globals == plain.imported_globals,
        with_data.imported_funcs == plain.imported_funcs,
        with_data.local_backing == plain.local_backing,
        with_data.data == data,
        with_data.data_finalizer == data_finalizer,
{
}

} // verus!
