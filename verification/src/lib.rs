//! Layout descriptions of the structures that compiled WebAssembly code reads
//! through the VM context, and the bookkeeping done after a linear memory
//! grows.
pub mod layout;
pub mod vm;
pub mod vmcalls;
