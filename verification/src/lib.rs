//! Construction of the x86 global descriptor table: bit-exact encoding of
//! segment descriptors, the fixed five-entry table, the six-byte table
//! pointer, and the one-shot initialization step that produces them.

pub mod boot;
pub mod descriptor;
pub mod pointer;
pub mod table;

pub use boot::{init, BootContext, InitError, LoadRequest};
pub use descriptor::GDTDescriptor;
pub use pointer::GDT;
pub use table::GDTable;
