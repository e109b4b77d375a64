//! A typed dependency-injection registry: a store of values addressed by type
//! identity and instance code, shared cells around the stored values, the
//! protocol that assembles a type's input from the store, and the manager
//! that builds, registers and resolves. Beside them stand the rules by which
//! the attributes of a struct declare how it is built, and the laws that
//! hold of the registry as a whole.

pub mod cell;
pub mod contracts;
pub mod declaration;
pub mod key;
pub mod laws;
pub mod manager;
pub mod resolution;
pub mod store;
