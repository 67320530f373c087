//! Keeps a declarative configuration document and the persisted settings of a
//! media server in step: which store commands a document stands for, what an
//! amendment and an overwrite leave in the store, how the document is put
//! together again from what the store holds, and how the paths that a document
//! names are brought into the form of the platform.

pub mod document;
pub mod store;
pub mod sync;
pub mod paths;
