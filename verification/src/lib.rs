//! The runtime half of the Axiom compiler's Windows x86-64 back end: the
//! assembly text of its freestanding runtime library, with contracts that
//! pin every emitted line and laws that tie the sections together.

pub mod decimal;
pub mod listing;
pub mod runtime;
pub mod laws;
pub mod linkage;
pub mod text_laws;
