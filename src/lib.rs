//! Runtime mutation of operators: the equality family, the registry of
//! mutations found while rewriting source, and the decision each rewritten
//! site makes at run time.
pub mod binop_eq;
pub mod registry;
pub mod runtime;
