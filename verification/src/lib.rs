//! A small Lisp interpreter built around an explicit-control register
//! machine: tagged pointers into fixed-capacity memory pools, an atom
//! interner, a cons area, chained binding environments, an explicit
//! evaluation stack, a reader for the surface syntax, a graph builder and
//! a printer.

pub mod parser;
pub mod printer;
pub mod vm;
