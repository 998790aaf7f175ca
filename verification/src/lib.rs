//! Representation and canonical textual rendering for the three tree forms of
//! a Scheme-to-x86-64 compiler: the closure-converted high-level form
//! ([`scheme::Scheme`]), the register-allocation form ([`expr::Expr`]) and
//! the concrete assembly form ([`assembly::Asm`]).
//!
//! Rendering is a pure function of the input tree: every serializer's output
//! is pinned, byte for byte, by a specification function over the tree.
//! Binding lists, conflict graphs and name sets are ordered vectors, and
//! their order is part of the output contract, so the same tree always
//! renders to the same bytes.

pub mod text;
pub mod assembly;
pub mod expr;
pub mod scheme;
