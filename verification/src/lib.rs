//! A small verified engine for deterministic finite automatons over streams
//! of symbols.
//!
//! Two concrete automatons are provided: a text-statistics scanner that
//! counts words, lines and decimal numbers in a character stream
//! ([`text_table`]), and a byte-level counter for the bytes strictly inside
//! `/* ... */` block comments ([`comment_table`]). A third, tiny machine
//! ([`pipeline`]) walks a record through a processing pipeline one event at
//! a time.
//!
//! Each automaton is driven under three interchangeable dispatch
//! strategies: an exhaustive match over a closed state tag (`*_tagged`),
//! dispatch through a shared per-state capability trait (`*_dynamic`), and
//! a typestate encoding where the state is part of the machine value's type
//! (`*_typestate`). The [`driver`] module holds the strategy-independent
//! [`driver::Machine`] interface and the scan loop, [`incremental`] keeps a
//! machine alive across chunks of input, and [`equivalence`] proves that
//! the three strategies produce identical accumulator values on every
//! input.

pub mod comment_dynamic;
pub mod comment_table;
pub mod comment_tagged;
pub mod comment_typestate;
pub mod driver;
pub mod equivalence;
pub mod incremental;
pub mod pipeline;
pub mod text_dynamic;
pub mod text_table;
pub mod text_tagged;
pub mod text_typestate;
