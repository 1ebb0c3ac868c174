//! Cache-line padding for single fields: what there is to decide about it,
//! with proofs.
//!
//! Two fields that lie on one cache line slow each other down as soon as two
//! threads write them, though they have nothing else in common. A field is
//! kept apart by a wrapper that is aligned to the line size and so padded to
//! whole lines, while the other fields of the struct stay as they are.
//!
//! This crate holds the rules of such wrappers. Every function has a contract
//! that Verus proves of it:
//!
//! * [`alignment`] has the alignments there are, and the room that a value
//!   takes at one of them;
//! * [`resolve`] decides which line size is taken for a target: the one that
//!   the operating system reports, the one that is documented for the CPU
//!   architecture, or a fallback;
//! * [`arch`], [`hermetic`] and [`alignas`] have the wrappers. Each owns a
//!   value, hands it back unchanged, lets it be read and written in place and
//!   names the alignment that it stands for.
//!
//! The layout itself is the compiler's work and no contract here speaks of
//! addresses: a wrapper says which alignment it is to have, and the struct
//! that pads a field in memory has a `repr(align)` of that number.

pub mod alignas;
pub mod alignment;
pub mod arch;
pub mod hermetic;
pub mod prelude;
pub mod resolve;
