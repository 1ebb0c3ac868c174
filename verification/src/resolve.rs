//! How the alignment of a cache-line wrapper is decided for a build.
//!
//! Two sources say how long a coherence line of the target machine is: the
//! table of documented line sizes by CPU architecture, and the operating
//! system's report of the cache geometry. Neither is consulted here. What they
//! said stands in a [`Target`], and [`resolve`] decides on it: the report
//! first, where the mode asks for it, then the table, then the fallback.

use crate::alignment::Alignment;
use vstd::prelude::*;

verus! {

/// The alignment taken where nothing is known of the target: 128 bytes, a
/// multiple of every shorter line, so that it is safe rather than small.
pub const FALLBACK: Alignment = Alignment::A128;

/// The way in which an alignment is resolved.
#[derive(Clone, Copy, Debug, Hash, PartialEq, Eq, Structural)]
pub enum Mode {
    /// By the CPU architecture alone.
    Architecture,
    /// By what the operating system reports, and by the CPU architecture
    /// where it reports nothing.
    Hermetic,
}

/// What a build knows of the line size of the machine it is made for.
#[derive(Clone, Copy, Debug, Hash, PartialEq, Eq, Structural)]
pub struct Target {
    /// The line size that the architecture table documents, or `None` where
    /// the architecture is not in the table.
    pub documented: Option<Alignment>,
    /// The line size that the operating system reports, or `None` where it has
    /// no such facility or the facility is not supported.
    pub reported: Option<Alignment>,
}

/// The alignment by the architecture table: the documented line size, and
/// the fallback for an architecture that the table does not list.
pub open spec fn by_architecture(target: Target) -> Alignment {
    match target.documented {
        Some(documented) => documented,
        None => FALLBACK,
    }
}

/// The alignment that a mode gives on a target.
pub open spec fn spec_resolve(mode: Mode, target: Target) -> Alignment {
    match (mode, target.reported) {
        (Mode::Hermetic, Some(reported)) => reported,
        _ => by_architecture(target),
    }
}

/// Decides the alignment for a target.
///
/// In the hermetic mode a reported line size is taken as it is. In every other
/// case the documented line size of the architecture is taken, and the
/// fallback where there is none. There is no failure: every target has an
/// alignment.
#[verifier::when_used_as_spec(spec_resolve)]
pub fn resolve(mode: Mode, target: Target) -> (alignment: Alignment)
    ensures
        alignment == spec_resolve(mode, target),
{
    match (mode, target.reported) {
        (Mode::Hermetic, Some(reported)) => reported,
        _ => match target.documented {
            Some(documented) => documented,
            None => FALLBACK,
        },
    }
}

/// By architecture, a listed architecture gets its documented line size and
/// an unlisted one gets 128 bytes, whatever the operating system reports.
pub proof fn lemma_architecture_mode(target: Target)
    ensures
        target.documented matches Some(documented) ==> resolve(Mode::Architecture, target)
            == documented,
        target.documented is None ==> resolve(Mode::Architecture, target).spec_bytes() == 128,
        resolve(Mode::Architecture, target) == by_architecture(target),
{
}

/// Hermetically, a reported line size is the alignment, and without a report
/// the alignment is the one that the architecture mode gives on that target.
pub proof fn lemma_hermetic_mode(target: Target)
    ensures
        target.reported matches Some(reported) ==> resolve(Mode::Hermetic, target) == reported,
        target.reported is None ==> resolve(Mode::Hermetic, target) == resolve(
            Mode::Architecture,
            target,
        ),
{
}

/// The architecture mode never looks at the report: two targets with the same
/// table entry get the same alignment.
pub proof fn lemma_architecture_ignores_report(target: Target, other: Target)
    requires
        target.documented == other.documented,
    ensures
        resolve(Mode::Architecture, target) == resolve(Mode::Architecture, other),
{
}

/// The fallback is aligned for every line of up to 128 bytes: what is aligned
/// to it is aligned to each of them.
pub proof fn lemma_fallback_covers_shorter_lines(line: Alignment, n: nat)
    requires
        line.spec_bytes() <= 128,
        FALLBACK.divides(n),
    ensures
        line.divides(n),
{
    FALLBACK.lemma_aligned_to_larger_is_aligned_to_smaller(line, n);
}

} // verus!
