//! The wrapper for a field that is to have cache lines of its own, with the
//! line size that is documented for the CPU architecture of the target.

use crate::alignment::Alignment;
use crate::resolve::{resolve, Mode, Target, FALLBACK};
use vstd::prelude::*;

verus! {

/// Owns one value that is to be padded to the line size of the target's
/// architecture.
///
/// The line size is the one that the architecture table documents; for an
/// architecture that the table does not list it is the fallback.
/// [`ArchPadding::alignment`] gives it. The wrapper adds nothing to the value
/// and hides nothing of it: it is read and written through the wrapper as if
/// it stood there alone.
#[derive(Copy, Debug, Hash, PartialEq, Eq, Structural)]
pub struct ArchPadding<T> {
    value: T,
}

impl<T> View for ArchPadding<T> {
    type V = T;

    /// The value that the wrapper owns.
    closed spec fn view(&self) -> T {
        self.value
    }
}

impl<T> ArchPadding<T> {
    /// The wrapper that owns `t`.
    pub closed spec fn spec_new(t: T) -> Self {
        ArchPadding { value: t }
    }

    /// The value that the wrapper owns.
    pub open spec fn spec_into_inner(self) -> T {
        self@
    }

    /// The alignment of the wrapper in a build for `target`.
    pub open spec fn spec_alignment(target: Target) -> Alignment {
        resolve(Mode::Architecture, target)
    }

    /// Wraps `t`.
    #[verifier::when_used_as_spec(spec_new)]
    pub fn new(t: T) -> (padded: ArchPadding<T>)
        ensures
            padded == Self::spec_new(t),
            padded@ == t,
    {
        ArchPadding::<T> { value: t }
    }

    /// Returns the inner value.
    #[verifier::when_used_as_spec(spec_into_inner)]
    pub fn into_inner(self) -> (t: T)
        ensures
            t == self@,
    {
        self.value
    }

    /// The alignment of the wrapper in a build for `target`: the documented
    /// line size of the architecture, or the fallback where the table has
    /// none. It is the same for every wrapped type and every value.
    #[verifier::when_used_as_spec(spec_alignment)]
    pub fn alignment(target: Target) -> (alignment: Alignment)
        ensures
            alignment == resolve(Mode::Architecture, target),
    {
        resolve(Mode::Architecture, target)
    }

    /// Unwrapping what was wrapped gives the value back.
    pub proof fn lemma_round_trip(t: T)
        ensures
            Self::new(t).into_inner() == t,
    {
    }

    /// A wrapper is nothing but its value: two that own equal values are equal.
    pub proof fn lemma_value_determines_wrapper(self, other: Self)
        requires
            self@ == other@,
        ensures
            self == other,
    {
    }

    /// Wrapping the value of a wrapper again gives the wrapper back.
    pub proof fn lemma_rewrap(self)
        ensures
            Self::new(self.into_inner()) == self,
    {
    }

    /// The value that comes out when `t` is wrapped and unwrapped `n` times
    /// over.
    pub open spec fn cycled(t: T, n: nat) -> T
        decreases n,
    {
        if n == 0 {
            t
        } else {
            Self::new(Self::cycled(t, (n - 1) as nat)).into_inner()
        }
    }

    /// Wrapping and unwrapping, however often, changes neither the value nor
    /// the alignment: the alignment is what the target gives, before and
    /// after.
    pub proof fn lemma_cycles_change_nothing(t: T, n: nat, target: Target)
        ensures
            Self::cycled(t, n) == t,
            Self::new(Self::cycled(t, n)) == Self::new(t),
            Self::alignment(target) == resolve(Mode::Architecture, target),
        decreases n,
    {
        if n > 0 {
            Self::lemma_cycles_change_nothing(t, (n - 1) as nat, target);
        }
    }

    /// On an architecture that the table lists, the alignment is the line
    /// size that the table documents for it; on any other it is 128 bytes.
    pub proof fn lemma_alignment_is_by_table(target: Target)
        ensures
            target.documented matches Some(documented) ==> Self::alignment(target) == documented,
            target.documented is None ==> Self::alignment(target) == FALLBACK
                && Self::alignment(target).spec_bytes() == 128,
    {
    }
}

impl<T: Clone> Clone for ArchPadding<T> {
    /// Wraps a clone of the value.
    fn clone(&self) -> (padded: Self)
        ensures
            call_ensures(T::clone, (&self@,), padded@),
    {
        ArchPadding { value: self.value.clone() }
    }
}

impl<T: Default> Default for ArchPadding<T> {
    /// Wraps the default value of `T`.
    fn default() -> (padded: Self)
        ensures
            call_ensures(T::default, (), padded@),
    {
        ArchPadding { value: T::default() }
    }
}

impl<T> core::ops::Deref for ArchPadding<T> {
    type Target = T;

    /// Reads the value through the wrapper.
    fn deref(&self) -> (t: &T)
        ensures
            *t == self@,
    {
        &self.value
    }
}

impl<T> core::ops::DerefMut for ArchPadding<T> {
    /// Lends the value for writing: what is written through the reference is
    /// what the wrapper owns afterwards.
    fn deref_mut(&mut self) -> (t: &mut T)
        ensures
            *t == old(self)@,
            final(self)@ == *final(t),
    {
        &mut self.value
    }
}

impl<T> From<T> for ArchPadding<T> {
    /// Wraps `t`, as [`ArchPadding::new`] does.
    fn from(t: T) -> (padded: Self)
        ensures
            padded@ == t,
    {
        ArchPadding::new(t)
    }
}

impl<T> vstd::std_specs::convert::FromSpecImpl<T> for ArchPadding<T> {
    open spec fn obeys_from_spec() -> bool {
        true
    }

    open spec fn from_spec(t: T) -> Self {
        Self::spec_new(t)
    }
}

} // verus!
