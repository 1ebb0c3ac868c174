//! The wrappers for a field that is to have an alignment of the caller's
//! choice.
//!
//! There is one type for each power of two from 2 to 32768 bytes. The number
//! in the name is the alignment: nothing about the target is looked at, so a
//! caller who knows the line size gets it on every machine.

use crate::alignment::Alignment;
use vstd::prelude::*;

verus! {

/// Owns one value that is to be aligned to 2 bytes.
#[derive(Debug)]
pub struct AlignAs2<T> {
    value: T,
}

impl<T> View for AlignAs2<T> {
    type V = T;

    /// The value that the wrapper owns.
    closed spec fn view(&self) -> T {
        self.value
    }
}

impl<T> AlignAs2<T> {
    /// The wrapper that owns `t`.
    pub closed spec fn spec_new(t: T) -> Self {
        AlignAs2 { value: t }
    }

    /// The value that the wrapper owns.
    pub open spec fn spec_into_inner(self) -> T {
        self@
    }

    /// The alignment of the wrapper: 2 bytes.
    pub open spec fn spec_alignment() -> Alignment {
        Alignment::A2
    }

    /// Wraps `t` for an alignment of 2 bytes.
    #[verifier::when_used_as_spec(spec_new)]
    pub fn new(t: T) -> (aligned: AlignAs2<T>)
        ensures
            aligned == Self::spec_new(t),
            aligned@ == t,
    {
        AlignAs2::<T> { value: t }
    }

    /// Returns the inner value.
    #[verifier::when_used_as_spec(spec_into_inner)]
    pub fn into_inner(self) -> (t: T)
        ensures
            t == self@,
    {
        self.value
    }

    /// The alignment of the wrapper: 2 bytes, whatever it wraps and on
    /// every target.
    #[verifier::when_used_as_spec(spec_alignment)]
    pub fn alignment() -> (alignment: Alignment)
        ensures
            alignment == Alignment::A2,
            alignment.spec_bytes() == 2,
    {
        Alignment::A2
    }

    /// Unwrapping what was wrapped gives the value back.
    pub proof fn lemma_round_trip(t: T)
        ensures
            Self::new(t).into_inner() == t,
    {
    }

    /// A wrapper is nothing but its value: two that own equal values are equal.
    pub proof fn lemma_value_determines_wrapper(self, other: Self)
        requires
            self@ == other@,
        ensures
            self == other,
    {
    }

    /// Wrapping the value of a wrapper again gives the wrapper back.
    pub proof fn lemma_rewrap(self)
        ensures
            Self::new(self.into_inner()) == self,
    {
    }
}

impl<T> core::ops::Deref for AlignAs2<T> {
    type Target = T;

    /// Reads the value through the wrapper.
    fn deref(&self) -> (t: &T)
        ensures
            *t == self@,
    {
        &self.value
    }
}

impl<T> core::ops::DerefMut for AlignAs2<T> {
    /// Lends the value for writing: what is written through the reference is
    /// what the wrapper owns afterwards.
    fn deref_mut(&mut self) -> (t: &mut T)
        ensures
            *t == old(self)@,
            final(self)@ == *final(t),
    {
        &mut self.value
    }
}

impl<T> From<T> for AlignAs2<T> {
    /// Wraps `t` for an alignment of 2 bytes, as [`AlignAs2::new`] does.
    fn from(t: T) -> (aligned: Self)
        ensures
            aligned@ == t,
    {
        AlignAs2::new(t)
    }
}

impl<T> vstd::std_specs::convert::FromSpecImpl<T> for AlignAs2<T> {
    open spec fn obeys_from_spec() -> bool {
        true
    }

    open spec fn from_spec(t: T) -> Self {
        Self::spec_new(t)
    }
}

/// Owns one value that is to be aligned to 4 bytes.
#[derive(Debug)]
pub struct AlignAs4<T> {
    value: T,
}

impl<T> View for AlignAs4<T> {
    type V = T;

    /// The value that the wrapper owns.
    closed spec fn view(&self) -> T {
        self.value
    }
}

impl<T> AlignAs4<T> {
    /// The wrapper that owns `t`.
    pub closed spec fn spec_new(t: T) -> Self {
        AlignAs4 { value: t }
    }

    /// The value that the wrapper owns.
    pub open spec fn spec_into_inner(self) -> T {
        self@
    }

    /// The alignment of the wrapper: 4 bytes.
    pub open spec fn spec_alignment() -> Alignment {
        Alignment::A4
    }

    /// Wraps `t` for an alignment of 4 bytes.
    #[verifier::when_used_as_spec(spec_new)]
    pub fn new(t: T) -> (aligned: AlignAs4<T>)
        ensures
            aligned == Self::spec_new(t),
            aligned@ == t,
    {
        AlignAs4::<T> { value: t }
    }

    /// Returns the inner value.
    #[verifier::when_used_as_spec(spec_into_inner)]
    pub fn into_inner(self) -> (t: T)
        ensures
            t == self@,
    {
        self.value
    }

    /// The alignment of the wrapper: 4 bytes, whatever it wraps and on
    /// every target.
    #[verifier::when_used_as_spec(spec_alignment)]
    pub fn alignment() -> (alignment: Alignment)
        ensures
            alignment == Alignment::A4,
            alignment.spec_bytes() == 4,
    {
        Alignment::A4
    }

    /// Unwrapping what was wrapped gives the value back.
    pub proof fn lemma_round_trip(t: T)
        ensures
            Self::new(t).into_inner() == t,
    {
    }

    /// A wrapper is nothing but its value: two that own equal values are equal.
    pub proof fn lemma_value_determines_wrapper(self, other: Self)
        requires
            self@ == other@,
        ensures
            self == other,
    {
    }

    /// Wrapping the value of a wrapper again gives the wrapper back.
    pub proof fn lemma_rewrap(self)
        ensures
            Self::new(self.into_inner()) == self,
    {
    }
}

impl<T> core::ops::Deref for AlignAs4<T> {
    type Target = T;

    /// Reads the value through the wrapper.
    fn deref(&self) -> (t: &T)
        ensures
            *t == self@,
    {
        &self.value
    }
}

impl<T> core::ops::DerefMut for AlignAs4<T> {
    /// Lends the value for writing: what is written through the reference is
    /// what the wrapper owns afterwards.
    fn deref_mut(&mut self) -> (t: &mut T)
        ensures
            *t == old(self)@,
            final(self)@ == *final(t),
    {
        &mut self.value
    }
}

impl<T> From<T> for AlignAs4<T> {
    /// Wraps `t` for an alignment of 4 bytes, as [`AlignAs4::new`] does.
    fn from(t: T) -> (aligned: Self)
        ensures
            aligned@ == t,
    {
        AlignAs4::new(t)
    }
}

impl<T> vstd::std_specs::convert::FromSpecImpl<T> for AlignAs4<T> {
    open spec fn obeys_from_spec() -> bool {
        true
    }

    open spec fn from_spec(t: T) -> Self {
        Self::spec_new(t)
    }
}

/// Owns one value that is to be aligned to 8 bytes.
#[derive(Debug)]
pub struct AlignAs8<T> {
    value: T,
}

impl<T> View for AlignAs8<T> {
    type V = T;

    /// The value that the wrapper owns.
    closed spec fn view(&self) -> T {
        self.value
    }
}

impl<T> AlignAs8<T> {
    /// The wrapper that owns `t`.
    pub closed spec fn spec_new(t: T) -> Self {
        AlignAs8 { value: t }
    }

    /// The value that the wrapper owns.
    pub open spec fn spec_into_inner(self) -> T {
        self@
    }

    /// The alignment of the wrapper: 8 bytes.
    pub open spec fn spec_alignment() -> Alignment {
        Alignment::A8
    }

    /// Wraps `t` for an alignment of 8 bytes.
    #[verifier::when_used_as_spec(spec_new)]
    pub fn new(t: T) -> (aligned: AlignAs8<T>)
        ensures
            aligned == Self::spec_new(t),
            aligned@ == t,
    {
        AlignAs8::<T> { value: t }
    }

    /// Returns the inner value.
    #[verifier::when_used_as_spec(spec_into_inner)]
    pub fn into_inner(self) -> (t: T)
        ensures
            t == self@,
    {
        self.value
    }

    /// The alignment of the wrapper: 8 bytes, whatever it wraps and on
    /// every target.
    #[verifier::when_used_as_spec(spec_alignment)]
    pub fn alignment() -> (alignment: Alignment)
        ensures
            alignment == Alignment::A8,
            alignment.spec_bytes() == 8,
    {
        Alignment::A8
    }

    /// Unwrapping what was wrapped gives the value back.
    pub proof fn lemma_round_trip(t: T)
        ensures
            Self::new(t).into_inner() == t,
    {
    }

    /// A wrapper is nothing but its value: two that own equal values are equal.
    pub proof fn lemma_value_determines_wrapper(self, other: Self)
        requires
            self@ == other@,
        ensures
            self == other,
    {
    }

    /// Wrapping the value of a wrapper again gives the wrapper back.
    pub proof fn lemma_rewrap(self)
        ensures
            Self::new(self.into_inner()) == self,
    {
    }
}

impl<T> core::ops::Deref for AlignAs8<T> {
    type Target = T;

    /// Reads the value through the wrapper.
    fn deref(&self) -> (t: &T)
        ensures
            *t == self@,
    {
        &self.value
    }
}

impl<T> core::ops::DerefMut for AlignAs8<T> {
    /// Lends the value for writing: what is written through the reference is
    /// what the wrapper owns afterwards.
    fn deref_mut(&mut self) -> (t: &mut T)
        ensures
            *t == old(self)@,
            final(self)@ == *final(t),
    {
        &mut self.value
    }
}

impl<T> From<T> for AlignAs8<T> {
    /// Wraps `t` for an alignment of 8 bytes, as [`AlignAs8::new`] does.
    fn from(t: T) -> (aligned: Self)
        ensures
            aligned@ == t,
    {
        AlignAs8::new(t)
    }
}

impl<T> vstd::std_specs::convert::FromSpecImpl<T> for AlignAs8<T> {
    open spec fn obeys_from_spec() -> bool {
        true
    }

    open spec fn from_spec(t: T) -> Self {
        Self::spec_new(t)
    }
}

/// Owns one value that is to be aligned to 16 bytes.
#[derive(Debug)]
pub struct AlignAs16<T> {
    value: T,
}

impl<T> View for AlignAs16<T> {
    type V = T;

    /// The value that the wrapper owns.
    closed spec fn view(&self) -> T {
        self.value
    }
}

impl<T> AlignAs16<T> {
    /// The wrapper that owns `t`.
    pub closed spec fn spec_new(t: T) -> Self {
        AlignAs16 { value: t }
    }

    /// The value that the wrapper owns.
    pub open spec fn spec_into_inner(self) -> T {
        self@
    }

    /// The alignment of the wrapper: 16 bytes.
    pub open spec fn spec_alignment() -> Alignment {
        Alignment::A16
    }

    /// Wraps `t` for an alignment of 16 bytes.
    #[verifier::when_used_as_spec(spec_new)]
    pub fn new(t: T) -> (aligned: AlignAs16<T>)
        ensures
            aligned == Self::spec_new(t),
            aligned@ == t,
    {
        AlignAs16::<T> { value: t }
    }

    /// Returns the inner value.
    #[verifier::when_used_as_spec(spec_into_inner)]
    pub fn into_inner(self) -> (t: T)
        ensures
            t == self@,
    {
        self.value
    }

    /// The alignment of the wrapper: 16 bytes, whatever it wraps and on
    /// every target.
    #[verifier::when_used_as_spec(spec_alignment)]
    pub fn alignment() -> (alignment: Alignment)
        ensures
            alignment == Alignment::A16,
            alignment.spec_bytes() == 16,
    {
        Alignment::A16
    }

    /// Unwrapping what was wrapped gives the value back.
    pub proof fn lemma_round_trip(t: T)
        ensures
            Self::new(t).into_inner() == t,
    {
    }

    /// A wrapper is nothing but its value: two that own equal values are equal.
    pub proof fn lemma_value_determines_wrapper(self, other: Self)
        requires
            self@ == other@,
        ensures
            self == other,
    {
    }

    /// Wrapping the value of a wrapper again gives the wrapper back.
    pub proof fn lemma_rewrap(self)
        ensures
            Self::new(self.into_inner()) == self,
    {
    }
}

impl<T> core::ops::Deref for AlignAs16<T> {
    type Target = T;

    /// Reads the value through the wrapper.
    fn deref(&self) -> (t: &T)
        ensures
            *t == self@,
    {
        &self.value
    }
}

impl<T> core::ops::DerefMut for AlignAs16<T> {
    /// Lends the value for writing: what is written through the reference is
    /// what the wrapper owns afterwards.
    fn deref_mut(&mut self) -> (t: &mut T)
        ensures
            *t == old(self)@,
            final(self)@ == *final(t),
    {
        &mut self.value
    }
}

impl<T> From<T> for AlignAs16<T> {
    /// Wraps `t` for an alignment of 16 bytes, as [`AlignAs16::new`] does.
    fn from(t: T) -> (aligned: Self)
        ensures
            aligned@ == t,
    {
        AlignAs16::new(t)
    }
}

impl<T> vstd::std_specs::convert::FromSpecImpl<T> for AlignAs16<T> {
    open spec fn obeys_from_spec() -> bool {
        true
    }

    open spec fn from_spec(t: T) -> Self {
        Self::spec_new(t)
    }
}

/// Owns one value that is to be aligned to 32 bytes.
#[derive(Debug)]
pub struct AlignAs32<T> {
    value: T,
}

impl<T> View for AlignAs32<T> {
    type V = T;

    /// The value that the wrapper owns.
    closed spec fn view(&self) -> T {
        self.value
    }
}

impl<T> AlignAs32<T> {
    /// The wrapper that owns `t`.
    pub closed spec fn spec_new(t: T) -> Self {
        AlignAs32 { value: t }
    }

    /// The value that the wrapper owns.
    pub open spec fn spec_into_inner(self) -> T {
        self@
    }

    /// The alignment of the wrapper: 32 bytes.
    pub open spec fn spec_alignment() -> Alignment {
        Alignment::A32
    }

    /// Wraps `t` for an alignment of 32 bytes.
    #[verifier::when_used_as_spec(spec_new)]
    pub fn new(t: T) -> (aligned: AlignAs32<T>)
        ensures
            aligned == Self::spec_new(t),
            aligned@ == t,
    {
        AlignAs32::<T> { value: t }
    }

    /// Returns the inner value.
    #[verifier::when_used_as_spec(spec_into_inner)]
    pub fn into_inner(self) -> (t: T)
        ensures
            t == self@,
    {
        self.value
    }

    /// The alignment of the wrapper: 32 bytes, whatever it wraps and on
    /// every target.
    #[verifier::when_used_as_spec(spec_alignment)]
    pub fn alignment() -> (alignment: Alignment)
        ensures
            alignment == Alignment::A32,
            alignment.spec_bytes() == 32,
    {
        Alignment::A32
    }

    /// Unwrapping what was wrapped gives the value back.
    pub proof fn lemma_round_trip(t: T)
        ensures
            Self::new(t).into_inner() == t,
    {
    }

    /// A wrapper is nothing but its value: two that own equal values are equal.
    pub proof fn lemma_value_determines_wrapper(self, other: Self)
        requires
            self@ == other@,
        ensures
            self == other,
    {
    }

    /// Wrapping the value of a wrapper again gives the wrapper back.
    pub proof fn lemma_rewrap(self)
        ensures
            Self::new(self.into_inner()) == self,
    {
    }
}

impl<T> core::ops::Deref for AlignAs32<T> {
    type Target = T;

    /// Reads the value through the wrapper.
    fn deref(&self) -> (t: &T)
        ensures
            *t == self@,
    {
        &self.value
    }
}

impl<T> core::ops::DerefMut for AlignAs32<T> {
    /// Lends the value for writing: what is written through the reference is
    /// what the wrapper owns afterwards.
    fn deref_mut(&mut self) -> (t: &mut T)
        ensures
            *t == old(self)@,
            final(self)@ == *final(t),
    {
        &mut self.value
    }
}

impl<T> From<T> for AlignAs32<T> {
    /// Wraps `t` for an alignment of 32 bytes, as [`AlignAs32::new`] does.
    fn from(t: T) -> (aligned: Self)
        ensures
            aligned@ == t,
    {
        AlignAs32::new(t)
    }
}

impl<T> vstd::std_specs::convert::FromSpecImpl<T> for AlignAs32<T> {
    open spec fn obeys_from_spec() -> bool {
        true
    }

    open spec fn from_spec(t: T) -> Self {
        Self::spec_new(t)
    }
}

/// Owns one value that is to be aligned to 64 bytes.
#[derive(Debug)]
pub struct AlignAs64<T> {
    value: T,
}

impl<T> View for AlignAs64<T> {
    type V = T;

    /// The value that the wrapper owns.
    closed spec fn view(&self) -> T {
        self.value
    }
}

impl<T> AlignAs64<T> {
    /// The wrapper that owns `t`.
    pub closed spec fn spec_new(t: T) -> Self {
        AlignAs64 { value: t }
    }

    /// The value that the wrapper owns.
    pub open spec fn spec_into_inner(self) -> T {
        self@
    }

    /// The alignment of the wrapper: 64 bytes.
    pub open spec fn spec_alignment() -> Alignment {
        Alignment::A64
    }

    /// Wraps `t` for an alignment of 64 bytes.
    #[verifier::when_used_as_spec(spec_new)]
    pub fn new(t: T) -> (aligned: AlignAs64<T>)
        ensures
            aligned == Self::spec_new(t),
            aligned@ == t,
    {
        AlignAs64::<T> { value: t }
    }

    /// Returns the inner value.
    #[verifier::when_used_as_spec(spec_into_inner)]
    pub fn into_inner(self) -> (t: T)
        ensures
            t == self@,
    {
        self.value
    }

    /// The alignment of the wrapper: 64 bytes, whatever it wraps and on
    /// every target.
    #[verifier::when_used_as_spec(spec_alignment)]
    pub fn alignment() -> (alignment: Alignment)
        ensures
            alignment == Alignment::A64,
            alignment.spec_bytes() == 64,
    {
        Alignment::A64
    }

    /// Unwrapping what was wrapped gives the value back.
    pub proof fn lemma_round_trip(t: T)
        ensures
            Self::new(t).into_inner() == t,
    {
    }

    /// A wrapper is nothing but its value: two that own equal values are equal.
    pub proof fn lemma_value_determines_wrapper(self, other: Self)
        requires
            self@ == other@,
        ensures
            self == other,
    {
    }

    /// Wrapping the value of a wrapper again gives the wrapper back.
    pub proof fn lemma_rewrap(self)
        ensures
            Self::new(self.into_inner()) == self,
    {
    }
}

impl<T> core::ops::Deref for AlignAs64<T> {
    type Target = T;

    /// Reads the value through the wrapper.
    fn deref(&self) -> (t: &T)
        ensures
            *t == self@,
    {
        &self.value
    }
}

impl<T> core::ops::DerefMut for AlignAs64<T> {
    /// Lends the value for writing: what is written through the reference is
    /// what the wrapper owns afterwards.
    fn deref_mut(&mut self) -> (t: &mut T)
        ensures
            *t == old(self)@,
            final(self)@ == *final(t),
    {
        &mut self.value
    }
}

impl<T> From<T> for AlignAs64<T> {
    /// Wraps `t` for an alignment of 64 bytes, as [`AlignAs64::new`] does.
    fn from(t: T) -> (aligned: Self)
        ensures
            aligned@ == t,
    {
        AlignAs64::new(t)
    }
}

impl<T> vstd::std_specs::convert::FromSpecImpl<T> for AlignAs64<T> {
    open spec fn obeys_from_spec() -> bool {
        true
    }

    open spec fn from_spec(t: T) -> Self {
        Self::spec_new(t)
    }
}

/// Owns one value that is to be aligned to 128 bytes.
#[derive(Debug)]
pub struct AlignAs128<T> {
    value: T,
}

impl<T> View for AlignAs128<T> {
    type V = T;

    /// The value that the wrapper owns.
    closed spec fn view(&self) -> T {
        self.value
    }
}

impl<T> AlignAs128<T> {
    /// The wrapper that owns `t`.
    pub closed spec fn spec_new(t: T) -> Self {
        AlignAs128 { value: t }
    }

    /// The value that the wrapper owns.
    pub open spec fn spec_into_inner(self) -> T {
        self@
    }

    /// The alignment of the wrapper: 128 bytes.
    pub open spec fn spec_alignment() -> Alignment {
        Alignment::A128
    }

    /// Wraps `t` for an alignment of 128 bytes.
    #[verifier::when_used_as_spec(spec_new)]
    pub fn new(t: T) -> (aligned: AlignAs128<T>)
        ensures
            aligned == Self::spec_new(t),
            aligned@ == t,
    {
        AlignAs128::<T> { value: t }
    }

    /// Returns the inner value.
    #[verifier::when_used_as_spec(spec_into_inner)]
    pub fn into_inner(self) -> (t: T)
        ensures
            t == self@,
    {
        self.value
    }

    /// The alignment of the wrapper: 128 bytes, whatever it wraps and on
    /// every target.
    #[verifier::when_used_as_spec(spec_alignment)]
    pub fn alignment() -> (alignment: Alignment)
        ensures
            alignment == Alignment::A128,
            alignment.spec_bytes() == 128,
    {
        Alignment::A128
    }

    /// Unwrapping what was wrapped gives the value back.
    pub proof fn lemma_round_trip(t: T)
        ensures
            Self::new(t).into_inner() == t,
    {
    }

    /// A wrapper is nothing but its value: two that own equal values are equal.
    pub proof fn lemma_value_determines_wrapper(self, other: Self)
        requires
            self@ == other@,
        ensures
            self == other,
    {
    }

    /// Wrapping the value of a wrapper again gives the wrapper back.
    pub proof fn lemma_rewrap(self)
        ensures
            Self::new(self.into_inner()) == self,
    {
    }
}

impl<T> core::ops::Deref for AlignAs128<T> {
    type Target = T;

    /// Reads the value through the wrapper.
    fn deref(&self) -> (t: &T)
        ensures
            *t == self@,
    {
        &self.value
    }
}

impl<T> core::ops::DerefMut for AlignAs128<T> {
    /// Lends the value for writing: what is written through the reference is
    /// what the wrapper owns afterwards.
    fn deref_mut(&mut self) -> (t: &mut T)
        ensures
            *t == old(self)@,
            final(self)@ == *final(t),
    {
        &mut self.value
    }
}

impl<T> From<T> for AlignAs128<T> {
    /// Wraps `t` for an alignment of 128 bytes, as [`AlignAs128::new`] does.
    fn from(t: T) -> (aligned: Self)
        ensures
            aligned@ == t,
    {
        AlignAs128::new(t)
    }
}

impl<T> vstd::std_specs::convert::FromSpecImpl<T> for AlignAs128<T> {
    open spec fn obeys_from_spec() -> bool {
        true
    }

    open spec fn from_spec(t: T) -> Self {
        Self::spec_new(t)
    }
}

/// Owns one value that is to be aligned to 256 bytes.
#[derive(Debug)]
pub struct AlignAs256<T> {
    value: T,
}

impl<T> View for AlignAs256<T> {
    type V = T;

    /// The value that the wrapper owns.
    closed spec fn view(&self) -> T {
        self.value
    }
}

impl<T> AlignAs256<T> {
    /// The wrapper that owns `t`.
    pub closed spec fn spec_new(t: T) -> Self {
        AlignAs256 { value: t }
    }

    /// The value that the wrapper owns.
    pub open spec fn spec_into_inner(self) -> T {
        self@
    }

    /// The alignment of the wrapper: 256 bytes.
    pub open spec fn spec_alignment() -> Alignment {
        Alignment::A256
    }

    /// Wraps `t` for an alignment of 256 bytes.
    #[verifier::when_used_as_spec(spec_new)]
    pub fn new(t: T) -> (aligned: AlignAs256<T>)
        ensures
            aligned == Self::spec_new(t),
            aligned@ == t,
    {
        AlignAs256::<T> { value: t }
    }

    /// Returns the inner value.
    #[verifier::when_used_as_spec(spec_into_inner)]
    pub fn into_inner(self) -> (t: T)
        ensures
            t == self@,
    {
        self.value
    }

    /// The alignment of the wrapper: 256 bytes, whatever it wraps and on
    /// every target.
    #[verifier::when_used_as_spec(spec_alignment)]
    pub fn alignment() -> (alignment: Alignment)
        ensures
            alignment == Alignment::A256,
            alignment.spec_bytes() == 256,
    {
        Alignment::A256
    }

    /// Unwrapping what was wrapped gives the value back.
    pub proof fn lemma_round_trip(t: T)
        ensures
            Self::new(t).into_inner() == t,
    {
    }

    /// A wrapper is nothing but its value: two that own equal values are equal.
    pub proof fn lemma_value_determines_wrapper(self, other: Self)
        requires
            self@ == other@,
        ensures
            self == other,
    {
    }

    /// Wrapping the value of a wrapper again gives the wrapper back.
    pub proof fn lemma_rewrap(self)
        ensures
            Self::new(self.into_inner()) == self,
    {
    }
}

impl<T> core::ops::Deref for AlignAs256<T> {
    type Target = T;

    /// Reads the value through the wrapper.
    fn deref(&self) -> (t: &T)
        ensures
            *t == self@,
    {
        &self.value
    }
}

impl<T> core::ops::DerefMut for AlignAs256<T> {
    /// Lends the value for writing: what is written through the reference is
    /// what the wrapper owns afterwards.
    fn deref_mut(&mut self) -> (t: &mut T)
        ensures
            *t == old(self)@,
            final(self)@ == *final(t),
    {
        &mut self.value
    }
}

impl<T> From<T> for AlignAs256<T> {
    /// Wraps `t` for an alignment of 256 bytes, as [`AlignAs256::new`] does.
    fn from(t: T) -> (aligned: Self)
        ensures
            aligned@ == t,
    {
        AlignAs256::new(t)
    }
}

impl<T> vstd::std_specs::convert::FromSpecImpl<T> for AlignAs256<T> {
    open spec fn obeys_from_spec() -> bool {
        true
    }

    open spec fn from_spec(t: T) -> Self {
        Self::spec_new(t)
    }
}

/// Owns one value that is to be aligned to 512 bytes.
#[derive(Debug)]
pub struct AlignAs512<T> {
    value: T,
}

impl<T> View for AlignAs512<T> {
    type V = T;

    /// The value that the wrapper owns.
    closed spec fn view(&self) -> T {
        self.value
    }
}

impl<T> AlignAs512<T> {
    /// The wrapper that owns `t`.
    pub closed spec fn spec_new(t: T) -> Self {
        AlignAs512 { value: t }
    }

    /// The value that the wrapper owns.
    pub open spec fn spec_into_inner(self) -> T {
        self@
    }

    /// The alignment of the wrapper: 512 bytes.
    pub open spec fn spec_alignment() -> Alignment {
        Alignment::A512
    }

    /// Wraps `t` for an alignment of 512 bytes.
    #[verifier::when_used_as_spec(spec_new)]
    pub fn new(t: T) -> (aligned: AlignAs512<T>)
        ensures
            aligned == Self::spec_new(t),
            aligned@ == t,
    {
        AlignAs512::<T> { value: t }
    }

    /// Returns the inner value.
    #[verifier::when_used_as_spec(spec_into_inner)]
    pub fn into_inner(self) -> (t: T)
        ensures
            t == self@,
    {
        self.value
    }

    /// The alignment of the wrapper: 512 bytes, whatever it wraps and on
    /// every target.
    #[verifier::when_used_as_spec(spec_alignment)]
    pub fn alignment() -> (alignment: Alignment)
        ensures
            alignment == Alignment::A512,
            alignment.spec_bytes() == 512,
    {
        Alignment::A512
    }

    /// Unwrapping what was wrapped gives the value back.
    pub proof fn lemma_round_trip(t: T)
        ensures
            Self::new(t).into_inner() == t,
    {
    }

    /// A wrapper is nothing but its value: two that own equal values are equal.
    pub proof fn lemma_value_determines_wrapper(self, other: Self)
        requires
            self@ == other@,
        ensures
            self == other,
    {
    }

    /// Wrapping the value of a wrapper again gives the wrapper back.
    pub proof fn lemma_rewrap(self)
        ensures
            Self::new(self.into_inner()) == self,
    {
    }
}

impl<T> core::ops::Deref for AlignAs512<T> {
    type Target = T;

    /// Reads the value through the wrapper.
    fn deref(&self) -> (t: &T)
        ensures
            *t == self@,
    {
        &self.value
    }
}

impl<T> core::ops::DerefMut for AlignAs512<T> {
    /// Lends the value for writing: what is written through the reference is
    /// what the wrapper owns afterwards.
    fn deref_mut(&mut self) -> (t: &mut T)
        ensures
            *t == old(self)@,
            final(self)@ == *final(t),
    {
        &mut self.value
    }
}

impl<T> From<T> for AlignAs512<T> {
    /// Wraps `t` for an alignment of 512 bytes, as [`AlignAs512::new`] does.
    fn from(t: T) -> (aligned: Self)
        ensures
            aligned@ == t,
    {
        AlignAs512::new(t)
    }
}

impl<T> vstd::std_specs::convert::FromSpecImpl<T> for AlignAs512<T> {
    open spec fn obeys_from_spec() -> bool {
        true
    }

    open spec fn from_spec(t: T) -> Self {
        Self::spec_new(t)
    }
}

/// Owns one value that is to be aligned to 1024 bytes.
#[derive(Debug)]
pub struct AlignAs1024<T> {
    value: T,
}

impl<T> View for AlignAs1024<T> {
    type V = T;

    /// The value that the wrapper owns.
    closed spec fn view(&self) -> T {
        self.value
    }
}

impl<T> AlignAs1024<T> {
    /// The wrapper that owns `t`.
    pub closed spec fn spec_new(t: T) -> Self {
        AlignAs1024 { value: t }
    }

    /// The value that the wrapper owns.
    pub open spec fn spec_into_inner(self) -> T {
        self@
    }

    /// The alignment of the wrapper: 1024 bytes.
    pub open spec fn spec_alignment() -> Alignment {
        Alignment::A1024
    }

    /// Wraps `t` for an alignment of 1024 bytes.
    #[verifier::when_used_as_spec(spec_new)]
    pub fn new(t: T) -> (aligned: AlignAs1024<T>)
        ensures
            aligned == Self::spec_new(t),
            aligned@ == t,
    {
        AlignAs1024::<T> { value: t }
    }

    /// Returns the inner value.
    #[verifier::when_used_as_spec(spec_into_inner)]
    pub fn into_inner(self) -> (t: T)
        ensures
            t == self@,
    {
        self.value
    }

    /// The alignment of the wrapper: 1024 bytes, whatever it wraps and on
    /// every target.
    #[verifier::when_used_as_spec(spec_alignment)]
    pub fn alignment() -> (alignment: Alignment)
        ensures
            alignment == Alignment::A1024,
            alignment.spec_bytes() == 1024,
    {
        Alignment::A1024
    }

    /// Unwrapping what was wrapped gives the value back.
    pub proof fn lemma_round_trip(t: T)
        ensures
            Self::new(t).into_inner() == t,
    {
    }

    /// A wrapper is nothing but its value: two that own equal values are equal.
    pub proof fn lemma_value_determines_wrapper(self, other: Self)
        requires
            self@ == other@,
        ensures
            self == other,
    {
    }

    /// Wrapping the value of a wrapper again gives the wrapper back.
    pub proof fn lemma_rewrap(self)
        ensures
            Self::new(self.into_inner()) == self,
    {
    }
}

impl<T> core::ops::Deref for AlignAs1024<T> {
    type Target = T;

    /// Reads the value through the wrapper.
    fn deref(&self) -> (t: &T)
        ensures
            *t == self@,
    {
        &self.value
    }
}

impl<T> core::ops::DerefMut for AlignAs1024<T> {
    /// Lends the value for writing: what is written through the reference is
    /// what the wrapper owns afterwards.
    fn deref_mut(&mut self) -> (t: &mut T)
        ensures
            *t == old(self)@,
            final(self)@ == *final(t),
    {
        &mut self.value
    }
}

impl<T> From<T> for AlignAs1024<T> {
    /// Wraps `t` for an alignment of 1024 bytes, as [`AlignAs1024::new`] does.
    fn from(t: T) -> (aligned: Self)
        ensures
            aligned@ == t,
    {
        AlignAs1024::new(t)
    }
}

impl<T> vstd::std_specs::convert::FromSpecImpl<T> for AlignAs1024<T> {
    open spec fn obeys_from_spec() -> bool {
        true
    }

    open spec fn from_spec(t: T) -> Self {
        Self::spec_new(t)
    }
}

/// Owns one value that is to be aligned to 2048 bytes.
#[derive(Debug)]
pub struct AlignAs2048<T> {
    value: T,
}

impl<T> View for AlignAs2048<T> {
    type V = T;

    /// The value that the wrapper owns.
    closed spec fn view(&self) -> T {
        self.value
    }
}

impl<T> AlignAs2048<T> {
    /// The wrapper that owns `t`.
    pub closed spec fn spec_new(t: T) -> Self {
        AlignAs2048 { value: t }
    }

    /// The value that the wrapper owns.
    pub open spec fn spec_into_inner(self) -> T {
        self@
    }

    /// The alignment of the wrapper: 2048 bytes.
    pub open spec fn spec_alignment() -> Alignment {
        Alignment::A2048
    }

    /// Wraps `t` for an alignment of 2048 bytes.
    #[verifier::when_used_as_spec(spec_new)]
    pub fn new(t: T) -> (aligned: AlignAs2048<T>)
        ensures
            aligned == Self::spec_new(t),
            aligned@ == t,
    {
        AlignAs2048::<T> { value: t }
    }

    /// Returns the inner value.
    #[verifier::when_used_as_spec(spec_into_inner)]
    pub fn into_inner(self) -> (t: T)
        ensures
            t == self@,
    {
        self.value
    }

    /// The alignment of the wrapper: 2048 bytes, whatever it wraps and on
    /// every target.
    #[verifier::when_used_as_spec(spec_alignment)]
    pub fn alignment() -> (alignment: Alignment)
        ensures
            alignment == Alignment::A2048,
            alignment.spec_bytes() == 2048,
    {
        Alignment::A2048
    }

    /// Unwrapping what was wrapped gives the value back.
    pub proof fn lemma_round_trip(t: T)
        ensures
            Self::new(t).into_inner() == t,
    {
    }

    /// A wrapper is nothing but its value: two that own equal values are equal.
    pub proof fn lemma_value_determines_wrapper(self, other: Self)
        requires
            self@ == other@,
        ensures
            self == other,
    {
    }

    /// Wrapping the value of a wrapper again gives the wrapper back.
    pub proof fn lemma_rewrap(self)
        ensures
            Self::new(self.into_inner()) == self,
    {
    }
}

impl<T> core::ops::Deref for AlignAs2048<T> {
    type Target = T;

    /// Reads the value through the wrapper.
    fn deref(&self) -> (t: &T)
        ensures
            *t == self@,
    {
        &self.value
    }
}

impl<T> core::ops::DerefMut for AlignAs2048<T> {
    /// Lends the value for writing: what is written through the reference is
    /// what the wrapper owns afterwards.
    fn deref_mut(&mut self) -> (t: &mut T)
        ensures
            *t == old(self)@,
            final(self)@ == *final(t),
    {
        &mut self.value
    }
}

impl<T> From<T> for AlignAs2048<T> {
    /// Wraps `t` for an alignment of 2048 bytes, as [`AlignAs2048::new`] does.
    fn from(t: T) -> (aligned: Self)
        ensures
            aligned@ == t,
    {
        AlignAs2048::new(t)
    }
}

impl<T> vstd::std_specs::convert::FromSpecImpl<T> for AlignAs2048<T> {
    open spec fn obeys_from_spec() -> bool {
        true
    }

    open spec fn from_spec(t: T) -> Self {
        Self::spec_new(t)
    }
}

/// Owns one value that is to be aligned to 4096 bytes.
#[derive(Debug)]
pub struct AlignAs4096<T> {
    value: T,
}

impl<T> View for AlignAs4096<T> {
    type V = T;

    /// The value that the wrapper owns.
    closed spec fn view(&self) -> T {
        self.value
    }
}

impl<T> AlignAs4096<T> {
    /// The wrapper that owns `t`.
    pub closed spec fn spec_new(t: T) -> Self {
        AlignAs4096 { value: t }
    }

    /// The value that the wrapper owns.
    pub open spec fn spec_into_inner(self) -> T {
        self@
    }

    /// The alignment of the wrapper: 4096 bytes.
    pub open spec fn spec_alignment() -> Alignment {
        Alignment::A4096
    }

    /// Wraps `t` for an alignment of 4096 bytes.
    #[verifier::when_used_as_spec(spec_new)]
    pub fn new(t: T) -> (aligned: AlignAs4096<T>)
        ensures
            aligned == Self::spec_new(t),
            aligned@ == t,
    {
        AlignAs4096::<T> { value: t }
    }

    /// Returns the inner value.
    #[verifier::when_used_as_spec(spec_into_inner)]
    pub fn into_inner(self) -> (t: T)
        ensures
            t == self@,
    {
        self.value
    }

    /// The alignment of the wrapper: 4096 bytes, whatever it wraps and on
    /// every target.
    #[verifier::when_used_as_spec(spec_alignment)]
    pub fn alignment() -> (alignment: Alignment)
        ensures
            alignment == Alignment::A4096,
            alignment.spec_bytes() == 4096,
    {
        Alignment::A4096
    }

    /// Unwrapping what was wrapped gives the value back.
    pub proof fn lemma_round_trip(t: T)
        ensures
            Self::new(t).into_inner() == t,
    {
    }

    /// A wrapper is nothing but its value: two that own equal values are equal.
    pub proof fn lemma_value_determines_wrapper(self, other: Self)
        requires
            self@ == other@,
        ensures
            self == other,
    {
    }

    /// Wrapping the value of a wrapper again gives the wrapper back.
    pub proof fn lemma_rewrap(self)
        ensures
            Self::new(self.into_inner()) == self,
    {
    }
}

impl<T> core::ops::Deref for AlignAs4096<T> {
    type Target = T;

    /// Reads the value through the wrapper.
    fn deref(&self) -> (t: &T)
        ensures
            *t == self@,
    {
        &self.value
    }
}

impl<T> core::ops::DerefMut for AlignAs4096<T> {
    /// Lends the value for writing: what is written through the reference is
    /// what the wrapper owns afterwards.
    fn deref_mut(&mut self) -> (t: &mut T)
        ensures
            *t == old(self)@,
            final(self)@ == *final(t),
    {
        &mut self.value
    }
}

impl<T> From<T> for AlignAs4096<T> {
    /// Wraps `t` for an alignment of 4096 bytes, as [`AlignAs4096::new`] does.
    fn from(t: T) -> (aligned: Self)
        ensures
            aligned@ == t,
    {
        AlignAs4096::new(t)
    }
}

impl<T> vstd::std_specs::convert::FromSpecImpl<T> for AlignAs4096<T> {
    open spec fn obeys_from_spec() -> bool {
        true
    }

    open spec fn from_spec(t: T) -> Self {
        Self::spec_new(t)
    }
}

/// Owns one value that is to be aligned to 8192 bytes.
#[derive(Debug)]
pub struct AlignAs8192<T> {
    value: T,
}

impl<T> View for AlignAs8192<T> {
    type V = T;

    /// The value that the wrapper owns.
    closed spec fn view(&self) -> T {
        self.value
    }
}

impl<T> AlignAs8192<T> {
    /// The wrapper that owns `t`.
    pub closed spec fn spec_new(t: T) -> Self {
        AlignAs8192 { value: t }
    }

    /// The value that the wrapper owns.
    pub open spec fn spec_into_inner(self) -> T {
        self@
    }

    /// The alignment of the wrapper: 8192 bytes.
    pub open spec fn spec_alignment() -> Alignment {
        Alignment::A8192
    }

    /// Wraps `t` for an alignment of 8192 bytes.
    #[verifier::when_used_as_spec(spec_new)]
    pub fn new(t: T) -> (aligned: AlignAs8192<T>)
        ensures
            aligned == Self::spec_new(t),
            aligned@ == t,
    {
        AlignAs8192::<T> { value: t }
    }

    /// Returns the inner value.
    #[verifier::when_used_as_spec(spec_into_inner)]
    pub fn into_inner(self) -> (t: T)
        ensures
            t == self@,
    {
        self.value
    }

    /// The alignment of the wrapper: 8192 bytes, whatever it wraps and on
    /// every target.
    #[verifier::when_used_as_spec(spec_alignment)]
    pub fn alignment() -> (alignment: Alignment)
        ensures
            alignment == Alignment::A8192,
            alignment.spec_bytes() == 8192,
    {
        Alignment::A8192
    }

    /// Unwrapping what was wrapped gives the value back.
    pub proof fn lemma_round_trip(t: T)
        ensures
            Self::new(t).into_inner() == t,
    {
    }

    /// A wrapper is nothing but its value: two that own equal values are equal.
    pub proof fn lemma_value_determines_wrapper(self, other: Self)
        requires
            self@ == other@,
        ensures
            self == other,
    {
    }

    /// Wrapping the value of a wrapper again gives the wrapper back.
    pub proof fn lemma_rewrap(self)
        ensures
            Self::new(self.into_inner()) == self,
    {
    }
}

impl<T> core::ops::Deref for AlignAs8192<T> {
    type Target = T;

    /// Reads the value through the wrapper.
    fn deref(&self) -> (t: &T)
        ensures
            *t == self@,
    {
        &self.value
    }
}

impl<T> core::ops::DerefMut for AlignAs8192<T> {
    /// Lends the value for writing: what is written through the reference is
    /// what the wrapper owns afterwards.
    fn deref_mut(&mut self) -> (t: &mut T)
        ensures
            *t == old(self)@,
            final(self)@ == *final(t),
    {
        &mut self.value
    }
}

impl<T> From<T> for AlignAs8192<T> {
    /// Wraps `t` for an alignment of 8192 bytes, as [`AlignAs8192::new`] does.
    fn from(t: T) -> (aligned: Self)
        ensures
            aligned@ == t,
    {
        AlignAs8192::new(t)
    }
}

impl<T> vstd::std_specs::convert::FromSpecImpl<T> for AlignAs8192<T> {
    open spec fn obeys_from_spec() -> bool {
        true
    }

    open spec fn from_spec(t: T) -> Self {
        Self::spec_new(t)
    }
}

/// Owns one value that is to be aligned to 16384 bytes.
#[derive(Debug)]
pub struct AlignAs16384<T> {
    value: T,
}

impl<T> View for AlignAs16384<T> {
    type V = T;

    /// The value that the wrapper owns.
    closed spec fn view(&self) -> T {
        self.value
    }
}

impl<T> AlignAs16384<T> {
    /// The wrapper that owns `t`.
    pub closed spec fn spec_new(t: T) -> Self {
        AlignAs16384 { value: t }
    }

    /// The value that the wrapper owns.
    pub open spec fn spec_into_inner(self) -> T {
        self@
    }

    /// The alignment of the wrapper: 16384 bytes.
    pub open spec fn spec_alignment() -> Alignment {
        Alignment::A16384
    }

    /// Wraps `t` for an alignment of 16384 bytes.
    #[verifier::when_used_as_spec(spec_new)]
    pub fn new(t: T) -> (aligned: AlignAs16384<T>)
        ensures
            aligned == Self::spec_new(t),
            aligned@ == t,
    {
        AlignAs16384::<T> { value: t }
    }

    /// Returns the inner value.
    #[verifier::when_used_as_spec(spec_into_inner)]
    pub fn into_inner(self) -> (t: T)
        ensures
            t == self@,
    {
        self.value
    }

    /// The alignment of the wrapper: 16384 bytes, whatever it wraps and on
    /// every target.
    #[verifier::when_used_as_spec(spec_alignment)]
    pub fn alignment() -> (alignment: Alignment)
        ensures
            alignment == Alignment::A16384,
            alignment.spec_bytes() == 16384,
    {
        Alignment::A16384
    }

    /// Unwrapping what was wrapped gives the value back.
    pub proof fn lemma_round_trip(t: T)
        ensures
            Self::new(t).into_inner() == t,
    {
    }

    /// A wrapper is nothing but its value: two that own equal values are equal.
    pub proof fn lemma_value_determines_wrapper(self, other: Self)
        requires
            self@ == other@,
        ensures
            self == other,
    {
    }

    /// Wrapping the value of a wrapper again gives the wrapper back.
    pub proof fn lemma_rewrap(self)
        ensures
            Self::new(self.into_inner()) == self,
    {
    }
}

impl<T> core::ops::Deref for AlignAs16384<T> {
    type Target = T;

    /// Reads the value through the wrapper.
    fn deref(&self) -> (t: &T)
        ensures
            *t == self@,
    {
        &self.value
    }
}

impl<T> core::ops::DerefMut for AlignAs16384<T> {
    /// Lends the value for writing: what is written through the reference is
    /// what the wrapper owns afterwards.
    fn deref_mut(&mut self) -> (t: &mut T)
        ensures
            *t == old(self)@,
            final(self)@ == *final(t),
    {
        &mut self.value
    }
}

impl<T> From<T> for AlignAs16384<T> {
    /// Wraps `t` for an alignment of 16384 bytes, as [`AlignAs16384::new`] does.
    fn from(t: T) -> (aligned: Self)
        ensures
            aligned@ == t,
    {
        AlignAs16384::new(t)
    }
}

impl<T> vstd::std_specs::convert::FromSpecImpl<T> for AlignAs16384<T> {
    open spec fn obeys_from_spec() -> bool {
        true
    }

    open spec fn from_spec(t: T) -> Self {
        Self::spec_new(t)
    }
}

/// Owns one value that is to be aligned to 32768 bytes.
#[derive(Debug)]
pub struct AlignAs32768<T> {
    value: T,
}

impl<T> View for AlignAs32768<T> {
    type V = T;

    /// The value that the wrapper owns.
    closed spec fn view(&self) -> T {
        self.value
    }
}

impl<T> AlignAs32768<T> {
    /// The wrapper that owns `t`.
    pub closed spec fn spec_new(t: T) -> Self {
        AlignAs32768 { value: t }
    }

    /// The value that the wrapper owns.
    pub open spec fn spec_into_inner(self) -> T {
        self@
    }

    /// The alignment of the wrapper: 32768 bytes.
    pub open spec fn spec_alignment() -> Alignment {
        Alignment::A32768
    }

    /// Wraps `t` for an alignment of 32768 bytes.
    #[verifier::when_used_as_spec(spec_new)]
    pub fn new(t: T) -> (aligned: AlignAs32768<T>)
        ensures
            aligned == Self::spec_new(t),
            aligned@ == t,
    {
        AlignAs32768::<T> { value: t }
    }

    /// Returns the inner value.
    #[verifier::when_used_as_spec(spec_into_inner)]
    pub fn into_inner(self) -> (t: T)
        ensures
            t == self@,
    {
        self.value
    }

    /// The alignment of the wrapper: 32768 bytes, whatever it wraps and on
    /// every target.
    #[verifier::when_used_as_spec(spec_alignment)]
    pub fn alignment() -> (alignment: Alignment)
        ensures
            alignment == Alignment::A32768,
            alignment.spec_bytes() == 32768,
    {
        Alignment::A32768
    }

    /// Unwrapping what was wrapped gives the value back.
    pub proof fn lemma_round_trip(t: T)
        ensures
            Self::new(t).into_inner() == t,
    {
    }

    /// A wrapper is nothing but its value: two that own equal values are equal.
    pub proof fn lemma_value_determines_wrapper(self, other: Self)
        requires
            self@ == other@,
        ensures
            self == other,
    {
    }

    /// Wrapping the value of a wrapper again gives the wrapper back.
    pub proof fn lemma_rewrap(self)
        ensures
            Self::new(self.into_inner()) == self,
    {
    }
}

impl<T> core::ops::Deref for AlignAs32768<T> {
    type Target = T;

    /// Reads the value through the wrapper.
    fn deref(&self) -> (t: &T)
        ensures
            *t == self@,
    {
        &self.value
    }
}

impl<T> core::ops::DerefMut for AlignAs32768<T> {
    /// Lends the value for writing: what is written through the reference is
    /// what the wrapper owns afterwards.
    fn deref_mut(&mut self) -> (t: &mut T)
        ensures
            *t == old(self)@,
            final(self)@ == *final(t),
    {
        &mut self.value
    }
}

impl<T> From<T> for AlignAs32768<T> {
    /// Wraps `t` for an alignment of 32768 bytes, as [`AlignAs32768::new`] does.
    fn from(t: T) -> (aligned: Self)
        ensures
            aligned@ == t,
    {
        AlignAs32768::new(t)
    }
}

impl<T> vstd::std_specs::convert::FromSpecImpl<T> for AlignAs32768<T> {
    open spec fn obeys_from_spec() -> bool {
        true
    }

    open spec fn from_spec(t: T) -> Self {
        Self::spec_new(t)
    }
}

} // verus!
