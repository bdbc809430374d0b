//! The picture levels of the playback and the filter elements that hold them.
//!
//! A level lives in an element of the backend pipeline: gamma in a gamma
//! filter, the other four in a balance filter. The engine keeps a handle to
//! each element that the pipeline has and never looks inside one. Reading a
//! level names the element to ask, or gives the default where the element is
//! absent. Writing a level names the element and the value to store, clamped
//! to the domain of the level, or nothing where the element is absent.

use crate::binary64::{
    Binary64, MINUS_ONE_BITS, ONE_BITS, THREE_BITS, TWO_BITS, ZERO_BITS,
};
use vstd::prelude::*;

verus! {

/// A picture level.
#[derive(Debug, Clone, Copy, PartialEq, Eq, Structural)]
pub enum Level {
    Gamma,
    Brightness,
    Contrast,
    Hue,
    Saturation,
}

impl Level {
    /// The least value of the level.
    pub open spec fn lower(self) -> Binary64 {
        match self {
            Level::Gamma => Binary64 { bits: ONE_BITS },
            Level::Brightness => Binary64 { bits: MINUS_ONE_BITS },
            Level::Contrast => Binary64 { bits: ZERO_BITS },
            Level::Hue => Binary64 { bits: MINUS_ONE_BITS },
            Level::Saturation => Binary64 { bits: ZERO_BITS },
        }
    }

    /// The greatest value of the level.
    pub open spec fn upper(self) -> Binary64 {
        match self {
            Level::Gamma => Binary64 { bits: THREE_BITS },
            Level::Brightness => Binary64 { bits: ONE_BITS },
            Level::Contrast => Binary64 { bits: TWO_BITS },
            Level::Hue => Binary64 { bits: ONE_BITS },
            Level::Saturation => Binary64 { bits: TWO_BITS },
        }
    }

    /// The value of the level where no element holds it.
    pub open spec fn fallback(self) -> Binary64 {
        match self {
            Level::Gamma => Binary64 { bits: ONE_BITS },
            Level::Brightness => Binary64 { bits: ZERO_BITS },
            Level::Contrast => Binary64 { bits: ONE_BITS },
            Level::Hue => Binary64 { bits: ZERO_BITS },
            Level::Saturation => Binary64 { bits: ONE_BITS },
        }
    }

    /// The name of the property that holds the level.
    pub open spec fn property(self) -> Seq<char> {
        match self {
            Level::Gamma => "gamma"@,
            Level::Brightness => "brightness"@,
            Level::Contrast => "contrast"@,
            Level::Hue => "hue"@,
            Level::Saturation => "saturation"@,
        }
    }

    /// The value to store for a request of `value`: the request, clamped to
    /// the domain of the level.
    pub open spec fn stored(self, value: Binary64) -> Binary64 {
        value.clamped(self.lower(), self.upper())
    }

    /// The least and the greatest value of the level.
    pub fn domain(self) -> (bounds: (Binary64, Binary64))
        ensures
            bounds.0 == self.lower(),
            bounds.1 == self.upper(),
            bounds.0.le(bounds.1),
    {
        match self {
            Level::Gamma => (Binary64::from_bits(ONE_BITS), Binary64::from_bits(THREE_BITS)),
            Level::Brightness => (
                Binary64::from_bits(MINUS_ONE_BITS),
                Binary64::from_bits(ONE_BITS),
            ),
            Level::Contrast => (Binary64::from_bits(ZERO_BITS), Binary64::from_bits(TWO_BITS)),
            Level::Hue => (Binary64::from_bits(MINUS_ONE_BITS), Binary64::from_bits(ONE_BITS)),
            Level::Saturation => (Binary64::from_bits(ZERO_BITS), Binary64::from_bits(TWO_BITS)),
        }
    }

    /// The value of the level where no element holds it.
    pub fn default_value(self) -> (value: Binary64)
        ensures
            value == self.fallback(),
    {
        match self {
            Level::Gamma => Binary64::from_bits(ONE_BITS),
            Level::Brightness => Binary64::from_bits(ZERO_BITS),
            Level::Contrast => Binary64::from_bits(ONE_BITS),
            Level::Hue => Binary64::from_bits(ZERO_BITS),
            Level::Saturation => Binary64::from_bits(ONE_BITS),
        }
    }

    /// The name of the property that holds the level.
    pub fn name(self) -> (name: &'static str)
        ensures
            name@ == self.property(),
    {
        match self {
            Level::Gamma => "gamma",
            Level::Brightness => "brightness",
            Level::Contrast => "contrast",
            Level::Hue => "hue",
            Level::Saturation => "saturation",
        }
    }

    /// Clamps a requested value to the domain of the level.
    pub fn clamp(self, value: Binary64) -> (stored: Binary64)
        ensures
            stored == self.stored(value),
    {
        let (lower, upper) = self.domain();
        value.clamp(lower, upper)
    }
}

/// Where the value of a level comes from.
#[derive(Debug)]
pub enum LevelRead<'a, E> {
    /// The element holds the level: ask it.
    Ask(&'a E),
    /// No element holds the level: it has this value.
    Fixed(Binary64),
}

/// A value to store in an element.
#[derive(Debug)]
pub struct LevelWrite<'a, E> {
    pub element: &'a E,
    pub value: Binary64,
}

/// What a [`VideoFilters`] stands for.
pub struct FiltersView<E> {
    pub balance: Option<E>,
    pub gamma: Option<E>,
}

impl<E> FiltersView<E> {
    /// The element that holds `level`, if the pipeline has it.
    pub open spec fn element(self, level: Level) -> Option<E> {
        match level {
            Level::Gamma => self.gamma,
            _ => self.balance,
        }
    }
}

#[derive(Debug)]
/// Video filters applied to the backend pipeline. Only a balance and a gamma
/// filter are supported.
pub struct VideoFilters<E> {
    balance: Option<E>,
    gamma: Option<E>,
}

impl<E> View for VideoFilters<E> {
    type V = FiltersView<E>;

    closed spec fn view(&self) -> FiltersView<E> {
        FiltersView { balance: self.balance, gamma: self.gamma }
    }
}

impl<E> Default for VideoFilters<E> {
    fn default() -> (filters: VideoFilters<E>)
        ensures
            filters@ == (FiltersView::<E> { balance: None, gamma: None }),
    {
        VideoFilters::none()
    }
}

impl<E> VideoFilters<E> {
    /// Returns an empty [`VideoFilters`]. No filters are applied to the
    /// playback.
    pub fn none() -> (filters: VideoFilters<E>)
        ensures
            filters@ == (FiltersView::<E> { balance: None, gamma: None }),
    {
        Self { balance: None, gamma: None }
    }

    /// Returns a [`VideoFilters`] with only the balance filter set. The brightness,
    /// saturation, hue and contrast filters can thus be changed.
    pub fn balance(balance: E) -> (filters: VideoFilters<E>)
        ensures
            filters@ == (FiltersView { balance: Some(balance), gamma: None }),
    {
        Self { balance: Some(balance), gamma: None }
    }

    /// Returns a [`VideoFilters`] with only the gamma filter set. The gamma
    /// filter can thus be changed.
    pub fn gamma(gamma: E) -> (filters: VideoFilters<E>)
        ensures
            filters@ == (FiltersView { balance: None, gamma: Some(gamma) }),
    {
        Self { balance: None, gamma: Some(gamma) }
    }

    /// Returns a [`VideoFilters`] with both balance and gamma filters set.
    pub fn all(balance: E, gamma: E) -> (filters: VideoFilters<E>)
        ensures
            filters@ == (FiltersView { balance: Some(balance), gamma: Some(gamma) }),
    {
        Self { balance: Some(balance), gamma: Some(gamma) }
    }

    /// Sets only the balance filter.
    pub fn set_balance(&mut self, balance: E)
        ensures
            final(self)@ == (FiltersView { balance: Some(balance), gamma: old(self)@.gamma }),
        no_unwind
    {
        self.balance = Some(balance);
    }

    /// Sets only the gamma filter.
    pub fn set_gamma(&mut self, gamma: E)
        ensures
            final(self)@ == (FiltersView { balance: old(self)@.balance, gamma: Some(gamma) }),
        no_unwind
    {
        self.gamma = Some(gamma);
    }

    /// The element that holds `level`, if the pipeline has it.
    pub fn element(&self, level: Level) -> (element: Option<&E>)
        ensures
            match element {
                Some(e) => self@.element(level) == Some(*e),
                None => self@.element(level) is None,
            },
    {
        match level {
            Level::Gamma => self.gamma.as_ref(),
            _ => self.balance.as_ref(),
        }
    }

    /// Where the value of `level` comes from: the element that holds it, or
    /// the default of the level where the element is absent.
    pub fn read(&self, level: Level) -> (read: LevelRead<'_, E>)
        ensures
            match read {
                LevelRead::Ask(e) => self@.element(level) == Some(*e),
                LevelRead::Fixed(value) => self@.element(level) is None && value
                    == level.fallback(),
            },
    {
        match self.element(level) {
            Some(element) => LevelRead::Ask(element),
            None => LevelRead::Fixed(level.default_value()),
        }
    }

    /// What to store for a request to set `level` to `value`: the clamped
    /// value, in the element that holds the level, or nothing where the
    /// element is absent.
    pub fn write(&self, level: Level, value: Binary64) -> (write: Option<LevelWrite<'_, E>>)
        ensures
            match write {
                Some(w) => self@.element(level) == Some(*w.element) && w.value == level.stored(
                    value,
                ),
                None => self@.element(level) is None,
            },
    {
        match self.element(level) {
            Some(element) => Some(LevelWrite { element, value: level.clamp(value) }),
            None => None,
        }
    }
}

/// A request above the domain of a level stores the greatest value of the
/// level, one below stores the least, and one inside is stored as it is.
pub proof fn lemma_stored_level(level: Level, value: Binary64)
    ensures
        level.upper().lt(value) ==> level.stored(value) == level.upper(),
        value.lt(level.lower()) ==> level.stored(value) == level.lower(),
        level.lower().le(value) && value.le(level.upper()) ==> level.stored(value) == value,
        !value.is_nan() ==> level.lower().le(level.stored(value)) && level.stored(value).le(
            level.upper(),
        ),
{
}

} // verus!
