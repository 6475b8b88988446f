//! A fetched configuration value, ready to be parsed.
use std::marker::PhantomData;

use vstd::prelude::*;

use super::types::{ConfigError, SourceFormatter};

verus! {

/// Raw settings held by a value type `TFormatter`, whose copy of the settings
/// is a `TValue`.
pub struct Source<TFormatter, TValue> {
    input: TFormatter,
    _phantomf: Option<PhantomData<TValue>>,
}

impl<T: SourceFormatter<St>, St> Source<T, St> {
    /// The value type that holds the settings.
    pub closed spec fn input(&self) -> T {
        self.input
    }

    pub fn new(input: T) -> (r: Self)
        ensures
            r.input() == input,
    {
        Self { input, _phantomf: None }
    }

    /// Hands the copy of the settings that the value type gives to `cb`,
    /// which decodes it, and returns what `cb` returns.
    pub fn parse<F, Out>(&self, cb: F) -> (r: Result<Out, ConfigError>) where
        F: FnOnce(St) -> Result<Out, ConfigError>,

        requires
            forall|s: St| cb.requires((s,)),
        ensures
            exists|s: St| call_ensures(T::get_source_value, (&self.input(),), s) && cb.ensures((s,), r),
    {
        let value = self.input.get_source_value();
        let r = cb(value);
        assert(call_ensures(T::get_source_value, (&self.input(),), value) && cb.ensures((value,), r));
        r
    }
}

} // verus!
