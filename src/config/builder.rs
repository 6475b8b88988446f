//! The entry point of configuration loading.
use std::marker::PhantomData;

use vstd::prelude::*;

use super::source::Source;
use super::types::{ConfigError, SourceFormatter, SourceParser};

verus! {

/// Loads configuration through one parser adapter.
pub struct Builder<TParser, TFormatter, TValue> {
    adapter: TParser,
    _phantomf: Option<PhantomData<TFormatter>>,
    _phantomf2: Option<PhantomData<TValue>>,
}

impl<T: SourceParser<F, St>, F: SourceFormatter<St>, St> Builder<T, F, St> {
    /// The parser adapter.
    pub closed spec fn adapter(&self) -> T {
        self.adapter
    }

    pub fn new(adapter: T) -> (r: Self)
        ensures
            r.adapter() == adapter,
    {
        Self { adapter, _phantomf: None, _phantomf2: None }
    }

    /// Fetches the raw settings through the adapter.
    pub fn fetch(&self) -> (r: Result<Source<F, St>, ConfigError>)
        ensures
            call_ensures(T::fetch, (&self.adapter(),), r),
    {
        self.adapter.fetch()
    }
}

} // verus!
