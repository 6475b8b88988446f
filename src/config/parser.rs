//! Adapters that read raw settings: from a file, or from the environment
//! variables that carry a prefix.
use vstd::prelude::*;

use super::source::Source;
use super::text::{has_prefix, starts_with, strip_repeated, trim_start_matches};
use super::tuple_value::Value as TupleValue;
use super::types::ConfigError;

verus! {

/// Reads the environment variables whose names start with `prefix`.
///
/// The prefix keeps apart the variables of this system from all others.
pub struct Env {
    prefix: String,
}

/// Reads the configuration text of one file.
pub struct File {
    filepath: String,
}

/// The view of key-value pairs of strings.
pub open spec fn pairs_view(s: Seq<(String, String)>) -> Seq<(Seq<char>, Seq<char>)> {
    s.map_values(|p: (String, String)| (p.0@, p.1@))
}

/// The pairs of `vars` whose key starts with `prefix`, in their order, each
/// key without the repetitions of `prefix` that it begins with.
pub open spec fn selected(prefix: Seq<char>, vars: Seq<(String, String)>) -> Seq<
    (Seq<char>, Seq<char>),
>
    decreases vars.len(),
{
    if vars.len() == 0 {
        Seq::empty()
    } else {
        let rest = selected(prefix, vars.drop_last());
        let kv = vars.last();
        if has_prefix(kv.0@, prefix) {
            rest.push((strip_repeated(kv.0@, prefix), kv.1@))
        } else {
            rest
        }
    }
}

fn select_prefixed(prefix: &String, vars: &Vec<(String, String)>) -> (out: Vec<(String, String)>)
    ensures
        pairs_view(out@) == selected(prefix@, vars@),
{
    let mut out: Vec<(String, String)> = Vec::new();
    let mut i: usize = 0;
    while i < vars.len()
        invariant
            i <= vars.len(),
            pairs_view(out@) == selected(prefix@, vars@.subrange(0, i as int)),
        decreases vars.len() - i,
    {
        let kv = &vars[i];
        assert(vars@.subrange(0, i + 1).drop_last() =~= vars@.subrange(0, i as int));
        if starts_with(kv.0.as_str(), prefix.as_str()) {
            let key = String::from_str(trim_start_matches(kv.0.as_str(), prefix.as_str()));
            out.push((key, kv.1.clone()));
            assert(pairs_view(out@) =~= selected(prefix@, vars@.subrange(0, i + 1)));
        }
        i += 1;
    }
    assert(vars@.subrange(0, vars@.len() as int) =~= vars@);
    out
}

impl Env {
    /// The prefix of the variables read.
    pub closed spec fn prefix(&self) -> String {
        self.prefix
    }

    pub fn new(prefix: String) -> (r: Self)
        ensures
            r.prefix() == prefix,
    {
        Self { prefix }
    }

    /// Keeps the variables of `vars` whose names start with the prefix, in
    /// their order and with the prefix taken off their names; fails where
    /// none is left.
    pub fn fetch_from(&self, vars: Vec<(String, String)>) -> (r: Result<
        Source<TupleValue, Vec<(String, String)>>,
        ConfigError,
    >)
        ensures
            selected(self.prefix()@, vars@).len() == 0 ==> (r matches Err(
                ConfigError::FormatError(m),
            ) && m@ == "no environment variables available"@),
            selected(self.prefix()@, vars@).len() > 0 ==> (r matches Ok(s) && pairs_view(
                s.input().input(),
            ) == selected(self.prefix()@, vars@)),
    {
        let picked = select_prefixed(&self.prefix, &vars);
        if picked.len() < 1 {
            proof {
                reveal_strlit("no environment variables available");
            }
            return Err(
                ConfigError::FormatError(String::from_str("no environment variables available")),
            );
        }
        Ok(Source::new(TupleValue::new(picked)))
    }
}

impl File {
    /// The path of the file read.
    pub closed spec fn filepath(&self) -> String {
        self.filepath
    }

    pub fn new(filepath: String) -> (r: Self)
        ensures
            r.filepath() == filepath,
    {
        Self { filepath }
    }

    /// The path of the file read.
    pub fn path(&self) -> (r: &String)
        ensures
            *r == self.filepath(),
    {
        &self.filepath
    }
}

/// The adapter that reads configuration from the file at `filepath`.
pub fn from_file(filepath: String) -> (r: File)
    ensures
        r.filepath() == filepath,
{
    File::new(filepath)
}

/// The adapter that reads the environment variables that start with
/// `prefix`.
pub fn from_env(prefix: String) -> (r: Env)
    ensures
        r.prefix() == prefix,
{
    Env::new(prefix)
}

} // verus!
