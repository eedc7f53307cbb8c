use vstd::prelude::*;

use crate::object::{search, spec_search, value_view, error_view, Error, ErrorV, Value, ValueV};
use crate::rustgen_ir::{path_view, ExprField};

verus! {

/// The configuration store: the immutable root value for one generation run.
#[derive(Debug)]
pub struct Env(pub Value);

impl Env {
    /// Wraps a loaded configuration value. The host locates, reads and
    /// decodes the configuration source; the engine only sees the value.
    pub fn new(config: Value) -> (r: Env)
        ensures
            r.0 == config,
    {
        Env(config)
    }

    /// Resolves a field path against the root value.
    pub fn search<'a>(&'a self, field: &ExprField) -> (r: Result<&'a Value, Error>)
        ensures
            match r {
                Result::Ok(v) => spec_search(value_view(self.0), path_view(*field))
                    == Result::Ok::<ValueV, ErrorV>(value_view(*v)),
                Result::Err(e) => spec_search(value_view(self.0), path_view(*field))
                    == Result::Err::<ValueV, ErrorV>(error_view(e)),
            },
    {
        search(&self.0, field)
    }
}

} // verus!
