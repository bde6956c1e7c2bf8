//! Launch arguments of a version package: plain strings, or rule-gated
//! groups of strings.

use vstd::prelude::*;

use crate::model::rule::Rule;

verus! {

/// One launch argument: either a fixed string or a group of values that
/// applies only where its rules allow it.
#[derive(Debug)]
pub enum Argument {
    /// An argument that always applies.
    Static(String),
    /// One or more values that apply only where every rule matches.
    Dynamic {
        /// The rules gating the values.
        rules: Vec<Rule>,
        /// The values added when the rules allow them.
        value: Vec<String>,
    },
}

} // verus!
