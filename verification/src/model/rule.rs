//! Rules gating libraries and arguments by operating system.

use vstd::prelude::*;

verus! {

/// What a matching rule does.  Only `Allow` occurs in the catalogs this
/// library reads.
#[derive(Debug, Clone, Copy, PartialEq, Eq, Structural)]
pub enum RuleAction {
    /// The gated item applies where the rule matches.
    Allow,
}

/// One gating rule: an action, with optional properties of the
/// operating system and optional feature flags.  The pair lists mirror
/// maps with unique keys.
#[derive(Debug)]
pub struct Rule {
    /// What a match means.
    pub action: RuleAction,
    /// Properties the operating system must have, by name.
    pub os: Option<Vec<(String, String)>>,
    /// Feature flags the launch must have, by name.
    pub features: Option<Vec<(String, bool)>>,
}

/// The value at the first entry of `entries` whose key reads `key`.
pub open spec fn spec_lookup(entries: Seq<(String, String)>, key: Seq<char>) -> Option<Seq<char>>
    decreases entries.len(),
{
    if entries.len() == 0 {
        None
    } else if entries.first().0@ == key {
        Some(entries.first().1@)
    } else {
        spec_lookup(entries.drop_first(), key)
    }
}

/// The value stored under `key`, or `None`.
pub fn lookup<'a>(entries: &'a Vec<(String, String)>, key: &str) -> (r: Option<&'a String>)
    ensures
        (r matches Some(v) ==> spec_lookup(entries@, key@) == Some(v@)),
        (r is None ==> spec_lookup(entries@, key@) is None),
{
    let mut k: usize = 0;
    proof {
        assert(entries@.skip(0) =~= entries@);
    }
    while k < entries.len()
        invariant
            k <= entries@.len(),
            spec_lookup(entries@, key@) == spec_lookup(entries@.skip(k as int), key@),
        decreases entries@.len() - k,
    {
        proof {
            assert(entries@.skip(k as int).first() == entries@[k as int]);
            assert(entries@.skip(k as int).drop_first() =~= entries@.skip(k as int + 1));
        }
        if crate::strutil::str_eq(entries[k].0.as_str(), key) {
            return Some(&entries[k].1);
        }
        k = k + 1;
    }
    proof {
        assert(entries@.skip(entries@.len() as int).len() == 0);
    }
    None
}

/// How `check` reads a rule against the running operating system: where
/// the rule names an operating system — `linux`, `windows` or `osx` —
/// it matches only that system (`osx` matching `macos`); a rule naming
/// none, or naming something else, matches everywhere.
pub open spec fn spec_rule_matches(rule: Rule, current_os: Seq<char>) -> bool {
    match rule.os {
        Option::None => true,
        Option::Some(os) => match spec_lookup(os@, "name"@) {
            Option::None => true,
            Option::Some(v) => if v == "linux"@ {
                current_os == "linux"@
            } else if v == "windows"@ {
                current_os == "windows"@
            } else if v == "osx"@ {
                current_os == "macos"@
            } else {
                true
            },
        },
    }
}

impl Rule {
    /// Whether this rule allows its item on the operating system named
    /// `current_os` (as the platform names it: `linux`, `windows`,
    /// `macos`).
    pub fn check(&self, current_os: &str) -> (r: bool)
        ensures
            r == spec_rule_matches(*self, current_os@),
    {
        let name = match &self.os {
            None => {
                return true;
            },
            Some(os) => lookup(os, "name"),
        };
        match name {
            None => true,
            Some(v) => {
                if crate::strutil::str_eq(v.as_str(), "linux") {
                    crate::strutil::str_eq(current_os, "linux")
                } else if crate::strutil::str_eq(v.as_str(), "windows") {
                    crate::strutil::str_eq(current_os, "windows")
                } else if crate::strutil::str_eq(v.as_str(), "osx") {
                    crate::strutil::str_eq(current_os, "macos")
                } else {
                    true
                }
            },
        }
    }
}

} // verus!
