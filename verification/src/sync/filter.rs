//! Parsing package filters of the form `name`, `name=*` or
//! `name<op>version`, as given on the command line.

use vstd::prelude::*;

use crate::strutil::str_eq;

verus! {

/// A comparison operator of a version filter.
#[derive(Debug, Clone, Copy, PartialEq, Eq, Structural)]
pub enum VersionOp {
    /// Equal.
    Eq,
    /// Not equal.
    Ne,
    /// Greater than.
    Gt,
    /// Greater than or equal.
    Ge,
    /// Less than.
    Lt,
    /// Less than or equal.
    Le,
}

/// Which versions of a package a filter selects.
#[derive(Debug, PartialEq, Eq)]
pub enum VersionFilter {
    /// Any version.
    Any,
    /// The versions that compare to the given one as the operator says.
    Op(String, VersionOp),
}

/// A package filter: a name, and optionally a version restriction.
#[derive(Debug, PartialEq, Eq)]
pub struct SyncFilter {
    /// The package name the filter selects.
    pub name: String,
    /// The versions it selects, or `None` for no restriction.
    pub version: Option<VersionFilter>,
}

/// The operator starting at position `i`, with its length: `!=` first,
/// then `=`, `>=`, `>`, `<=` and `<`, the two-character forms before
/// their one-character prefixes.
pub open spec fn spec_op_at(s: Seq<char>, i: int) -> Option<(VersionOp, int)>
    recommends
        0 <= i < s.len(),
{
    if i + 2 <= s.len() && s.subrange(i, i + 2) == "!="@ {
        Some((VersionOp::Ne, 2int))
    } else if s[i] == '=' {
        Some((VersionOp::Eq, 1int))
    } else if i + 2 <= s.len() && s.subrange(i, i + 2) == ">="@ {
        Some((VersionOp::Ge, 2int))
    } else if s[i] == '>' {
        Some((VersionOp::Gt, 1int))
    } else if i + 2 <= s.len() && s.subrange(i, i + 2) == "<="@ {
        Some((VersionOp::Le, 2int))
    } else if s[i] == '<' {
        Some((VersionOp::Lt, 1int))
    } else {
        None
    }
}

/// The first position at or after `i` where an operator starts.
pub open spec fn spec_find_op_from(s: Seq<char>, i: nat) -> Option<int>
    decreases s.len() - i,
{
    if i >= s.len() {
        None
    } else if spec_op_at(s, i as int) is Some {
        Some(i as int)
    } else {
        spec_find_op_from(s, i + 1)
    }
}

/// What parsing a filter yields, over the input's characters.
pub open spec fn spec_parse_filter(s: Seq<char>) -> Result<
    (Seq<char>, Option<(Seq<char>, VersionOp)>),
    Seq<char>,
> {
    if s.len() == 0 {
        Err("Empty input"@)
    } else {
        match spec_find_op_from(s, 0) {
            None => Ok((s, None)),
            Some(i) => if i == 0 {
                Err("Missing identifier"@)
            } else {
                let p = spec_op_at(s, i)->0;
                let op = p.0;
                let oplen = p.1;
                let ver = s.subrange(i + oplen, s.len() as int);
                if ver.len() == 0 {
                    Err("Version string is empty"@)
                } else {
                    Ok((s.subrange(0, i), Some((ver, op))))
                }
            },
        }
    }
}

/// The operator starting at position `i` of `s`, with its length.
fn op_at(s: &str, i: usize) -> (r: Option<(VersionOp, usize)>)
    requires
        i < s@.len(),
        s@.len() <= usize::MAX,
    ensures
        (r matches Some(p) ==> spec_op_at(s@, i as int) == Some((p.0, p.1 as int)) && i + p.1
            <= s@.len()),
        (r is None ==> spec_op_at(s@, i as int) is None),
{
    let n = s.unicode_len();
    let c = s.get_char(i);
    let two = i + 1 < n;
    proof {
        reveal_strlit("!=");
        reveal_strlit(">=");
        reveal_strlit("<=");
        if two {
            assert(s@.subrange(i as int, i as int + 2) =~= seq![s@[i as int], s@[i as int + 1]]);
        }
    }
    if c == '!' {
        if two && s.get_char(i + 1) == '=' {
            proof {
                assert(s@.subrange(i as int, i as int + 2) =~= "!="@);
            }
            return Some((VersionOp::Ne, 2));
        }
        None
    } else if c == '=' {
        Some((VersionOp::Eq, 1))
    } else if c == '>' {
        if two && s.get_char(i + 1) == '=' {
            proof {
                assert(s@.subrange(i as int, i as int + 2) =~= ">="@);
            }
            return Some((VersionOp::Ge, 2));
        }
        Some((VersionOp::Gt, 1))
    } else if c == '<' {
        if two && s.get_char(i + 1) == '=' {
            proof {
                assert(s@.subrange(i as int, i as int + 2) =~= "<="@);
            }
            return Some((VersionOp::Le, 2));
        }
        Some((VersionOp::Lt, 1))
    } else {
        None
    }
}

impl SyncFilter {
    /// Parse a package filter.
    ///
    /// Empty input is rejected, as is input that starts with an
    /// operator or ends in one with nothing after it.  `name=*` selects
    /// any version; `name<op>version` selects the versions comparing as
    /// the operator says; a bare name carries no version restriction.
    pub fn parse(input: &str) -> (r: Result<SyncFilter, &'static str>)
        ensures
            (r matches Ok(f) ==> (spec_parse_filter(input@) matches Ok(p) && f.name@ == p.0 && (
            match p.1 {
                Option::None => f.version is None,
                Option::Some((ver, op)) => if op is Eq && ver == "*"@ {
                    f.version == Some(VersionFilter::Any)
                } else {
                    f.version matches Some(VersionFilter::Op(v, o)) && v@ == ver && o == op
                },
            }))),
            (r matches Err(e) ==> (spec_parse_filter(input@) matches Err(m) && e@ == m)),
    {
        let n = input.unicode_len();
        if n == 0 {
            return Err("Empty input");
        }
        let mut i: usize = 0;
        while i < n
            invariant
                n == input@.len(),
                i <= n,
                spec_find_op_from(input@, 0) == spec_find_op_from(input@, i as nat),
                (forall|j: int| 0 <= j < i ==> spec_op_at(input@, j) is None),
            decreases n - i,
        {
            match op_at(input, i) {
                Some((op, oplen)) => {
                    if i == 0 {
                        return Err("Missing identifier");
                    }
                    let name = input.substring_char(0, i);
                    let ver = input.substring_char(i + oplen, n);
                    if ver.unicode_len() == 0 {
                        return Err("Version string is empty");
                    }
                    if matches!(op, VersionOp::Eq) && str_eq(ver, "*") {
                        return Ok(SyncFilter {
                            name: name.to_owned(),
                            version: Some(VersionFilter::Any),
                        });
                    }
                    return Ok(SyncFilter {
                        name: name.to_owned(),
                        version: Some(VersionFilter::Op(ver.to_owned(), op)),
                    });
                },
                None => {
                },
            }
            i = i + 1;
        }
        Ok(SyncFilter { name: input.to_owned(), version: None })
    }
}

impl core::str::FromStr for SyncFilter {
    type Err = &'static str;

    fn from_str(input: &str) -> Result<SyncFilter, Self::Err> {
        SyncFilter::parse(input)
    }
}

} // verus!
