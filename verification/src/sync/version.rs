//! Parsing installed content file names into a package name and a
//! version, and `name=version` pairs from the lock file.

use vstd::prelude::*;

use crate::strutil::join;
use crate::strutil::spec_contains_sub;
use crate::strutil::spec_find;
use crate::strutil::spec_join;
use crate::strutil::spec_rfind;
use crate::strutil::spec_split;
use crate::strutil::spec_trim_end_matches;
use crate::strutil::contains_sub;
use crate::strutil::find_char;
use crate::strutil::rfind_char;
use crate::strutil::split_char;
use crate::strutil::trim_end_matches;
use crate::strutil::lemma_spec_split_peel;
use crate::strutil::lemma_spec_split_len;

verus! {

/// A package name paired with a version.
#[derive(Debug)]
pub struct VersionTuple {
    /// The package name.
    pub name: String,
    /// The version text.
    pub version: String,
}

/// Whether the character is an ASCII digit.
pub open spec fn spec_digit(c: char) -> bool {
    48 <= c as u32 <= 57
}

/// The name taken from a file name without a dash: trailing slashes
/// are dropped, the text after the last remaining slash is taken, and
/// a final extension is removed — keeping a name whole when its only
/// dot leads it.  Where nothing is left, the whole text is the name.
pub open spec fn spec_stem_name(s: Seq<char>) -> Seq<char> {
    let base = spec_trim_end_matches(s, "/"@);
    let fname = match spec_rfind(base, '/') {
        Option::None => base,
        Option::Some(i) => base.subrange(i + 1, base.len() as int),
    };
    if fname.len() == 0 {
        s
    } else {
        match spec_rfind(fname, '.') {
            Option::None => fname,
            Option::Some(i) => if i == 0 {
                fname
            } else {
                fname.subrange(0, i)
            },
        }
    }
}

/// The first segment that starts with a digit, by index.
pub open spec fn spec_first_digit_part(parts: Seq<Seq<char>>) -> Option<int>
    decreases parts.len(),
{
    if parts.len() == 0 {
        None
    } else if parts.first().len() > 0 && spec_digit(parts.first().first()) {
        Some(0)
    } else {
        match spec_first_digit_part(parts.drop_first()) {
            Some(i) => Some(i + 1),
            None => None,
        }
    }
}

/// All the segments run together, in order, with nothing between them.
pub open spec fn spec_concat_all(parts: Seq<Seq<char>>) -> Seq<char>
    decreases parts.len(),
{
    if parts.len() == 0 {
        Seq::empty()
    } else {
        parts.first() + spec_concat_all(parts.drop_first())
    }
}

/// The longest prefix of the segments in which none contains an archive
/// extension.
pub open spec fn spec_take_until_archive(parts: Seq<Seq<char>>) -> Seq<Seq<char>>
    decreases parts.len(),
{
    if parts.len() == 0 {
        Seq::empty()
    } else if spec_contains_sub(parts.first(), ".jar"@) || spec_contains_sub(
        parts.first(),
        ".zip"@,
    ) {
        Seq::empty()
    } else {
        seq![parts.first()] + spec_take_until_archive(parts.drop_first())
    }
}

/// The file name with every trailing `.jar` removed, then every
/// trailing `.zip`.
pub open spec fn spec_trimmed(s: Seq<char>) -> Seq<char> {
    spec_trim_end_matches(spec_trim_end_matches(s, ".jar"@), ".zip"@)
}

/// What parsing a file name yields: the name and version texts, or
/// nothing where a dashed name holds no segment starting with a digit.
pub open spec fn spec_parse_tuple(s: Seq<char>) -> Option<(Seq<char>, Seq<char>)> {
    if spec_find(s, '-') is None {
        Some((spec_stem_name(s), "0.0.0"@))
    } else {
        let ps = spec_split(spec_trimmed(s), '-');
        match spec_first_digit_part(ps) {
            Option::None => None,
            Option::Some(k) => Some(
                (
                    spec_concat_all(ps.take(k)),
                    spec_join(spec_take_until_archive(ps.skip(k)), "-"@),
                ),
            ),
        }
    }
}

/// Appending a segment extends the concatenation by that segment.
proof fn lemma_concat_all_push(parts: Seq<Seq<char>>, x: Seq<char>)
    ensures
        spec_concat_all(parts.push(x)) =~= spec_concat_all(parts) + x,
    decreases parts.len(),
{
    if parts.len() == 0 {
        assert(parts.push(x).drop_first() =~~= parts);
    } else {
        lemma_concat_all_push(parts.drop_first(), x);
        assert(parts.push(x).drop_first() =~~= parts.drop_first().push(x));
    }
}

/// Whether the segment holds an archive extension.
fn has_archive_ext(p: &String) -> (r: bool)
    ensures
        r == (spec_contains_sub(p@, ".jar"@) || spec_contains_sub(p@, ".zip"@)),
{
    contains_sub(p.as_str(), ".jar") || contains_sub(p.as_str(), ".zip")
}

/// The index of the first segment that starts with an ASCII digit.
fn first_digit_part(parts: &Vec<String>) -> (r: Option<usize>)
    ensures
        (r matches Some(k) ==> k < parts@.len() && spec_first_digit_part(
            parts@.map(|i: int, p: String| p@),
        ) == Some(k as int)),
        (r is None ==> spec_first_digit_part(parts@.map(|i: int, p: String| p@)) is None),
{
    let ghost ps = parts@.map(|i: int, p: String| p@);
    let mut k: usize = 0;
    proof {
        assert(ps.skip(0) =~~= ps);
    }
    while k < parts.len()
        invariant
            k <= parts@.len(),
            ps == parts@.map(|i: int, p: String| p@),
            spec_first_digit_part(ps) == (match spec_first_digit_part(ps.skip(k as int)) {
                Option::Some(i) => Some(i + k),
                Option::None => None::<int>,
            }),
        decreases parts@.len() - k,
    {
        proof {
            assert(ps.skip(k as int).first() == ps[k as int]);
            assert(ps.skip(k as int).drop_first() =~~= ps.skip(k as int + 1));
        }
        let part = &parts[k];
        let plen = part.as_str().unicode_len();
        if plen > 0 {
            let c = part.as_str().get_char(0);
            let u = c as u32;
            if 48 <= u && u <= 57 {
                proof {
                    assert(spec_first_digit_part(ps.skip(k as int)) == Some(0int));
                }
                return Some(k);
            }
        }
        k = k + 1;
    }
    proof {
        assert(ps.skip(k as int).len() == 0);
    }
    None
}

impl VersionTuple {
    /// Pair a name with a version.
    pub fn new(name: String, version: String) -> (r: Self)
        ensures
            r == (VersionTuple { name, version }),
    {
        Self { name, version }
    }

    /// Parse an installed file's name.
    ///
    /// A name without a dash becomes the file's stem with the version
    /// `0.0.0`.  Otherwise the name is split on dashes after stripping
    /// trailing `.jar` and `.zip` extensions: the segments before the
    /// first one that starts with a digit run together as the name, and
    /// that segment with what follows it — up to the first segment
    /// holding an archive extension — joins with dashes as the version.
    /// Where no segment starts with a digit there is no version to find.
    pub fn parse(input: &str) -> (r: Option<Self>)
        ensures
            (r is Some <==> spec_parse_tuple(input@) is Some),
            (r matches Some(t) ==> spec_parse_tuple(input@) == Some((t.name@, t.version@))),
            (spec_find(input@, '-') is None ==> (r matches Some(t) && t.name@ == spec_stem_name(
                input@,
            ) && t.version@ == "0.0.0"@)),
            (spec_find(input@, '-') is Some ==> (match spec_first_digit_part(
                spec_split(spec_trimmed(input@), '-'),
            ) {
                Option::None => r is None,
                Option::Some(k) => r matches Some(t) && t.name@ == spec_concat_all(
                    spec_split(spec_trimmed(input@), '-').take(k),
                ) && t.version@ == spec_join(
                    spec_take_until_archive(spec_split(spec_trimmed(input@), '-').skip(k)),
                    "-"@,
                ),
            })),
    {
        let dash = find_char(input, '-');
        if dash.is_none() {
            let base = trim_end_matches(input, "/");
            let bn = base.unicode_len();
            proof {
                crate::strutil::lemma_spec_rfind(base@, '/');
            }
            let fname = match rfind_char(base, '/') {
                None => base,
                Some(i) => base.substring_char(i + 1, bn),
            };
            proof {
                crate::strutil::lemma_spec_rfind(fname@, '.');
            }
            let name = if fname.unicode_len() == 0 {
                input.to_owned()
            } else {
                match rfind_char(fname, '.') {
                    None => fname.to_owned(),
                    Some(i) => if i == 0 {
                        fname.to_owned()
                    } else {
                        fname.substring_char(0, i).to_owned()
                    },
                }
            };
            return Some(Self { name, version: "0.0.0".to_owned() });
        }
        let once = trim_end_matches(input, ".jar");
        let trimmed = trim_end_matches(once, ".zip");
        let parts = split_char(trimmed, '-');
        let ghost ps = spec_split(spec_trimmed(input@), '-');
        proof {
            assert(parts@.map(|i: int, p: String| p@) =~= ps);
        }

        let k: usize = match first_digit_part(&parts) {
            Some(k) => k,
            None => {
                return None;
            },
        };

        let mut name = String::new();
        let mut j: usize = 0;
        proof {
            assert(ps.take(0int) =~~= Seq::<Seq<char>>::empty());
        }
        while j < k
            invariant
                j <= k <= parts@.len(),
                parts@.map(|i: int, p: String| p@) =~= ps,
                name@ =~= spec_concat_all(ps.take(j as int)),
            decreases k - j,
        {
            name.append(parts[j].as_str());
            proof {
                lemma_concat_all_push(ps.take(j as int), ps[j as int]);
                assert(ps.take(j as int + 1) =~~= ps.take(j as int).push(ps[j as int]));
            }
            j = j + 1;
        }

        let mut version_parts: Vec<String> = Vec::new();
        let mut j2: usize = k;
        while j2 < parts.len() && !has_archive_ext(&parts[j2])
            invariant
                k <= j2 <= parts@.len(),
                parts@.map(|i: int, p: String| p@) =~= ps,
                spec_take_until_archive(ps.skip(k as int)) =~~= version_parts@.map(
                    |i: int, p: String| p@,
                ) + spec_take_until_archive(ps.skip(j2 as int)),
            decreases parts@.len() - j2,
        {
            proof {
                assert(ps.skip(j2 as int).first() == ps[j2 as int]);
                assert(ps.skip(j2 as int).drop_first() =~~= ps.skip(j2 as int + 1));
            }
            let part = &parts[j2];
            let ghost before = version_parts@.map(|i: int, p: String| p@);
            version_parts.push(part.clone());
            proof {
                assert(version_parts@.map(|i: int, p: String| p@) =~~= before + seq![
                    ps[j2 as int],
                ]);
            }
            j2 = j2 + 1;
        }
        proof {
            if j2 == parts@.len() {
                assert(ps.skip(j2 as int).len() == 0);
            } else {
                assert(ps.skip(j2 as int).first() == ps[j2 as int]);
            }
            assert(spec_take_until_archive(ps.skip(k as int)) =~~= version_parts@.map(
                |i: int, p: String| p@,
            ));
        }
        let version = join(&version_parts, "-");
        Some(Self { name, version })
    }

    /// Parse a `name=version` pair: the text before the first equals
    /// sign and the text after it, up to the next; without an equals
    /// sign the whole text is the name and the version is empty.
    pub fn parse_eq(input: &str) -> (r: Option<Self>)
        ensures
            (spec_find(input@, '=') is None ==> (r matches Some(t) && t.name@ == input@
                && t.version@ == ""@)),
            (spec_find(input@, '=') is Some ==> (r matches Some(t) && t.name@ == spec_split(
                input@,
                '=',
            )[0] && t.version@ == spec_split(input@, '=')[1])),
    {
        proof {
            lemma_spec_split_peel(input@, '=');
        }
        let eq = find_char(input, '=');
        if eq.is_none() {
            return Some(Self { name: input.to_owned(), version: "".to_owned() });
        }
        let mut parts = split_char(input, '=');
        proof {
            lemma_spec_split_peel(input@, '=');
            let i = spec_find(input@, '=')->0;
            lemma_spec_split_len(input@.subrange(i + 1, input@.len() as int), '=');
        }
        let version = parts.remove(1);
        let name = parts.remove(0);
        Some(Self { name, version })
    }
}

} // verus!
