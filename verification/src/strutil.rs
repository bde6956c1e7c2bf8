//! Verified string utilities: equality, searching, splitting and
//! suffix handling over `&str` views, used by the parsers and the path
//! builders throughout the library.

use vstd::prelude::*;

verus! {

/// Whether two string slices hold the same characters.
pub fn str_eq(a: &str, b: &str) -> (r: bool)
    ensures
        r == (a@ == b@),
{
    let alen = a.unicode_len();
    let blen = b.unicode_len();
    if alen != blen {
        return false;
    }
    let mut k: usize = 0;
    while k < alen
        invariant
            alen == a@.len(),
            blen == b@.len(),
            alen == blen,
            k <= alen,
            forall|i: int| 0 <= i < k ==> a@[i] == b@[i],
        decreases alen - k,
    {
        if a.get_char(k) != b.get_char(k) {
            return false;
        }
        k = k + 1;
    }
    proof {
        assert(a@ =~= b@);
    }
    true
}

/// The smallest index where `c` occurs in `s`, if any.
pub open spec fn spec_find(s: Seq<char>, c: char) -> Option<int>
    decreases s.len(),
{
    if s.len() == 0 {
        None
    } else if s.first() == c {
        Some(0)
    } else {
        match spec_find(s.drop_first(), c) {
            Some(i) => Some(i + 1),
            None => None,
        }
    }
}

/// What `spec_find` returns is the first occurrence.
pub proof fn lemma_spec_find(s: Seq<char>, c: char)
    ensures
        (spec_find(s, c) matches Some(i) ==> 0 <= i < s.len() && s[i] == c && (forall|j: int|
            0 <= j < i ==> s[j] != c)),
        (spec_find(s, c) is None ==> forall|j: int| 0 <= j < s.len() ==> s[j] != c),
    decreases s.len(),
{
    if s.len() > 0 && s.first() != c {
        lemma_spec_find(s.drop_first(), c);
        match spec_find(s.drop_first(), c) {
            Some(i0) => {
                assert(s[i0 + 1] == s.drop_first()[i0]);
                assert forall|j: int| 0 <= j < i0 + 1 implies s[j] != c by {
                    if j > 0 {
                        assert(s[j] == s.drop_first()[j - 1]);
                    }
                }
            },
            None => {
                assert forall|j: int| 0 <= j < s.len() implies s[j] != c by {
                    if j > 0 {
                        assert(s[j] == s.drop_first()[j - 1]);
                    }
                }
            },
        }
    }
}

/// The smallest index where `c` occurs in `s`, or `None`.
pub fn find_char(s: &str, c: char) -> (r: Option<usize>)
    ensures
        (r matches Some(i) ==> i < s@.len() && s@[i as int] == c && (forall|j: int|
            0 <= j < i ==> s@[j] != c)),
        (r is None ==> forall|j: int| 0 <= j < s@.len() ==> s@[j] != c),
        (r matches Some(i) ==> spec_find(s@, c) == Some(i as int)),
        (r is None ==> spec_find(s@, c) is None),
{
    proof {
        lemma_spec_find(s@, c);
    }
    let n = s.unicode_len();
    let mut k: usize = 0;
    while k < n
        invariant
            n == s@.len(),
            k <= n,
            forall|j: int| 0 <= j < k ==> s@[j] != c,
        decreases n - k,
    {
        if s.get_char(k) == c {
            proof {
                lemma_find_unique(s@, c, k as int);
            }
            return Some(k);
        }
        k = k + 1;
    }
    proof {
        lemma_find_unique_none(s@, c);
    }
    None
}

/// A position that holds `c` with none before it is what `spec_find`
/// returns.
proof fn lemma_find_unique(s: Seq<char>, c: char, i: int)
    requires
        0 <= i < s.len(),
        s[i] == c,
        forall|j: int| 0 <= j < i ==> s[j] != c,
    ensures
        spec_find(s, c) == Some(i),
    decreases s.len(),
{
    if i > 0 {
        lemma_find_unique(s.drop_first(), c, i - 1);
    }
}

/// Where no position holds `c`, `spec_find` returns `None`.
proof fn lemma_find_unique_none(s: Seq<char>, c: char)
    requires
        forall|j: int| 0 <= j < s.len() ==> s[j] != c,
    ensures
        spec_find(s, c) is None,
    decreases s.len(),
{
    if s.len() > 0 {
        lemma_find_unique_none(s.drop_first(), c);
    }
}

/// Whether `c` occurs anywhere in `s`.
pub fn contains_char(s: &str, c: char) -> (r: bool)
    ensures
        r == (exists|j: int| 0 <= j < s@.len() && s@[j] == c),
{
    proof {
        lemma_spec_find(s@, c);
    }
    match find_char(s, c) {
        Some(_) => true,
        None => false,
    }
}

/// The segments of `s` between occurrences of `c`: splitting never
/// yields an empty list, and joining the segments with `c` gives `s`
/// back.
pub open spec fn spec_split(s: Seq<char>, c: char) -> Seq<Seq<char>>
    decreases s.len(),
{
    if s.len() == 0 {
        seq![Seq::<char>::empty()]
    } else {
        let rest = spec_split(s.drop_first(), c);
        if s.first() == c {
            seq![Seq::<char>::empty()] + rest
        } else {
            seq![seq![s.first()] + rest.first()] + rest.drop_first()
        }
    }
}

/// Splitting yields at least one segment.
pub proof fn lemma_spec_split_len(s: Seq<char>, c: char)
    ensures
        spec_split(s, c).len() >= 1,
    decreases s.len(),
{
    if s.len() > 0 {
        lemma_spec_split_len(s.drop_first(), c);
    }
}

/// Splitting peels off the text before the first separator: where `c`
/// does not occur the whole of `s` is the one segment, and where its
/// first occurrence is at `i`, the segments are `s` up to `i` followed
/// by the segments of what comes after `i`.
pub proof fn lemma_spec_split_peel(s: Seq<char>, c: char)
    ensures
        (spec_find(s, c) is None ==> spec_split(s, c) == seq![s]),
        (spec_find(s, c) matches Some(i) ==> 0 <= i < s.len() && spec_split(s, c) == seq![
            s.subrange(0, i),
        ] + spec_split(s.subrange(i + 1, s.len() as int), c)),
    decreases s.len(),
{
    lemma_spec_find(s, c);
    if s.len() == 0 {
        assert(spec_split(s, c) =~~= seq![s]);
    } else if s.first() == c {
        assert(s.subrange(0, 0) =~= Seq::<char>::empty());
        assert(s.subrange(1, s.len() as int) =~= s.drop_first());
        assert(spec_split(s, c) =~~= seq![s.subrange(0, 0)] + spec_split(
            s.subrange(1, s.len() as int),
            c,
        ));
    } else {
        lemma_spec_split_peel(s.drop_first(), c);
        lemma_spec_split_len(s.drop_first(), c);
        let rest = spec_split(s.drop_first(), c);
        match spec_find(s.drop_first(), c) {
            None => {
                assert(rest == seq![s.drop_first()]);
                assert(seq![s.first()] + rest.first() =~= s);
                assert(spec_split(s, c) =~~= seq![s]);
            },
            Some(i0) => {
                let i = i0 + 1;
                assert(rest == seq![s.drop_first().subrange(0, i0)] + spec_split(
                    s.drop_first().subrange(i0 + 1, s.len() - 1),
                    c,
                ));
                assert(seq![s.first()] + rest.first() =~= s.subrange(0, i));
                assert(s.drop_first().subrange(i0 + 1, s.len() - 1) =~= s.subrange(
                    i + 1,
                    s.len() as int,
                ));
                assert(rest.drop_first() =~~= spec_split(s.subrange(i + 1, s.len() as int), c));
                assert(spec_split(s, c) =~~= seq![s.subrange(0, i)] + spec_split(
                    s.subrange(i + 1, s.len() as int),
                    c,
                ));
            },
        }
    }
}

/// The segments of `s` between occurrences of `c`, in order.
pub fn split_char(s: &str, c: char) -> (r: Vec<String>)
    ensures
        r@.len() == spec_split(s@, c).len(),
        forall|k: int| 0 <= k < r@.len() ==> r@[k]@ == spec_split(s@, c)[k],
    decreases s@.len(),
{
    proof {
        lemma_spec_split_peel(s@, c);
    }
    match find_char(s, c) {
        None => {
            let mut r: Vec<String> = Vec::new();
            r.push(s.to_owned());
            r
        },
        Some(i) => {
            let n = s.unicode_len();
            let head = s.substring_char(0, i);
            let tail = s.substring_char(i + 1, n);
            let mut r: Vec<String> = Vec::new();
            r.push(head.to_owned());
            let mut rest = split_char(tail, c);
            r.append(&mut rest);
            proof {
                assert forall|k: int| 0 <= k < r@.len() implies r@[k]@ == spec_split(s@, c)[k] by {
                    if k > 0 {
                        assert(r@[k]@ == spec_split(tail@, c)[k - 1]);
                    }
                }
            }
            r
        },
    }
}

/// The largest index where `c` occurs in `s`, if any.
pub open spec fn spec_rfind(s: Seq<char>, c: char) -> Option<int>
    decreases s.len(),
{
    if s.len() == 0 {
        None
    } else if s.last() == c {
        Some(s.len() - 1)
    } else {
        spec_rfind(s.drop_last(), c)
    }
}

/// What `spec_rfind` returns is the last occurrence.
pub proof fn lemma_spec_rfind(s: Seq<char>, c: char)
    ensures
        (spec_rfind(s, c) matches Some(i) ==> 0 <= i < s.len() && s[i] == c && (forall|j: int|
            i < j < s.len() ==> s[j] != c)),
        (spec_rfind(s, c) is None ==> forall|j: int| 0 <= j < s.len() ==> s[j] != c),
    decreases s.len(),
{
    if s.len() > 0 && s.last() != c {
        lemma_spec_rfind(s.drop_last(), c);
        match spec_rfind(s.drop_last(), c) {
            Some(i) => {
                assert forall|j: int| i < j < s.len() implies s[j] != c by {
                    if j < s.len() - 1 {
                        assert(s[j] == s.drop_last()[j]);
                    }
                }
            },
            None => {
                assert forall|j: int| 0 <= j < s.len() implies s[j] != c by {
                    if j < s.len() - 1 {
                        assert(s[j] == s.drop_last()[j]);
                    }
                }
            },
        }
    }
}

/// The largest index where `c` occurs in `s`, or `None`.
pub fn rfind_char(s: &str, c: char) -> (r: Option<usize>)
    ensures
        (r matches Some(i) ==> spec_rfind(s@, c) == Some(i as int)),
        (r is None ==> spec_rfind(s@, c) is None),
{
    let n = s.unicode_len();
    let mut k: usize = n;
    proof {
        assert(s@.take(n as int) =~= s@);
    }
    while k > 0
        invariant
            n == s@.len(),
            k <= n,
            spec_rfind(s@, c) == spec_rfind(s@.take(k as int), c),
        decreases k,
    {
        proof {
            assert(s@.take(k as int).drop_last() =~= s@.take(k as int - 1));
            assert(s@.take(k as int).last() == s@[k - 1]);
        }
        if s.get_char(k - 1) == c {
            proof {
                assert(s@.take(k as int).len() == k);
            }
            return Some(k - 1);
        }
        k = k - 1;
    }
    proof {
        assert(s@.take(0).len() == 0);
    }
    None
}

/// Whether `pat` occurs in `s` as a contiguous run of characters.
pub open spec fn spec_contains_sub(s: Seq<char>, pat: Seq<char>) -> bool {
    exists|i: int| 0 <= i <= s.len() - pat.len() && #[trigger] s.subrange(i, i + pat.len()) == pat
}

/// Whether `pat` occurs anywhere in `s`.
pub fn contains_sub(s: &str, pat: &str) -> (r: bool)
    ensures
        r == spec_contains_sub(s@, pat@),
{
    let n = s.unicode_len();
    let m = pat.unicode_len();
    if m > n {
        return false;
    }
    if m == 0 {
        proof {
            assert(s@.subrange(0, 0 + pat@.len() as int) =~= pat@);
        }
        return true;
    }
    let mut k: usize = 0;
    while k <= n - m
        invariant
            n == s@.len(),
            m == pat@.len(),
            0 < m <= n,
            k <= n - m + 1,
            forall|i: int| 0 <= i < k ==> #[trigger] s@.subrange(i, i + pat@.len()) != pat@,
        decreases n - m - k + 1,
    {
        let window = s.substring_char(k, k + m);
        if str_eq(window, pat) {
            proof {
                assert(s@.subrange(k as int, k as int + pat@.len()) == pat@);
            }
            return true;
        }
        k = k + 1;
    }
    false
}

/// Whether `s` ends with the characters of `suffix`.
pub open spec fn spec_ends_with(s: Seq<char>, suffix: Seq<char>) -> bool {
    s.len() >= suffix.len() && s.subrange(s.len() - suffix.len(), s.len() as int) == suffix
}

/// Whether `s` ends with `suffix`.
pub fn ends_with(s: &str, suffix: &str) -> (r: bool)
    ensures
        r == spec_ends_with(s@, suffix@),
{
    let n = s.unicode_len();
    let m = suffix.unicode_len();
    if n < m {
        return false;
    }
    let tail = s.substring_char(n - m, n);
    str_eq(tail, suffix)
}

/// `s` without `suffix`, as often as it ends with it.
pub open spec fn spec_trim_end_matches(s: Seq<char>, suffix: Seq<char>) -> Seq<char>
    decreases s.len(),
{
    if suffix.len() > 0 && spec_ends_with(s, suffix) {
        spec_trim_end_matches(s.subrange(0, s.len() - suffix.len()), suffix)
    } else {
        s
    }
}

/// Remove `suffix` from the end of `s`, repeatedly, as long as it is
/// there.
pub fn trim_end_matches<'a>(s: &'a str, suffix: &str) -> (r: &'a str)
    ensures
        r@ == spec_trim_end_matches(s@, suffix@),
    decreases s@.len(),
{
    let m = suffix.unicode_len();
    if m == 0 {
        return s;
    }
    if ends_with(s, suffix) {
        let n = s.unicode_len();
        let shorter = s.substring_char(0, n - m);
        trim_end_matches(shorter, suffix)
    } else {
        s
    }
}

/// Whether the character is ASCII whitespace.
pub open spec fn spec_ws_char(c: char) -> bool {
    c == ' ' || c == '\t' || c == '\n' || c == '\r' || c as u32 == 12
}

/// Whether the text holds nothing but ASCII whitespace.
pub open spec fn spec_blank(s: Seq<char>) -> bool {
    forall|i: int| 0 <= i < s.len() ==> spec_ws_char(s[i])
}

/// Whether the text holds nothing but ASCII whitespace.
pub fn is_blank(s: &str) -> (r: bool)
    ensures
        r == spec_blank(s@),
{
    let n = s.unicode_len();
    let mut k: usize = 0;
    while k < n
        invariant
            n == s@.len(),
            k <= n,
            forall|i: int| 0 <= i < k ==> spec_ws_char(s@[i]),
        decreases n - k,
    {
        let c = s.get_char(k);
        let u = c as u32;
        if !(c == ' ' || c == '\t' || c == '\n' || c == '\r' || u == 12) {
            return false;
        }
        k = k + 1;
    }
    true
}

/// The text after the last slash, or the whole text without one.
pub open spec fn spec_last_segment(s: Seq<char>) -> Seq<char> {
    match spec_rfind(s, '/') {
        Option::None => s,
        Option::Some(i) => s.subrange(i + 1, s.len() as int),
    }
}

/// The text after the last slash, or the whole text without one.
pub fn last_segment<'a>(s: &'a str) -> (r: &'a str)
    ensures
        r@ == spec_last_segment(s@),
{
    proof {
        lemma_spec_rfind(s@, '/');
    }
    let n = s.unicode_len();
    match rfind_char(s, '/') {
        None => s,
        Some(i) => s.substring_char(i + 1, n),
    }
}

/// Whether `s` starts with the characters of `prefix`.
pub open spec fn spec_starts_with(s: Seq<char>, prefix: Seq<char>) -> bool {
    s.len() >= prefix.len() && s.subrange(0, prefix.len() as int) == prefix
}

/// Whether `s` starts with `prefix`.
pub fn starts_with(s: &str, prefix: &str) -> (r: bool)
    ensures
        r == spec_starts_with(s@, prefix@),
{
    let n = s.unicode_len();
    let m = prefix.unicode_len();
    if n < m {
        return false;
    }
    let head = s.substring_char(0, m);
    str_eq(head, prefix)
}

/// `s` without `prefix`, as often as it starts with it.
pub open spec fn spec_trim_start_matches(s: Seq<char>, prefix: Seq<char>) -> Seq<char>
    decreases s.len(),
{
    if prefix.len() > 0 && spec_starts_with(s, prefix) {
        spec_trim_start_matches(s.subrange(prefix.len() as int, s.len() as int), prefix)
    } else {
        s
    }
}

/// Remove `prefix` from the start of `s`, repeatedly, as long as it is
/// there.
pub fn trim_start_matches<'a>(s: &'a str, prefix: &str) -> (r: &'a str)
    ensures
        r@ == spec_trim_start_matches(s@, prefix@),
    decreases s@.len(),
{
    let m = prefix.unicode_len();
    if m == 0 {
        return s;
    }
    if starts_with(s, prefix) {
        let n = s.unicode_len();
        let shorter = s.substring_char(m, n);
        trim_start_matches(shorter, prefix)
    } else {
        s
    }
}

/// `s` without its trailing ASCII whitespace.
pub open spec fn spec_trim_ws_end(s: Seq<char>) -> Seq<char>
    decreases s.len(),
{
    if s.len() > 0 && spec_ws_char(s.last()) {
        spec_trim_ws_end(s.drop_last())
    } else {
        s
    }
}

/// Remove trailing ASCII whitespace.
pub fn trim_ws_end<'a>(s: &'a str) -> (r: &'a str)
    ensures
        r@ == spec_trim_ws_end(s@),
    decreases s@.len(),
{
    let n = s.unicode_len();
    if n == 0 {
        return s;
    }
    let c = s.get_char(n - 1);
    let u = c as u32;
    if c == ' ' || c == '\t' || c == '\n' || c == '\r' || u == 12 {
        let shorter = s.substring_char(0, n - 1);
        proof {
            assert(shorter@ =~= s@.drop_last());
        }
        trim_ws_end(shorter)
    } else {
        s
    }
}

/// The concatenation of the segments, joined by `sep`.
pub open spec fn spec_join(parts: Seq<Seq<char>>, sep: Seq<char>) -> Seq<char>
    decreases parts.len(),
{
    if parts.len() == 0 {
        Seq::empty()
    } else if parts.len() == 1 {
        parts.first()
    } else {
        parts.first() + sep + spec_join(parts.drop_first(), sep)
    }
}

/// Join the segments with `sep` between them.
pub fn join(parts: &Vec<String>, sep: &str) -> (r: String)
    ensures
        r@ == spec_join(parts@.map(|i: int, p: String| p@), sep@),
{
    let ghost views = parts@.map(|i: int, p: String| p@);
    let mut r = String::new();
    let mut k: usize = 0;
    while k < parts.len()
        invariant
            k <= parts@.len(),
            views == parts@.map(|i: int, p: String| p@),
            r@ == spec_join_prefix(views, sep@, k as int),
        decreases parts@.len() - k,
    {
        if k > 0 {
            r.append(sep);
        }
        r.append(parts[k].as_str());
        proof {
            lemma_spec_join_prefix(views, sep@, k as int + 1);
        }
        k = k + 1;
    }
    proof {
        lemma_spec_join_prefix_full(views, sep@);
    }
    r
}

/// The join of the first `k` segments.
pub open spec fn spec_join_prefix(parts: Seq<Seq<char>>, sep: Seq<char>, k: int) -> Seq<char>
    decreases k,
{
    if k <= 0 {
        Seq::empty()
    } else if k == 1 {
        parts[0]
    } else {
        spec_join_prefix(parts, sep, k - 1) + sep + parts[k - 1]
    }
}

/// Extending the prefix join by one segment appends a separator and the
/// segment.
proof fn lemma_spec_join_prefix(parts: Seq<Seq<char>>, sep: Seq<char>, k: int)
    requires
        1 <= k,
    ensures
        k == 1 ==> spec_join_prefix(parts, sep, k) =~= parts[0],
        k > 1 ==> spec_join_prefix(parts, sep, k) =~= spec_join_prefix(parts, sep, k - 1) + sep
            + parts[k - 1],
{
}

/// The prefix join of all segments is the join.
proof fn lemma_spec_join_prefix_full(parts: Seq<Seq<char>>, sep: Seq<char>)
    ensures
        spec_join_prefix(parts, sep, parts.len() as int) =~= spec_join(parts, sep),
    decreases parts.len(),
{
    if parts.len() > 1 {
        lemma_spec_join_prefix_full(parts.drop_first(), sep);
        lemma_join_prefix_shift(parts, sep, parts.len() as int);
    }
}

/// Prefix joins of `parts` relate to prefix joins of its tail.
proof fn lemma_join_prefix_shift(parts: Seq<Seq<char>>, sep: Seq<char>, k: int)
    requires
        parts.len() >= 2,
        2 <= k <= parts.len(),
    ensures
        spec_join_prefix(parts, sep, k) =~= parts[0] + sep + spec_join_prefix(
            parts.drop_first(),
            sep,
            k - 1,
        ),
    decreases k,
{
    if k == 2 {
        assert(spec_join_prefix(parts, sep, 1) == parts[0]);
        assert(spec_join_prefix(parts.drop_first(), sep, 1) == parts.drop_first()[0]);
        assert(parts.drop_first()[0] == parts[1]);
    } else {
        lemma_join_prefix_shift(parts, sep, k - 1);
        assert(parts.drop_first()[k - 2] == parts[k - 1]);
    }
}

} // verus!
