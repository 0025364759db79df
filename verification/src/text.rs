//! Verified text utilities: literal substring replacement (the engine behind
//! message templating), decimal rendering of integers (label uniqueness
//! suffixes), and path-friendly sanitizing of contract names.

use vstd::prelude::*;
use vstd::string::*;

verus! {

/// Left-to-right, non-overlapping replacement of every occurrence of `pat`
/// inside `s` by `rep`. An empty pattern replaces nothing.
pub open spec fn replace_all(s: Seq<char>, pat: Seq<char>, rep: Seq<char>) -> Seq<char>
    decreases s.len(),
{
    if pat.len() == 0 || s.len() < pat.len() {
        s
    } else if s.subrange(0, pat.len() as int) == pat {
        rep + replace_all(s.skip(pat.len() as int), pat, rep)
    } else {
        seq![s[0]] + replace_all(s.skip(1), pat, rep)
    }
}

/// Does `pat` occur in `s` starting at character position `i`?
fn str_eq_at(s: &str, i: usize, pat: &str) -> (b: bool)
    requires
        i + pat@.len() <= s@.len(),
    ensures
        b == (s@.subrange(i as int, i + pat@.len()) == pat@),
{
    let n = s.unicode_len();
    let m = pat.unicode_len();
    let mut j: usize = 0;
    while j < m
        invariant
            i + m <= n,
            n == s@.len(),
            m == pat@.len(),
            j <= m,
            forall|k: int| 0 <= k < j ==> s@[i + k] == pat@[k],
        decreases m - j,
    {
        if s.get_char(i + j) != pat.get_char(j) {
            proof {
                assert(s@.subrange(i as int, i + pat@.len())[j as int] == s@[i + j]);
            }
            return false;
        }
        j = j + 1;
    }
    proof {
        assert(s@.subrange(i as int, i + pat@.len()) =~= pat@);
    }
    true
}

/// Replace every occurrence of `pat` in `s` by `rep`, scanning left to right
/// and never rescanning replaced text.
pub fn replace_all_str(s: &str, pat: &str, rep: &str) -> (r: String)
    requires
        pat@.len() >= 1,
    ensures
        r@ == replace_all(s@, pat@, rep@),
{
    let n = s.unicode_len();
    let m = pat.unicode_len();
    let mut r = String::new();
    let mut i: usize = 0;
    proof {
        assert(s@.skip(0) =~= s@);
        assert(r@ + replace_all(s@, pat@, rep@) =~= replace_all(s@, pat@, rep@));
    }
    while i < n
        invariant
            n == s@.len(),
            m == pat@.len(),
            pat@.len() >= 1,
            i <= n,
            replace_all(s@, pat@, rep@) == r@ + replace_all(s@.skip(i as int), pat@, rep@),
        decreases n - i,
    {
        let ghost suffix = s@.skip(i as int);
        if m <= n - i && str_eq_at(s, i, pat) {
            proof {
                assert(suffix.subrange(0, m as int) =~= s@.subrange(i as int, i + m));
                assert(suffix.skip(m as int) =~= s@.skip(i + m));
                assert(replace_all(suffix, pat@, rep@) == rep@ + replace_all(
                    s@.skip(i + m),
                    pat@,
                    rep@,
                ));
                assert(r@ + replace_all(suffix, pat@, rep@) == (r@ + rep@) + replace_all(
                    s@.skip(i + m),
                    pat@,
                    rep@,
                ));
            }
            r.append(rep);
            i = i + m;
        } else {
            proof {
                if m <= n - i {
                    assert(suffix.subrange(0, m as int) =~= s@.subrange(i as int, i + m));
                    assert(suffix.subrange(0, m as int) != pat@);
                    assert(suffix.skip(1) =~= s@.skip(i + 1));
                    assert(replace_all(suffix, pat@, rep@) == seq![suffix[0]] + replace_all(
                        s@.skip(i + 1),
                        pat@,
                        rep@,
                    ));
                } else {
                    assert(replace_all(suffix, pat@, rep@) == suffix);
                    assert(s@.skip(i + 1).len() < pat@.len());
                    assert(replace_all(s@.skip(i + 1), pat@, rep@) == s@.skip(i + 1));
                    assert(suffix =~= seq![suffix[0]] + s@.skip(i + 1));
                }
                assert(suffix[0] == s@[i as int]);
                assert(seq![s@[i as int]] =~= s@.subrange(i as int, i + 1));
                assert(r@ + replace_all(suffix, pat@, rep@) == (r@ + s@.subrange(i as int, i + 1))
                    + replace_all(s@.skip(i + 1), pat@, rep@));
            }
            let piece = s.substring_char(i, i + 1);
            r.append(piece);
            i = i + 1;
        }
    }
    proof {
        assert(s@.skip(n as int) =~= Seq::<char>::empty());
        assert(replace_all(s@.skip(n as int), pat@, rep@) == Seq::<char>::empty());
        assert(r@ + Seq::<char>::empty() =~= r@);
    }
    r
}

/// Character-wise string equality.
pub fn str_eq(a: &str, b: &str) -> (r: bool)
    ensures
        r == (a@ == b@),
{
    let n = a.unicode_len();
    let m = b.unicode_len();
    if n != m {
        return false;
    }
    let r = str_eq_at(a, 0, b);
    proof {
        assert(a@.subrange(0, 0 + b@.len() as int) =~= a@);
    }
    r
}

/// Does `pat` occur in `s` starting at position `i`?
pub open spec fn contains_at(s: Seq<char>, pat: Seq<char>, i: int) -> bool {
    0 <= i && i + pat.len() <= s.len() && s.subrange(i, i + pat.len()) == pat
}

/// Does `pat` occur anywhere in `s`?
pub open spec fn contains_substr(s: Seq<char>, pat: Seq<char>) -> bool {
    exists|i: int| contains_at(s, pat, i)
}

/// Substring search: does `pat` occur anywhere in `s`?
pub fn contains_str(s: &str, pat: &str) -> (b: bool)
    ensures
        b == contains_substr(s@, pat@),
{
    let n = s.unicode_len();
    let m = pat.unicode_len();
    if m == 0 {
        proof {
            assert(s@.subrange(0, 0) =~= pat@);
            assert(contains_at(s@, pat@, 0));
        }
        return true;
    }
    if m > n {
        proof {
            assert forall|k: int| !contains_at(s@, pat@, k) by {}
        }
        return false;
    }
    let mut i: usize = 0;
    while i <= n - m
        invariant
            n == s@.len(),
            m == pat@.len(),
            1 <= m <= n,
            i <= n - m + 1,
            forall|k: int| 0 <= k < i ==> !contains_at(s@, pat@, k),
        decreases n - m - i + 1,
    {
        if str_eq_at(s, i, pat) {
            proof {
                assert(contains_at(s@, pat@, i as int));
            }
            return true;
        }
        i = i + 1;
    }
    proof {
        assert forall|k: int| !contains_at(s@, pat@, k) by {}
    }
    false
}

/// The character for a single decimal digit.
pub open spec fn spec_digit(d: nat) -> char {
    if d == 0 {
        '0'
    } else if d == 1 {
        '1'
    } else if d == 2 {
        '2'
    } else if d == 3 {
        '3'
    } else if d == 4 {
        '4'
    } else if d == 5 {
        '5'
    } else if d == 6 {
        '6'
    } else if d == 7 {
        '7'
    } else if d == 8 {
        '8'
    } else {
        '9'
    }
}

/// The decimal rendering of `n`, most significant digit first, no leading
/// zeros (except for `n == 0` itself).
pub open spec fn spec_decimal(n: nat) -> Seq<char>
    decreases n,
{
    if n < 10 {
        seq![spec_digit(n)]
    } else {
        spec_decimal(n / 10).push(spec_digit(n % 10))
    }
}

fn digit_str(d: u64) -> (r: &'static str)
    requires
        d < 10,
    ensures
        r@ == seq![spec_digit(d as nat)],
{
    proof {
        reveal_strlit("0");
        reveal_strlit("1");
        reveal_strlit("2");
        reveal_strlit("3");
        reveal_strlit("4");
        reveal_strlit("5");
        reveal_strlit("6");
        reveal_strlit("7");
        reveal_strlit("8");
        reveal_strlit("9");
    }
    let r: &'static str = if d == 0 {
        "0"
    } else if d == 1 {
        "1"
    } else if d == 2 {
        "2"
    } else if d == 3 {
        "3"
    } else if d == 4 {
        "4"
    } else if d == 5 {
        "5"
    } else if d == 6 {
        "6"
    } else if d == 7 {
        "7"
    } else if d == 8 {
        "8"
    } else {
        "9"
    };
    proof {
        assert(r@ =~= seq![spec_digit(d as nat)]);
    }
    r
}

/// Render `n` in decimal.
pub fn u64_to_string(n: u64) -> (r: String)
    ensures
        r@ == spec_decimal(n as nat),
    decreases n,
{
    if n < 10 {
        digit_str(n).to_owned()
    } else {
        let mut r = u64_to_string(n / 10);
        r.append(digit_str(n % 10));
        proof {
            assert(spec_decimal((n / 10) as nat).push(spec_digit((n % 10) as nat))
                =~= spec_decimal((n / 10) as nat) + seq![spec_digit((n % 10) as nat)]);
        }
        r
    }
}

/// Relies on `String::push`: appends the given character to the end of the
/// string.
#[verifier::external_body]
pub fn push_char(s: &mut String, c: char)
    ensures
        final(s)@ == old(s)@ + seq![c],
{
    s.push(c);
}

/// A character that survives path sanitizing: ASCII letters, digits, or an
/// underscore.
pub open spec fn is_word_char(c: char) -> bool {
    (48 <= c as u32 && c as u32 <= 57) || (65 <= c as u32 && c as u32 <= 90) || (97 <= c as u32
        && c as u32 <= 122) || c as u32 == 95
}

/// Keep word characters, turn everything else into an underscore.
pub open spec fn path_char(c: char) -> char {
    if is_word_char(c) {
        c
    } else {
        '_'
    }
}

/// ASCII lowercasing of a single character.
pub open spec fn lower_char(c: char) -> char {
    if 65 <= c as u32 && c as u32 <= 90 {
        ((c as u32 + 32) as u8) as char
    } else {
        c
    }
}

/// Drop every leading underscore.
pub open spec fn trim_start_underscores(s: Seq<char>) -> Seq<char>
    decreases s.len(),
{
    if s.len() > 0 && s[0] == '_' {
        trim_start_underscores(s.skip(1))
    } else {
        s
    }
}

/// Drop every trailing underscore.
pub open spec fn trim_end_underscores(s: Seq<char>) -> Seq<char>
    decreases s.len(),
{
    if s.len() > 0 && s[s.len() - 1] == '_' {
        trim_end_underscores(s.take(s.len() - 1))
    } else {
        s
    }
}

/// A name made safe for use in file paths: non-word characters become
/// underscores, underscores are trimmed from both ends, and the rest is
/// lowercased.
pub open spec fn sanitized_name(s: Seq<char>) -> Seq<char> {
    trim_end_underscores(trim_start_underscores(s.map_values(|c: char| path_char(c)))).map_values(
        |c: char| lower_char(c),
    )
}

proof fn lemma_trim_start_at(s: Seq<char>, k: int)
    requires
        0 <= k <= s.len(),
        forall|j: int| 0 <= j < k ==> s[j] == '_',
        k == s.len() || s[k] != '_',
    ensures
        trim_start_underscores(s) == s.skip(k),
    decreases k,
{
    if k == 0 {
        assert(s.skip(0) =~= s);
    } else {
        lemma_trim_start_at(s.skip(1), k - 1);
        assert(s.skip(1).skip(k - 1) =~= s.skip(k));
    }
}

proof fn lemma_trim_end_at(s: Seq<char>, k: int)
    requires
        0 <= k <= s.len(),
        forall|j: int| k <= j < s.len() ==> s[j] == '_',
        k == 0 || s[k - 1] != '_',
    ensures
        trim_end_underscores(s) == s.take(k),
    decreases s.len(),
{
    if s.len() > 0 && s[s.len() - 1] == '_' {
        lemma_trim_end_at(s.take(s.len() - 1), k);
        assert(s.take(s.len() - 1).take(k) =~= s.take(k));
    } else {
        assert(s.take(s.len() as int) =~= s);
    }
}

fn append_lower(r: &mut String, t: &str, i: usize)
    requires
        i < t@.len(),
    ensures
        final(r)@ == old(r)@ + seq![lower_char(t@[i as int])],
{
    let c = t.get_char(i);
    let u = c as u32;
    let lc: char = if 65 <= u && u <= 90 {
        ((u + 32) as u8) as char
    } else {
        c
    };
    push_char(r, lc);
}

/// Sanitize a contract name for use as a directory and artifact name.
pub fn sanitize_name(s: &str) -> (r: String)
    ensures
        r@ == sanitized_name(s@),
{
    let n = s.unicode_len();
    let mut t = String::new();
    let mut i: usize = 0;
    while i < n
        invariant
            n == s@.len(),
            i <= n,
            t@ =~= s@.subrange(0, i as int).map_values(|c: char| path_char(c)),
        decreases n - i,
    {
        let c = s.get_char(i);
        let u = c as u32;
        let mapped: char = if (48 <= u && u <= 57) || (65 <= u && u <= 90) || (97 <= u && u <= 122)
            || u == 95 {
            c
        } else {
            '_'
        };
        push_char(&mut t, mapped);
        i = i + 1;
        proof {
            assert(t@ =~= s@.subrange(0, i as int).map_values(|c: char| path_char(c)));
        }
    }
    let ghost m = s@.map_values(|c: char| path_char(c));
    proof {
        assert(s@.subrange(0, n as int) =~= s@);
        assert(t@ =~= m);
    }
    let tn = t.as_str().unicode_len();
    let mut start: usize = 0;
    while start < tn && t.as_str().get_char(start) == '_'
        invariant
            tn == t@.len(),
            start <= tn,
            forall|j: int| 0 <= j < start ==> t@[j] == '_',
        decreases tn - start,
    {
        start = start + 1;
    }
    let mut end: usize = tn;
    while end > start && t.as_str().get_char(end - 1) == '_'
        invariant
            tn == t@.len(),
            start <= end <= tn,
            forall|j: int| end <= j < tn ==> t@[j] == '_',
        decreases end,
    {
        end = end - 1;
    }
    proof {
        lemma_trim_start_at(m, start as int);
        lemma_trim_end_at(m.skip(start as int), end - start);
        assert(m.skip(start as int).take(end - start) =~= m.subrange(start as int, end as int));
    }
    let mut r = String::new();
    let mut i: usize = start;
    proof {
        assert(r@ =~= m.subrange(start as int, start as int).map_values(|c: char| lower_char(c)));
    }
    while i < end
        invariant
            tn == t@.len(),
            t@ == m,
            start <= i <= end <= tn,
            r@ =~= m.subrange(start as int, i as int).map_values(|c: char| lower_char(c)),
        decreases end - i,
    {
        append_lower(&mut r, t.as_str(), i);
        i = i + 1;
        proof {
            assert(r@ =~= m.subrange(start as int, i as int).map_values(|c: char| lower_char(c)));
        }
    }
    r
}

} // verus!
