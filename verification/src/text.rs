//! Character-level text operations: substring search, replacement,
//! ASCII case folding and trimming, each specified over `Seq<char>`.
use vstd::prelude::*;

verus! {

/// The texts of a sequence of strings.
pub open spec fn string_views(v: Seq<String>) -> Seq<Seq<char>> {
    v.map_values(|s: String| s@)
}

/// The text of an optional string.
pub open spec fn opt_text_view(n: Option<String>) -> Option<Seq<char>> {
    match n {
        Some(s) => Some(s@),
        None => None,
    }
}

/// `pat` occurs in `s` starting at index `i`.
pub open spec fn occurs_at(s: Seq<char>, pat: Seq<char>, i: int) -> bool {
    0 <= i && i + pat.len() <= s.len() && s.subrange(i, i + pat.len()) == pat
}

/// `pat` occurs somewhere in `s` (the empty pattern occurs in every text).
pub open spec fn occurs(s: Seq<char>, pat: Seq<char>) -> bool {
    exists|i: int| occurs_at(s, pat, i)
}

/// No character of `a` is a character of `b`.
pub open spec fn disjoint_chars(a: Seq<char>, b: Seq<char>) -> bool {
    forall|i: int, j: int| 0 <= i < a.len() && 0 <= j < b.len() ==> a[i] != b[j]
}

/// Every non-overlapping occurrence of `pat`, found from left to right,
/// replaced by `rep`; the text is unchanged when `pat` is empty.
pub open spec fn replace_all(s: Seq<char>, pat: Seq<char>, rep: Seq<char>) -> Seq<char>
    decreases s.len(),
{
    if pat.len() == 0 || s.len() < pat.len() {
        s
    } else if s.take(pat.len() as int) == pat {
        rep + replace_all(s.skip(pat.len() as int), pat, rep)
    } else {
        seq![s[0]] + replace_all(s.skip(1), pat, rep)
    }
}

/// ASCII upper-case letters mapped to lower case; every other character kept.
pub open spec fn lower_char(c: char) -> char {
    if 'A' <= c && c <= 'Z' {
        ((c as u32) + 32) as char
    } else {
        c
    }
}

pub open spec fn lower_ascii(s: Seq<char>) -> Seq<char> {
    s.map_values(|c: char| lower_char(c))
}

/// The whitespace characters that `str::trim` removes (Unicode `White_Space`).
pub open spec fn is_space(c: char) -> bool {
    c == ' ' || c == '\t' || c == '\n' || c == '\r' || c == '\u{0B}' || c == '\u{0C}'
        || c == '\u{85}' || c == '\u{A0}' || c == '\u{1680}' || ('\u{2000}' <= c && c
        <= '\u{200A}') || c == '\u{2028}' || c == '\u{2029}' || c == '\u{202F}' || c
        == '\u{205F}' || c == '\u{3000}'
}

/// The text contains a character that is not white space.
pub open spec fn has_non_space(s: Seq<char>) -> bool {
    exists|i: int| 0 <= i < s.len() && !is_space(s[i])
}

/// `pre` is a prefix of `s`.
pub open spec fn starts_with(s: Seq<char>, pre: Seq<char>) -> bool {
    pre.len() <= s.len() && s.take(pre.len() as int) == pre
}

#[verifier::external_body]
fn push_char(s: &mut String, c: char)
    ensures
        final(s)@ == old(s)@.push(c),
{
    s.push(c);
}

/// The characters of a string slice, in order.
pub fn chars_of(s: &str) -> (v: Vec<char>)
    ensures
        v@ == s@,
{
    let mut v: Vec<char> = Vec::new();
    for c in it: s.chars()
        invariant
            v@ == it.seq().take(it.index() as int),
            it.seq() == s@,
    {
        v.push(c);
    }
    v
}

/// A string holding exactly the given characters.
pub fn string_of(v: &[char]) -> (s: String)
    ensures
        s@ == v@,
{
    let mut s = String::new();
    let mut i: usize = 0;
    while i < v.len()
        invariant
            i <= v.len(),
            s@ == v@.take(i as int),
        decreases v.len() - i,
    {
        push_char(&mut s, v[i]);
        assert(v@.take(i as int).push(v[i as int]) =~= v@.take(i + 1));
        i = i + 1;
    }
    assert(v@.take(v.len() as int) =~= v@);
    s
}

/// An owned copy of a string slice.
pub fn owned(s: &str) -> (r: String)
    ensures
        r@ == s@,
{
    s.to_string()
}


/// The character with ASCII upper-case letters mapped to lower case.
pub fn lower_char_exec(c: char) -> (r: char)
    ensures
        r == lower_char(c),
{
    if 'A' <= c && c <= 'Z' {
        let b: u8 = (c as u32 + 32) as u8;
        b as char
    } else {
        c
    }
}

/// `s` with ASCII letters folded to lower case.
pub fn lower_ascii_exec(s: &Vec<char>) -> (r: Vec<char>)
    ensures
        r@ == lower_ascii(s@),
{
    let mut r: Vec<char> = Vec::new();
    let mut i: usize = 0;
    while i < s.len()
        invariant
            i <= s.len(),
            r@ == lower_ascii(s@.take(i as int)),
        decreases s.len() - i,
    {
        let c = lower_char_exec(s[i]);
        r.push(c);
        assert(lower_ascii(s@.take(i + 1)) =~= lower_ascii(s@.take(i as int)).push(c));
        i = i + 1;
    }
    assert(s@.take(s.len() as int) =~= s@);
    r
}

/// Whether `pat` occurs in `s` at index `i`.
pub fn occurs_at_exec(s: &Vec<char>, pat: &Vec<char>, i: usize) -> (r: bool)
    ensures
        r == occurs_at(s@, pat@, i as int),
{
    if i > s.len() || pat.len() > s.len() - i {
        return false;
    }
    let mut k: usize = 0;
    while k < pat.len()
        invariant
            k <= pat.len(),
            i + pat.len() <= s.len(),
            forall|j: int| 0 <= j < k ==> s@[i + j] == pat@[j],
        decreases pat.len() - k,
    {
        if s[i + k] != pat[k] {
            assert(s@.subrange(i as int, i + pat.len())[k as int] != pat@[k as int]);
            return false;
        }
        k = k + 1;
    }
    assert(s@.subrange(i as int, i + pat.len()) =~= pat@);
    true
}

/// Whether `pat` occurs anywhere in `s`.
pub fn contains_exec(s: &Vec<char>, pat: &Vec<char>) -> (r: bool)
    ensures
        r == occurs(s@, pat@),
{
    if pat.len() > s.len() {
        assert(!occurs(s@, pat@));
        return false;
    }
    let last = s.len() - pat.len();
    let mut i: usize = 0;
    loop
        invariant
            last == s.len() - pat.len(),
            pat.len() <= s.len(),
            i <= last,
            forall|j: int| 0 <= j < i ==> !occurs_at(s@, pat@, j),
        decreases last - i,
    {
        if occurs_at_exec(s, pat, i) {
            return true;
        }
        if i == last {
            proof {
                lemma_no_occurrence(s@, pat@);
            }
            return false;
        }
        i = i + 1;
    }
}

proof fn lemma_no_occurrence(s: Seq<char>, pat: Seq<char>)
    requires
        pat.len() <= s.len(),
        forall|j: int| 0 <= j <= s.len() - pat.len() ==> !occurs_at(s, pat, j),
    ensures
        !occurs(s, pat),
{
}

/// Whether `s` begins with `pre`.
pub fn starts_with_exec(s: &Vec<char>, pre: &Vec<char>) -> (r: bool)
    ensures
        r == starts_with(s@, pre@),
{
    let r = occurs_at_exec(s, pre, 0);
    assert(s@.take(pre.len() as int) =~= s@.subrange(0, pre.len() as int));
    r
}

/// `s` with every left-to-right, non-overlapping occurrence of `pat` replaced by `rep`.
pub fn replace_all_exec(s: &Vec<char>, pat: &Vec<char>, rep: &Vec<char>) -> (r: Vec<char>)
    ensures
        r@ == replace_all(s@, pat@, rep@),
{
    if pat.len() == 0 {
        let mut out: Vec<char> = Vec::new();
        let mut j: usize = 0;
        while j < s.len()
            invariant
                j <= s.len(),
                out@ == s@.take(j as int),
            decreases s.len() - j,
        {
            out.push(s[j]);
            assert(s@.take(j as int).push(s@[j as int]) =~= s@.take(j + 1));
            j = j + 1;
        }
        assert(s@.take(s.len() as int) =~= s@);
        return out;
    }
    let mut out: Vec<char> = Vec::new();
    let mut i: usize = 0;
    assert(s@.skip(0) =~= s@);
    while i < s.len()
        invariant
            i <= s.len(),
            pat.len() > 0,
            out@ + replace_all(s@.skip(i as int), pat@, rep@) == replace_all(s@, pat@, rep@),
        decreases s.len() - i,
    {
        let ghost rest = s@.skip(i as int);
        if occurs_at_exec(s, pat, i) {
            assert(rest.take(pat.len() as int) =~= s@.subrange(i as int, i + pat.len()));
            assert(rest.skip(pat.len() as int) =~= s@.skip(i + pat.len()));
            let mut k: usize = 0;
            let ghost before = out@;
            while k < rep.len()
                invariant
                    k <= rep.len(),
                    out@ == before + rep@.take(k as int),
                decreases rep.len() - k,
            {
                out.push(rep[k]);
                assert(rep@.take(k as int).push(rep@[k as int]) =~= rep@.take(k + 1));
                assert((before + rep@.take(k as int)).push(rep@[k as int]) =~= before + rep@.take(k + 1));
                k = k + 1;
            }
            assert(rep@.take(rep.len() as int) =~= rep@);
            assert(before + (rep@ + replace_all(s@.skip(i + pat.len()), pat@, rep@)) =~= (before + rep@) + replace_all(s@.skip(i + pat.len()), pat@, rep@));
            i = i + pat.len();
        } else {
            let ghost before = out@;
            if s.len() - i >= pat.len() {
                assert(rest.take(pat.len() as int) =~= s@.subrange(i as int, i + pat.len()));
                assert(rest.skip(1) =~= s@.skip(i + 1));
                assert(rest[0] == s@[i as int]);
                assert(before + (seq![s@[i as int]] + replace_all(s@.skip(i + 1), pat@, rep@)) =~= before.push(s@[i as int]) + replace_all(s@.skip(i + 1), pat@, rep@));
                out.push(s[i]);
                i = i + 1;
            } else {
                // too short for another match: the remainder is copied as is
                assert(replace_all(rest, pat@, rep@) == rest);
                let mut j: usize = i;
                while j < s.len()
                    invariant
                        i <= j <= s.len(),
                        out@ == before + s@.subrange(i as int, j as int),
                    decreases s.len() - j,
                {
                    out.push(s[j]);
                    assert(s@.subrange(i as int, j as int).push(s@[j as int]) =~= s@.subrange(i as int, j + 1));
                    assert((before + s@.subrange(i as int, j as int)).push(s@[j as int]) =~= before + s@.subrange(i as int, j + 1));
                    j = j + 1;
                }
                assert(s@.subrange(i as int, s.len() as int) =~= rest);
                assert(s@.skip(s.len() as int) =~= Seq::<char>::empty());
                assert(out@ + replace_all(s@.skip(s.len() as int), pat@, rep@) =~= out@);
                i = s.len();
            }
        }
    }
    assert(s@.skip(s.len() as int) =~= Seq::<char>::empty());
    assert(out@ + replace_all(s@.skip(s.len() as int), pat@, rep@) =~= out@);
    out
}

/// Whether `s` holds a character that is not white space.
pub fn has_non_space_exec(s: &Vec<char>) -> (r: bool)
    ensures
        r == has_non_space(s@),
{
    let mut i: usize = 0;
    while i < s.len()
        invariant
            i <= s.len(),
            forall|j: int| 0 <= j < i ==> is_space(#[trigger] s@[j]),
        decreases s.len() - i,
    {
        let c = s[i];
        let space = c == ' ' || c == '\t' || c == '\n' || c == '\r' || c == '\u{0B}' || c == '\u{0C}'
            || c == '\u{85}' || c == '\u{A0}' || c == '\u{1680}' || ('\u{2000}' <= c && c
            <= '\u{200A}') || c == '\u{2028}' || c == '\u{2029}' || c == '\u{202F}' || c
            == '\u{205F}' || c == '\u{3000}';
        if !space {
            return true;
        }
        i = i + 1;
    }
    false
}


/// A character of `replace_all(t, pat, rep)` either continues the unchanged
/// prefix of `t`, or some character up to it comes from `rep`.
pub proof fn lemma_replace_prefix(t: Seq<char>, pat: Seq<char>, rep: Seq<char>, j: int)
    requires
        pat.len() > 0,
        rep.len() > 0,
        0 <= j < replace_all(t, pat, rep).len(),
    ensures
        (j < t.len() && forall|m: int| 0 <= m <= j ==> replace_all(t, pat, rep)[m] == t[m])
            || exists|m: int| 0 <= m <= j && rep.contains(replace_all(t, pat, rep)[m]),
    decreases t.len(),
{
    let out = replace_all(t, pat, rep);
    if t.len() < pat.len() {
    } else if t.take(pat.len() as int) == pat {
        assert(out[0] == rep[0]);
        assert(rep.contains(out[0]));
    } else {
        let rest = replace_all(t.skip(1), pat, rep);
        assert(out == seq![t[0]] + rest);
        if j > 0 {
            lemma_replace_prefix(t.skip(1), pat, rep, j - 1);
            if exists|m: int| 0 <= m <= j - 1 && rep.contains(rest[m]) {
                let m = choose|m: int| 0 <= m <= j - 1 && rep.contains(rest[m]);
                assert(out[m + 1] == rest[m]);
            } else {
                assert forall|m: int| 0 <= m <= j implies out[m] == t[m] by {
                    if m > 0 {
                        assert(out[m] == rest[m - 1]);
                        assert(rest[m - 1] == t.skip(1)[m - 1]);
                        assert(t.skip(1)[m - 1] == t[m]);
                    }
                }
            }
        }
    }
}

/// An occurrence inside a suffix is an occurrence in the whole text.
proof fn lemma_occurs_in_skip(s: Seq<char>, q: Seq<char>, n: int, k: int)
    requires
        0 <= n <= s.len(),
        occurs_at(s.skip(n), q, k),
    ensures
        occurs_at(s, q, k + n),
{
    assert(s.subrange(k + n, k + n + q.len()) =~= s.skip(n).subrange(k, k + q.len()));
}

/// An occurrence in `a + b` that starts inside `b` is an occurrence in `b`.
proof fn lemma_occurs_in_tail(a: Seq<char>, b: Seq<char>, q: Seq<char>, i: int)
    requires
        occurs_at(a + b, q, i),
        i >= a.len(),
    ensures
        occurs_at(b, q, i - a.len()),
{
    assert((a + b).subrange(i, i + q.len()) =~= b.subrange(i - a.len(), i - a.len() + q.len()));
}

/// An occurrence at index 0 of a pattern whose characters are all taken from
/// the untouched prefix would be an occurrence in the original text.
proof fn lemma_occurrence_at_front(
    s: Seq<char>,
    pat: Seq<char>,
    rep: Seq<char>,
    q: Seq<char>,
)
    requires
        pat.len() > 0,
        rep.len() > 0,
        q.len() > 0,
        disjoint_chars(q, rep),
        s.len() >= pat.len(),
        s.take(pat.len() as int) != pat,
        occurs_at(seq![s[0]] + replace_all(s.skip(1), pat, rep), q, 0),
    ensures
        occurs_at(s, q, 0),
{
    let rest = replace_all(s.skip(1), pat, rep);
    let out = seq![s[0]] + rest;
    assert(out[0] == q[0]);
    if q.len() >= 2 {
        lemma_replace_prefix(s.skip(1), pat, rep, q.len() - 2);
        if exists|m: int| 0 <= m <= q.len() - 2 && rep.contains(rest[m]) {
            let m = choose|m: int| 0 <= m <= q.len() - 2 && rep.contains(rest[m]);
            assert(out.subrange(0, q.len() as int)[m + 1] == q[m + 1]);
            let k = choose|k: int| 0 <= k < rep.len() && rep[k] == rest[m];
            assert(q[m + 1] == rep[k]);
        } else {
            assert(s.subrange(0, q.len() as int) =~= q) by {
                assert forall|m: int| 0 <= m < q.len() implies s.subrange(0, q.len() as int)[m]
                    == q[m] by {
                    assert(out.subrange(0, q.len() as int)[m] == q[m]);
                    if m > 0 {
                        assert(rest[m - 1] == s.skip(1)[m - 1]);
                    }
                }
            }
        }
    } else {
        assert(s.subrange(0, q.len() as int) =~= q) by {
            assert(out.subrange(0, q.len() as int)[0] == q[0]);
        }
    }
}

/// Replacing `pat` by a non-empty `rep` creates no occurrence of a pattern `q`
/// that shares no character with `rep`.
pub proof fn lemma_replace_keeps_absent(s: Seq<char>, pat: Seq<char>, rep: Seq<char>, q: Seq<char>)
    requires
        pat.len() > 0,
        rep.len() > 0,
        q.len() > 0,
        disjoint_chars(q, rep),
        !occurs(s, q),
    ensures
        !occurs(replace_all(s, pat, rep), q),
    decreases s.len(),
{
    let out = replace_all(s, pat, rep);
    if s.len() < pat.len() {
    } else if s.take(pat.len() as int) == pat {
        let tail = s.skip(pat.len() as int);
        assert(!occurs(tail, q)) by {
            if occurs(tail, q) {
                let k = choose|k: int| occurs_at(tail, q, k);
                lemma_occurs_in_skip(s, q, pat.len() as int, k);
            }
        }
        lemma_replace_keeps_absent(tail, pat, rep, q);
        if occurs(out, q) {
            let i = choose|i: int| occurs_at(out, q, i);
            if i < rep.len() {
                assert(out.subrange(i, i + q.len())[0] == q[0]);
                assert(out[i] == rep[i]);
            } else {
                lemma_occurs_in_tail(rep, replace_all(tail, pat, rep), q, i);
            }
        }
    } else {
        let tail = s.skip(1);
        assert(!occurs(tail, q)) by {
            if occurs(tail, q) {
                let k = choose|k: int| occurs_at(tail, q, k);
                lemma_occurs_in_skip(s, q, 1, k);
            }
        }
        lemma_replace_keeps_absent(tail, pat, rep, q);
        if occurs(out, q) {
            let i = choose|i: int| occurs_at(out, q, i);
            if i == 0 {
                lemma_occurrence_at_front(s, pat, rep, q);
            } else {
                lemma_occurs_in_tail(seq![s[0]], replace_all(tail, pat, rep), q, i);
            }
        }
    }
}

/// After replacing `pat` by a non-empty `rep` that shares no character with
/// it, `pat` no longer occurs.
pub proof fn lemma_replace_removes(s: Seq<char>, pat: Seq<char>, rep: Seq<char>)
    requires
        pat.len() > 0,
        rep.len() > 0,
        disjoint_chars(pat, rep),
    ensures
        !occurs(replace_all(s, pat, rep), pat),
    decreases s.len(),
{
    let out = replace_all(s, pat, rep);
    if s.len() < pat.len() {
    } else if s.take(pat.len() as int) == pat {
        let tail = s.skip(pat.len() as int);
        lemma_replace_removes(tail, pat, rep);
        if occurs(out, pat) {
            let i = choose|i: int| occurs_at(out, pat, i);
            if i < rep.len() {
                assert(out.subrange(i, i + pat.len())[0] == pat[0]);
                assert(out[i] == rep[i]);
            } else {
                lemma_occurs_in_tail(rep, replace_all(tail, pat, rep), pat, i);
            }
        }
    } else {
        let tail = s.skip(1);
        lemma_replace_removes(tail, pat, rep);
        if occurs(out, pat) {
            let i = choose|i: int| occurs_at(out, pat, i);
            if i == 0 {
                lemma_occurrence_at_front(s, pat, rep, pat);
                assert(s.take(pat.len() as int) =~= s.subrange(0, pat.len() as int));
            } else {
                lemma_occurs_in_tail(seq![s[0]], replace_all(tail, pat, rep), pat, i);
            }
        }
    }
}

/// A text in which `pat` does not occur is left unchanged by the replacement.
pub proof fn lemma_replace_absent_is_identity(s: Seq<char>, pat: Seq<char>, rep: Seq<char>)
    requires
        !occurs(s, pat),
    ensures
        replace_all(s, pat, rep) == s,
    decreases s.len(),
{
    if pat.len() == 0 || s.len() < pat.len() {
    } else {
        assert(s.take(pat.len() as int) =~= s.subrange(0, pat.len() as int));
        assert(!occurs_at(s, pat, 0));
        let tail = s.skip(1);
        assert(!occurs(tail, pat)) by {
            if occurs(tail, pat) {
                let k = choose|k: int| occurs_at(tail, pat, k);
                lemma_occurs_in_skip(s, pat, 1, k);
            }
        }
        lemma_replace_absent_is_identity(tail, pat, rep);
        assert(seq![s[0]] + tail =~= s);
    }
}


/// Lexicographic order on texts, character by character (the order of
/// `str::cmp`, since UTF-8 preserves the order of code points).
pub open spec fn lex_lt(a: Seq<char>, b: Seq<char>) -> bool
    decreases a.len(),
{
    if a.len() == 0 {
        b.len() > 0
    } else if b.len() == 0 {
        false
    } else if a[0] != b[0] {
        a[0] < b[0]
    } else {
        lex_lt(a.skip(1), b.skip(1))
    }
}

pub proof fn lemma_lex_irreflexive(a: Seq<char>)
    ensures
        !lex_lt(a, a),
    decreases a.len(),
{
    if a.len() > 0 {
        lemma_lex_irreflexive(a.skip(1));
    }
}

pub proof fn lemma_lex_transitive(a: Seq<char>, b: Seq<char>, c: Seq<char>)
    requires
        lex_lt(a, b),
        lex_lt(b, c),
    ensures
        lex_lt(a, c),
    decreases a.len(),
{
    if a.len() > 0 && b.len() > 0 && c.len() > 0 && a[0] == b[0] && b[0] == c[0] {
        lemma_lex_transitive(a.skip(1), b.skip(1), c.skip(1));
    }
}

pub proof fn lemma_lex_total(a: Seq<char>, b: Seq<char>)
    ensures
        a == b || lex_lt(a, b) || lex_lt(b, a),
    decreases a.len(),
{
    if a.len() > 0 && b.len() > 0 {
        if a[0] == b[0] {
            lemma_lex_total(a.skip(1), b.skip(1));
            if a.skip(1) == b.skip(1) {
                assert(a =~= seq![a[0]] + a.skip(1));
                assert(b =~= seq![b[0]] + b.skip(1));
            }
        }
    } else if a.len() == 0 && b.len() == 0 {
        assert(a =~= b);
    }
}

/// Whether `a` comes strictly before `b` in lexicographic order.
pub fn lex_less(a: &Vec<char>, b: &Vec<char>) -> (r: bool)
    ensures
        r == lex_lt(a@, b@),
{
    let mut i: usize = 0;
    assert(a@.skip(0) =~= a@);
    assert(b@.skip(0) =~= b@);
    while i < a.len() && i < b.len() && a[i] == b[i]
        invariant
            i <= a.len(),
            i <= b.len(),
            forall|j: int| 0 <= j < i ==> a@[j] == b@[j],
            lex_lt(a@, b@) == lex_lt(a@.skip(i as int), b@.skip(i as int)),
        decreases a.len() - i,
    {
        assert(a@.skip(i as int).skip(1) =~= a@.skip(i + 1));
        assert(b@.skip(i as int).skip(1) =~= b@.skip(i + 1));
        i = i + 1;
    }
    if i == a.len() {
        i < b.len()
    } else if i == b.len() {
        false
    } else {
        a[i] < b[i]
    }
}

// ----------------------------------------------------------------------------
// Lines
// ----------------------------------------------------------------------------

/// The index of the first line feed at or after `i`, or the length of `s`.
pub open spec fn line_end(s: Seq<char>, i: int) -> int
    decreases s.len() - i,
{
    if i >= s.len() {
        s.len() as int
    } else if s[i] == '\n' {
        i
    } else {
        line_end(s, i + 1)
    }
}

/// A line without the carriage return that ended it.
pub open spec fn strip_cr(t: Seq<char>) -> Seq<char> {
    if t.len() > 0 && t.last() == '\r' {
        t.drop_last()
    } else {
        t
    }
}

/// The lines of `s` from index `pos` on, as `str::lines` yields them: split
/// at each `\n`, a `\r` before the `\n` removed, no empty line after a final
/// `\n`.
pub open spec fn lines_from(s: Seq<char>, pos: int) -> Seq<Seq<char>>
    decreases s.len() - pos,
{
    if pos < 0 || pos >= s.len() {
        Seq::empty()
    } else {
        let e = line_end(s, pos);
        if e < s.len() {
            proof {
                lemma_line_end_bounds(s, pos);
            }
            seq![strip_cr(s.subrange(pos, e))] + lines_from(s, e + 1)
        } else {
            seq![s.subrange(pos, e)]
        }
    }
}

pub open spec fn lines(s: Seq<char>) -> Seq<Seq<char>> {
    lines_from(s, 0)
}

pub open spec fn char_views(v: Seq<Vec<char>>) -> Seq<Seq<char>> {
    v.map_values(|x: Vec<char>| x@)
}

pub proof fn lemma_line_end_bounds(s: Seq<char>, i: int)
    requires
        0 <= i <= s.len(),
    ensures
        i <= line_end(s, i) <= s.len(),
        line_end(s, i) < s.len() ==> s[line_end(s, i)] == '\n',
        forall|k: int| i <= k < line_end(s, i) ==> s[k] != '\n',
    decreases s.len() - i,
{
    if i < s.len() && s[i] != '\n' {
        lemma_line_end_bounds(s, i + 1);
    }
}

/// The lines of `s` (see [`lines`]).
pub fn lines_exec(s: &Vec<char>) -> (r: Vec<Vec<char>>)
    ensures
        char_views(r@) == lines(s@),
{
    let mut out: Vec<Vec<char>> = Vec::new();
    let mut pos: usize = 0;
    while pos < s.len()
        invariant
            pos <= s.len(),
            char_views(out@) + lines_from(s@, pos as int) == lines(s@),
        decreases s.len() - pos,
    {
        proof {
            lemma_line_end_bounds(s@, pos as int);
        }
        let mut e = pos;
        while e < s.len() && s[e] != '\n'
            invariant
                pos <= e <= s.len(),
                line_end(s@, pos as int) == line_end(s@, e as int),
            decreases s.len() - e,
        {
            e = e + 1;
        }
        let mut line: Vec<char> = Vec::new();
        let mut k = pos;
        while k < e
            invariant
                pos <= k <= e,
                e <= s.len(),
                line@ == s@.subrange(pos as int, k as int),
            decreases e - k,
        {
            line.push(s[k]);
            assert(line@ =~= s@.subrange(pos as int, k + 1));
            k = k + 1;
        }
        if e < s.len() {
            if line.len() > 0 && line[line.len() - 1] == '\r' {
                line.pop();
            }
            assert(line@ == strip_cr(s@.subrange(pos as int, e as int)));
            let ghost before = char_views(out@);
            out.push(line);
            assert(char_views(out@) =~= before.push(strip_cr(s@.subrange(pos as int, e as int))));
            assert(before + lines_from(s@, pos as int) =~= char_views(out@) + lines_from(s@, e + 1));
            pos = e + 1;
        } else {
            let ghost before = char_views(out@);
            out.push(line);
            assert(char_views(out@) =~= before.push(s@.subrange(pos as int, e as int)));
            assert(lines_from(s@, s@.len() as int) =~= Seq::<Seq<char>>::empty());
            assert(before + lines_from(s@, pos as int) =~= char_views(out@) + lines_from(s@, s@.len() as int));
            pos = s.len();
        }
    }
    assert(lines_from(s@, pos as int) =~= Seq::<Seq<char>>::empty());
    assert(char_views(out@) + Seq::<Seq<char>>::empty() =~= char_views(out@));
    out
}

// ----------------------------------------------------------------------------
// Trimming
// ----------------------------------------------------------------------------

pub open spec fn trim_start(s: Seq<char>) -> Seq<char>
    decreases s.len(),
{
    if s.len() > 0 && is_space(s[0]) {
        trim_start(s.skip(1))
    } else {
        s
    }
}

pub open spec fn trim_end(s: Seq<char>) -> Seq<char>
    decreases s.len(),
{
    if s.len() > 0 && is_space(s.last()) {
        trim_end(s.drop_last())
    } else {
        s
    }
}

/// `str::trim`: white space removed at both ends.
pub open spec fn trim(s: Seq<char>) -> Seq<char> {
    trim_end(trim_start(s))
}

/// Whether `c` is white space.
pub fn is_space_exec(c: char) -> (r: bool)
    ensures
        r == is_space(c),
{
    c == ' ' || c == '\t' || c == '\n' || c == '\r' || c == '\u{0B}' || c == '\u{0C}' || c
        == '\u{85}' || c == '\u{A0}' || c == '\u{1680}' || ('\u{2000}' <= c && c <= '\u{200A}')
        || c == '\u{2028}' || c == '\u{2029}' || c == '\u{202F}' || c == '\u{205F}' || c
        == '\u{3000}'
}

/// `s` without white space at either end.
pub fn trim_exec(s: &Vec<char>) -> (r: Vec<char>)
    ensures
        r@ == trim(s@),
{
    let mut start: usize = 0;
    assert(s@.skip(0) =~= s@);
    while start < s.len() && is_space_exec(s[start])
        invariant
            start <= s.len(),
            trim_start(s@) == trim_start(s@.skip(start as int)),
        decreases s.len() - start,
    {
        assert(s@.skip(start as int).skip(1) =~= s@.skip(start + 1));
        start = start + 1;
    }
    let mut end: usize = s.len();
    while end > start && is_space_exec(s[end - 1])
        invariant
            start <= end <= s.len(),
            trim_start(s@) == s@.skip(start as int),
            trim(s@) == trim_end(s@.subrange(start as int, end as int)),
        decreases end,
    {
        assert(s@.subrange(start as int, end as int).drop_last() =~= s@.subrange(start as int, end - 1));
        end = end - 1;
    }
    let mut r: Vec<char> = Vec::new();
    let mut k = start;
    while k < end
        invariant
            start <= k <= end,
            end <= s.len(),
            r@ == s@.subrange(start as int, k as int),
        decreases end - k,
    {
        r.push(s[k]);
        assert(r@ =~= s@.subrange(start as int, k + 1));
        k = k + 1;
    }
    r
}

} // verus!
