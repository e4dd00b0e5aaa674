//! Character-level predicates and helpers shared by the validators.
use vstd::prelude::*;

verus! {

/// The character classes that the identifier grammars are built from.
#[derive(Clone, Copy, PartialEq, Eq, Structural)]
pub enum CharClass {
    /// `0-9`.
    Digit,
    /// `a-z` and `0-9`.
    LowerAlnum,
    /// `a-z`, `0-9`, `.`, `_` and `-`.
    Identifier,
    /// `0-9` and `a-f`.
    LowerHex,
    /// `A-Z`, `a-z`, `0-9`, `+` and `/`.
    Base64,
    /// `A-Z`, `a-z`, `0-9`, `.`, `_` and `-`.
    PathSegment,
    /// `A-Z`, `a-z`, `0-9`, `.`, `_`, `-` and `/`.
    Token,
}

pub open spec fn is_digit(c: char) -> bool {
    '0' <= c && c <= '9'
}

pub open spec fn is_lower(c: char) -> bool {
    'a' <= c && c <= 'z'
}

pub open spec fn is_upper(c: char) -> bool {
    'A' <= c && c <= 'Z'
}

pub open spec fn is_ascii_alnum(c: char) -> bool {
    is_digit(c) || is_lower(c) || is_upper(c)
}

pub open spec fn in_class(class: CharClass, c: char) -> bool {
    match class {
        CharClass::Digit => is_digit(c),
        CharClass::LowerAlnum => is_lower(c) || is_digit(c),
        CharClass::Identifier => is_lower(c) || is_digit(c) || c == '.' || c == '_' || c == '-',
        CharClass::LowerHex => is_digit(c) || ('a' <= c && c <= 'f'),
        CharClass::Base64 => is_ascii_alnum(c) || c == '+' || c == '/',
        CharClass::PathSegment => is_ascii_alnum(c) || c == '.' || c == '_' || c == '-',
        CharClass::Token => is_ascii_alnum(c) || c == '.' || c == '_' || c == '-' || c == '/',
    }
}

/// Every character of `s[from..to]` belongs to `class`.
pub open spec fn all_in_class(s: Seq<char>, from: int, to: int, class: CharClass) -> bool {
    forall|i: int| from <= i < to ==> #[trigger] in_class(class, s[i])
}

/// `s` is `prefix` followed by something.
pub open spec fn has_prefix(s: Seq<char>, prefix: Seq<char>) -> bool {
    prefix.len() <= s.len() && s.subrange(0, prefix.len() as int) == prefix
}

/// `s` is something followed by `suffix`.
pub open spec fn has_suffix(s: Seq<char>, suffix: Seq<char>) -> bool {
    suffix.len() <= s.len() && s.subrange(s.len() - suffix.len(), s.len() as int) == suffix
}

/// `s` is exactly `count` lowercase hexadecimal digits.
pub open spec fn is_lower_hex_text(s: Seq<char>, count: nat) -> bool {
    s.len() == count && all_in_class(s, 0, s.len() as int, CharClass::LowerHex)
}

pub fn char_in_class(class: CharClass, c: char) -> (r: bool)
    ensures
        r == in_class(class, c),
{
    let digit = '0' <= c && c <= '9';
    let lower = 'a' <= c && c <= 'z';
    let upper = 'A' <= c && c <= 'Z';
    match class {
        CharClass::Digit => digit,
        CharClass::LowerAlnum => lower || digit,
        CharClass::Identifier => lower || digit || c == '.' || c == '_' || c == '-',
        CharClass::LowerHex => digit || ('a' <= c && c <= 'f'),
        CharClass::Base64 => digit || lower || upper || c == '+' || c == '/',
        CharClass::PathSegment => digit || lower || upper || c == '.' || c == '_' || c == '-',
        CharClass::Token => digit || lower || upper || c == '.' || c == '_' || c == '-' || c
            == '/',
    }
}

/// Checks that every character of `v[from..to]` belongs to `class`.
pub fn all_chars_in_class(v: &Vec<char>, from: usize, to: usize, class: CharClass) -> (r: bool)
    requires
        from <= to <= v@.len(),
    ensures
        r == all_in_class(v@, from as int, to as int, class),
{
    let mut i = from;
    while i < to
        invariant
            from <= i <= to <= v@.len(),
            all_in_class(v@, from as int, i as int, class),
        decreases to - i,
    {
        if !char_in_class(class, v[i]) {
            return false;
        }
        i += 1;
    }
    true
}

/// Returns the characters of a string slice, in order.
pub fn chars_of(s: &str) -> (v: Vec<char>)
    ensures
        v@ == s@,
{
    let mut v: Vec<char> = Vec::new();
    for c in it: s.chars()
        invariant
            v@ == it.seq().take(it.index() as int),
    {
        v.push(c);
    }
    v
}

/// Exact textual equality of two string slices.
pub fn text_eq(a: &str, b: &str) -> (r: bool)
    ensures
        r == (a@ == b@),
{
    a.to_owned() == b.to_owned()
}

/// `v[at..at + p.len()] == p`.
pub fn chars_match_at(v: &Vec<char>, at: usize, p: &Vec<char>) -> (r: bool)
    requires
        at <= v@.len(),
    ensures
        r == (at + p@.len() <= v@.len() && v@.subrange(at as int, at + p@.len()) == p@),
{
    if p.len() > v.len() - at {
        return false;
    }
    let mut i: usize = 0;
    while i < p.len()
        invariant
            i <= p@.len(),
            at <= v@.len(),
            at + p@.len() <= v@.len(),
            p@.len() <= v@.len(),
            v@.len() <= usize::MAX,
            forall|j: int| 0 <= j < i ==> v@[at + j] == p@[j],
        decreases p@.len() - i,
    {
        if v[at + i] != p[i] {
            assert(v@.subrange(at as int, at + p@.len())[i as int] != p@[i as int]);
            return false;
        }
        i += 1;
    }
    assert(v@.subrange(at as int, at + p@.len()) =~= p@);
    true
}

/// Equality of two string vectors, element by element.
pub fn strings_eq(a: &Vec<String>, b: &Vec<String>) -> (r: bool)
    ensures
        r == (a.deep_view() == b.deep_view()),
{
    if a.len() != b.len() {
        assert(a.deep_view().len() != b.deep_view().len());
        return false;
    }
    let mut i: usize = 0;
    while i < a.len()
        invariant
            i <= a@.len(),
            a@.len() == b@.len(),
            forall|j: int| 0 <= j < i ==> a@[j]@ == b@[j]@,
        decreases a@.len() - i,
    {
        if a[i] != b[i] {
            assert(a.deep_view()[i as int] != b.deep_view()[i as int]);
            return false;
        }
        i += 1;
    }
    assert(a.deep_view() =~= b.deep_view());
    true
}

/// Copies a vector of strings.
pub fn clone_strings(a: &Vec<String>) -> (r: Vec<String>)
    ensures
        r.deep_view() == a.deep_view(),
{
    let mut r: Vec<String> = Vec::new();
    let mut i: usize = 0;
    while i < a.len()
        invariant
            i <= a@.len(),
            r@.len() == i,
            forall|j: int| 0 <= j < i ==> r@[j]@ == a@[j]@,
        decreases a@.len() - i,
    {
        r.push(a[i].clone());
        i += 1;
    }
    assert(r.deep_view() =~= a.deep_view());
    r
}

/// Appends one character (`String::push`).
#[verifier::external_body]
pub(crate) fn push_char(s: &mut String, c: char)
    ensures
        final(s)@ == old(s)@.push(c),
{
    s.push(c)
}

/// Builds an owned string from characters.
pub fn string_from_chars(v: &Vec<char>) -> (s: String)
    ensures
        s@ == v@,
{
    let mut s = String::new();
    let mut i: usize = 0;
    while i < v.len()
        invariant
            i <= v@.len(),
            s@ == v@.subrange(0, i as int),
        decreases v@.len() - i,
    {
        push_char(&mut s, v[i]);
        assert(v@.subrange(0, i + 1) =~= v@.subrange(0, i as int).push(v@[i as int]));
        i += 1;
    }
    s
}


/// Segments of `s[..n]` split at `sep`: the finished ones and the one in progress.
pub open spec fn split_fold(s: Seq<char>, sep: char, n: int) -> (Seq<Seq<char>>, Seq<char>)
    decreases n,
{
    if n <= 0 {
        (Seq::empty(), Seq::empty())
    } else {
        let (done, cur) = split_fold(s, sep, n - 1);
        if s[n - 1] == sep {
            (done.push(cur), Seq::empty())
        } else {
            (done, cur.push(s[n - 1]))
        }
    }
}

/// The `sep`-separated segments of `s`, empty ones included, as `str::split` gives them.
pub open spec fn segments(s: Seq<char>, sep: char) -> Seq<Seq<char>> {
    let (done, cur) = split_fold(s, sep, s.len() as int);
    done.push(cur)
}

/// Splits `v` at every `sep`, keeping empty segments.
pub fn split_segments(v: &Vec<char>, sep: char) -> (r: Vec<Vec<char>>)
    ensures
        r.deep_view() == segments(v@, sep),
{
    let mut done: Vec<Vec<char>> = Vec::new();
    let mut cur: Vec<char> = Vec::new();
    let mut i: usize = 0;
    while i < v.len()
        invariant
            i <= v@.len(),
            (done.deep_view(), cur@) == split_fold(v@, sep, i as int),
        decreases v@.len() - i,
    {
        let ghost before = done.deep_view();
        if v[i] == sep {
            let ghost c = cur@;
            let ghost old_done = done@;
            done.push(cur);
            cur = Vec::new();
            proof {
                lemma_push_deep_view(old_done, done@, c);
            }
        } else {
            cur.push(v[i]);
        }
        i += 1;
    }
    let ghost c = cur@;
    let ghost old_done = done@;
    done.push(cur);
    proof {
        lemma_push_deep_view(old_done, done@, c);
    }
    done
}

proof fn lemma_push_deep_view(before: Seq<Vec<char>>, after: Seq<Vec<char>>, c: Seq<char>)
    requires
        after.len() == before.len() + 1,
        forall|k: int| 0 <= k < before.len() ==> after[k] == before[k],
        after[before.len() as int]@ == c,
    ensures
        Seq::new(after.len(), |k: int| after[k].deep_view()) =~= Seq::new(
            before.len(),
            |k: int| before[k].deep_view(),
        ).push(c),
{
    assert forall|k: int| 0 <= k < after.len() implies #[trigger] after[k].deep_view() == Seq::new(
        before.len(),
        |k: int| before[k].deep_view(),
    ).push(c)[k] by {
        assert(after[k].deep_view() =~= after[k]@);
        if k < before.len() {
            assert(before[k].deep_view() =~= before[k]@);
        }
    }
}

/// Bytes in the UTF-8 encoding of `c`.
pub open spec fn utf8_width(c: char) -> int {
    if (c as u32) < 0x80 {
        1
    } else if (c as u32) < 0x800 {
        2
    } else if (c as u32) < 0x10000 {
        3
    } else {
        4
    }
}

/// Length of `s` in UTF-8 bytes.
pub open spec fn utf8_len(s: Seq<char>) -> int
    decreases s.len(),
{
    if s.len() == 0 {
        0
    } else {
        utf8_len(s.drop_last()) + utf8_width(s.last())
    }
}

/// A Unicode control character (general category `Cc`).
pub open spec fn is_control(c: char) -> bool {
    (c as u32) <= 0x1f || (0x7f <= (c as u32) && (c as u32) <= 0x9f)
}

/// The UTF-8 length of `s`, saturating at `cap + 1`.
pub fn utf8_len_capped(s: &Vec<char>, cap: usize) -> (n: usize)
    requires
        cap < usize::MAX,
    ensures
        n <= cap ==> n == utf8_len(s@),
        n > cap ==> utf8_len(s@) > cap,
{
    let mut n: usize = 0;
    let mut i: usize = 0;
    while i < s.len()
        invariant
            i <= s@.len(),
            cap < usize::MAX,
            n <= cap,
            n == utf8_len(s@.subrange(0, i as int)),
        decreases s@.len() - i,
    {
        let code = s[i] as u32;
        let w: usize = if code < 0x80 {
            1
        } else if code < 0x800 {
            2
        } else if code < 0x10000 {
            3
        } else {
            4
        };
        assert(s@.subrange(0, i + 1).drop_last() =~= s@.subrange(0, i as int));
        proof {
            lemma_utf8_len_grows(s@, i as int + 1);
        }
        if w > cap - n {
            return cap + 1;
        }
        n = n + w;
        i += 1;
    }
    assert(s@.subrange(0, s@.len() as int) =~= s@);
    n
}

proof fn lemma_utf8_len_grows(s: Seq<char>, k: int)
    requires
        0 <= k <= s.len(),
    ensures
        utf8_len(s.subrange(0, k)) <= utf8_len(s),
        k > 0 ==> utf8_len(s.subrange(0, k)) == utf8_len(s.subrange(0, k - 1)) + utf8_width(s[k - 1]),
    decreases s.len() - k,
{
    if k > 0 {
        assert(s.subrange(0, k).drop_last() =~= s.subrange(0, k - 1));
    }
    if k < s.len() {
        lemma_utf8_len_grows(s, k + 1);
        assert(s.subrange(0, k + 1).drop_last() =~= s.subrange(0, k));
    } else {
        assert(s.subrange(0, k) =~= s);
    }
}

/// Whether `v` holds a control character.
pub fn has_control_char(v: &Vec<char>) -> (r: bool)
    ensures
        r == exists|i: int| 0 <= i < v@.len() && is_control(#[trigger] v@[i]),
{
    let mut i: usize = 0;
    while i < v.len()
        invariant
            i <= v@.len(),
            forall|j: int| 0 <= j < i ==> !is_control(#[trigger] v@[j]),
        decreases v@.len() - i,
    {
        let code = v[i] as u32;
        if code <= 0x1f || (0x7f <= code && code <= 0x9f) {
            assert(is_control(v@[i as int]));
            return true;
        }
        i += 1;
    }
    false
}

/// Strict lexicographic order of texts by code point.
pub open spec fn text_less(a: Seq<char>, b: Seq<char>) -> bool
    decreases a.len(),
{
    if a.len() == 0 {
        b.len() > 0
    } else if b.len() == 0 {
        false
    } else if a[0] < b[0] {
        true
    } else if a[0] > b[0] {
        false
    } else {
        text_less(a.drop_first(), b.drop_first())
    }
}

/// Whether `a` sorts strictly before `b`.
pub fn is_text_less(a: &str, b: &str) -> (r: bool)
    ensures
        r == text_less(a@, b@),
{
    let x = chars_of(a);
    let y = chars_of(b);
    let mut i: usize = 0;
    assert(x@.subrange(0, x@.len() as int) =~= a@);
    assert(y@.subrange(0, y@.len() as int) =~= b@);
    while i < x.len() && i < y.len()
        invariant
            i <= x@.len(),
            i <= y@.len(),
            x@ == a@,
            y@ == b@,
            x@.subrange(0, i as int) == y@.subrange(0, i as int),
            text_less(a@, b@) == text_less(x@.subrange(i as int, x@.len() as int), y@.subrange(i as int, y@.len() as int)),
        decreases x@.len() - i,
    {
        let cx = x[i];
        let cy = y[i];
        assert(x@.subrange(i as int, x@.len() as int)[0] == x@[i as int]);
        assert(y@.subrange(i as int, y@.len() as int)[0] == y@[i as int]);
        if cx < cy {
            return true;
        }
        if cx > cy {
            return false;
        }
        assert(x@.subrange(i as int, x@.len() as int).drop_first() =~= x@.subrange(i + 1, x@.len() as int));
        assert(y@.subrange(i as int, y@.len() as int).drop_first() =~= y@.subrange(i + 1, y@.len() as int));
        assert(x@[i as int] == y@[i as int]);
        assert(x@.subrange(0, i + 1) =~= x@.subrange(0, i as int).push(x@[i as int]));
        assert(y@.subrange(0, i + 1) =~= y@.subrange(0, i as int).push(y@[i as int]));
        i += 1;
    }
    i < y.len()
}


/// `text_less` never holds of a text and itself.
pub proof fn lemma_text_less_irreflexive(a: Seq<char>)
    ensures
        !text_less(a, a),
    decreases a.len(),
{
    if a.len() > 0 {
        lemma_text_less_irreflexive(a.drop_first());
    }
}

/// Two different texts are ordered one way or the other.
pub proof fn lemma_text_less_total(a: Seq<char>, b: Seq<char>)
    ensures
        a != b ==> text_less(a, b) || text_less(b, a),
    decreases a.len(),
{
    if a.len() == 0 && b.len() == 0 {
        assert(a =~= b);
    }
    if a.len() > 0 && b.len() > 0 && a[0] == b[0] {
        lemma_text_less_total(a.drop_first(), b.drop_first());
        if a.drop_first() =~= b.drop_first() {
            assert forall|i: int| 0 <= i < a.len() implies a[i] == b[i] by {
                if i > 0 {
                    assert(a[i] == a.drop_first()[i - 1]);
                    assert(b[i] == b.drop_first()[i - 1]);
                }
            }
            assert(a =~= b);
        }
    }
}

/// `text_less` is transitive.
pub proof fn lemma_text_less_transitive(a: Seq<char>, b: Seq<char>, c: Seq<char>)
    requires
        text_less(a, b),
        text_less(b, c),
    ensures
        text_less(a, c),
    decreases a.len(),
{
    if a.len() > 0 && b.len() > 0 && c.len() > 0 && a[0] == b[0] && b[0] == c[0] {
        lemma_text_less_transitive(a.drop_first(), b.drop_first(), c.drop_first());
    }
}

/// The keys strictly increase in text order, as a map keyed by text lists them.
pub open spec fn keys_increasing<V>(r: Seq<(String, V)>) -> bool {
    forall|i: int, j: int| 0 <= i < j < r.len() ==> text_less((#[trigger] r[i]).0@, (#[trigger] r[j]).0@)
}

/// No key occurs twice.
pub open spec fn keys_distinct<V>(r: Seq<(String, V)>) -> bool {
    forall|i: int, j: int| 0 <= i < j < r.len() ==> (#[trigger] r[i]).0@ != (#[trigger] r[j]).0@
}

/// Strictly increasing keys are distinct.
pub proof fn lemma_increasing_keys_are_distinct<V>(r: Seq<(String, V)>)
    requires
        keys_increasing(r),
    ensures
        keys_distinct(r),
{
    assert forall|i: int, j: int| 0 <= i < j < r.len() implies (#[trigger] r[i]).0@ != (#[trigger] r[j]).0@ by {
        lemma_text_less_irreflexive(r[i].0@);
    }
}

/// Orders keyed items by their keys: the same items, each once, with the
/// keys strictly increasing.
pub fn sort_by_key<V>(items: Vec<(String, V)>) -> (r: Vec<(String, V)>)
    requires
        keys_distinct(items@),
    ensures
        r@.len() == items@.len(),
        keys_increasing(r@),
        forall|i: int| 0 <= i < items@.len() ==> r@.contains(#[trigger] items@[i]),
        forall|j: int| 0 <= j < r@.len() ==> items@.contains(#[trigger] r@[j]),
{
    let ghost orig = items@;
    let mut rest = items;
    let mut r: Vec<(String, V)> = Vec::new();
    while rest.len() > 0
        invariant
            rest@ == orig.subrange(0, rest@.len() as int),
            rest@.len() + r@.len() == orig.len(),
            keys_distinct(orig),
            keys_increasing(r@),
            forall|i: int| rest@.len() <= i < orig.len() ==> r@.contains(#[trigger] orig[i]),
            forall|j: int|
                0 <= j < r@.len() ==> exists|i: int| rest@.len() <= i < orig.len() && orig[i] == #[trigger] r@[j],
        decreases rest@.len(),
    {
        let ghost n = rest@.len() as int;
        let x = match rest.pop() {
            Some(x) => x,
            None => {
                return r;
            },
        };
        assert(x == orig[n - 1]);
        let mut p: usize = 0;
        while p < r.len()
            invariant
                p <= r@.len(),
                forall|q: int| 0 <= q < p ==> !text_less(x.0@, (#[trigger] r@[q]).0@),
            ensures
                p <= r@.len(),
                forall|q: int| 0 <= q < p ==> !text_less(x.0@, (#[trigger] r@[q]).0@),
                p < r@.len() ==> text_less(x.0@, r@[p as int].0@),
            decreases r@.len() - p,
        {
            if is_text_less(x.0.as_str(), r[p].0.as_str()) {
                break;
            }
            p += 1;
        }
        let ghost old_r = r@;
        proof {
            assert forall|q: int| 0 <= q < old_r.len() implies x.0@ != (#[trigger] old_r[q]).0@ by {
                let i = choose|i: int| n <= i < orig.len() && orig[i] == old_r[q];
                assert(orig[n - 1].0@ != orig[i].0@);
            }
        }
        r.insert(p, x);
        proof {
            let nr = r@;
            assert(nr =~= old_r.insert(p as int, x));
            assert forall|i: int, j: int| 0 <= i < j < nr.len() implies text_less(
                (#[trigger] nr[i]).0@,
                (#[trigger] nr[j]).0@,
            ) by {
                if j < p {
                    assert(nr[i] == old_r[i] && nr[j] == old_r[j]);
                } else if j == p {
                    assert(nr[i] == old_r[i]);
                    lemma_text_less_total(x.0@, old_r[i].0@);
                } else if i < p {
                    assert(nr[i] == old_r[i] && nr[j] == old_r[j - 1]);
                } else if i == p {
                    assert(nr[j] == old_r[j - 1]);
                    if j - 1 > p {
                        lemma_text_less_transitive(x.0@, old_r[p as int].0@, old_r[j - 1].0@);
                    }
                } else {
                    assert(nr[i] == old_r[i - 1] && nr[j] == old_r[j - 1]);
                }
            }
            assert forall|i: int| n - 1 <= i < orig.len() implies nr.contains(#[trigger] orig[i]) by {
                if i == n - 1 {
                    assert(nr[p as int] == orig[i]);
                } else {
                    let j = choose|j: int| 0 <= j < old_r.len() && old_r[j] == orig[i];
                    if j < p {
                        assert(nr[j] == orig[i]);
                    } else {
                        assert(nr[j + 1] == orig[i]);
                    }
                }
            }
            assert forall|j: int| 0 <= j < nr.len() implies exists|i: int|
                n - 1 <= i < orig.len() && orig[i] == #[trigger] nr[j] by {
                if j < p {
                    assert(nr[j] == old_r[j]);
                } else if j == p {
                    assert(orig[n - 1] == nr[j]);
                } else {
                    assert(nr[j] == old_r[j - 1]);
                }
            }
            assert(rest@ =~= orig.subrange(0, n - 1));
        }
    }
    proof {
        assert forall|j: int| 0 <= j < r@.len() implies orig.contains(#[trigger] r@[j]) by {
            let i = choose|i: int| 0 <= i < orig.len() && orig[i] == r@[j];
        }
    }
    r
}

} // verus!
