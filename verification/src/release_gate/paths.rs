//! Plan paths as `/`-separated text, compared by their components.
use vstd::prelude::*;
use vstd::string::*;

use crate::text::{chars_of, segments, split_segments};

verus! {

/// The segments among the first `n` that name something: empty and `.`
/// segments are dropped.
pub open spec fn kept_segments(segs: Seq<Seq<char>>, n: int) -> Seq<Seq<char>>
    decreases n,
{
    if n <= 0 {
        Seq::empty()
    } else {
        let k = kept_segments(segs, n - 1);
        if segs[n - 1].len() > 0 && segs[n - 1] != "."@ {
            k.push(segs[n - 1])
        } else {
            k
        }
    }
}

/// A path starts at the root.
pub open spec fn is_absolute(s: Seq<char>) -> bool {
    s.len() > 0 && s[0] == '/'
}

/// Normal components of a path (`..` included).
pub open spec fn components(s: Seq<char>) -> Seq<Seq<char>> {
    kept_segments(segments(s, '/'), segments(s, '/').len() as int)
}

/// What paths are compared by: whether they are rooted, and their
/// components, with the leading `.` of a relative path kept.
pub open spec fn path_key(s: Seq<char>) -> (bool, Seq<Seq<char>>) {
    if !is_absolute(s) && segments(s, '/')[0] == "."@ {
        (false, seq!["."@] + components(s))
    } else {
        (is_absolute(s), components(s))
    }
}

/// Two paths are equal as paths.
pub open spec fn same_path(a: Seq<char>, b: Seq<char>) -> bool {
    path_key(a) == path_key(b)
}

/// `b`'s components begin `a`'s.
pub open spec fn path_starts_with(a: Seq<char>, b: Seq<char>) -> bool {
    let ka = path_key(a);
    let kb = path_key(b);
    ka.0 == kb.0 && kb.1.len() <= ka.1.len() && ka.1.subrange(0, kb.1.len() as int) == kb.1
}

/// Two paths are equal or one lies under the other.
pub open spec fn paths_overlap(a: Seq<char>, b: Seq<char>) -> bool {
    same_path(a, b) || path_starts_with(a, b) || path_starts_with(b, a)
}

/// A normalized absolute path that names a file or directory: rooted, with
/// at least one component and no `..`.
pub open spec fn valid_absolute_path(s: Seq<char>) -> bool {
    &&& is_absolute(s)
    &&& components(s).len() > 0
    &&& forall|i: int| 0 <= i < components(s).len() ==> #[trigger] components(s)[i] != ".."@
}

proof fn lemma_deep_chars(v: Vec<Vec<char>>, i: int)
    requires
        0 <= i < v@.len(),
    ensures
        v.deep_view()[i] == v@[i]@,
        v.deep_view().len() == v@.len(),
{
    assert(v@[i].deep_view() =~= v@[i]@);
}

proof fn lemma_segments_nonempty(s: Seq<char>, sep: char)
    ensures
        segments(s, sep).len() >= 1,
{
}

/// The comparison key of a path, computed.
pub struct PathKey {
    pub rooted: bool,
    pub parts: Vec<Vec<char>>,
}

impl PathKey {
    pub open spec fn view_key(&self) -> (bool, Seq<Seq<char>>) {
        (self.rooted, self.parts.deep_view())
    }
}

fn is_dot(c: &Vec<char>) -> (r: bool)
    ensures
        r == (c@ == "."@),
{
    proof {
        reveal_strlit(".");
    }
    if c.len() == 1 && c[0] == '.' {
        assert(c@ =~= "."@);
        true
    } else {
        assert(c@ != "."@) by {
            if c@ == "."@ {
                assert(c@.len() == 1 && c@[0] == '.');
            }
        }
        false
    }
}

fn copy_chars(c: &Vec<char>) -> (r: Vec<char>)
    ensures
        r@ == c@,
{
    let mut r: Vec<char> = Vec::new();
    let mut i: usize = 0;
    while i < c.len()
        invariant
            i <= c@.len(),
            r@ == c@.subrange(0, i as int),
        decreases c@.len() - i,
    {
        r.push(c[i]);
        i += 1;
    }
    assert(c@.subrange(0, c@.len() as int) =~= c@);
    r
}

/// Computes the comparison key of a path.
pub fn path_key_of(s: &str) -> (k: PathKey)
    ensures
        k.view_key() == path_key(s@),
{
    let v = chars_of(s);
    let segs = split_segments(&v, '/');
    let ghost sv = segs.deep_view();
    let rooted = v.len() > 0 && v[0] == '/';
    let mut parts: Vec<Vec<char>> = Vec::new();
    proof {
        lemma_segments_nonempty(v@, '/');
        assert(segs.deep_view().len() == segs@.len());
        lemma_deep_chars(segs, 0);
    }
    let leading_dot = !rooted && is_dot(&segs[0]);
    if leading_dot {
        let mut dot: Vec<char> = Vec::new();
        dot.push('.');
        proof {
            reveal_strlit(".");
        }
        assert(dot@ =~= "."@);
        parts.push(dot);
    }
    let ghost base = parts.deep_view();
    assert(base =~= if leading_dot {
        seq!["."@]
    } else {
        Seq::<Seq<char>>::empty()
    });
    let mut i: usize = 0;
    while i < segs.len()
        invariant
            i <= segs@.len(),
            sv == segs.deep_view(),
            sv.len() == segs@.len(),
            parts.deep_view() == base + kept_segments(sv, i as int),
        decreases segs@.len() - i,
    {
        proof {
            lemma_deep_chars(segs, i as int);
        }
        let ghost before = parts.deep_view();
        if segs[i].len() > 0 && !is_dot(&segs[i]) {
            let ghost old_parts = parts@;
            let c = copy_chars(&segs[i]);
            parts.push(c);
            proof {
                assert(parts.deep_view() =~= before.push(sv[i as int])) by {
                    assert forall|k: int| 0 <= k < parts@.len() implies #[trigger] parts.deep_view()[k]
                        == before.push(sv[i as int])[k] by {
                        lemma_deep_chars(parts, k);
                        if k < old_parts.len() {
                            assert(parts@[k] == old_parts[k]);
                        }
                    }
                }
            }
        }
        i += 1;
    }
    assert(v@ == s@);
    PathKey { rooted, parts }
}

/// Equality of two component lists.
fn parts_equal(a: &Vec<Vec<char>>, b: &Vec<Vec<char>>, n: usize) -> (r: bool)
    requires
        n <= a@.len(),
        n <= b@.len(),
    ensures
        r == (a.deep_view().subrange(0, n as int) == b.deep_view().subrange(0, n as int)),
{
    let mut i: usize = 0;
    while i < n
        invariant
            i <= n <= a@.len(),
            n <= b@.len(),
            a.deep_view().subrange(0, i as int) == b.deep_view().subrange(0, i as int),
        decreases n - i,
    {
        proof {
            lemma_deep_chars(*a, i as int);
            lemma_deep_chars(*b, i as int);
        }
        if a[i].len() != b[i].len() {
            assert(a.deep_view().subrange(0, n as int)[i as int] == a.deep_view()[i as int]);
            assert(b.deep_view().subrange(0, n as int)[i as int] == b.deep_view()[i as int]);
            return false;
        }
        let mut j: usize = 0;
        while j < a[i].len()
            invariant
                j <= a@[i as int]@.len(),
                a@[i as int]@.len() == b@[i as int]@.len(),
                i < n <= a@.len(),
                n <= b@.len(),
                a@[i as int]@.subrange(0, j as int) == b@[i as int]@.subrange(0, j as int),
            decreases a@[i as int]@.len() - j,
        {
            if a[i][j] != b[i][j] {
                proof {
                    lemma_deep_chars(*a, i as int);
                    lemma_deep_chars(*b, i as int);
                    assert(a@[i as int]@[j as int] != b@[i as int]@[j as int]);
                    assert(a.deep_view().subrange(0, n as int)[i as int] == a.deep_view()[i as int]);
                    assert(b.deep_view().subrange(0, n as int)[i as int] == b.deep_view()[i as int]);
                }
                return false;
            }
            assert(a@[i as int]@.subrange(0, j + 1) =~= a@[i as int]@.subrange(0, j as int).push(
                a@[i as int]@[j as int],
            ));
            assert(b@[i as int]@.subrange(0, j + 1) =~= b@[i as int]@.subrange(0, j as int).push(
                b@[i as int]@[j as int],
            ));
            j += 1;
        }
        proof {
            lemma_deep_chars(*a, i as int);
            lemma_deep_chars(*b, i as int);
        }
        assert(a@[i as int]@.subrange(0, a@[i as int]@.len() as int) =~= a@[i as int]@);
        assert(b@[i as int]@.subrange(0, b@[i as int]@.len() as int) =~= b@[i as int]@);
        assert(a.deep_view().subrange(0, i + 1) =~= a.deep_view().subrange(0, i as int).push(
            a.deep_view()[i as int],
        ));
        assert(b.deep_view().subrange(0, i + 1) =~= b.deep_view().subrange(0, i as int).push(
            b.deep_view()[i as int],
        ));
        i += 1;
    }
    true
}

/// Two computed keys are equal.
pub fn keys_equal(a: &PathKey, b: &PathKey) -> (r: bool)
    ensures
        r == (a.view_key() == b.view_key()),
{
    if a.rooted != b.rooted || a.parts.len() != b.parts.len() {
        assert(a.parts.deep_view().len() == a.parts@.len());
        assert(b.parts.deep_view().len() == b.parts@.len());
        return false;
    }
    let r = parts_equal(&a.parts, &b.parts, a.parts.len());
    assert(a.parts.deep_view().subrange(0, a.parts@.len() as int) =~= a.parts.deep_view());
    assert(b.parts.deep_view().subrange(0, b.parts@.len() as int) =~= b.parts.deep_view());
    r
}

/// The second key's components begin the first's.
pub fn key_starts_with(a: &PathKey, b: &PathKey) -> (r: bool)
    ensures
        r == (a.rooted == b.rooted && b.parts@.len() <= a.parts@.len() && a.parts.deep_view().subrange(
            0,
            b.parts@.len() as int,
        ) == b.parts.deep_view()),
{
    if a.rooted != b.rooted || b.parts.len() > a.parts.len() {
        return false;
    }
    let r = parts_equal(&a.parts, &b.parts, b.parts.len());
    assert(b.parts.deep_view().subrange(0, b.parts@.len() as int) =~= b.parts.deep_view());
    r
}

/// Whether two computed keys overlap: equal, or one under the other.
pub fn keys_overlap(a: &PathKey, b: &PathKey) -> (r: bool)
    ensures
        r == ((a.view_key() == b.view_key()) || (a.rooted == b.rooted && b.parts@.len()
            <= a.parts@.len() && a.parts.deep_view().subrange(0, b.parts@.len() as int)
            == b.parts.deep_view()) || (b.rooted == a.rooted && a.parts@.len() <= b.parts@.len()
            && b.parts.deep_view().subrange(0, a.parts@.len() as int) == a.parts.deep_view())),
{
    keys_equal(a, b) || key_starts_with(a, b) || key_starts_with(b, a)
}

/// Whether two paths are equal as paths.
pub fn is_same_path(a: &str, b: &str) -> (r: bool)
    ensures
        r == same_path(a@, b@),
{
    let ka = path_key_of(a);
    let kb = path_key_of(b);
    keys_equal(&ka, &kb)
}

/// Whether two paths overlap.
pub fn do_paths_overlap(a: &str, b: &str) -> (r: bool)
    ensures
        r == paths_overlap(a@, b@),
{
    let ka = path_key_of(a);
    let kb = path_key_of(b);
    keys_overlap(&ka, &kb)
}

/// Whether a path is a normalized absolute path that names something.
pub fn is_valid_absolute_path(s: &str) -> (r: bool)
    ensures
        r == valid_absolute_path(s@),
{
    let v = chars_of(s);
    if v.len() == 0 || v[0] != '/' {
        return false;
    }
    let k = path_key_of(s);
    assert(k.parts.deep_view() == components(s@));
    if k.parts.len() == 0 {
        return false;
    }
    proof {
        reveal_strlit("..");
    }
    let mut i: usize = 0;
    while i < k.parts.len()
        invariant
            i <= k.parts@.len(),
            k.parts.deep_view() == components(s@),
            is_absolute(s@),
            components(s@).len() > 0,
            forall|j: int| 0 <= j < i ==> #[trigger] components(s@)[j] != ".."@,
        decreases k.parts@.len() - i,
    {
        proof {
            reveal_strlit("..");
            lemma_deep_chars(k.parts, i as int);
        }
        if k.parts[i].len() == 2 && k.parts[i][0] == '.' && k.parts[i][1] == '.' {
            assert(k.parts@[i as int]@ =~= ".."@);
            return false;
        }
        assert(components(s@)[i as int] != ".."@) by {
            if components(s@)[i as int] == ".."@ {
                assert(k.parts@[i as int]@.len() == 2);
                assert(k.parts@[i as int]@[0] == '.');
                assert(k.parts@[i as int]@[1] == '.');
            }
        }
        i += 1;
    }
    true
}

/// `root` joined with a relative file name: a `/` is added unless the root
/// already ends with one.
pub open spec fn join_path(root: Seq<char>, name: Seq<char>) -> Seq<char> {
    if root.len() > 0 && root[root.len() - 1] == '/' {
        root + name
    } else {
        root + "/"@ + name
    }
}

/// Joins a relative file name onto a root.
pub fn join(root: &str, name: &str) -> (r: String)
    ensures
        r@ == join_path(root@, name@),
{
    let v = chars_of(root);
    let mut r = root.to_owned();
    if !(v.len() > 0 && v[v.len() - 1] == '/') {
        proof {
            reveal_strlit("/");
        }
        r.append("/");
    }
    r.append(name);
    r
}

} // verus!
