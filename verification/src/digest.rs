//! Content addresses: SHA-256 over bytes and over canonical JSON documents.
use vstd::prelude::*;
use vstd::string::*;
use sha2::Digest as _;

use crate::text::{has_prefix, in_class, is_lower_hex_text, push_char, text_eq, CharClass};

verus! {

broadcast use vstd::std_specs::vec::group_vec_axioms;

/// What `sha2::Sha256::digest` returns for the given bytes.
pub uninterp spec fn spec_sha256(bytes: Seq<u8>) -> Seq<u8>;

/// What `serde_json_canonicalizer::to_vec` returns for a JSON value
/// (`None` where it reports an error).
pub uninterp spec fn spec_canonical_json(value: JsonTree) -> Option<Seq<u8>>;

/// Lowercase hexadecimal digit for a nibble.
pub open spec fn hex_digit(n: int) -> char {
    if n < 10 {
        (48 + n) as char
    } else {
        (87 + n) as char
    }
}

/// Lowercase hexadecimal text of bytes, high nibble first.
pub open spec fn hex_lower(bytes: Seq<u8>) -> Seq<char>
    decreases bytes.len(),
{
    if bytes.len() == 0 {
        Seq::empty()
    } else {
        hex_lower(bytes.drop_last()) + seq![
            hex_digit(bytes.last() as int / 16),
            hex_digit(bytes.last() as int % 16),
        ]
    }
}

/// The `sha256:` text address of raw bytes.
pub open spec fn digest_text(bytes: Seq<u8>) -> Seq<char> {
    "sha256:"@ + hex_lower(spec_sha256(bytes))
}

/// The content address of a JSON value: the SHA-256 address of its
/// canonical encoding, or `None` when the value cannot be canonicalized.
pub open spec fn canonical_digest(value: JsonTree) -> Option<Seq<char>> {
    match spec_canonical_json(value) {
        Some(bytes) => Some(digest_text(bytes)),
        None => None,
    }
}

/// A JSON document as plain values. Object members keep their order here;
/// the canonical encoding orders them by key.
pub enum JsonTree {
    Null,
    Bool(bool),
    Number(u64),
    Text(Seq<char>),
    Array(Seq<JsonTree>),
    Object(Seq<(Seq<char>, JsonTree)>),
}

/// An executable JSON document.
#[derive(Debug)]
pub enum Json {
    Null,
    Bool(bool),
    Number(u64),
    Text(String),
    Array(Vec<Json>),
    Object(Vec<(String, Json)>),
}

impl Json {
    pub open spec fn tree(&self) -> JsonTree
        decreases self,
    {
        match self {
            Json::Null => JsonTree::Null,
            Json::Bool(b) => JsonTree::Bool(*b),
            Json::Number(n) => JsonTree::Number(*n),
            Json::Text(s) => JsonTree::Text(s@),
            Json::Array(items) => JsonTree::Array(
                Seq::new(
                    items@.len(),
                    |i: int|
                        {
                            if 0 <= i < items@.len() {
                                proof {
                                    assert(decreases_to!(*items => items@[i]));
                                }
                                items@[i].tree()
                            } else {
                                JsonTree::Null
                            }
                        },
                ),
            ),
            Json::Object(members) => JsonTree::Object(
                Seq::new(
                    members@.len(),
                    |i: int|
                        {
                            if 0 <= i < members@.len() {
                                proof {
                                    assert(decreases_to!(*members => members@[i]));
                                }
                                (members@[i].0@, members@[i].1.tree())
                            } else {
                                (Seq::empty(), JsonTree::Null)
                            }
                        },
                ),
            ),
        }
    }
}

/// `sha2::Sha256::digest`: the 32-byte SHA-256 hash of `bytes`.
#[verifier::external_body]
pub(crate) fn sha256(bytes: &[u8]) -> (hash: Vec<u8>)
    ensures
        hash@ == spec_sha256(bytes@),
        hash@.len() == 32,
{
    sha2::Sha256::digest(bytes).to_vec()
}

fn hex_digit_char(n: u8) -> (c: char)
    requires
        n < 16,
    ensures
        c == hex_digit(n as int),
{
    if n < 10 {
        ((48u8 + n) as char)
    } else {
        ((87u8 + n) as char)
    }
}

/// Lowercase hexadecimal text, two digits per byte, high nibble first.
pub fn hex_encode(bytes: &[u8]) -> (text: String)
    ensures
        text@ == hex_lower(bytes@),
{
    let mut text = String::new();
    let mut i: usize = 0;
    while i < bytes.len()
        invariant
            i <= bytes@.len(),
            text@ == hex_lower(bytes@.subrange(0, i as int)),
        decreases bytes@.len() - i,
    {
        let b = bytes[i];
        proof {
            let next = bytes@.subrange(0, i + 1);
            assert(next.drop_last() =~= bytes@.subrange(0, i as int));
            assert(next.last() == b);
        }
        push_char(&mut text, hex_digit_char(b / 16));
        push_char(&mut text, hex_digit_char(b % 16));
        i += 1;
    }
    assert(bytes@.subrange(0, bytes@.len() as int) =~= bytes@);
    text
}

/// `serde_json_canonicalizer::to_vec` applied to the document.
#[verifier::external_body]
pub(crate) fn canonical_json_bytes(value: &Json) -> (bytes: Option<Vec<u8>>)
    ensures
        match bytes {
            Some(b) => spec_canonical_json(value.tree()) == Some(b@),
            None => spec_canonical_json(value.tree()) is None,
        },
{
    serde_json_canonicalizer::to_vec(&json_value(value)).ok()
}

/// `serde_json::Value`, carried through opaquely into the canonicalizer.
#[verifier::external_type_specification]
#[verifier::external_body]
pub struct ExJsonValue(serde_json::Value);

/// Converts the document into `serde_json::Value`, one node for one node.
#[verifier::external_body]
fn json_value(value: &Json) -> serde_json::Value {
    match value {
        Json::Null => serde_json::Value::Null,
        Json::Bool(b) => serde_json::Value::Bool(*b),
        Json::Number(n) => serde_json::Value::from(*n),
        Json::Text(s) => serde_json::Value::String(s.clone()),
        Json::Array(items) => serde_json::Value::Array(items.iter().map(json_value).collect()),
        Json::Object(members) => serde_json::Value::Object(
            members.iter().map(|(k, v)| (k.clone(), json_value(v))).collect(),
        ),
    }
}

/// A `sha256:` address: the prefix and 64 lowercase hexadecimal digits.
pub open spec fn address_shape(s: Seq<char>) -> bool {
    &&& has_prefix(s, "sha256:"@)
    &&& is_lower_hex_text(s.subrange(7, s.len() as int), 64)
}

/// The `sha256:` address of raw bytes.
pub fn digest_bytes(bytes: &[u8]) -> (d: String)
    ensures
        d@ == digest_text(bytes@),
        address_shape(d@),
{
    let hash = sha256(bytes);
    let hex = hex_encode(hash.as_slice());
    let mut d = String::from_str("sha256:");
    proof {
        reveal_strlit("sha256:");
        lemma_hex_lower_shape(hash@);
    }
    d.append(hex.as_str());
    proof {
        assert(d@.subrange(0, 7) =~= "sha256:"@);
        assert(d@.subrange(7, d@.len() as int) =~= hex@);
    }
    d
}

/// The content address of a JSON document, or `None` when it has no
/// canonical encoding.
pub fn canonical_hash(value: &Json) -> (d: Option<String>)
    ensures
        match d {
            Some(s) => canonical_digest(value.tree()) == Some(s@),
            None => canonical_digest(value.tree()) is None,
        },
{
    match canonical_json_bytes(value) {
        Some(bytes) => Some(digest_bytes(bytes.as_slice())),
        None => None,
    }
}

/// The canonical encoding of a JSON document, or `None` when it has none.
pub fn canonical_bytes(value: &Json) -> (b: Option<Vec<u8>>)
    ensures
        match b {
            Some(v) => spec_canonical_json(value.tree()) == Some(v@),
            None => spec_canonical_json(value.tree()) is None,
        },
{
    canonical_json_bytes(value)
}

/// A JSON text node.
pub fn json_text(s: &str) -> (j: Json)
    ensures
        j.tree() == JsonTree::Text(s@),
{
    Json::Text(s.to_owned())
}

/// A JSON array of text nodes.
pub fn json_texts(items: &Vec<String>) -> (j: Json)
    ensures
        j.tree() == JsonTree::Array(texts_tree(items.deep_view())),
{
    let mut out: Vec<Json> = Vec::new();
    let mut i: usize = 0;
    while i < items.len()
        invariant
            i <= items@.len(),
            out@.len() == i,
            forall|k: int| 0 <= k < i ==> #[trigger] out@[k].tree() == JsonTree::Text(items@[k]@),
        decreases items@.len() - i,
    {
        out.push(Json::Text(items[i].clone()));
        i += 1;
    }
    let ghost outs = out@;
    let j = Json::Array(out);
    assert(j.tree()->Array_0 =~= texts_tree(items.deep_view())) by {
        assert forall|k: int| 0 <= k < outs.len() implies j.tree()->Array_0[k] == JsonTree::Text(
            items@[k]@,
        ) by {
            assert(outs[k].tree() == JsonTree::Text(items@[k]@));
        }
    }
    j
}

/// Text nodes for a sequence of strings.
pub open spec fn texts_tree(items: Seq<Seq<char>>) -> Seq<JsonTree> {
    Seq::new(items.len(), |i: int| JsonTree::Text(items[i]))
}

/// Member trees of an object, in order.
pub open spec fn members_tree(members: Seq<(String, Json)>) -> Seq<(Seq<char>, JsonTree)> {
    Seq::new(members.len(), |i: int| (members[i].0@, members[i].1.tree()))
}

/// Element trees of an array, in order.
pub open spec fn items_tree(items: Seq<Json>) -> Seq<JsonTree> {
    Seq::new(items.len(), |i: int| items[i].tree())
}

/// Number nodes for a sequence of integers.
pub open spec fn numbers_tree(items: Seq<u64>) -> Seq<JsonTree> {
    Seq::new(items.len(), |i: int| JsonTree::Number(items[i]))
}

/// A JSON object with the given members, in order.
pub fn json_object(members: Vec<(String, Json)>) -> (j: Json)
    ensures
        j.tree() == JsonTree::Object(members_tree(members@)),
{
    let ghost m = members@;
    let j = Json::Object(members);
    assert(j.tree()->Object_0 =~= members_tree(m));
    j
}

/// A JSON array with the given elements, in order.
pub fn json_array(items: Vec<Json>) -> (j: Json)
    ensures
        j.tree() == JsonTree::Array(items_tree(items@)),
{
    let ghost m = items@;
    let j = Json::Array(items);
    assert(j.tree()->Array_0 =~= items_tree(m));
    j
}

/// A JSON array of numbers.
pub fn json_numbers(items: &Vec<u64>) -> (j: Json)
    ensures
        j.tree() == JsonTree::Array(numbers_tree(items@)),
{
    let mut out: Vec<Json> = Vec::new();
    let mut i: usize = 0;
    while i < items.len()
        invariant
            i <= items@.len(),
            out@.len() == i,
            forall|k: int| 0 <= k < i ==> #[trigger] out@[k].tree() == JsonTree::Number(items@[k]),
        decreases items@.len() - i,
    {
        out.push(Json::Number(items[i]));
        i += 1;
    }
    let ghost outs = out@;
    let j = json_array(out);
    assert(items_tree(outs) =~= numbers_tree(items@));
    j
}

/// A number node, or `null` for `None`.
pub open spec fn optional_number_tree(n: Option<u64>) -> JsonTree {
    match n {
        Some(v) => JsonTree::Number(v),
        None => JsonTree::Null,
    }
}

/// A number node, or `null` for `None`.
pub fn json_optional_number(n: Option<u64>) -> (j: Json)
    ensures
        j.tree() == optional_number_tree(n),
{
    match n {
        Some(v) => Json::Number(v),
        None => Json::Null,
    }
}

/// An object member.
pub fn member(key: &str, value: Json) -> (m: (String, Json))
    ensures
        m.0@ == key@,
        m.1 == value,
{
    (key.to_owned(), value)
}


/// The value of the last member named `key` among the first `n` members.
pub open spec fn member_named(members: Seq<(Seq<char>, JsonTree)>, key: Seq<char>, n: int) -> Option<JsonTree>
    decreases n,
{
    if n <= 0 || n > members.len() {
        None
    } else if members[n - 1].0 == key {
        Some(members[n - 1].1)
    } else {
        member_named(members, key, n - 1)
    }
}

/// The node that a path of member names leads to from `t`.
pub open spec fn tree_at(t: JsonTree, path: Seq<Seq<char>>) -> Option<JsonTree>
    decreases path.len(),
{
    if path.len() == 0 {
        Some(t)
    } else {
        match t {
            JsonTree::Object(members) => match member_named(members, path[0], members.len() as int) {
                Some(v) => tree_at(v, path.drop_first()),
                None => None,
            },
            _ => None,
        }
    }
}

/// The text of a node, where it is a text node.
pub open spec fn text_node(node: Option<JsonTree>) -> Option<Seq<char>> {
    match node {
        Some(JsonTree::Text(s)) => Some(s),
        _ => None,
    }
}

/// The value of the last member named `key`, where the document is an object.
pub fn member_of<'a>(value: &'a Json, key: &str) -> (r: Option<&'a Json>)
    ensures
        match r {
            Some(v) => tree_at(value.tree(), seq![key@]) == Some(v.tree()),
            None => tree_at(value.tree(), seq![key@]) is None,
        },
{
    let ghost path = seq![key@];
    assert(path.drop_first() =~= Seq::<Seq<char>>::empty());
    match value {
        Json::Object(members) => {
            let ghost ms = value.tree()->Object_0;
            assert(ms.len() == members@.len());
            let mut i: usize = members.len();
            while i > 0
                invariant
                    *value == Json::Object(*members),
                    path == seq![key@],
                    path.drop_first() == Seq::<Seq<char>>::empty(),
                    ms == value.tree()->Object_0,
                    ms.len() == members@.len(),
                    i <= members@.len(),
                    member_named(ms, key@, members@.len() as int) == member_named(ms, key@, i as int),
                decreases i,
            {
                assert(ms[i - 1] == (members@[i - 1].0@, members@[i - 1].1.tree()));
                if text_eq(members[i - 1].0.as_str(), key) {
                    proof {
                        let v = members@[i - 1].1.tree();
                        assert(member_named(ms, key@, i as int) == Some(v));
                        assert(tree_at(v, Seq::<Seq<char>>::empty()) == Some(v));
                        assert(path[0] == key@);
                    }
                    return Some(&members[i - 1].1);
                }
                i -= 1;
            }
            proof {
                assert(member_named(ms, key@, 0) is None);
                assert(path[0] == key@);
            }
            None
        },
        _ => None,
    }
}

/// The view of a path of member names.
pub open spec fn path_view(path: Seq<&str>) -> Seq<Seq<char>> {
    Seq::new(path.len(), |i: int| path[i]@)
}

proof fn lemma_tree_at_step(t: JsonTree, path: Seq<Seq<char>>, i: int, v: JsonTree)
    requires
        0 <= i < path.len(),
        tree_at(t, seq![path[i]]) == Some(v),
    ensures
        tree_at(t, path.subrange(i, path.len() as int)) == tree_at(v, path.subrange(i + 1, path.len() as int)),
{
    let rest = path.subrange(i, path.len() as int);
    let one = seq![path[i]];
    assert(rest.drop_first() =~= path.subrange(i + 1, path.len() as int));
    assert(one.drop_first() =~= Seq::<Seq<char>>::empty());
    assert(rest[0] == path[i]);
    assert(one[0] == path[i]);
    match t {
        JsonTree::Object(members) => {
            match member_named(members, path[i], members.len() as int) {
                Some(w) => {
                    assert(tree_at(w, Seq::<Seq<char>>::empty()) == Some(w));
                    assert(w == v);
                },
                None => {},
            }
        },
        _ => {},
    }
}

/// The node is absent where the first step of the rest of a path is.
proof fn lemma_tree_at_stop(t: JsonTree, path: Seq<Seq<char>>, i: int)
    requires
        0 <= i < path.len(),
        tree_at(t, seq![path[i]]) is None,
    ensures
        tree_at(t, path.subrange(i, path.len() as int)) is None,
{
    let rest = path.subrange(i, path.len() as int);
    let one = seq![path[i]];
    assert(one.drop_first() =~= Seq::<Seq<char>>::empty());
    assert(rest[0] == path[i]);
    assert(one[0] == path[i]);
    match t {
        JsonTree::Object(members) => {
            match member_named(members, path[i], members.len() as int) {
                Some(w) => {
                    assert(tree_at(w, Seq::<Seq<char>>::empty()) == Some(w));
                },
                None => {},
            }
        },
        _ => {},
    }
}

/// The node that a path of member names leads to.
pub fn json_at<'a>(value: &'a Json, path: &[&str]) -> (r: Option<&'a Json>)
    ensures
        match r {
            Some(v) => tree_at(value.tree(), path_view(path@)) == Some(v.tree()),
            None => tree_at(value.tree(), path_view(path@)) is None,
        },
{
    let ghost pv = path_view(path@);
    let mut current = value;
    let mut i: usize = 0;
    assert(pv.subrange(0, pv.len() as int) =~= pv);
    while i < path.len()
        invariant
            i <= path@.len(),
            pv == path_view(path@),
            tree_at(value.tree(), pv) == tree_at(current.tree(), pv.subrange(i as int, pv.len() as int)),
        decreases path@.len() - i,
    {
        match member_of(current, path[i]) {
            Some(next) => {
                proof {
                    lemma_tree_at_step(current.tree(), pv, i as int, next.tree());
                }
                current = next;
            },
            None => {
                proof {
                    lemma_tree_at_stop(current.tree(), pv, i as int);
                }
                return None;
            },
        }
        i += 1;
    }
    assert(pv.subrange(i as int, pv.len() as int) =~= Seq::<Seq<char>>::empty());
    Some(current)
}

/// The text at a path of member names, where the node there is text.
pub fn text_at(value: &Json, path: &[&str]) -> (r: Option<String>)
    ensures
        match r {
            Some(s) => text_node(tree_at(value.tree(), path_view(path@))) == Some(s@),
            None => text_node(tree_at(value.tree(), path_view(path@))) is None,
        },
{
    match json_at(value, path) {
        Some(Json::Text(s)) => Some(s.clone()),
        _ => None,
    }
}

/// Whether two byte strings are equal.
pub fn bytes_eq(a: &[u8], b: &[u8]) -> (r: bool)
    ensures
        r == (a@ == b@),
{
    if a.len() != b.len() {
        return false;
    }
    let mut i: usize = 0;
    while i < a.len()
        invariant
            i <= a@.len(),
            a@.len() == b@.len(),
            forall|k: int| 0 <= k < i ==> a@[k] == b@[k],
        decreases a@.len() - i,
    {
        if a[i] != b[i] {
            return false;
        }
        i += 1;
    }
    assert(a@ =~= b@);
    true
}

/// A deep copy of a JSON document.
pub fn json_copy(value: &Json) -> (r: Json)
    ensures
        r.tree() == value.tree(),
    decreases value,
{
    match value {
        Json::Null => Json::Null,
        Json::Bool(b) => Json::Bool(*b),
        Json::Number(n) => Json::Number(*n),
        Json::Text(s) => Json::Text(s.clone()),
        Json::Array(items) => {
            let mut out: Vec<Json> = Vec::new();
            let mut i: usize = 0;
            while i < items.len()
                invariant
                    *value == Json::Array(*items),
                    i <= items@.len(),
                    out@.len() == i,
                    forall|k: int| 0 <= k < i ==> #[trigger] out@[k].tree() == items@[k].tree(),
                decreases items@.len() - i,
            {
                proof {
                    assert(decreases_to!(*value => (*value)->Array_0));
                    assert(decreases_to!(*items => items@));
                    assert(decreases_to!(items@ => items@[i as int]));
                    assert(decreases_to!(*value => items@[i as int]));
                }
                out.push(json_copy(&items[i]));
                i += 1;
            }
            let ghost outs = out@;
            let r = Json::Array(out);
            assert forall|k: int| 0 <= k < items@.len() implies r.tree()->Array_0[k] == value.tree()->Array_0[k] by {
                assert(outs[k].tree() == items@[k].tree());
            }
            assert(r.tree()->Array_0 =~= value.tree()->Array_0);
            r
        },
        Json::Object(members) => {
            let mut out: Vec<(String, Json)> = Vec::new();
            let mut i: usize = 0;
            while i < members.len()
                invariant
                    *value == Json::Object(*members),
                    i <= members@.len(),
                    out@.len() == i,
                    forall|k: int|
                        0 <= k < i ==> (#[trigger] out@[k]).0@ == members@[k].0@ && out@[k].1.tree()
                            == members@[k].1.tree(),
                decreases members@.len() - i,
            {
                proof {
                    assert(decreases_to!(*value => (*value)->Object_0));
                    assert(decreases_to!(*members => members@));
                    assert(decreases_to!(members@ => members@[i as int]));
                    assert(decreases_to!(members@[i as int] => members@[i as int].1));
                    assert(decreases_to!(*value => members@[i as int].1));
                }
                let (key, member_value) = &members[i];
                out.push((key.clone(), json_copy(member_value)));
                i += 1;
            }
            let ghost outs = out@;
            let r = Json::Object(out);
            assert forall|k: int| 0 <= k < members@.len() implies r.tree()->Object_0[k] == value.tree()->Object_0[k] by {
                assert(outs[k].0@ == members@[k].0@ && outs[k].1.tree() == members@[k].1.tree());
            }
            assert(r.tree()->Object_0 =~= value.tree()->Object_0);
            r
        },
    }
}

/// Hexadecimal text has two lowercase hexadecimal digits per byte.
pub proof fn lemma_hex_lower_shape(b: Seq<u8>)
    ensures
        hex_lower(b).len() == 2 * b.len(),
        forall|i: int| 0 <= i < hex_lower(b).len() ==> #[trigger] in_class(CharClass::LowerHex, hex_lower(b)[i]),
    decreases b.len(),
{
    if b.len() > 0 {
        lemma_hex_lower_shape(b.drop_last());
        let prefix = hex_lower(b.drop_last());
        let x = b.last() as int;
        assert(0 <= x / 16 < 16);
        assert(0 <= x % 16 < 16);
        assert forall|i: int| 0 <= i < hex_lower(b).len() implies #[trigger] in_class(
            CharClass::LowerHex,
            hex_lower(b)[i],
        ) by {
            if i < prefix.len() {
                assert(hex_lower(b)[i] == prefix[i]);
            }
        }
    }
}

proof fn lemma_hex_digit_injective(x: int, y: int)
    requires
        0 <= x < 16,
        0 <= y < 16,
        hex_digit(x) == hex_digit(y),
    ensures
        x == y,
{
}

/// Distinct byte strings have distinct hexadecimal text.
pub proof fn lemma_hex_lower_injective(a: Seq<u8>, b: Seq<u8>)
    requires
        hex_lower(a) == hex_lower(b),
    ensures
        a == b,
    decreases a.len(),
{
    lemma_hex_lower_shape(a);
    lemma_hex_lower_shape(b);
    if a.len() > 0 {
        let ha = hex_lower(a);
        let pa = hex_lower(a.drop_last());
        let pb = hex_lower(b.drop_last());
        lemma_hex_lower_shape(a.drop_last());
        lemma_hex_lower_shape(b.drop_last());
        assert(pa =~= ha.subrange(0, pa.len() as int));
        assert(pb =~= ha.subrange(0, pb.len() as int));
        lemma_hex_lower_injective(a.drop_last(), b.drop_last());
        let x = a.last() as int;
        let y = b.last() as int;
        assert(ha[pa.len() as int] == hex_digit(x / 16));
        assert(ha[pa.len() as int] == hex_digit(y / 16));
        assert(ha[pa.len() as int + 1] == hex_digit(x % 16));
        assert(ha[pa.len() as int + 1] == hex_digit(y % 16));
        lemma_hex_digit_injective(x / 16, y / 16);
        lemma_hex_digit_injective(x % 16, y % 16);
        assert(x == y);
        assert(a =~= a.drop_last().push(a.last()));
        assert(b =~= b.drop_last().push(b.last()));
    }
}

} // verus!
