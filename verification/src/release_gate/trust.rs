//! The protected release trust policy: canonical base64, the pinned signer
//! set, and the Ed25519 signature of the public admission.
use vstd::prelude::*;
use vstd::string::*;

use crate::digest::{
    canonical_json_bytes, digest_bytes, digest_text, items_tree, json_array, json_object, json_text, member,
    members_tree, spec_canonical_json, Json, JsonTree,
};
use crate::release_gate::admission::{
    unsigned_admission_tree, ReleaseGateAdmissionV1, ReleaseGateCorpusManifestV1,
    VerifiedReleaseGateAdmission, VerifiedReleaseGateCorpus,
};
use crate::release_gate::paths::{is_same_path, same_path};
use crate::release_gate::plan::CandidateExecutionExpectations;
use crate::release_gate::signing::{ed25519_key_decodes, ed25519_verify, spec_ed25519_verifies};
use crate::release_gate::{
    is_valid_digest, is_valid_identifier, valid_digest, valid_identifier, CandidateCatalog,
    CandidateGateError, RELEASE_IDENTITY,
};
use crate::text::{chars_of, text_eq};

verus! {

// ---------------------------------------------------------------------------
// Canonical base64
// ---------------------------------------------------------------------------
/// The standard base64 digit for a sextet.
pub open spec fn b64_digit(n: int) -> char {
    if n < 26 {
        (65 + n) as char
    } else if n < 52 {
        (97 + n - 26) as char
    } else if n < 62 {
        (48 + n - 52) as char
    } else if n == 62 {
        '+'
    } else {
        '/'
    }
}

/// The sextet of a standard base64 digit.
pub open spec fn b64_value(c: char) -> Option<int> {
    if 'A' <= c && c <= 'Z' {
        Some(c as int - 65)
    } else if 'a' <= c && c <= 'z' {
        Some(c as int - 97 + 26)
    } else if '0' <= c && c <= '9' {
        Some(c as int - 48 + 52)
    } else if c == '+' {
        Some(62)
    } else if c == '/' {
        Some(63)
    } else {
        None
    }
}

/// Padded base64 of one to three bytes.
pub open spec fn base64_chunk(b: Seq<u8>) -> Seq<char> {
    let b0 = b[0] as int;
    let b1 = if b.len() > 1 {
        b[1] as int
    } else {
        0
    };
    let b2 = if b.len() > 2 {
        b[2] as int
    } else {
        0
    };
    let s0 = b0 / 4;
    let s1 = (b0 % 4) * 16 + b1 / 16;
    let s2 = (b1 % 16) * 4 + b2 / 64;
    let s3 = b2 % 64;
    if b.len() == 1 {
        seq![b64_digit(s0), b64_digit(s1), '=', '=']
    } else if b.len() == 2 {
        seq![b64_digit(s0), b64_digit(s1), b64_digit(s2), '=']
    } else {
        seq![b64_digit(s0), b64_digit(s1), b64_digit(s2), b64_digit(s3)]
    }
}

/// Standard padded base64 text of bytes.
pub open spec fn base64_text(b: Seq<u8>) -> Seq<char>
    decreases b.len(),
{
    if b.len() == 0 {
        Seq::empty()
    } else if b.len() <= 3 {
        base64_chunk(b)
    } else {
        base64_chunk(b.subrange(0, 3)) + base64_text(b.subrange(3, b.len() as int))
    }
}

/// Number of trailing `=` of a four-character chunk.
pub open spec fn chunk_padding(c: Seq<char>) -> int {
    if c[3] == '=' {
        if c[2] == '=' {
            if c[1] == '=' {
                if c[0] == '=' {
                    4
                } else {
                    3
                }
            } else {
                2
            }
        } else {
            1
        }
    } else {
        0
    }
}

/// What one four-character chunk decodes to: at most two trailing `=`, and
/// only in the last chunk; base64 digits elsewhere; zero unused bits.
pub open spec fn decode_chunk(c: Seq<char>, last: bool) -> Option<Seq<u8>> {
    let pad = chunk_padding(c);
    let sextet = |i: int|
        if i >= 4 - pad {
            0
        } else {
            b64_value(c[i])->0
        };
    let s0 = sextet(0);
    let s1 = sextet(1);
    let s2 = sextet(2);
    let s3 = sextet(3);
    let b0 = (s0 * 4 + s1 / 16) as u8;
    let b1 = ((s1 % 16) * 16 + s2 / 4) as u8;
    let b2 = ((s2 % 4) * 64 + s3) as u8;
    if pad > 2 || (pad > 0 && !last) || (exists|i: int| 0 <= i < 4 - pad && #[trigger] b64_value(c[i]) is None) {
        None
    } else if pad == 2 && s1 % 16 != 0 || pad == 1 && s2 % 4 != 0 {
        None
    } else if pad == 2 {
        Some(seq![b0])
    } else if pad == 1 {
        Some(seq![b0, b1])
    } else {
        Some(seq![b0, b1, b2])
    }
}

proof fn lemma_b64_digit_value(n: int)
    requires
        0 <= n < 64,
    ensures
        b64_value(b64_digit(n)) == Some(n),
        b64_digit(n) != '=',
{
}

proof fn lemma_b64_value_digit(c: char)
    requires
        b64_value(c) is Some,
    ensures
        0 <= b64_value(c)->0 < 64,
        b64_digit(b64_value(c)->0) == c,
{
}

/// A chunk encoded from one to three bytes decodes back to them.
proof fn lemma_chunk_round_trip(b: Seq<u8>, last: bool)
    requires
        1 <= b.len() <= 3,
        b.len() < 3 ==> last,
    ensures
        base64_chunk(b).len() == 4,
        decode_chunk(base64_chunk(b), last) == Some(b),
{
    let c = base64_chunk(b);
    let b0 = b[0] as int;
    let b1 = if b.len() > 1 {
        b[1] as int
    } else {
        0
    };
    let b2 = if b.len() > 2 {
        b[2] as int
    } else {
        0
    };
    let s0 = b0 / 4;
    let s1 = (b0 % 4) * 16 + b1 / 16;
    let s2 = (b1 % 16) * 4 + b2 / 64;
    let s3 = b2 % 64;
    lemma_b64_digit_value(s0);
    lemma_b64_digit_value(s1);
    lemma_b64_digit_value(s2);
    lemma_b64_digit_value(s3);
    assert(s0 * 4 + s1 / 16 == b0);
    assert((s1 % 16) * 16 + s2 / 4 == b1);
    assert((s2 % 4) * 64 + s3 == b2);
    if b.len() == 1 {
        assert(chunk_padding(c) == 2);
        assert(s1 % 16 == 0);
        assert(decode_chunk(c, last) =~= Some(seq![b[0]]));
        assert(seq![b[0]] =~= b);
    } else if b.len() == 2 {
        assert(chunk_padding(c) == 1);
        assert(s2 % 4 == 0);
        assert(seq![b[0], b[1]] =~= b);
    } else {
        assert(chunk_padding(c) == 0);
        assert(seq![b[0], b[1], b[2]] =~= b);
    }
}

/// A chunk that decodes is the encoding of what it decodes to.
#[verifier::rlimit(40)]
#[verifier::spinoff_prover]
proof fn lemma_chunk_canonical(c: Seq<char>, last: bool)
    requires
        c.len() == 4,
        decode_chunk(c, last) is Some,
    ensures
        1 <= decode_chunk(c, last)->0.len() <= 3,
        decode_chunk(c, last)->0.len() < 3 ==> last,
        base64_chunk(decode_chunk(c, last)->0) == c,
{
    let pad = chunk_padding(c);
    assert(forall|i: int| 0 <= i < 4 - pad ==> #[trigger] b64_value(c[i]) is Some);
    let b = decode_chunk(c, last)->0;
    assert(b64_value(c[0]) is Some);
    lemma_b64_value_digit(c[0]);
    if pad < 3 {
        assert(b64_value(c[1]) is Some);
        lemma_b64_value_digit(c[1]);
    }
    if pad < 2 {
        assert(b64_value(c[2]) is Some);
        lemma_b64_value_digit(c[2]);
    }
    if pad < 1 {
        assert(b64_value(c[3]) is Some);
        lemma_b64_value_digit(c[3]);
    }
    assert(base64_chunk(b) =~= c);
}

proof fn lemma_base64_len(b: Seq<u8>)
    ensures
        base64_text(b).len() % 4 == 0,
        base64_text(b).len() == 0 <==> b.len() == 0,
    decreases b.len(),
{
    if b.len() > 3 {
        lemma_base64_len(b.subrange(3, b.len() as int));
    }
}

/// Encoding a whole number of three-byte groups, then more bytes, is the
/// concatenation of their encodings.
proof fn lemma_base64_append(p: Seq<u8>, q: Seq<u8>)
    requires
        p.len() % 3 == 0,
    ensures
        base64_text(p + q) == base64_text(p) + base64_text(q),
    decreases p.len(),
{
    if p.len() == 0 {
        assert(p + q =~= q);
    } else {
        let pq = p + q;
        lemma_base64_append(p.subrange(3, p.len() as int), q);
        assert(pq.subrange(0, 3) =~= p.subrange(0, 3));
        assert(pq.subrange(3, pq.len() as int) =~= p.subrange(3, p.len() as int) + q);
        if p.len() == 3 {
            assert(p.subrange(3, 3) =~= Seq::<u8>::empty());
            assert(p.subrange(0, 3) =~= p);
            if q.len() == 0 {
                assert(pq =~= p);
            }
        }
    }
}

fn b64_value_of(c: char) -> (r: Option<u8>)
    ensures
        match r {
            Some(v) => b64_value(c) == Some(v as int),
            None => b64_value(c) is None,
        },
{
    if 'A' <= c && c <= 'Z' {
        Some((c as u32 - 65) as u8)
    } else if 'a' <= c && c <= 'z' {
        Some((c as u32 - 97 + 26) as u8)
    } else if '0' <= c && c <= '9' {
        Some((c as u32 - 48 + 52) as u8)
    } else if c == '+' {
        Some(62)
    } else if c == '/' {
        Some(63)
    } else {
        None
    }
}

fn decode_chunk_at(v: &Vec<char>, at: usize, last: bool) -> (r: Option<Vec<u8>>)
    requires
        at + 4 <= v@.len(),
    ensures
        match r {
            Some(b) => decode_chunk(v@.subrange(at as int, at + 4), last) == Some(b@),
            None => decode_chunk(v@.subrange(at as int, at + 4), last) is None,
        },
{
    let len = v.len();
    let ghost c = v@.subrange(at as int, at + 4);
    assert(c[0] == v@[at as int] && c[1] == v@[at + 1] && c[2] == v@[at + 2] && c[3] == v@[at + 3]);
    let pad: usize = if v[at + 3] == '=' {
        if v[at + 2] == '=' {
            if v[at + 1] == '=' {
                3
            } else {
                2
            }
        } else {
            1
        }
    } else {
        0
    };
    if pad > 2 || (pad > 0 && !last) {
        return None;
    }
    assert(pad == chunk_padding(c));
    let mut sextets: Vec<u8> = Vec::new();
    let mut i: usize = 0;
    while i < 4
        invariant
            i <= 4,
            pad <= 2,
            pad == chunk_padding(c),
            at + 4 <= v@.len(),
            len == v@.len(),
            c == v@.subrange(at as int, at + 4),
            sextets@.len() == i,
            forall|k: int| 0 <= k < i && k < 4 - pad ==> #[trigger] b64_value(c[k]) == Some(sextets@[k] as int),
            forall|k: int| 0 <= k < i && k >= 4 - pad ==> #[trigger] sextets@[k] == 0,
        decreases 4 - i,
    {
        if i >= 4 - pad {
            sextets.push(0);
        } else {
            assert(c[i as int] == v@[at + i]);
            match b64_value_of(v[at + i]) {
                Some(s) => {
                    sextets.push(s);
                },
                None => {
                    assert(b64_value(c[i as int]) is None);
                    return None;
                },
            }
        }
        i += 1;
    }
    let s0 = sextets[0] as u32;
    let s1 = sextets[1] as u32;
    let s2 = sextets[2] as u32;
    let s3 = sextets[3] as u32;
    proof {
        assert(!(exists|k: int| 0 <= k < 4 - pad && #[trigger] b64_value(c[k]) is None)) by {
            assert forall|k: int| 0 <= k < 4 - pad implies #[trigger] b64_value(c[k]) is Some by {
                assert(b64_value(c[k]) == Some(sextets@[k] as int));
            }
        }
        assert(forall|k: int| 0 <= k < 4 - pad ==> #[trigger] b64_value(c[k]) == Some(sextets@[k] as int));
        assert(s0 < 64 && s1 < 64 && s2 < 64 && s3 < 64) by {
            assert forall|k: int| 0 <= k < 4 implies sextets@[k] < 64 by {
                if k < 4 - pad {
                    assert(b64_value(c[k]) == Some(sextets@[k] as int));
                }
            }
        }
    }
    if (pad == 2 && s1 % 16 != 0) || (pad == 1 && s2 % 4 != 0) {
        return None;
    }
    let mut out: Vec<u8> = Vec::new();
    out.push((s0 * 4 + s1 / 16) as u8);
    if pad < 2 {
        out.push(((s1 % 16) * 16 + s2 / 4) as u8);
    }
    if pad == 0 {
        out.push(((s2 % 4) * 64 + s3) as u8);
    }
    proof {
        let d = decode_chunk(c, last)->0;
        assert(out@ =~= d);
    }
    Some(out)
}

/// What the decoder knows after `k` of its `n` chunks: `out` encodes the
/// first `4k` characters, and any byte string that encodes all of `v`
/// starts with `out` and encodes the rest with the rest.
pub open spec fn decoded_prefix(v: Seq<char>, out: Seq<u8>, k: int, n: int) -> bool {
    &&& 0 <= k <= n
    &&& v.len() == 4 * n
    &&& k < n ==> out.len() == 3 * k
    &&& base64_text(out) == v.subrange(0, 4 * k)
    &&& forall|b: Seq<u8>|
        base64_text(b) == v ==> #[trigger] b.len() >= out.len() && b.subrange(0, out.len() as int) == out
            && base64_text(b.subrange(out.len() as int, b.len() as int)) == v.subrange(4 * k, 4 * n)
}

proof fn lemma_rest_chunk(v: Seq<char>, out: Seq<u8>, k: int, n: int, b: Seq<u8>)
    requires
        decoded_prefix(v, out, k, n),
        k < n,
        base64_text(b) == v,
    ensures
        ({
            let rest = b.subrange(out.len() as int, b.len() as int);
            let last = k + 1 == n;
            let c = v.subrange(4 * k, 4 * k + 4);
            &&& rest.len() <= 3 ==> last && decode_chunk(c, last) == Some(rest)
            &&& rest.len() > 3 ==> decode_chunk(c, last) == Some(rest.subrange(0, 3)) && base64_text(
                rest.subrange(3, rest.len() as int),
            ) == v.subrange(4 * k + 4, 4 * n)
        }),
{
    let rest = b.subrange(out.len() as int, b.len() as int);
    let last = k + 1 == n;
    let c = v.subrange(4 * k, 4 * k + 4);
    lemma_base64_len(rest);
    if rest.len() <= 3 {
        lemma_chunk_round_trip(rest, true);
        assert(v.subrange(4 * k, 4 * n) == base64_chunk(rest));
        assert(c =~= v.subrange(4 * k, 4 * n));
    } else {
        let head = rest.subrange(0, 3);
        let tail = rest.subrange(3, rest.len() as int);
        lemma_chunk_round_trip(head, last);
        assert(v.subrange(4 * k, 4 * n) == base64_chunk(head) + base64_text(tail));
        assert(c =~= v.subrange(4 * k, 4 * n).subrange(0, 4));
        assert(v.subrange(4 * k + 4, 4 * n) =~= v.subrange(4 * k, 4 * n).subrange(4, 4 * (n - k)));
    }
}

proof fn lemma_chunk_fails(v: Seq<char>, out: Seq<u8>, k: int, n: int)
    requires
        decoded_prefix(v, out, k, n),
        k < n,
        decode_chunk(v.subrange(4 * k, 4 * k + 4), k + 1 == n) is None,
    ensures
        forall|b: Seq<u8>| base64_text(b) != v,
{
    assert forall|b: Seq<u8>| base64_text(b) != v by {
        if base64_text(b) == v {
            lemma_rest_chunk(v, out, k, n, b);
            let rest = b.subrange(out.len() as int, b.len() as int);
            lemma_base64_len(rest);
        }
    }
}

proof fn lemma_chunk_step_for(v: Seq<char>, out: Seq<u8>, bytes: Seq<u8>, k: int, n: int, b: Seq<u8>)
    requires
        decoded_prefix(v, out, k, n),
        k < n,
        decode_chunk(v.subrange(4 * k, 4 * k + 4), k + 1 == n) == Some(bytes),
        base64_text(b) == v,
    ensures
        b.len() >= (out + bytes).len(),
        b.subrange(0, (out + bytes).len() as int) == out + bytes,
        base64_text(b.subrange((out + bytes).len() as int, b.len() as int)) == v.subrange(4 * (k + 1), 4 * n),
{
    let next = out + bytes;
    lemma_rest_chunk(v, out, k, n, b);
    let rest = b.subrange(out.len() as int, b.len() as int);
    if rest.len() <= 3 {
        assert(bytes == rest);
        assert(b =~= out + rest);
        assert(b.subrange(next.len() as int, b.len() as int) =~= Seq::<u8>::empty());
        assert(v.subrange(4 * (k + 1), 4 * n) =~= Seq::<char>::empty());
    } else {
        let head = rest.subrange(0, 3);
        assert(bytes == head);
        assert(b.subrange(0, next.len() as int) =~= out + head);
        assert(b.subrange(next.len() as int, b.len() as int) =~= rest.subrange(3, rest.len() as int));
    }
}

proof fn lemma_chunk_step(v: Seq<char>, out: Seq<u8>, bytes: Seq<u8>, k: int, n: int)
    requires
        decoded_prefix(v, out, k, n),
        k < n,
        decode_chunk(v.subrange(4 * k, 4 * k + 4), k + 1 == n) == Some(bytes),
    ensures
        decoded_prefix(v, out + bytes, k + 1, n),
{
    let last = k + 1 == n;
    let c = v.subrange(4 * k, 4 * k + 4);
    lemma_chunk_canonical(c, last);
    lemma_base64_append(out, bytes);
    assert(base64_text(bytes) == base64_chunk(bytes));
    assert(v.subrange(0, 4 * k + 4) =~= v.subrange(0, 4 * k) + c);
    let next = out + bytes;
    assert forall|b: Seq<u8>| base64_text(b) == v implies #[trigger] b.len() >= next.len()
        && b.subrange(0, next.len() as int) == next && base64_text(
        b.subrange(next.len() as int, b.len() as int),
    ) == v.subrange(4 * (k + 1), 4 * n) by {
        lemma_chunk_step_for(v, out, bytes, k, n, b);
    }
}

/// Decodes standard padded base64 that is the exact canonical encoding of
/// some nonempty byte string; anything else is refused.
pub fn decode_canonical_base64(value: &str) -> (r: Result<Vec<u8>, CandidateGateError>)
    ensures
        match r {
            Ok(b) => value@.len() > 0 && base64_text(b@) == value@,
            Err(_) => value@.len() == 0 || forall|b: Seq<u8>| base64_text(b) != value@,
        },
{
    let v = chars_of(value);
    let len = v.len();
    if len == 0 || len % 4 != 0 {
        proof {
            if len != 0 {
                assert forall|b: Seq<u8>| base64_text(b) != value@ by {
                    lemma_base64_len(b);
                }
            }
        }
        return Err(CandidateGateError::new("candidate base64 value is invalid"));
    }
    let n = len / 4;
    let mut out: Vec<u8> = Vec::new();
    proof {
        assert(v@.subrange(0, 0) =~= Seq::<char>::empty());
        assert(v@.subrange(0, 4 * n) =~= v@);
        assert forall|b: Seq<u8>| base64_text(b) == v@ implies #[trigger] b.len() >= out@.len()
            && b.subrange(0, out@.len() as int) == out@ && base64_text(
            b.subrange(out@.len() as int, b.len() as int),
        ) == v@.subrange(0, 4 * n) by {
            assert(b.subrange(0, 0) =~= out@);
            assert(b.subrange(0, b.len() as int) =~= b);
        }
    }
    let mut k: usize = 0;
    while k < n
        invariant
            len == v@.len(),
            n == len / 4,
            v@ == value@,
            decoded_prefix(v@, out@, k as int, n as int),
        decreases n - k,
    {
        let last = k + 1 == n;
        let at = 4 * k;
        let ghost before = out@;
        match decode_chunk_at(&v, at, last) {
            None => {
                proof {
                    lemma_chunk_fails(v@, before, k as int, n as int);
                }
                return Err(CandidateGateError::new("candidate base64 value is invalid"));
            },
            Some(bytes) => {
                proof {
                    lemma_chunk_step(v@, before, bytes@, k as int, n as int);
                }
                let mut j: usize = 0;
                while j < bytes.len()
                    invariant
                        j <= bytes@.len(),
                        out@ == before + bytes@.subrange(0, j as int),
                    decreases bytes@.len() - j,
                {
                    out.push(bytes[j]);
                    proof {
                        assert(bytes@.subrange(0, j + 1) =~= bytes@.subrange(0, j as int).push(
                            bytes@[j as int],
                        ));
                    }
                    j += 1;
                }
                proof {
                    assert(bytes@.subrange(0, bytes@.len() as int) =~= bytes@);
                }
            },
        }
        k += 1;
    }
    assert(v@.subrange(0, 4 * n as int) =~= v@);
    Ok(out)
}


/// Distinct byte strings have distinct base64 text.
pub proof fn lemma_base64_injective(a: Seq<u8>, b: Seq<u8>)
    requires
        base64_text(a) == base64_text(b),
    ensures
        a == b,
    decreases a.len(),
{
    lemma_base64_len(a);
    lemma_base64_len(b);
    if a.len() == 0 {
    } else if a.len() <= 3 {
        if b.len() > 3 {
            lemma_base64_len(b.subrange(3, b.len() as int));
            assert(base64_text(b).len() >= 8);
        }
        lemma_chunk_round_trip(a, true);
        lemma_chunk_round_trip(b, true);
    } else {
        lemma_base64_len(a.subrange(3, a.len() as int));
        if b.len() <= 3 {
            assert(base64_text(a).len() >= 8);
        }
        let ha = a.subrange(0, 3);
        let hb = b.subrange(0, 3);
        lemma_chunk_round_trip(ha, false);
        lemma_chunk_round_trip(hb, false);
        let ta = a.subrange(3, a.len() as int);
        let tb = b.subrange(3, b.len() as int);
        assert(base64_chunk(ha) =~= base64_text(a).subrange(0, 4));
        assert(base64_chunk(hb) =~= base64_text(b).subrange(0, 4));
        assert(base64_text(ta) =~= base64_text(a).subrange(4, base64_text(a).len() as int));
        assert(base64_text(tb) =~= base64_text(b).subrange(4, base64_text(b).len() as int));
        lemma_base64_injective(ta, tb);
        assert(a =~= ha + ta);
        assert(b =~= hb + tb);
    }
}

/// `text` is the canonical base64 of some nonempty byte string.
pub open spec fn base64_decodes(text: Seq<char>) -> bool {
    text.len() > 0 && exists|b: Seq<u8>| base64_text(b) == text
}

/// The bytes whose canonical base64 is `text`.
pub open spec fn base64_bytes(text: Seq<char>) -> Seq<u8> {
    choose|b: Seq<u8>| base64_text(b) == text
}

proof fn lemma_base64_bytes(b: Seq<u8>)
    ensures
        base64_bytes(base64_text(b)) == b,
{
    let text = base64_text(b);
    assert(base64_text(b) == text);
    lemma_base64_injective(base64_bytes(text), b);
}

// ---------------------------------------------------------------------------
// The release trust policy
// ---------------------------------------------------------------------------
/// One pinned signer of the release trust policy.
#[derive(Clone, Debug)]
pub struct CandidateTrustedSigner {
    pub key_id: String,
    pub algorithm: String,
    /// DER SubjectPublicKeyInfo of the Ed25519 key, in canonical base64.
    pub public_key_spki_base64: String,
    /// `sha256:` address of the DER bytes.
    pub public_key_fingerprint: String,
}

/// The protected release trust policy.
#[derive(Clone, Debug)]
pub struct CandidateReleaseTrustPolicy {
    pub schema_version: String,
    pub release_identity: String,
    pub authority_signers: Vec<CandidateTrustedSigner>,
    pub promotion_signers: Vec<CandidateTrustedSigner>,
}

/// JSON form of a pinned signer.
pub open spec fn trusted_signer_tree(s: CandidateTrustedSigner) -> JsonTree {
    JsonTree::Object(
        seq![
            ("key_id"@, JsonTree::Text(s.key_id@)),
            ("algorithm"@, JsonTree::Text(s.algorithm@)),
            ("public_key_spki_base64"@, JsonTree::Text(s.public_key_spki_base64@)),
            ("public_key_fingerprint"@, JsonTree::Text(s.public_key_fingerprint@)),
        ],
    )
}

/// JSON form of a list of pinned signers.
pub open spec fn trusted_signers_tree(s: Seq<CandidateTrustedSigner>) -> JsonTree {
    JsonTree::Array(Seq::new(s.len(), |i: int| trusted_signer_tree(s[i])))
}

impl CandidateReleaseTrustPolicy {
    /// JSON form of the policy.
    pub open spec fn tree(&self) -> JsonTree {
        JsonTree::Object(
            seq![
                ("schema_version"@, JsonTree::Text(self.schema_version@)),
                ("release_identity"@, JsonTree::Text(self.release_identity@)),
                ("authority_signers"@, trusted_signers_tree(self.authority_signers@)),
                ("promotion_signers"@, trusted_signers_tree(self.promotion_signers@)),
            ],
        )
    }

    /// Builds the JSON form of the policy.
    pub fn to_json(&self) -> (j: Json)
        ensures
            j.tree() == self.tree(),
    {
        let mut m: Vec<(String, Json)> = Vec::new();
        m.push(member("schema_version", json_text(self.schema_version.as_str())));
        m.push(member("release_identity", json_text(self.release_identity.as_str())));
        m.push(member("authority_signers", trusted_signers_json(&self.authority_signers)));
        m.push(member("promotion_signers", trusted_signers_json(&self.promotion_signers)));
        let ghost ms = m@;
        let j = json_object(m);
        assert(members_tree(ms) =~= self.tree()->Object_0);
        j
    }
}

fn trusted_signers_json(signers: &Vec<CandidateTrustedSigner>) -> (j: Json)
    ensures
        j.tree() == trusted_signers_tree(signers@),
{
    let mut out: Vec<Json> = Vec::new();
    let mut i: usize = 0;
    while i < signers.len()
        invariant
            i <= signers@.len(),
            out@.len() == i,
            forall|k: int| 0 <= k < i ==> #[trigger] out@[k].tree() == trusted_signer_tree(signers@[k]),
        decreases signers@.len() - i,
    {
        let s = &signers[i];
        let mut m: Vec<(String, Json)> = Vec::new();
        m.push(member("key_id", json_text(s.key_id.as_str())));
        m.push(member("algorithm", json_text(s.algorithm.as_str())));
        m.push(member("public_key_spki_base64", json_text(s.public_key_spki_base64.as_str())));
        m.push(member("public_key_fingerprint", json_text(s.public_key_fingerprint.as_str())));
        let ghost ms = m@;
        let j = json_object(m);
        assert(members_tree(ms) =~= trusted_signer_tree(*s)->Object_0);
        out.push(j);
        i += 1;
    }
    let ghost outs = out@;
    let j = json_array(out);
    assert(items_tree(outs) =~= trusted_signers_tree(signers@)->Array_0);
    j
}

/// The fixed DER header of an Ed25519 SubjectPublicKeyInfo.
pub open spec fn ed25519_spki_prefix() -> Seq<u8> {
    seq![0x30u8, 0x2a, 0x30, 0x05, 0x06, 0x03, 0x2b, 0x65, 0x70, 0x03, 0x21, 0x00]
}

/// The DER bytes of a signer's key.
pub open spec fn signer_der(s: CandidateTrustedSigner) -> Seq<u8> {
    base64_bytes(s.public_key_spki_base64@)
}

/// A signer is well formed: a valid key identifier, Ed25519, a canonical
/// 44-byte Ed25519 SubjectPublicKeyInfo, and the fingerprint of those bytes.
pub open spec fn trusted_signer_ok(s: CandidateTrustedSigner) -> bool {
    &&& base64_decodes(s.public_key_spki_base64@)
    &&& valid_identifier(s.key_id@)
    &&& s.algorithm@ == "ed25519"@
    &&& signer_der(s).len() == 44
    &&& signer_der(s).subrange(0, 12) == ed25519_spki_prefix()
    &&& digest_text(signer_der(s)) == s.public_key_fingerprint@
}

/// Each reference points at the corresponding signer.
pub open spec fn refs_match(refs: Seq<&CandidateTrustedSigner>, signers: Seq<CandidateTrustedSigner>) -> bool {
    &&& refs.len() == signers.len()
    &&& forall|k: int| 0 <= k < refs.len() ==> *refs[k] == signers[k]
}

/// Authority signers, then promotion signers.
pub open spec fn policy_signers(p: CandidateReleaseTrustPolicy) -> Seq<CandidateTrustedSigner> {
    p.authority_signers@ + p.promotion_signers@
}

/// The trust policy is the release's: both signer sets nonempty, every
/// signer well formed, key identifiers and fingerprints each used once.
pub open spec fn trust_policy_ok(p: CandidateReleaseTrustPolicy) -> bool {
    let s = policy_signers(p);
    &&& p.schema_version@ == "aiq.release-gate-trust.v1"@
    &&& p.release_identity@ == RELEASE_IDENTITY@
    &&& p.authority_signers@.len() > 0
    &&& p.promotion_signers@.len() > 0
    &&& forall|i: int| 0 <= i < s.len() ==> trusted_signer_ok(#[trigger] s[i])
    &&& forall|i: int, j: int|
        0 <= i < j < s.len() ==> (#[trigger] s[i]).key_id@ != (#[trigger] s[j]).key_id@
            && s[i].public_key_fingerprint@ != s[j].public_key_fingerprint@
}

/// Some authority signer has the admission's key identifier.
pub open spec fn has_authority(p: CandidateReleaseTrustPolicy, key_id: Seq<char>) -> bool {
    exists|i: int| 0 <= i < p.authority_signers@.len() && p.authority_signers@[i].key_id@ == key_id
}

/// The authority signer with the given key identifier.
pub open spec fn authority_signer(p: CandidateReleaseTrustPolicy, key_id: Seq<char>) -> CandidateTrustedSigner {
    let i = choose|i: int| 0 <= i < p.authority_signers@.len() && p.authority_signers@[i].key_id@ == key_id;
    p.authority_signers@[i]
}

/// The admission is trusted: the policy bytes are the policy's canonical
/// encoding, whose digest the protected digest pins,
/// the policy is well formed and names the admission's signer among its
/// authorities, and that key's Ed25519 signature over the admission's
/// canonical preimage verifies.
pub open spec fn admission_trusted(
    policy_bytes: Seq<u8>,
    policy: CandidateReleaseTrustPolicy,
    protected_digest: Seq<char>,
    policy_sha256: Seq<char>,
    admission: ReleaseGateAdmissionV1,
) -> bool {
    &&& protected_digest == policy_sha256
    &&& valid_digest(protected_digest)
    &&& document_bytes_ok(policy.tree(), policy_bytes)
    &&& document_digest(policy.tree()) == protected_digest
    &&& trust_policy_ok(policy)
    &&& has_authority(policy, admission.signer.key_id@)
    &&& base64_decodes(admission.signature@)
    &&& match spec_canonical_json(unsigned_admission_tree(admission)) {
        Some(message) => spec_ed25519_verifies(
            signer_der(authority_signer(policy, admission.signer.key_id@)).subrange(12, 44),
            message,
            base64_bytes(admission.signature@),
        ),
        None => false,
    }
}

fn check_trusted_signer(s: &CandidateTrustedSigner) -> (r: Result<Vec<u8>, CandidateGateError>)
    ensures
        match r {
            Ok(der) => trusted_signer_ok(*s) && der@ == signer_der(*s),
            Err(_) => !trusted_signer_ok(*s),
        },
{
    let der = match decode_canonical_base64(s.public_key_spki_base64.as_str()) {
        Ok(der) => der,
        Err(e) => {
            return Err(e);
        },
    };
    proof {
        lemma_base64_bytes(der@);
    }
    let fingerprint = digest_bytes(der.as_slice());
    let prefix: Vec<u8> = vec![0x30u8, 0x2a, 0x30, 0x05, 0x06, 0x03, 0x2b, 0x65, 0x70, 0x03, 0x21, 0x00];
    let mut prefix_ok = der.len() == 44;
    let mut i: usize = 0;
    while i < 12
        invariant
            i <= 12,
            prefix@ == ed25519_spki_prefix(),
            prefix_ok ==> der@.len() == 44 && forall|k: int| 0 <= k < i ==> der@[k] == prefix@[k],
            der@.len() == 44 && !prefix_ok ==> exists|k: int| 0 <= k < i && der@[k] != prefix@[k],
        decreases 12 - i,
    {
        if prefix_ok && der[i] != prefix[i] {
            prefix_ok = false;
        }
        i += 1;
    }
    proof {
        if prefix_ok {
            assert(der@.subrange(0, 12) =~= ed25519_spki_prefix());
        } else if der@.len() == 44 {
            let k = choose|k: int| 0 <= k < 12 && der@[k] != prefix@[k];
            assert(der@.subrange(0, 12)[k] != ed25519_spki_prefix()[k]);
        }
    }
    if !is_valid_identifier(s.key_id.as_str()) || !text_eq(s.algorithm.as_str(), "ed25519") || !prefix_ok
        || !text_eq(fingerprint.as_str(), s.public_key_fingerprint.as_str()) {
        return Err(CandidateGateError::new("candidate release trust-policy signer is invalid"));
    }
    Ok(der)
}

/// Verifies the admission against the protected release trust policy: the
/// protected digest must equal the plan's pin and address the policy bytes,
/// every pinned signer must be well formed and unique, and the admission's
/// authority key must sign its canonical preimage.
pub fn verify_candidate_admission_trust_reference(
    policy_bytes: &[u8],
    policy: &CandidateReleaseTrustPolicy,
    protected_digest: &str,
    policy_sha256: &str,
    admission: &ReleaseGateAdmissionV1,
) -> (r: Result<(), CandidateGateError>)
    ensures
        r is Ok <==> admission_trusted(policy_bytes@, *policy, protected_digest@, policy_sha256@, *admission),
{
    if !text_eq(protected_digest, policy_sha256) || !is_valid_digest(protected_digest) {
        return Err(
            CandidateGateError::new(
                "candidate protected release trust-policy digest does not match the signed plan",
            ),
        );
    }
    let canonical = canonical_document_bytes(policy_bytes, &policy.to_json())?;
    let observed = digest_bytes(canonical.as_slice());
    if !text_eq(observed.as_str(), protected_digest) {
        return Err(CandidateGateError::new("candidate release trust-policy bytes do not match the protected pin"));
    }
    if !text_eq(policy.schema_version.as_str(), "aiq.release-gate-trust.v1") || !text_eq(
        policy.release_identity.as_str(),
        RELEASE_IDENTITY,
    ) || policy.authority_signers.len() == 0 || policy.promotion_signers.len() == 0 {
        return Err(CandidateGateError::new("candidate release trust policy is invalid"));
    }
    let ghost all = policy_signers(*policy);
    let na = policy.authority_signers.len();
    let mut signers: Vec<&CandidateTrustedSigner> = Vec::new();
    let mut i: usize = 0;
    while i < na
        invariant
            i <= na,
            na == policy.authority_signers@.len(),
            refs_match(signers@, policy.authority_signers@.subrange(0, i as int)),
        decreases na - i,
    {
        signers.push(&policy.authority_signers[i]);
        proof {
            assert(policy.authority_signers@.subrange(0, i + 1) =~= policy.authority_signers@.subrange(
                0,
                i as int,
            ).push(policy.authority_signers@[i as int]));
            assert(refs_match(signers@, policy.authority_signers@.subrange(0, i + 1)));
        }
        i += 1;
    }
    let mut i: usize = 0;
    while i < policy.promotion_signers.len()
        invariant
            i <= policy.promotion_signers@.len(),
            refs_match(signers@, policy.authority_signers@ + policy.promotion_signers@.subrange(0, i as int)),
        decreases policy.promotion_signers@.len() - i,
    {
        signers.push(&policy.promotion_signers[i]);
        proof {
            assert(policy.promotion_signers@.subrange(0, i + 1) =~= policy.promotion_signers@.subrange(
                0,
                i as int,
            ).push(policy.promotion_signers@[i as int]));
            let target = policy.authority_signers@ + policy.promotion_signers@.subrange(0, i + 1);
            assert forall|k: int| 0 <= k < signers@.len() implies *signers@[k] == target[k] by {}
        }
        i += 1;
    }
    assert(policy.authority_signers@.subrange(0, na as int) =~= policy.authority_signers@);
    assert(policy.promotion_signers@.subrange(0, policy.promotion_signers@.len() as int)
        =~= policy.promotion_signers@);
    assert(refs_match(signers@, all));
    let total = signers.len();
    let mut ders: Vec<Vec<u8>> = Vec::new();
    let mut i: usize = 0;
    while i < total
        invariant
            i <= total,
            total == signers@.len(),
            refs_match(signers@, all),
            na == policy.authority_signers@.len(),
            all == policy_signers(*policy),
            ders@.len() == i,
            forall|k: int| 0 <= k < i ==> trusted_signer_ok(#[trigger] all[k]) && ders@[k]@ == signer_der(all[k]),
        decreases total - i,
    {
        let der = match check_trusted_signer(signers[i]) {
            Ok(der) => der,
            Err(e) => {
                return Err(e);
            },
        };
        ders.push(der);
        i += 1;
    }
    let mut a: usize = 0;
    while a < total
        invariant
            a <= total,
            total == signers@.len(),
            refs_match(signers@, all),
            all == policy_signers(*policy),
            forall|x: int, y: int|
                0 <= x < y < a ==> (#[trigger] all[x]).key_id@ != (#[trigger] all[y]).key_id@
                    && all[x].public_key_fingerprint@ != all[y].public_key_fingerprint@,
        decreases total - a,
    {
        let mut b: usize = 0;
        while b < a
            invariant
                b <= a < total,
                total == signers@.len(),
                refs_match(signers@, all),
                all == policy_signers(*policy),
                forall|x: int| 0 <= x < b ==> all[x].key_id@ != all[a as int].key_id@
                    && all[x].public_key_fingerprint@ != all[a as int].public_key_fingerprint@,
            decreases a - b,
        {
            if text_eq(signers[a].key_id.as_str(), signers[b].key_id.as_str()) || text_eq(
                signers[a].public_key_fingerprint.as_str(),
                signers[b].public_key_fingerprint.as_str(),
            ) {
                proof {
                    assert(*signers@[a as int] == all[a as int]);
                    assert(*signers@[b as int] == all[b as int]);
                    let s_all = policy_signers(*policy);
                    assert(!((s_all[b as int]).key_id@ != (s_all[a as int]).key_id@
                        && s_all[b as int].public_key_fingerprint@ != s_all[a as int].public_key_fingerprint@));
                    assert(!trust_policy_ok(*policy));
                }
                return Err(CandidateGateError::new("candidate release trust-policy signer is invalid"));
            }
            b += 1;
        }
        a += 1;
    }
    assert(trust_policy_ok(*policy));
    let mut found: Option<usize> = None;
    let mut k: usize = 0;
    while k < na
        invariant
            k <= na,
            na == policy.authority_signers@.len(),
            match found {
                Some(x) => x < na && policy.authority_signers@[x as int].key_id@ == admission.signer.key_id@,
                None => forall|m: int| 0 <= m < k ==> policy.authority_signers@[m].key_id@ != admission.signer.key_id@,
            },
        decreases na - k,
    {
        if found.is_none() && text_eq(policy.authority_signers[k].key_id.as_str(), admission.signer.key_id.as_str()) {
            found = Some(k);
        }
        k += 1;
    }
    let index = match found {
        Some(x) => x,
        None => {
            return Err(CandidateGateError::new("candidate admission signer is not trusted"));
        },
    };
    proof {
        let chosen = choose|j: int|
            0 <= j < policy.authority_signers@.len() && policy.authority_signers@[j].key_id@
                == admission.signer.key_id@;
        assert(all[chosen] == policy.authority_signers@[chosen]);
        assert(all[index as int] == policy.authority_signers@[index as int]);
        if chosen != index as int {
            if chosen < index as int {
                assert(all[chosen].key_id@ != all[index as int].key_id@);
            } else {
                assert(all[index as int].key_id@ != all[chosen].key_id@);
            }
        }
        assert(authority_signer(*policy, admission.signer.key_id@) == all[index as int]);
    }
    let der = &ders[index];
    let mut public_key: Vec<u8> = Vec::new();
    let mut j: usize = 12;
    while j < 44
        invariant
            12 <= j <= 44,
            der@.len() == 44,
            public_key@ == der@.subrange(12, j as int),
        decreases 44 - j,
    {
        public_key.push(der[j]);
        proof {
            assert(der@.subrange(12, j + 1) =~= der@.subrange(12, j as int).push(der@[j as int]));
        }
        j += 1;
    }
    let signature = match decode_canonical_base64(admission.signature.as_str()) {
        Ok(bytes) => bytes,
        Err(e) => {
            return Err(e);
        },
    };
    proof {
        lemma_base64_bytes(signature@);
    }
    let message = match canonical_json_bytes(&admission.unsigned_json()) {
        Some(bytes) => bytes,
        None => {
            return Err(CandidateGateError::new("candidate admission cannot be canonicalized"));
        },
    };
    if !ed25519_verify(public_key.as_slice(), message.as_slice(), signature.as_slice()) {
        if signature.len() != 64 {
            return Err(CandidateGateError::new("candidate admission signature is invalid"));
        }
        if !ed25519_key_decodes(public_key.as_slice()) {
            return Err(CandidateGateError::new("candidate admission public key is invalid"));
        }
        return Err(CandidateGateError::new("candidate admission signature does not verify"));
    }
    Ok(())
}


// ---------------------------------------------------------------------------
// Pinned references
// ---------------------------------------------------------------------------
/// The file bytes hold the document's canonical encoding, with at most one
/// trailing line feed.
pub open spec fn document_bytes_ok(document: JsonTree, bytes: Seq<u8>) -> bool {
    &&& spec_canonical_json(document) is Some
    &&& canonical_file_ok(bytes, spec_canonical_json(document)->0)
}

/// Digest of the document's canonical encoding.
pub open spec fn document_digest(document: JsonTree) -> Seq<char> {
    digest_text(spec_canonical_json(document)->0)
}

/// The file bytes hold the admission's canonical encoding.
pub open spec fn admission_bytes_ok(admission: ReleaseGateAdmissionV1, bytes: Seq<u8>) -> bool {
    document_bytes_ok(admission.tree(), bytes)
}

/// Digest of the admission's canonical encoding.
pub open spec fn admission_digest(admission: ReleaseGateAdmissionV1) -> Seq<char> {
    document_digest(admission.tree())
}

/// Checks a canonical admission, read from its file bytes, against its
/// pinned full-document digest, execution-plan digest, corpus-manifest
/// digest and authority key identifier. The bytes must be the admission's
/// canonical encoding, and the full-document digest is that encoding's.
pub fn verify_canonical_admission_reference(
    admission: ReleaseGateAdmissionV1,
    file_bytes: &[u8],
    expected_admission_sha256: &str,
    expected_execution_plan_sha256: &str,
    expected_corpus_manifest_sha256: &str,
    expected_key_id: &str,
    catalog: &CandidateCatalog,
) -> (r: Result<VerifiedReleaseGateAdmission, CandidateGateError>)
    ensures
        match r {
            Ok(v) => {
                &&& valid_digest(expected_admission_sha256@)
                &&& valid_digest(expected_execution_plan_sha256@)
                &&& valid_digest(expected_corpus_manifest_sha256@)
                &&& admission_bytes_ok(admission, file_bytes@)
                &&& admission.valid(expected_key_id@, catalog@)
                &&& admission_digest(admission) == expected_admission_sha256@
                &&& admission.execution_plan_digest@ == expected_execution_plan_sha256@
                &&& admission.corpus_commitment_digest@ == expected_corpus_manifest_sha256@
                &&& v.admission == admission
                &&& v.canonical_sha256@ == admission_digest(admission)
            },
            Err(_) => !valid_digest(expected_admission_sha256@) || !valid_digest(
                expected_execution_plan_sha256@,
            ) || !valid_digest(expected_corpus_manifest_sha256@) || !admission_bytes_ok(
                admission,
                file_bytes@,
            ) || !admission.valid(expected_key_id@, catalog@) || admission_digest(admission)
                != expected_admission_sha256@ || admission.execution_plan_digest@
                != expected_execution_plan_sha256@ || admission.corpus_commitment_digest@
                != expected_corpus_manifest_sha256@,
        },
{
    if !is_valid_digest(expected_admission_sha256) || !is_valid_digest(expected_execution_plan_sha256)
        || !is_valid_digest(expected_corpus_manifest_sha256) {
        return Err(
            CandidateGateError::new(
                "expected admission, execution-plan, or corpus-manifest digest is invalid",
            ),
        );
    }
    let canonical = canonical_document_bytes(file_bytes, &admission.to_json())?;
    admission.validate(expected_key_id, catalog)?;
    let canonical_sha256 = digest_bytes(canonical.as_slice());
    if !text_eq(canonical_sha256.as_str(), expected_admission_sha256) || !text_eq(
        admission.execution_plan_digest.as_str(),
        expected_execution_plan_sha256,
    ) || !text_eq(admission.corpus_commitment_digest.as_str(), expected_corpus_manifest_sha256) {
        return Err(CandidateGateError::new("release-gate admission does not match its pinned references"));
    }
    Ok(VerifiedReleaseGateAdmission { admission, canonical_sha256 })
}

/// The outer corpus manifest and both inner commitments match their pins:
/// a valid manifest at its digest, naming the two inner digests, three
/// distinct paths, and inner bytes at their digests.
pub open spec fn corpus_references_ok(
    manifest: ReleaseGateCorpusManifestV1,
    manifest_bytes: Seq<u8>,
    expected_manifest_sha256: Seq<char>,
    manifest_path: Seq<char>,
    core_bytes: Seq<u8>,
    core_path: Seq<char>,
    expected_core_sha256: Seq<char>,
    contrast_bytes: Seq<u8>,
    contrast_path: Seq<char>,
    expected_contrast_sha256: Seq<char>,
) -> bool {
    &&& document_bytes_ok(manifest.tree(), manifest_bytes)
    &&& manifest.valid()
    &&& document_digest(manifest.tree()) == expected_manifest_sha256
    &&& manifest.core_corpus_commitment_sha256@ == expected_core_sha256
    &&& manifest.contrast_corpus_commitment_sha256@ == expected_contrast_sha256
    &&& !same_path(manifest_path, core_path)
    &&& !same_path(manifest_path, contrast_path)
    &&& !same_path(core_path, contrast_path)
    &&& digest_text(core_bytes) == expected_core_sha256
    &&& digest_text(contrast_bytes) == expected_contrast_sha256
}

/// Verifies the outer manifest, read from its file bytes, which must be its
/// canonical encoding, and both canonical inner commitments against the
/// private plan's pins. The manifest digest is that of its canonical
/// encoding.
pub fn verify_release_gate_corpus_references(
    manifest: ReleaseGateCorpusManifestV1,
    manifest_bytes: &[u8],
    manifest_path: &str,
    expected_manifest_sha256: &str,
    core_commitment_bytes: &[u8],
    core_commitment_path: &str,
    expected_core_sha256: &str,
    contrast_commitment_bytes: &[u8],
    contrast_commitment_path: &str,
    expected_contrast_sha256: &str,
) -> (r: Result<VerifiedReleaseGateCorpus, CandidateGateError>)
    ensures
        match r {
            Ok(v) => corpus_references_ok(
                manifest,
                manifest_bytes@,
                expected_manifest_sha256@,
                manifest_path@,
                core_commitment_bytes@,
                core_commitment_path@,
                expected_core_sha256@,
                contrast_commitment_bytes@,
                contrast_commitment_path@,
                expected_contrast_sha256@,
            ) && v.manifest == manifest && v.manifest_sha256@ == document_digest(manifest.tree()),
            Err(_) => !corpus_references_ok(
                manifest,
                manifest_bytes@,
                expected_manifest_sha256@,
                manifest_path@,
                core_commitment_bytes@,
                core_commitment_path@,
                expected_core_sha256@,
                contrast_commitment_bytes@,
                contrast_commitment_path@,
                expected_contrast_sha256@,
            ),
        },
{
    let canonical = canonical_document_bytes(manifest_bytes, &manifest.to_json())?;
    manifest.validate()?;
    let manifest_sha256 = digest_bytes(canonical.as_slice());
    if !text_eq(manifest_sha256.as_str(), expected_manifest_sha256) || !text_eq(
        manifest.core_corpus_commitment_sha256.as_str(),
        expected_core_sha256,
    ) || !text_eq(manifest.contrast_corpus_commitment_sha256.as_str(), expected_contrast_sha256)
        || is_same_path(manifest_path, core_commitment_path) || is_same_path(
        manifest_path,
        contrast_commitment_path,
    ) || is_same_path(core_commitment_path, contrast_commitment_path) {
        return Err(CandidateGateError::new("release-gate corpus references do not match the private plan"));
    }
    let core_sha256 = digest_bytes(core_commitment_bytes);
    let contrast_sha256 = digest_bytes(contrast_commitment_bytes);
    if !text_eq(core_sha256.as_str(), expected_core_sha256) || !text_eq(
        contrast_sha256.as_str(),
        expected_contrast_sha256,
    ) {
        return Err(CandidateGateError::new("release-gate inner corpus commitment identity is invalid"));
    }
    Ok(VerifiedReleaseGateCorpus { manifest, manifest_sha256 })
}


/// The pinned admission is valid, matches its pins, and is signed by an
/// authority of the protected trust policy.
pub open spec fn trusted_admission_ok(
    expectations: CandidateExecutionExpectations,
    admission: ReleaseGateAdmissionV1,
    admission_bytes: Seq<u8>,
    policy_bytes: Seq<u8>,
    policy: CandidateReleaseTrustPolicy,
    protected_policy_digest: Seq<char>,
    core_task_ids: Seq<Seq<char>>,
) -> bool {
    &&& valid_digest(expectations.signed_admission_sha256@)
    &&& valid_digest(expectations.execution_plan_sha256@)
    &&& valid_digest(expectations.corpus_manifest_sha256@)
    &&& admission_bytes_ok(admission, admission_bytes)
    &&& admission.valid(expectations.signed_admission_key_id@, core_task_ids)
    &&& admission_digest(admission) == expectations.signed_admission_sha256@
    &&& admission.execution_plan_digest@ == expectations.execution_plan_sha256@
    &&& admission.corpus_commitment_digest@ == expectations.corpus_manifest_sha256@
    &&& admission_trusted(
        policy_bytes,
        policy,
        protected_policy_digest,
        expectations.release_trust_policy_sha256@,
        admission,
    )
}

/// Verifies the pinned admission and its signature under the protected
/// trust policy, from the admission's canonical bytes, the policy's bytes
/// and the protected policy digest.
pub fn verify_trusted_candidate_admission(
    expectations: &CandidateExecutionExpectations,
    admission: ReleaseGateAdmissionV1,
    admission_bytes: &[u8],
    policy_bytes: &[u8],
    policy: &CandidateReleaseTrustPolicy,
    protected_policy_digest: &str,
    catalog: &CandidateCatalog,
) -> (r: Result<VerifiedReleaseGateAdmission, CandidateGateError>)
    ensures
        match r {
            Ok(v) => {
                &&& trusted_admission_ok(
                    *expectations,
                    admission,
                    admission_bytes@,
                    policy_bytes@,
                    *policy,
                    protected_policy_digest@,
                    catalog@,
                )
                &&& v.admission == admission
                &&& v.canonical_sha256@ == admission_digest(admission)
            },
            Err(_) => !trusted_admission_ok(
                *expectations,
                admission,
                admission_bytes@,
                policy_bytes@,
                *policy,
                protected_policy_digest@,
                catalog@,
            ),
        },
{
    let verified = verify_canonical_admission_reference(
        admission,
        admission_bytes,
        expectations.signed_admission_sha256.as_str(),
        expectations.execution_plan_sha256.as_str(),
        expectations.corpus_manifest_sha256.as_str(),
        expectations.signed_admission_key_id.as_str(),
        catalog,
    )?;
    verify_candidate_admission_trust_reference(
        policy_bytes,
        policy,
        protected_policy_digest,
        expectations.release_trust_policy_sha256.as_str(),
        &verified.admission,
    )?;
    Ok(verified)
}


// ---------------------------------------------------------------------------
// Canonical documents
// ---------------------------------------------------------------------------
/// File bytes hold a canonical document: exactly its canonical encoding,
/// or that encoding and one line feed.
pub open spec fn canonical_file_ok(bytes: Seq<u8>, canonical: Seq<u8>) -> bool {
    bytes == canonical || bytes == canonical.push(10u8)
}

/// Checks that the bytes read from a reference file are the canonical
/// encoding of the document parsed from them, and returns that encoding.
pub fn canonical_document_bytes(bytes: &[u8], document: &Json) -> (r: Result<Vec<u8>, CandidateGateError>)
    ensures
        match r {
            Ok(c) => spec_canonical_json(document.tree()) == Some(c@) && canonical_file_ok(bytes@, c@),
            Err(_) => match spec_canonical_json(document.tree()) {
                Some(c) => !canonical_file_ok(bytes@, c),
                None => true,
            },
        },
{
    let canonical = match canonical_json_bytes(document) {
        Some(c) => c,
        None => {
            return Err(CandidateGateError::new("candidate reference cannot be canonicalized"));
        },
    };
    let n = canonical.len();
    let m = bytes.len();
    let same_prefix = if m == n || (m > n && m - n == 1) {
        let mut equal = true;
        let mut i: usize = 0;
        while i < n
            invariant
                i <= n,
                n == canonical@.len(),
                m == bytes@.len(),
                m == n || m == n + 1,
                equal <==> forall|k: int| 0 <= k < i ==> bytes@[k] == canonical@[k],
            decreases n - i,
        {
            if bytes[i] != canonical[i] {
                equal = false;
            }
            i += 1;
        }
        equal
    } else {
        false
    };
    let exact = same_prefix && (m == n || bytes[n] == 10u8);
    proof {
        if exact {
            if m == n {
                assert(bytes@ =~= canonical@);
            } else {
                assert(bytes@ =~= canonical@.push(10u8));
            }
        } else if canonical_file_ok(bytes@, canonical@) {
            if bytes@ == canonical@.push(10u8) {
                assert(bytes@[n as int] == 10u8);
            }
            assert(forall|k: int| 0 <= k < n ==> bytes@[k] == canonical@[k]) by {
                assert forall|k: int| 0 <= k < n implies bytes@[k] == canonical@[k] by {
                    if bytes@ == canonical@.push(10u8) {
                        assert(canonical@.push(10u8)[k] == canonical@[k]);
                    }
                }
            }
        }
    }
    if !exact {
        return Err(CandidateGateError::new("candidate reference bytes are not canonical JSON"));
    }
    Ok(canonical)
}

} // verus!
