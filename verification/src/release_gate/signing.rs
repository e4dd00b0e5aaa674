//! Ed25519 signatures over the private execution authorization: the signer
//! identity derived from one secret, issuing an authorization, and verifying
//! one against its pinned signer and the signed admission.
use vstd::prelude::*;
use vstd::string::*;

use crate::digest::{
    canonical_digest, canonical_json_bytes, hex_digit, hex_encode, hex_lower, lemma_hex_lower_injective,
    lemma_hex_lower_shape, sha256, spec_canonical_json, spec_sha256,
};
use crate::release_gate::authorization::{
    plan_tree, unsigned_authorization_tree, CandidateAuthorizationSigner,
    CandidateExecutionAuthorization,
};
use crate::release_gate::admission::ReleaseGateAdmissionV1;
use crate::release_gate::plan::CandidateExecutionPlan;
use crate::release_gate::{
    is_lower_hex, CandidateCatalog, CandidateGateError, CANDIDATE_AUTHORIZATION_PURPOSE,
    CANDIDATE_EXECUTION_AUTHORIZATION_SCHEMA, RELEASE_IDENTITY, SORTED_KEY_JSON,
};
use crate::text::{all_in_class, chars_of, in_class, is_lower_hex_text, text_eq, CharClass};

verus! {

/// What `ed25519_dalek::SigningKey::from_bytes(secret).verifying_key().to_bytes()`
/// returns: the public key of the signing key made from a 32-byte secret.
pub uninterp spec fn spec_ed25519_public_key(secret: Seq<u8>) -> Seq<u8>;

/// What `ed25519_dalek::Signer::sign(..).to_bytes()` returns for the signing
/// key made from `secret` over `message` (Ed25519 signing is deterministic).
pub uninterp spec fn spec_ed25519_signature(secret: Seq<u8>, message: Seq<u8>) -> Seq<u8>;

/// Whether `ed25519_dalek::Verifier::verify` accepts `signature` over
/// `message` under the public key bytes (false where the key bytes are not a
/// valid point or the signature does not have 64 bytes).
pub uninterp spec fn spec_ed25519_verifies(
    public_key: Seq<u8>,
    message: Seq<u8>,
    signature: Seq<u8>,
) -> bool;

/// Whether `ed25519_dalek::VerifyingKey::from_bytes` accepts the 32 bytes,
/// that is, whether they decompress to a curve point.
pub uninterp spec fn spec_ed25519_key_decodes(public_key: Seq<u8>) -> bool;

/// `ed25519_dalek::VerifyingKey::from_bytes` succeeds on the 32 bytes. The
/// contract names the verdict.
#[verifier::external_body]
pub(crate) fn ed25519_key_decodes(public_key: &[u8]) -> (r: bool)
    requires
        public_key@.len() == 32,
    ensures
        r == spec_ed25519_key_decodes(public_key@),
{
    match <[u8; 32]>::try_from(public_key) {
        Ok(bytes) => ed25519_dalek::VerifyingKey::from_bytes(&bytes).is_ok(),
        Err(_) => false,
    }
}

/// `SigningKey::from_bytes` then `verifying_key().to_bytes()`: the 32-byte
/// public key of the secret. The contract names the result and its length.
#[verifier::external_body]
fn ed25519_public_key(secret: &[u8; 32]) -> (r: [u8; 32])
    ensures
        r@ == spec_ed25519_public_key(secret@),
        r@.len() == 32,
{
    ed25519_dalek::SigningKey::from_bytes(secret).verifying_key().to_bytes()
}

/// `ed25519_dalek::Signer::sign` with the signing key made from `secret`,
/// returned as its 64 bytes. The contract names the result, its length, and
/// the scheme's correctness that the crate's own tests check: the public key
/// of the same secret verifies it.
#[verifier::external_body]
fn ed25519_sign(secret: &[u8; 32], message: &[u8]) -> (r: [u8; 64])
    ensures
        r@ == spec_ed25519_signature(secret@, message@),
        r@.len() == 64,
        spec_ed25519_verifies(spec_ed25519_public_key(secret@), message@, r@),
{
    ed25519_dalek::Signer::sign(&ed25519_dalek::SigningKey::from_bytes(secret), message).to_bytes()
}

/// `ed25519_dalek::Verifier::verify` of `signature` over `message`, after
/// `VerifyingKey::from_bytes` and `Signature::from_slice` have turned the
/// bytes into the crate's key and signature; either conversion failing is a
/// rejection. The contract names the verdict.
#[verifier::external_body]
pub(crate) fn ed25519_verify(public_key: &[u8], message: &[u8], signature: &[u8]) -> (r: bool)
    requires
        public_key@.len() == 32,
    ensures
        r == spec_ed25519_verifies(public_key@, message@, signature@),
{
    let key_bytes: [u8; 32] = match public_key.try_into() {
        Ok(bytes) => bytes,
        Err(_) => return false,
    };
    match (
        ed25519_dalek::VerifyingKey::from_bytes(&key_bytes),
        ed25519_dalek::Signature::from_slice(signature),
    ) {
        (Ok(key), Ok(sig)) => ed25519_dalek::Verifier::verify(&key, message, &sig).is_ok(),
        _ => false,
    }
}

fn hex_value(c: char) -> (n: u8)
    requires
        in_class(CharClass::LowerHex, c),
    ensures
        n < 16,
        hex_digit(n as int) == c,
{
    if '0' <= c && c <= '9' {
        ((c as u32) - 48) as u8
    } else {
        ((c as u32) - 87) as u8
    }
}

/// The bytes that lowercase hexadecimal text of even length spells.
fn hex_decode(text: &str) -> (r: Vec<u8>)
    requires
        text@.len() % 2 == 0,
        is_lower_hex_text(text@, text@.len()),
    ensures
        hex_lower(r@) == text@,
{
    let v = chars_of(text);
    let mut out: Vec<u8> = Vec::new();
    let mut i: usize = 0;
    while i < v.len() / 2
        invariant
            v@ == text@,
            v@.len() % 2 == 0,
            all_in_class(v@, 0, v@.len() as int, CharClass::LowerHex),
            i <= v@.len() / 2,
            out@.len() == i,
            hex_lower(out@) == v@.subrange(0, 2 * i as int),
        decreases v@.len() / 2 - i,
    {
        assert(in_class(CharClass::LowerHex, v@[2 * i as int]));
        assert(in_class(CharClass::LowerHex, v@[2 * i as int + 1]));
        let hi = hex_value(v[2 * i]);
        let lo = hex_value(v[2 * i + 1]);
        let b: u8 = hi * 16 + lo;
        assert(b / 16 == hi && b % 16 == lo) by (nonlinear_arith)
            requires
                b == hi * 16 + lo,
                hi < 16,
                lo < 16,
        ;
        let ghost before = out@;
        out.push(b);
        proof {
            assert(out@.drop_last() =~= before);
            assert(v@.subrange(0, 2 * (i + 1) as int) =~= v@.subrange(0, 2 * i as int) + seq![
                v@[2 * i as int],
                v@[2 * i as int + 1],
            ]);
        }
        i += 1;
    }
    assert(v@.subrange(0, v@.len() as int) =~= v@);
    out
}

/// The bytes that lowercase hexadecimal text spells.
pub open spec fn hex_bytes(text: Seq<char>) -> Seq<u8> {
    choose|b: Seq<u8>| hex_lower(b) == text
}

proof fn lemma_hex_bytes(b: Seq<u8>)
    ensures
        hex_bytes(hex_lower(b)) == b,
{
    let text = hex_lower(b);
    assert(hex_lower(b) == text);
    let c = hex_bytes(text);
    assert(hex_lower(c) == text);
    lemma_hex_lower_injective(c, b);
}

/// The stable signer node identifier of a public key.
pub open spec fn node_id_text(public_key: Seq<u8>) -> Seq<char> {
    "candidate_node_"@ + hex_lower(spec_sha256(public_key))
}

/// Derives the signer node identifier from public key bytes.
fn candidate_authorization_node_id(public_key: &[u8]) -> (r: String)
    ensures
        r@ == node_id_text(public_key@),
{
    let hash = sha256(public_key);
    let hex = hex_encode(hash.as_slice());
    let mut r = "candidate_node_".to_owned();
    proof {
        reveal_strlit("candidate_node_");
    }
    r.append(hex.as_str());
    r
}

/// Derives the signer node identifier from a lowercase hexadecimal public key.
fn candidate_authorization_node_id_from_hex(public_key: &str) -> (r: String)
    requires
        is_lower_hex_text(public_key@, 64),
    ensures
        r@ == node_id_text(hex_bytes(public_key@)),
{
    let bytes = hex_decode(public_key);
    proof {
        lemma_hex_bytes(bytes@);
    }
    candidate_authorization_node_id(bytes.as_slice())
}

/// The fixed identity members of an authorization.
pub open spec fn authorization_constants_ok(a: CandidateExecutionAuthorization) -> bool {
    &&& a.schema_version@ == CANDIDATE_EXECUTION_AUTHORIZATION_SCHEMA@
    &&& a.signature_domain@ == CANDIDATE_EXECUTION_AUTHORIZATION_SCHEMA@
    &&& a.signature_encoding@ == SORTED_KEY_JSON@
    &&& a.purpose@ == CANDIDATE_AUTHORIZATION_PURPOSE@
    &&& a.release_identity@ == RELEASE_IDENTITY@
}

/// The authorization binds its plan: the plan's digests and the plan's own
/// canonical digest.
pub open spec fn authorization_binds_plan(a: CandidateExecutionAuthorization) -> bool {
    &&& a.execution_plan_digest@ == a.plan.execution_plan_digest@
    &&& a.signed_admission_sha256@ == a.plan.signed_admission_sha256@
    &&& canonical_digest(plan_tree(a.plan)) == Some(a.private_plan_sha256@)
}

/// `a` is what the secret's identity issues for `plan`: the fixed members,
/// the plan and its bindings, the secret's signer, and its signature over
/// the canonical preimage.
pub open spec fn authorization_issued(
    a: CandidateExecutionAuthorization,
    secret: Seq<u8>,
    plan: CandidateExecutionPlan,
) -> bool {
    let public_key = spec_ed25519_public_key(secret);
    &&& authorization_constants_ok(a)
    &&& a.plan == plan
    &&& authorization_binds_plan(a)
    &&& public_key.len() == 32
    &&& a.signer.node_id@ == node_id_text(public_key)
    &&& a.signer.public_key@ == hex_lower(public_key)
    &&& a.signer.algorithm@ == "ed25519"@
    &&& match spec_canonical_json(unsigned_authorization_tree(a)) {
        Some(message) => {
            let signature = spec_ed25519_signature(secret, message);
            &&& signature.len() == 64
            &&& a.signature@ == hex_lower(signature)
            &&& spec_ed25519_verifies(public_key, message, signature)
        },
        None => false,
    }
}

/// `a` verifies against the admission and the pinned signer: fixed members,
/// plan bindings, the pinned well-formed signer whose node identifier is
/// derived from its key, a signature that verifies over the canonical
/// preimage, and a plan valid for the admission.
pub open spec fn authorization_verifies(
    a: CandidateExecutionAuthorization,
    admission: ReleaseGateAdmissionV1,
    core_task_ids: Seq<Seq<char>>,
    expected_node_id: Seq<char>,
    expected_public_key: Seq<char>,
) -> bool {
    &&& authorization_constants_ok(a)
    &&& authorization_binds_plan(a)
    &&& a.signer.node_id@ == expected_node_id
    &&& a.signer.public_key@ == expected_public_key
    &&& a.signer.algorithm@ == "ed25519"@
    &&& is_lower_hex_text(a.signer.public_key@, 64)
    &&& node_id_text(hex_bytes(a.signer.public_key@)) == a.signer.node_id@
    &&& is_lower_hex_text(a.signature@, 128)
    &&& match spec_canonical_json(unsigned_authorization_tree(a)) {
        Some(message) => spec_ed25519_verifies(
            hex_bytes(a.signer.public_key@),
            message,
            hex_bytes(a.signature@),
        ),
        None => false,
    }
    &&& a.plan.valid(admission, core_task_ids)
}

/// Isolated signing identity for the private execution authorization.
pub struct CandidateAuthorizationIdentity {
    secret: [u8; 32],
    signer: CandidateAuthorizationSigner,
}

impl CandidateAuthorizationIdentity {
    /// The deployment secret the identity signs with.
    pub closed spec fn secret_bytes(&self) -> Seq<u8> {
        self.secret@
    }

    /// The public signer identity.
    pub closed spec fn signer_spec(&self) -> CandidateAuthorizationSigner {
        self.signer
    }

    /// The signer is the one derived from the secret.
    pub open spec fn wf(&self) -> bool {
        let public_key = spec_ed25519_public_key(self.secret_bytes());
        &&& public_key.len() == 32
        &&& self.signer_spec().node_id@ == node_id_text(public_key)
        &&& self.signer_spec().public_key@ == hex_lower(public_key)
        &&& self.signer_spec().algorithm@ == "ed25519"@
    }

    /// Creates an authorization identity from one deployment-provided secret.
    pub fn from_secret(secret: [u8; 32]) -> (r: Self)
        ensures
            r.secret_bytes() == secret@,
            r.wf(),
    {
        let public_bytes = ed25519_public_key(&secret);
        let public_key = hex_encode(public_bytes.as_slice());
        let node_id = candidate_authorization_node_id(public_bytes.as_slice());
        CandidateAuthorizationIdentity {
            secret,
            signer: CandidateAuthorizationSigner { node_id, public_key, algorithm: "ed25519".to_owned() },
        }
    }

    /// Returns the nonsecret signer identity for out-of-band pinning.
    pub fn signer(&self) -> (r: &CandidateAuthorizationSigner)
        ensures
            *r == self.signer_spec(),
    {
        &self.signer
    }

    /// Issues a private authorization over the complete validated plan.
    pub fn authorize(
        &self,
        plan: CandidateExecutionPlan,
        admission: &ReleaseGateAdmissionV1,
        catalog: &CandidateCatalog,
    ) -> (r: Result<CandidateExecutionAuthorization, CandidateGateError>)
        requires
            self.wf(),
        ensures
            match r {
                Ok(a) => plan.valid(*admission, catalog@) && authorization_issued(
                    a,
                    self.secret_bytes(),
                    plan,
                ),
                Err(_) => !plan.valid(*admission, catalog@) || canonical_digest(plan_tree(plan)) is None
                    || exists|a: CandidateExecutionAuthorization|
                    authorization_constants_ok(a) && a.plan == plan && authorization_binds_plan(a)
                        && a.signer == self.signer_spec() && spec_canonical_json(
                        unsigned_authorization_tree(a),
                    ) is None,
            },
    {
        plan.validate_against_admission(admission, catalog)?;
        let plan_sha256 = plan.canonical_sha256()?;
        let execution_plan_digest = plan.execution_plan_digest.clone();
        let signed_admission_sha256 = plan.signed_admission_sha256.clone();
        let signer = CandidateAuthorizationSigner {
            node_id: self.signer.node_id.clone(),
            public_key: self.signer.public_key.clone(),
            algorithm: self.signer.algorithm.clone(),
        };
        let mut authorization = CandidateExecutionAuthorization {
            schema_version: CANDIDATE_EXECUTION_AUTHORIZATION_SCHEMA.to_owned(),
            signature_domain: CANDIDATE_EXECUTION_AUTHORIZATION_SCHEMA.to_owned(),
            signature_encoding: SORTED_KEY_JSON.to_owned(),
            purpose: CANDIDATE_AUTHORIZATION_PURPOSE.to_owned(),
            release_identity: RELEASE_IDENTITY.to_owned(),
            execution_plan_digest,
            signed_admission_sha256,
            private_plan_sha256: plan_sha256,
            plan,
            signer,
            signature: String::new(),
        };
        let message = match canonical_json_bytes(&authorization.unsigned_json()) {
            Some(bytes) => bytes,
            None => {
                assert(authorization_constants_ok(authorization) && authorization.plan == plan
                    && authorization_binds_plan(authorization) && authorization.signer
                    == self.signer_spec() && spec_canonical_json(
                    unsigned_authorization_tree(authorization),
                ) is None);
                return Err(CandidateGateError::new("candidate authorization cannot be canonicalized"));
            },
        };
        let signature = ed25519_sign(&self.secret, message.as_slice());
        let ghost unsigned = authorization;
        authorization.signature = hex_encode(signature.as_slice());
        assert(unsigned_authorization_tree(authorization) == unsigned_authorization_tree(unsigned));
        Ok(authorization)
    }
}

impl CandidateExecutionAuthorization {
    /// The canonical signature preimage.
    pub fn signing_bytes(&self) -> (r: Result<Vec<u8>, CandidateGateError>)
        ensures
            match r {
                Ok(b) => spec_canonical_json(unsigned_authorization_tree(*self)) == Some(b@),
                Err(_) => spec_canonical_json(unsigned_authorization_tree(*self)) is None,
            },
    {
        match canonical_json_bytes(&self.unsigned_json()) {
            Some(bytes) => Ok(bytes),
            None => Err(CandidateGateError::new("candidate authorization cannot be canonicalized")),
        }
    }

    /// Verifies the authorization signature and all admission and plan bindings.
    pub fn verify(
        &self,
        admission: &ReleaseGateAdmissionV1,
        catalog: &CandidateCatalog,
        expected_signer_node_id: &str,
        expected_signer_public_key: &str,
    ) -> (r: Result<(), CandidateGateError>)
        ensures
            r is Ok <==> authorization_verifies(
                *self,
                *admission,
                catalog@,
                expected_signer_node_id@,
                expected_signer_public_key@,
            ),
    {
        let plan_digest = match self.plan.canonical_sha256() {
            Ok(d) => Some(d),
            Err(_) => None,
        };
        let bound = match &plan_digest {
            Some(d) => text_eq(self.private_plan_sha256.as_str(), d.as_str()),
            None => false,
        };
        if !text_eq(self.schema_version.as_str(), CANDIDATE_EXECUTION_AUTHORIZATION_SCHEMA) || !text_eq(
            self.signature_domain.as_str(),
            CANDIDATE_EXECUTION_AUTHORIZATION_SCHEMA,
        ) || !text_eq(self.signature_encoding.as_str(), SORTED_KEY_JSON) || !text_eq(
            self.purpose.as_str(),
            CANDIDATE_AUTHORIZATION_PURPOSE,
        ) || !text_eq(self.release_identity.as_str(), RELEASE_IDENTITY) || !text_eq(
            self.execution_plan_digest.as_str(),
            self.plan.execution_plan_digest.as_str(),
        ) || !text_eq(
            self.signed_admission_sha256.as_str(),
            self.plan.signed_admission_sha256.as_str(),
        ) || !bound {
            return Err(
                CandidateGateError::new(
                    "candidate execution authorization identity or plan binding is invalid",
                ),
            );
        }
        if !text_eq(self.signer.node_id.as_str(), expected_signer_node_id) || !text_eq(
            self.signer.public_key.as_str(),
            expected_signer_public_key,
        ) || !text_eq(self.signer.algorithm.as_str(), "ed25519") || !is_lower_hex(
            self.signer.public_key.as_str(),
            64,
        ) {
            return Err(
                CandidateGateError::new("candidate execution authorization signer is invalid or unpinned"),
            );
        }
        let derived = candidate_authorization_node_id_from_hex(self.signer.public_key.as_str());
        if !text_eq(derived.as_str(), self.signer.node_id.as_str()) || !is_lower_hex(
            self.signature.as_str(),
            128,
        ) {
            return Err(
                CandidateGateError::new("candidate execution authorization signer is invalid or unpinned"),
            );
        }
        let public_bytes = hex_decode(self.signer.public_key.as_str());
        let signature_bytes = hex_decode(self.signature.as_str());
        proof {
            lemma_hex_bytes(public_bytes@);
            lemma_hex_bytes(signature_bytes@);
            lemma_hex_lower_shape(public_bytes@);
        }
        let message = self.signing_bytes()?;
        if !ed25519_verify(public_bytes.as_slice(), message.as_slice(), signature_bytes.as_slice()) {
            if !ed25519_key_decodes(public_bytes.as_slice()) {
                return Err(CandidateGateError::new("candidate authorization public key is invalid"));
            }
            return Err(CandidateGateError::new("candidate authorization signature does not verify"));
        }
        self.plan.validate_against_admission(admission, catalog)
    }
}

// ---------------------------------------------------------------------------
// Laws
// ---------------------------------------------------------------------------
/// An authorization issued for a plan that is valid for the admission
/// verifies against that admission and the issuing signer.
pub proof fn law_issued_authorization_verifies(
    a: CandidateExecutionAuthorization,
    secret: Seq<u8>,
    plan: CandidateExecutionPlan,
    admission: ReleaseGateAdmissionV1,
    core_task_ids: Seq<Seq<char>>,
)
    requires
        authorization_issued(a, secret, plan),
        plan.valid(admission, core_task_ids),
    ensures
        authorization_verifies(a, admission, core_task_ids, a.signer.node_id@, a.signer.public_key@),
{
    let public_key = spec_ed25519_public_key(secret);
    let message = spec_canonical_json(unsigned_authorization_tree(a))->0;
    let signature = spec_ed25519_signature(secret, message);
    lemma_hex_lower_shape(public_key);
    lemma_hex_lower_shape(signature);
    lemma_hex_bytes(public_key);
    lemma_hex_bytes(signature);
}

} // verus!
