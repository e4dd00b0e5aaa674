//! The four-component candidate evaluator result and its exact score.
use vstd::prelude::*;
use vstd::string::*;

use crate::digest::{
    canonical_digest, canonical_hash, items_tree, json_array, json_object, json_text, member,
    members_tree, Json, JsonTree,
};
use crate::release_gate::{
    is_valid_digest, is_valid_identifier, valid_digest, valid_identifier, CandidateGateError,
    CANDIDATE_EVALUATOR_RESULT_SCHEMA, CANDIDATE_SCORER_VERSION, CANDIDATE_TASK_SET_VERSION,
};
use crate::text::{push_char, text_eq};

verus! {

/// One deterministic binary assertion in a candidate evaluator component.
pub struct CandidateAssertion {
    /// Stable identifier for the binary assertion.
    pub assertion_id: String,
    /// Whether the evaluator assertion passed.
    pub passed: bool,
    /// SHA-256 digest of the assertion evidence.
    pub evidence_sha256: String,
}

/// One of four ordered candidate evaluator components.
pub struct CandidateEvaluatorComponent {
    /// Stable identifier for the evaluator component.
    pub component_id: String,
    /// Component weight in basis points.
    pub weight_basis_points: u32,
    /// Ordered binary assertions in the component.
    pub assertions: Vec<CandidateAssertion>,
}

/// Exact four-component evaluator result exchanged with the independent verifier.
pub struct CandidateEvaluatorResult {
    /// Schema identifier for the evaluator result.
    pub schema_version: String,
    /// Identifier for the evaluated task.
    pub task_id: String,
    /// Version of the evaluated task set.
    pub task_version: String,
    /// Version of the candidate scorer.
    pub scorer_version: String,
    /// Four ordered evaluator components.
    pub components: Vec<CandidateEvaluatorComponent>,
    /// Exact numerator of the candidate score.
    pub score_numerator: u64,
    /// Exact denominator of the candidate score.
    pub score_denominator: u64,
    /// Candidate score rounded to six decimal places.
    pub score_decimal_6: String,
}

// ---------------------------------------------------------------------------
// Arithmetic
// ---------------------------------------------------------------------------
/// Euclid's greatest common divisor.
pub open spec fn gcd(a: nat, b: nat) -> nat
    decreases b,
{
    if b == 0 {
        a
    } else {
        gcd(b, a % b)
    }
}

/// The divisor used to reduce a fraction: the gcd, or 1 when it is 0.
pub open spec fn reduction_divisor(a: nat, b: nat) -> nat {
    if gcd(a, b) == 0 {
        1
    } else {
        gcd(a, b)
    }
}

/// Greatest common divisor of two integers, or 1 when both are zero.
pub fn greatest_common_divisor(left: u64, right: u64) -> (d: u64)
    ensures
        d == reduction_divisor(left as nat, right as nat),
{
    let mut l = left;
    let mut r = right;
    while r != 0
        invariant
            gcd(l as nat, r as nat) == gcd(left as nat, right as nat),
        decreases r,
    {
        let remainder = l % r;
        l = r;
        r = remainder;
    }
    if l == 0 {
        1
    } else {
        l
    }
}

/// Number of passed assertions among the first `n`.
pub open spec fn passed_count(a: Seq<CandidateAssertion>, n: int) -> nat
    decreases n,
{
    if n <= 0 {
        0
    } else {
        passed_count(a, n - 1) + if a[n - 1].passed {
            1nat
        } else {
            0nat
        }
    }
}

/// The four fixed component identifiers and weights.
pub open spec fn layout_id(k: int) -> Seq<char> {
    if k == 0 {
        "component_01"@
    } else if k == 1 {
        "component_02"@
    } else if k == 2 {
        "component_03"@
    } else {
        "component_04"@
    }
}

pub open spec fn layout_weight(k: int) -> u32 {
    if k == 0 {
        3000
    } else if k == 1 {
        2500
    } else if k == 2 {
        2500
    } else {
        2000
    }
}

fn layout_id_str(k: usize) -> (r: &'static str)
    ensures
        r@ == layout_id(k as int),
{
    if k == 0 {
        "component_01"
    } else if k == 1 {
        "component_02"
    } else if k == 2 {
        "component_03"
    } else {
        "component_04"
    }
}

fn layout_weight_of(k: usize) -> (w: u32)
    ensures
        w == layout_weight(k as int),
{
    if k == 0 {
        3000
    } else if k == 1 {
        2500
    } else if k == 2 {
        2500
    } else {
        2000
    }
}

/// Component `k` has its fixed identity and weight and 3 to 64 assertions,
/// each with a valid identifier, unique in the component, and a valid
/// evidence digest.
pub open spec fn component_ok(c: CandidateEvaluatorComponent, k: int) -> bool {
    let a = c.assertions@;
    &&& c.component_id@ == layout_id(k)
    &&& c.weight_basis_points == layout_weight(k)
    &&& 3 <= a.len() <= 64
    &&& forall|i: int|
        0 <= i < a.len() ==> valid_identifier((#[trigger] a[i]).assertion_id@) && valid_digest(
            a[i].evidence_sha256@,
        )
    &&& forall|i: int, j: int|
        0 <= i < j < a.len() ==> (#[trigger] a[i]).assertion_id@ != (#[trigger] a[j]).assertion_id@
}

/// The component's identity, weight and assertion count fit its place.
pub open spec fn component_header_ok(c: CandidateEvaluatorComponent, k: int) -> bool {
    &&& c.component_id@ == layout_id(k)
    &&& c.weight_basis_points == layout_weight(k)
    &&& 3 <= c.assertions@.len() <= 64
}

/// Why a component that breaks the layout is refused.
pub open spec fn component_refusal(c: CandidateEvaluatorComponent, k: int) -> Seq<char> {
    if !component_header_ok(c, k) {
        "candidate evaluator component identity, weight, or assertion count is invalid"@
    } else {
        "candidate evaluator assertion identity or evidence is invalid"@
    }
}

pub open spec fn u64_max() -> int {
    18446744073709551615
}

/// Adds component `c` to the reduced fraction `num / den`; `None` where a
/// 64-bit product or sum would overflow.
pub open spec fn score_step(num: int, den: int, c: CandidateEvaluatorComponent) -> Option<(int, int)> {
    let term_num = c.weight_basis_points * passed_count(c.assertions@, c.assertions@.len() as int);
    let term_den = 10000 * c.assertions@.len();
    if num * term_den > u64_max() || term_num * den > u64_max() || num * term_den + term_num * den
        > u64_max() || den * term_den > u64_max() {
        None
    } else {
        let cn = num * term_den + term_num * den;
        let cd = den * term_den;
        let g = reduction_divisor(cn as nat, cd as nat);
        Some((cn / g as int, cd / g as int))
    }
}

/// The reduced fraction after the first `n` components.
pub open spec fn score_fold(c: Seq<CandidateEvaluatorComponent>, n: int) -> Option<(int, int)>
    decreases n,
{
    if n <= 0 {
        Some((0, 1))
    } else {
        match score_fold(c, n - 1) {
            Some((num, den)) => score_step(num, den, c[n - 1]),
            None => None,
        }
    }
}

/// The exact reduced score fraction of four components, or `None` when the
/// components break the fixed layout or the arithmetic overflows.
pub open spec fn score_fraction(c: Seq<CandidateEvaluatorComponent>) -> Option<(int, int)> {
    if c.len() == 4 && forall|k: int| 0 <= k < 4 ==> component_ok(#[trigger] c[k], k) {
        score_fold(c, 4)
    } else {
        None
    }
}

proof fn lemma_passed_count_bound(a: Seq<CandidateAssertion>, n: int)
    requires
        0 <= n <= a.len(),
    ensures
        passed_count(a, n) <= n,
    decreases n,
{
    if n > 0 {
        lemma_passed_count_bound(a, n - 1);
    }
}

proof fn lemma_reduced_quotients(cn: nat, cd: nat)
    ensures
        cn / reduction_divisor(cn, cd) <= cn,
        cd / reduction_divisor(cn, cd) <= cd,
{
    let g = reduction_divisor(cn, cd);
    assert(g >= 1);
    assert(cn / g <= cn) by (nonlinear_arith)
        requires
            g >= 1,
    ;
    assert(cd / g <= cd) by (nonlinear_arith)
        requires
            g >= 1,
    ;
}

fn count_passed(a: &Vec<CandidateAssertion>) -> (n: u64)
    requires
        a@.len() <= 64,
    ensures
        n == passed_count(a@, a@.len() as int),
{
    let mut n: u64 = 0;
    let mut i: usize = 0;
    while i < a.len()
        invariant
            i <= a@.len() <= 64,
            n == passed_count(a@, i as int),
            n <= i,
        decreases a@.len() - i,
    {
        if a[i].passed {
            n += 1;
        }
        i += 1;
    }
    n
}

fn validate_component(c: &CandidateEvaluatorComponent, k: usize) -> (r: Result<
    (),
    CandidateGateError,
>)
    ensures
        r is Ok <==> component_ok(*c, k as int),
        match r {
            Ok(_) => true,
            Err(e) => e@ == component_refusal(*c, k as int),
        },
{
    if !(text_eq(c.component_id.as_str(), layout_id_str(k)) && c.weight_basis_points
        == layout_weight_of(k) && 3 <= c.assertions.len() && c.assertions.len() <= 64) {
        return Err(
            CandidateGateError::new(
                "candidate evaluator component identity, weight, or assertion count is invalid",
            ),
        );
    }
    let a = &c.assertions;
    let mut i: usize = 0;
    while i < a.len()
        invariant
            a == &c.assertions,
            i <= a@.len(),
            3 <= a@.len() <= 64,
            c.component_id@ == layout_id(k as int),
            c.weight_basis_points == layout_weight(k as int),
            forall|x: int|
                0 <= x < i ==> valid_identifier((#[trigger] a@[x]).assertion_id@) && valid_digest(
                    a@[x].evidence_sha256@,
                ),
            forall|x: int, y: int|
                0 <= x < y < i ==> (#[trigger] a@[x]).assertion_id@ != (#[trigger] a@[y]).assertion_id@,
        decreases a@.len() - i,
    {
        if !is_valid_identifier(a[i].assertion_id.as_str()) || !is_valid_digest(
            a[i].evidence_sha256.as_str(),
        ) {
            return Err(
                CandidateGateError::new(
                    "candidate evaluator assertion identity or evidence is invalid",
                ),
            );
        }
        let mut j: usize = 0;
        while j < i
            invariant
                a == &c.assertions,
                j <= i < a@.len(),
                3 <= a@.len() <= 64,
                c.component_id@ == layout_id(k as int),
                c.weight_basis_points == layout_weight(k as int),
                forall|x: int| 0 <= x < j ==> a@[x].assertion_id@ != a@[i as int].assertion_id@,
            decreases i - j,
        {
            if a[j].assertion_id == a[i].assertion_id {
                assert(a@[j as int].assertion_id@ == a@[i as int].assertion_id@);
                return Err(
                    CandidateGateError::new(
                        "candidate evaluator assertion identity or evidence is invalid",
                    ),
                );
            }
            j += 1;
        }
        i += 1;
    }
    Ok(())
}

/// Why the components from `k` on are refused, given the reduced fraction
/// `acc` of those before: the first component that breaks the layout, or the
/// first step that overflows.
pub open spec fn fraction_refusal_from(c: Seq<CandidateEvaluatorComponent>, k: int, acc: (int, int)) -> Option<
    Seq<char>,
>
    decreases 4 - k,
{
    if k >= 4 || k < 0 {
        None
    } else if !component_ok(c[k], k) {
        Some(component_refusal(c[k], k))
    } else {
        match score_step(acc.0, acc.1, c[k]) {
            Some(next) => fraction_refusal_from(c, k + 1, next),
            None => Some("candidate score overflows"@),
        }
    }
}

/// Why the components have no score fraction.
pub open spec fn fraction_refusal(c: Seq<CandidateEvaluatorComponent>) -> Option<Seq<char>> {
    if c.len() != 4 {
        Some("candidate evaluator must contain exactly four ordered components"@)
    } else {
        fraction_refusal_from(c, 0, (0, 1))
    }
}

proof fn lemma_fraction_refusal_none(c: Seq<CandidateEvaluatorComponent>, k: int, acc: (int, int))
    requires
        0 <= k <= 4,
        score_fraction(c) is Some,
        score_fold(c, k) == Some(acc),
    ensures
        fraction_refusal_from(c, k, acc) is None,
    decreases 4 - k,
{
    if k < 4 {
        assert(component_ok(c[k], k));
        assert(score_fold(c, k + 1) == score_step(acc.0, acc.1, c[k]));
        if score_fold(c, k + 1) is None {
            lemma_fold_none_stays(c, k + 1, 4);
        }
        lemma_fraction_refusal_none(c, k + 1, score_fold(c, k + 1)->0);
    }
}

/// Computes the reduced exact score fraction for four ordered components.
#[verifier::rlimit(40)]
pub fn candidate_score_fraction(components: &Vec<CandidateEvaluatorComponent>) -> (r: Result<
    (u64, u64),
    CandidateGateError,
>)
    ensures
        match r {
            Ok((n, d)) => score_fraction(components@) == Some((n as int, d as int)),
            Err(e) => score_fraction(components@) is None && fraction_refusal(components@) == Some(e@),
        },
{
    if components.len() != 4 {
        return Err(
            CandidateGateError::new(
                "candidate evaluator must contain exactly four ordered components",
            ),
        );
    }
    let mut numerator: u64 = 0;
    let mut denominator: u64 = 1;
    let mut k: usize = 0;
    while k < 4
        invariant
            components@.len() == 4,
            k <= 4,
            forall|x: int| 0 <= x < k ==> component_ok(#[trigger] components@[x], x),
            score_fold(components@, k as int) == Some((numerator as int, denominator as int)),
            fraction_refusal(components@) == fraction_refusal_from(
                components@,
                k as int,
                (numerator as int, denominator as int),
            ),
        decreases 4 - k,
    {
        let component = &components[k];
        match validate_component(component, k) {
            Ok(()) => {},
            Err(e) => {
                return Err(e);
            },
        }
        let passed = count_passed(&component.assertions);
        proof {
            lemma_passed_count_bound(component.assertions@, component.assertions@.len() as int);
            let w = component.weight_basis_points as int;
            assert(w * passed <= 3000 * 64) by (nonlinear_arith)
                requires
                    0 <= w <= 3000,
                    0 <= passed <= 64,
            ;
        }
        let term_numerator = (component.weight_basis_points as u64) * passed;
        let term_denominator = 10000u64 * (component.assertions.len() as u64);
        let combined_numerator = match numerator.checked_mul(term_denominator) {
            Some(value) => match term_numerator.checked_mul(denominator) {
                Some(term) => value.checked_add(term),
                None => None,
            },
            None => None,
        };
        let combined_denominator = denominator.checked_mul(term_denominator);
        if combined_numerator.is_none() || combined_denominator.is_none() {
            assert(score_step(numerator as int, denominator as int, components@[k as int]) is None);
            assert(score_fold(components@, k + 1) is None);
            proof {
                lemma_fold_none_stays(components@, k as int + 1, 4);
            }
            return Err(CandidateGateError::new("candidate score overflows"));
        }
        let cn = combined_numerator.unwrap();
        let cd = combined_denominator.unwrap();
        let divisor = greatest_common_divisor(cn, cd);
        proof {
            lemma_reduced_quotients(cn as nat, cd as nat);
        }
        numerator = cn / divisor;
        denominator = cd / divisor;
        k += 1;
    }
    Ok((numerator, denominator))
}

proof fn lemma_fold_none_stays(c: Seq<CandidateEvaluatorComponent>, from: int, to: int)
    requires
        0 < from <= to,
        score_fold(c, from) is None,
    ensures
        score_fold(c, to) is None,
    decreases to - from,
{
    if from < to {
        lemma_fold_none_stays(c, from, to - 1);
    }
}

// ---------------------------------------------------------------------------
// Decimal text
// ---------------------------------------------------------------------------
/// Decimal digits of `n`, without leading zeros (`0` for zero).
pub open spec fn decimal_text(n: nat) -> Seq<char>
    decreases n,
{
    if n < 10 {
        seq![(48 + n) as char]
    } else {
        decimal_text(n / 10).push((48 + n % 10) as char)
    }
}

/// Exactly six decimal digits of `n % 1_000_000`, zero-padded.
pub open spec fn six_digits(n: nat) -> Seq<char> {
    Seq::new(6, |i: int| (48 + (n / pow10(5 - i)) % 10) as char)
}

pub open spec fn pow10(e: int) -> nat
    decreases e,
{
    if e <= 0 {
        1
    } else {
        10 * pow10(e - 1)
    }
}

proof fn lemma_pow10_positive(e: int)
    ensures
        pow10(e) >= 1,
    decreases e,
{
    if e > 0 {
        lemma_pow10_positive(e - 1);
    }
}

/// The score rounded half up to six decimals, as `I.FFFFFF`.
pub open spec fn decimal_score_text(numerator: int, denominator: int) -> Option<Seq<char>> {
    if denominator == 0 || numerator > denominator || numerator * 1000000 + denominator / 2
        > u64_max() {
        None
    } else {
        let scaled = ((numerator * 1000000 + denominator / 2) / denominator) as nat;
        Some(decimal_text(scaled / 1000000) + "."@ + six_digits(scaled % 1000000))
    }
}

/// Why a fraction has no six-place decimal text.
pub open spec fn decimal_refusal(numerator: int, denominator: int) -> Seq<char> {
    if denominator == 0 || numerator > denominator {
        "candidate score fraction is invalid"@
    } else {
        "candidate score overflows"@
    }
}

/// Decimal digits of `n`.
pub fn decimal_string(n: u64) -> (s: String)
    ensures
        s@ == decimal_text(n as nat),
{
    let mut digits: Vec<char> = Vec::new();
    let mut m = n;
    loop
        invariant_except_break
            m <= n,
            decimal_text(n as nat) == decimal_text(m as nat) + digits@.reverse(),
        ensures
            decimal_text(n as nat) == digits@.reverse(),
        decreases m,
    {
        if m < 10 {
            let c = char_digit(m);
            assert(decimal_text(m as nat) == seq![c]);
            digits.push(c);
            assert(digits@.reverse() =~= seq![c] + digits@.drop_last().reverse());
            break;
        }
        let c = char_digit(m % 10);
        assert(decimal_text(m as nat) == decimal_text((m / 10) as nat).push(c));
        digits.push(c);
        assert(digits@.reverse() =~= seq![c] + digits@.drop_last().reverse());
        assert(decimal_text(n as nat) =~= decimal_text((m / 10) as nat) + digits@.reverse());
        m = m / 10;
    }
    let mut s = String::new();
    let mut i = digits.len();
    while i > 0
        invariant
            i <= digits@.len(),
            s@ == digits@.reverse().subrange(0, digits@.len() - i),
        decreases i,
    {
        i -= 1;
        push_char(&mut s, digits[i]);
        assert(digits@.reverse().subrange(0, digits@.len() - i) =~= digits@.reverse().subrange(
            0,
            digits@.len() - i - 1,
        ).push(digits@[i as int]));
    }
    assert(s@ =~= digits@.reverse());
    s
}

fn char_digit(d: u64) -> (c: char)
    requires
        d < 10,
    ensures
        c == (48 + d) as char,
{
    if d == 0 {
        '0'
    } else if d == 1 {
        '1'
    } else if d == 2 {
        '2'
    } else if d == 3 {
        '3'
    } else if d == 4 {
        '4'
    } else if d == 5 {
        '5'
    } else if d == 6 {
        '6'
    } else if d == 7 {
        '7'
    } else if d == 8 {
        '8'
    } else {
        '9'
    }
}

/// Formats an exact score fraction with six rounded decimals.
pub fn decimal_score_6(numerator: u64, denominator: u64) -> (r: Result<String, CandidateGateError>)
    ensures
        match r {
            Ok(s) => decimal_score_text(numerator as int, denominator as int) == Some(s@),
            Err(e) => decimal_score_text(numerator as int, denominator as int) is None && e@
                == decimal_refusal(numerator as int, denominator as int),
        },
{
    if denominator == 0 || numerator > denominator {
        return Err(CandidateGateError::new("candidate score fraction is invalid"));
    }
    let scaled = match numerator.checked_mul(1000000) {
        Some(value) => match value.checked_add(denominator / 2) {
            Some(value) => value / denominator,
            None => {
                return Err(CandidateGateError::new("candidate score overflows"));
            },
        },
        None => {
            return Err(CandidateGateError::new("candidate score overflows"));
        },
    };
    let mut s = decimal_string(scaled / 1000000);
    s.append(".");
    let fraction = scaled % 1000000;
    let mut place: u64 = 100000;
    let mut i: usize = 0;
    let ghost prefix = s@;
    proof {
        reveal_with_fuel(pow10, 7);
    }
    while i < 6
        invariant
            i <= 6,
            i < 6 ==> place == pow10(5 - i as int),
            i < 6 ==> place >= 1,
            s@ == prefix + six_digits(fraction as nat).subrange(0, i as int),
        decreases 6 - i,
    {
        push_char(&mut s, char_digit((fraction / place) % 10));
        assert(s@ =~= prefix + six_digits(fraction as nat).subrange(0, i + 1));
        proof {
            if i < 5 {
                assert(pow10(5 - i as int) == 10 * pow10(5 - i - 1));
                lemma_pow10_positive(5 - i as int - 1);
            }
        }
        place = place / 10;
        i += 1;
    }
    assert(six_digits(fraction as nat).subrange(0, 6) =~= six_digits(fraction as nat));
    Ok(s)
}

// ---------------------------------------------------------------------------
// The result document
// ---------------------------------------------------------------------------
impl CandidateEvaluatorResult {
    /// Identity fields, score fraction and decimal text all agree.
    pub open spec fn valid(&self) -> bool {
        &&& self.schema_version@ == CANDIDATE_EVALUATOR_RESULT_SCHEMA@
        &&& self.task_version@ == CANDIDATE_TASK_SET_VERSION@
        &&& self.scorer_version@ == CANDIDATE_SCORER_VERSION@
        &&& valid_identifier(self.task_id@)
        &&& score_fraction(self.components@) == Some(
            (self.score_numerator as int, self.score_denominator as int),
        )
        &&& decimal_score_text(self.score_numerator as int, self.score_denominator as int) == Some(
            self.score_decimal_6@,
        )
    }

    /// Why the result is refused, in the order validation checks it.
    pub open spec fn refusal(&self) -> Option<Seq<char>> {
        if !(self.schema_version@ == CANDIDATE_EVALUATOR_RESULT_SCHEMA@ && self.task_version@
            == CANDIDATE_TASK_SET_VERSION@ && self.scorer_version@ == CANDIDATE_SCORER_VERSION@
            && valid_identifier(self.task_id@)) {
            Some("candidate evaluator result identity is invalid"@)
        } else if fraction_refusal(self.components@) is Some {
            fraction_refusal(self.components@)
        } else if score_fraction(self.components@) != Some(
            (self.score_numerator as int, self.score_denominator as int),
        ) {
            Some("candidate evaluator score does not match its binary assertions"@)
        } else if decimal_score_text(self.score_numerator as int, self.score_denominator as int)
            is None {
            Some(decimal_refusal(self.score_numerator as int, self.score_denominator as int))
        } else if decimal_score_text(self.score_numerator as int, self.score_denominator as int)
            != Some(self.score_decimal_6@) {
            Some("candidate evaluator score does not match its binary assertions"@)
        } else {
            None
        }
    }

    /// Validates component order, weights, assertion evidence, and exact score.
    pub fn validate(&self) -> (r: Result<(), CandidateGateError>)
        ensures
            r is Ok <==> self.valid(),
            match r {
                Ok(_) => true,
                Err(e) => self.refusal() == Some(e@),
            },
    {
        if !(text_eq(self.schema_version.as_str(), CANDIDATE_EVALUATOR_RESULT_SCHEMA) && text_eq(
            self.task_version.as_str(),
            CANDIDATE_TASK_SET_VERSION,
        ) && text_eq(self.scorer_version.as_str(), CANDIDATE_SCORER_VERSION)
            && is_valid_identifier(self.task_id.as_str())) {
            return Err(CandidateGateError::new("candidate evaluator result identity is invalid"));
        }
        let (numerator, denominator) = match candidate_score_fraction(&self.components) {
            Ok(f) => f,
            Err(e) => {
                return Err(e);
            },
        };
        proof {
            lemma_fraction_refusal_none(self.components@, 0, (0, 1));
        }
        if self.score_numerator != numerator || self.score_denominator != denominator {
            return Err(
                CandidateGateError::new(
                    "candidate evaluator score does not match its binary assertions",
                ),
            );
        }
        let decimal = match decimal_score_6(numerator, denominator) {
            Ok(d) => d,
            Err(e) => {
                return Err(e);
            },
        };
        if self.score_decimal_6 != decimal {
            return Err(
                CandidateGateError::new(
                    "candidate evaluator score does not match its binary assertions",
                ),
            );
        }
        Ok(())
    }

    /// JSON form of the result.
    pub open spec fn tree(&self) -> JsonTree {
        JsonTree::Object(
            seq![
                ("schema_version"@, JsonTree::Text(self.schema_version@)),
                ("task_id"@, JsonTree::Text(self.task_id@)),
                ("task_version"@, JsonTree::Text(self.task_version@)),
                ("scorer_version"@, JsonTree::Text(self.scorer_version@)),
                ("components"@, JsonTree::Array(components_tree(self.components@))),
                ("score_numerator"@, JsonTree::Number(self.score_numerator)),
                ("score_denominator"@, JsonTree::Number(self.score_denominator)),
                ("score_decimal_6"@, JsonTree::Text(self.score_decimal_6@)),
            ],
        )
    }

    /// Returns the canonical result digest after complete validation.
    pub fn digest(&self) -> (r: Result<String, CandidateGateError>)
        ensures
            match r {
                Ok(d) => self.valid() && canonical_digest(self.tree()) == Some(d@),
                Err(e) => match self.refusal() {
                    Some(m) => !self.valid() && e@ == m,
                    None => self.valid() && canonical_digest(self.tree()) is None && e@
                        == "candidate value cannot be canonically hashed"@,
                },
            },
    {
        let checked = self.validate();
        match checked {
            Ok(()) => {},
            Err(e) => {
                return Err(e);
            },
        }
        proof {
            lemma_fraction_refusal_none(self.components@, 0, (0, 1));
        }
        let mut m: Vec<(String, Json)> = Vec::new();
        m.push(member("schema_version", json_text(self.schema_version.as_str())));
        m.push(member("task_id", json_text(self.task_id.as_str())));
        m.push(member("task_version", json_text(self.task_version.as_str())));
        m.push(member("scorer_version", json_text(self.scorer_version.as_str())));
        m.push(member("components", components_json(&self.components)));
        m.push(member("score_numerator", Json::Number(self.score_numerator)));
        m.push(member("score_denominator", Json::Number(self.score_denominator)));
        m.push(member("score_decimal_6", json_text(self.score_decimal_6.as_str())));
        let ghost ms = m@;
        let j = json_object(m);
        assert(members_tree(ms) =~= self.tree()->Object_0);
        match canonical_hash(&j) {
            Some(d) => Ok(d),
            None => Err(CandidateGateError::new("candidate value cannot be canonically hashed")),
        }
    }
}

pub open spec fn assertion_tree(a: CandidateAssertion) -> JsonTree {
    JsonTree::Object(
        seq![
            ("assertion_id"@, JsonTree::Text(a.assertion_id@)),
            ("passed"@, JsonTree::Bool(a.passed)),
            ("evidence_sha256"@, JsonTree::Text(a.evidence_sha256@)),
        ],
    )
}

pub open spec fn component_tree(c: CandidateEvaluatorComponent) -> JsonTree {
    JsonTree::Object(
        seq![
            ("component_id"@, JsonTree::Text(c.component_id@)),
            ("weight_basis_points"@, JsonTree::Number(c.weight_basis_points as u64)),
            (
                "assertions"@,
                JsonTree::Array(Seq::new(c.assertions@.len(), |i: int| assertion_tree(c.assertions@[i]))),
            ),
        ],
    )
}

pub open spec fn components_tree(c: Seq<CandidateEvaluatorComponent>) -> Seq<JsonTree> {
    Seq::new(c.len(), |i: int| component_tree(c[i]))
}

fn assertion_json(a: &CandidateAssertion) -> (j: Json)
    ensures
        j.tree() == assertion_tree(*a),
{
    let mut m: Vec<(String, Json)> = Vec::new();
    m.push(member("assertion_id", json_text(a.assertion_id.as_str())));
    m.push(member("passed", Json::Bool(a.passed)));
    m.push(member("evidence_sha256", json_text(a.evidence_sha256.as_str())));
    let ghost ms = m@;
    let j = json_object(m);
    assert(members_tree(ms) =~= assertion_tree(*a)->Object_0);
    j
}

fn component_json(c: &CandidateEvaluatorComponent) -> (j: Json)
    ensures
        j.tree() == component_tree(*c),
{
    let mut items: Vec<Json> = Vec::new();
    let mut i: usize = 0;
    while i < c.assertions.len()
        invariant
            i <= c.assertions@.len(),
            items@.len() == i,
            forall|k: int| 0 <= k < i ==> #[trigger] items@[k].tree() == assertion_tree(c.assertions@[k]),
        decreases c.assertions@.len() - i,
    {
        items.push(assertion_json(&c.assertions[i]));
        i += 1;
    }
    let ghost is = items@;
    let assertions = json_array(items);
    assert(items_tree(is) =~= Seq::new(
        c.assertions@.len(),
        |k: int| assertion_tree(c.assertions@[k]),
    ));
    let mut m: Vec<(String, Json)> = Vec::new();
    m.push(member("component_id", json_text(c.component_id.as_str())));
    m.push(member("weight_basis_points", Json::Number(c.weight_basis_points as u64)));
    m.push(member("assertions", assertions));
    let ghost ms = m@;
    let j = json_object(m);
    assert(members_tree(ms) =~= component_tree(*c)->Object_0);
    j
}

fn components_json(c: &Vec<CandidateEvaluatorComponent>) -> (j: Json)
    ensures
        j.tree() == JsonTree::Array(components_tree(c@)),
{
    let mut items: Vec<Json> = Vec::new();
    let mut i: usize = 0;
    while i < c.len()
        invariant
            i <= c@.len(),
            items@.len() == i,
            forall|k: int| 0 <= k < i ==> #[trigger] items@[k].tree() == component_tree(c@[k]),
        decreases c@.len() - i,
    {
        items.push(component_json(&c[i]));
        i += 1;
    }
    let ghost is = items@;
    let j = json_array(items);
    assert(items_tree(is) =~= components_tree(c@));
    j
}


// ---------------------------------------------------------------------------
// Laws
// ---------------------------------------------------------------------------
/// The unreduced weighted pass ratio of the first `n` components, summed
/// over their common denominator: `Σ weight·passed / (10000·assertions)`.
pub open spec fn exact_score(c: Seq<CandidateEvaluatorComponent>, n: int) -> (int, int)
    decreases n,
{
    if n <= 0 {
        (0, 1)
    } else {
        let prev = exact_score(c, n - 1);
        let comp = c[n - 1];
        let term_num = comp.weight_basis_points * passed_count(comp.assertions@, comp.assertions@.len() as int);
        let term_den = 10000 * comp.assertions@.len();
        (prev.0 * term_den + term_num * prev.1, prev.1 * term_den)
    }
}

/// Sum of the layout weights of the first `n` components.
pub open spec fn layout_weight_sum(n: int) -> int
    decreases n,
{
    if n <= 0 {
        0
    } else {
        layout_weight_sum(n - 1) + layout_weight(n - 1)
    }
}

/// The reduced score fraction is exact: it equals the weighted pass ratio of
/// the four components, and it lies between zero and one.
pub proof fn law_score_fraction_is_exact(c: Seq<CandidateEvaluatorComponent>)
    requires
        score_fraction(c) is Some,
    ensures
        (score_fraction(c)->0).1 > 0,
        (score_fraction(c)->0).0 * exact_score(c, 4).1 == (score_fraction(c)->0).1 * exact_score(c, 4).0,
        0 <= (score_fraction(c)->0).0 <= (score_fraction(c)->0).1,
{
    lemma_fold_exact(c, 4);
    let (num, den) = score_fraction(c)->0;
    let (en, ed) = exact_score(c, 4);
    assert(layout_weight_sum(4) == 10000) by {
        reveal_with_fuel(layout_weight_sum, 5);
    }
    assert(en <= ed);
    assert(num <= den) by (nonlinear_arith)
        requires
            num * ed == den * en,
            0 <= en <= ed,
            ed > 0,
            den > 0,
            num >= 0,
    ;
}

proof fn lemma_fold_exact(c: Seq<CandidateEvaluatorComponent>, n: int)
    requires
        0 <= n <= 4,
        c.len() == 4,
        forall|k: int| 0 <= k < 4 ==> component_ok(#[trigger] c[k], k),
        score_fold(c, n) is Some,
    ensures
        (score_fold(c, n)->0).1 > 0,
        (score_fold(c, n)->0).0 >= 0,
        exact_score(c, n).1 > 0,
        exact_score(c, n).0 >= 0,
        (score_fold(c, n)->0).0 * exact_score(c, n).1 == (score_fold(c, n)->0).1 * exact_score(c, n).0,
        exact_score(c, n).0 * 10000 <= exact_score(c, n).1 * layout_weight_sum(n),
    decreases n,
{
    if n > 0 {
        lemma_fold_exact(c, n - 1);
        let (num, den) = score_fold(c, n - 1)->0;
        let (en, ed) = exact_score(c, n - 1);
        let comp = c[n - 1];
        assert(component_ok(comp, n - 1));
        let m = comp.assertions@.len();
        let p = passed_count(comp.assertions@, m as int);
        lemma_passed_count_bound(comp.assertions@, m as int);
        let w = comp.weight_basis_points as int;
        let tn = w * p;
        let td = 10000 * m;
        assert(w == layout_weight(n - 1));
        assert(0 < w <= 10000) by {
            reveal_with_fuel(layout_weight_sum, 2);
        }
        assert(td > 0);
        assert(tn >= 0) by (nonlinear_arith)
            requires
                tn == w * p,
                w >= 0,
                p >= 0,
        ;
        let cn = num * td + tn * den;
        let cd = den * td;
        assert(cn >= 0 && cd > 0) by (nonlinear_arith)
            requires
                cn == num * td + tn * den,
                cd == den * td,
                num >= 0,
                den > 0,
                td > 0,
                tn >= 0,
        ;
        let g = reduction_divisor(cn as nat, cd as nat) as int;
        lemma_gcd_divides(cn as nat, cd as nat);
        assert(g > 0);
        assert(score_fold(c, n)->0 == (cn / g, cd / g));
        let x = cn / g;
        let y = cd / g;
        assert(cn == g * x) by {
            vstd::arithmetic::div_mod::lemma_fundamental_div_mod(cn, g as int);
        }
        assert(cd == g * y) by {
            vstd::arithmetic::div_mod::lemma_fundamental_div_mod(cd, g as int);
        }
        assert(y > 0 && x >= 0) by (nonlinear_arith)
            requires
                cd == g * y,
                cd > 0,
                cn == g * x,
                cn >= 0,
                g > 0,
        ;
        let en2 = en * td + tn * ed;
        let ed2 = ed * td;
        assert(exact_score(c, n) == (en2, ed2));
        assert(ed2 > 0 && en2 >= 0) by (nonlinear_arith)
            requires
                en2 == en * td + tn * ed,
                ed2 == ed * td,
                ed > 0,
                td > 0,
                en >= 0,
                tn >= 0,
        ;
        assert(cn * ed2 == (num * ed) * (td * td) + (tn * den) * (ed * td)) by (nonlinear_arith)
            requires
                cn == num * td + tn * den,
                ed2 == ed * td,
        ;
        assert(cd * en2 == (den * en) * (td * td) + (den * td) * (tn * ed)) by (nonlinear_arith)
            requires
                cd == den * td,
                en2 == en * td + tn * ed,
        ;
        assert((tn * den) * (ed * td) == (den * td) * (tn * ed)) by (nonlinear_arith);
        assert(cn * ed2 == cd * en2);
        assert(x * cd == y * cn) by (nonlinear_arith)
            requires
                cn == g * x,
                cd == g * y,
        ;
        assert(x * ed2 == y * en2) by (nonlinear_arith)
            requires
                cn * ed2 == cd * en2,
                x * cd == y * cn,
                cd > 0,
        ;
        assert(tn * 10000 <= w * td) by (nonlinear_arith)
            requires
                tn == w * p,
                td == 10000 * m,
                0 <= p <= m,
                0 <= w,
        ;
        assert(en2 * 10000 <= ed2 * layout_weight_sum(n)) by (nonlinear_arith)
            requires
                en * 10000 <= ed * layout_weight_sum(n - 1),
                en2 == en * td + tn * ed,
                ed2 == ed * td,
                tn * 10000 <= w * td,
                layout_weight_sum(n) == layout_weight_sum(n - 1) + w,
                ed > 0,
                td > 0,
        ;
    }
}

proof fn lemma_gcd_divides(a: nat, b: nat)
    ensures
        (a > 0 || b > 0) ==> gcd(a, b) > 0,
        gcd(a, b) > 0 ==> a % gcd(a, b) == 0 && b % gcd(a, b) == 0,
        reduction_divisor(a, b) > 0,
        a % reduction_divisor(a, b) == 0 || (a == 0),
        (a > 0 || b > 0) ==> a % reduction_divisor(a, b) == 0 && b % reduction_divisor(a, b) == 0,
    decreases b,
{
    if b == 0 {
        if a > 0 {
            vstd::arithmetic::div_mod::lemma_mod_self_0(a as int);
        }
    } else {
        let r = a % b;
        lemma_gcd_divides(b, r);
        let g = gcd(b, r);
        assert(gcd(a, b) == g);
        assert(g > 0);
        let q = (a / b) as int;
        vstd::arithmetic::div_mod::lemma_fundamental_div_mod(a as int, b as int);
        vstd::arithmetic::div_mod::lemma_fundamental_div_mod(b as int, g as int);
        vstd::arithmetic::div_mod::lemma_fundamental_div_mod(r as int, g as int);
        let kb = b as int / g as int;
        let kr = r as int / g as int;
        assert(a == (kb * q + kr) * g) by (nonlinear_arith)
            requires
                a == b * q + r,
                b == g * kb,
                r == g * kr,
        ;
        vstd::arithmetic::div_mod::lemma_mod_multiples_basic(kb * q + kr, g as int);
    }
}

} // verus!
