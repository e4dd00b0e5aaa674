//! The fixed seventeen-cell model matrix: three families by reasoning effort.
use vstd::prelude::*;
use vstd::string::*;

verus! {

/// Model family.
#[derive(PartialEq, Eq, Structural, Clone, Copy, Debug)]
pub enum ModelFamily {
    Sol,
    Terra,
    Luna,
}

/// Reasoning-effort level.
#[derive(PartialEq, Eq, Structural, Clone, Copy, Debug)]
pub enum ReasoningEffort {
    Low,
    Medium,
    High,
    Xhigh,
    Max,
    Ultra,
}

/// One model configuration: a family at one reasoning effort.
#[derive(PartialEq, Eq, Structural, Clone, Copy, Debug)]
pub struct ModelConfig {
    pub family: ModelFamily,
    pub reasoning_effort: ReasoningEffort,
}

/// Number of configurations in the matrix.
pub const MODEL_MATRIX_LEN: usize = 17;

pub open spec fn family_rank(f: ModelFamily) -> int {
    match f {
        ModelFamily::Sol => 0,
        ModelFamily::Terra => 1,
        ModelFamily::Luna => 2,
    }
}

pub open spec fn effort_rank(e: ReasoningEffort) -> int {
    match e {
        ReasoningEffort::Low => 0,
        ReasoningEffort::Medium => 1,
        ReasoningEffort::High => 2,
        ReasoningEffort::Xhigh => 3,
        ReasoningEffort::Max => 4,
        ReasoningEffort::Ultra => 5,
    }
}

/// Position of a configuration in the matrix order (`sol`, `terra`, `luna`,
/// each from `low` to `ultra`); `17` is the one combination outside the
/// matrix, `luna` at `ultra`.
pub open spec fn matrix_index(m: ModelConfig) -> int {
    family_rank(m.family) * 6 + effort_rank(m.reasoning_effort)
}

/// `m` is one of the seventeen matrix configurations.
pub open spec fn in_matrix(m: ModelConfig) -> bool {
    matrix_index(m) < 17
}

pub open spec fn family_at(f: int) -> ModelFamily {
    if f == 0 {
        ModelFamily::Sol
    } else if f == 1 {
        ModelFamily::Terra
    } else {
        ModelFamily::Luna
    }
}

pub open spec fn effort_at(e: int) -> ReasoningEffort {
    if e == 0 {
        ReasoningEffort::Low
    } else if e == 1 {
        ReasoningEffort::Medium
    } else if e == 2 {
        ReasoningEffort::High
    } else if e == 3 {
        ReasoningEffort::Xhigh
    } else if e == 4 {
        ReasoningEffort::Max
    } else {
        ReasoningEffort::Ultra
    }
}

/// Configuration `i` of the matrix.
pub open spec fn matrix_entry(i: int) -> ModelConfig {
    ModelConfig { family: family_at(i / 6), reasoning_effort: effort_at(i % 6) }
}

/// Configuration `i` of the matrix.
pub fn model_matrix_entry(i: usize) -> (m: ModelConfig)
    requires
        i < 17,
    ensures
        m == matrix_entry(i as int),
        matrix_index(m) == i,
{
    let family = if i < 6 {
        ModelFamily::Sol
    } else if i < 12 {
        ModelFamily::Terra
    } else {
        ModelFamily::Luna
    };
    let e = i % 6;
    let reasoning_effort = if e == 0 {
        ReasoningEffort::Low
    } else if e == 1 {
        ReasoningEffort::Medium
    } else if e == 2 {
        ReasoningEffort::High
    } else if e == 3 {
        ReasoningEffort::Xhigh
    } else if e == 4 {
        ReasoningEffort::Max
    } else {
        ReasoningEffort::Ultra
    };
    ModelConfig { family, reasoning_effort }
}

/// The seventeen configurations in matrix order.
pub fn model_matrix() -> (r: Vec<ModelConfig>)
    ensures
        r@.len() == 17,
        forall|i: int| 0 <= i < 17 ==> #[trigger] r@[i] == matrix_entry(i),
{
    let mut r: Vec<ModelConfig> = Vec::new();
    let mut i: usize = 0;
    while i < 17
        invariant
            i <= 17,
            r@.len() == i,
            forall|k: int| 0 <= k < i ==> #[trigger] r@[k] == matrix_entry(k),
        decreases 17 - i,
    {
        r.push(model_matrix_entry(i));
        i += 1;
    }
    r
}

/// Matrix position of a configuration.
pub fn matrix_index_of(m: ModelConfig) -> (i: u8)
    ensures
        i == matrix_index(m),
{
    let f: u8 = match m.family {
        ModelFamily::Sol => 0,
        ModelFamily::Terra => 1,
        ModelFamily::Luna => 2,
    };
    let e: u8 = match m.reasoning_effort {
        ReasoningEffort::Low => 0,
        ReasoningEffort::Medium => 1,
        ReasoningEffort::High => 2,
        ReasoningEffort::Xhigh => 3,
        ReasoningEffort::Max => 4,
        ReasoningEffort::Ultra => 5,
    };
    f * 6 + e
}

/// Text name of a family.
pub open spec fn family_text(f: ModelFamily) -> Seq<char> {
    match f {
        ModelFamily::Sol => "sol"@,
        ModelFamily::Terra => "terra"@,
        ModelFamily::Luna => "luna"@,
    }
}

/// Text name of a reasoning effort.
pub open spec fn effort_text(e: ReasoningEffort) -> Seq<char> {
    match e {
        ReasoningEffort::Low => "low"@,
        ReasoningEffort::Medium => "medium"@,
        ReasoningEffort::High => "high"@,
        ReasoningEffort::Xhigh => "xhigh"@,
        ReasoningEffort::Max => "max"@,
        ReasoningEffort::Ultra => "ultra"@,
    }
}

pub fn family_name_of(f: ModelFamily) -> (r: &'static str)
    ensures
        r@ == family_text(f),
{
    match f {
        ModelFamily::Sol => "sol",
        ModelFamily::Terra => "terra",
        ModelFamily::Luna => "luna",
    }
}

pub fn effort_name_of(e: ReasoningEffort) -> (r: &'static str)
    ensures
        r@ == effort_text(e),
{
    match e {
        ReasoningEffort::Low => "low",
        ReasoningEffort::Medium => "medium",
        ReasoningEffort::High => "high",
        ReasoningEffort::Xhigh => "xhigh",
        ReasoningEffort::Max => "max",
        ReasoningEffort::Ultra => "ultra",
    }
}

/// A configuration's selector key: its family and its effort, joined by `-`.
pub open spec fn model_key(m: ModelConfig) -> Seq<char> {
    family_text(m.family) + "-"@ + effort_text(m.reasoning_effort)
}

/// The selector key of a configuration.
pub fn model_key_of(m: ModelConfig) -> (r: String)
    ensures
        r@ == model_key(m),
{
    let mut key = family_name_of(m.family).to_owned();
    proof {
        reveal_strlit("-");
    }
    key.append("-");
    key.append(effort_name_of(m.reasoning_effort));
    key
}


/// The family a selector key names, read from its first character.
pub open spec fn key_family(k: Seq<char>) -> ModelFamily {
    if k[0] == 's' {
        ModelFamily::Sol
    } else if k[0] == 't' {
        ModelFamily::Terra
    } else {
        ModelFamily::Luna
    }
}

/// The reasoning effort a selector key names, read from the text that starts
/// at `at`: its first character, and its length where two names share one.
pub open spec fn key_effort(k: Seq<char>, at: int) -> ReasoningEffort {
    let c = k[at];
    if c == 'l' {
        ReasoningEffort::Low
    } else if c == 'h' {
        ReasoningEffort::High
    } else if c == 'x' {
        ReasoningEffort::Xhigh
    } else if c == 'u' {
        ReasoningEffort::Ultra
    } else if k.len() - at == 6 {
        ReasoningEffort::Medium
    } else {
        ReasoningEffort::Max
    }
}

/// Reading a configuration's selector key back gives the configuration: its
/// family from the key's start, its own reasoning effort from the text after
/// the family name and the `-`.
pub proof fn law_model_key_reads_back(m: ModelConfig)
    ensures
        key_family(model_key(m)) == m.family,
        model_key(m)[family_text(m.family).len() as int] == '-',
        key_effort(model_key(m), family_text(m.family).len() + 1int) == m.reasoning_effort,
{
    reveal_strlit("sol");
    reveal_strlit("terra");
    reveal_strlit("luna");
    reveal_strlit("-");
    reveal_strlit("low");
    reveal_strlit("medium");
    reveal_strlit("high");
    reveal_strlit("xhigh");
    reveal_strlit("max");
    reveal_strlit("ultra");
    let f = family_text(m.family);
    let e = effort_text(m.reasoning_effort);
    let k = model_key(m);
    assert(f.len() > 0 && e.len() > 0);
    assert(k[0] == f[0]);
    assert(k[f.len() as int] == '-');
    assert(k[f.len() + 1int] == e[0]);
    assert(k.len() - (f.len() + 1) == e.len());
}

/// Different configurations have different selector keys: a key names at
/// most one configuration.
pub proof fn law_model_keys_identify_their_configuration(a: ModelConfig, b: ModelConfig)
    ensures
        model_key(a) == model_key(b) ==> a == b,
{
    law_model_key_reads_back(a);
    law_model_key_reads_back(b);
}

} // verus!
