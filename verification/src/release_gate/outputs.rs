//! The state of every create-once output of a signed plan.
//!
//! Each output key of the plan maps to its exact path and its state: an
//! empty reservation, or immutable completed output addressed by the digest
//! of its bytes. The files themselves are created, exchanged and read
//! outside the library; this ledger decides what may happen to them. A
//! completed output can never be overwritten.
use vstd::prelude::*;

use crate::digest::{digest_bytes, digest_text};
use crate::release_gate::admission::ReleaseGateAdmissionV1;
use crate::release_gate::plan::{pair_views, CandidateExecutionPlan};
use crate::release_gate::{CandidateCatalog, CandidateGateError, CandidateOutputState};
use crate::text::{keys_increasing, lemma_increasing_keys_are_distinct, sort_by_key, text_eq};

verus! {

/// Byte limit of one completed output.
pub const MAX_RESUMED_OUTPUT_BYTES: u64 = 67108864;

/// `None` for a reservation, the output's digest once it is filled.
pub open spec fn state_view(s: CandidateOutputState) -> Option<Seq<char>> {
    match s {
        CandidateOutputState::Reserved => None,
        CandidateOutputState::Filled { sha256 } => Some(sha256@),
    }
}

/// Every keyed path reserved; a later entry for a key replaces an earlier one.
pub open spec fn reserved_map(pairs: Seq<(Seq<char>, Seq<char>)>) -> Map<Seq<char>, (Seq<char>, Option<Seq<char>>)>
    decreases pairs.len(),
{
    if pairs.len() == 0 {
        Map::empty()
    } else {
        reserved_map(pairs.drop_last()).insert(pairs.last().0, (pairs.last().1, None))
    }
}

/// The state of an output found holding `bytes`: empty is a reservation,
/// anything else is completed output.
pub open spec fn observed_state(bytes: Seq<u8>) -> Option<Seq<char>> {
    if bytes.len() == 0 {
        None
    } else {
        Some(digest_text(bytes))
    }
}

/// Every keyed path with the state of the bytes found at it.
pub open spec fn resumed_map(pairs: Seq<(Seq<char>, Seq<char>)>, contents: Seq<Seq<u8>>) -> Map<
    Seq<char>,
    (Seq<char>, Option<Seq<char>>),
>
    decreases pairs.len(),
{
    if pairs.len() == 0 {
        Map::empty()
    } else {
        resumed_map(pairs.drop_last(), contents).insert(
            pairs.last().0,
            (pairs.last().1, observed_state(contents[pairs.len() - 1])),
        )
    }
}

/// The outputs of a signed plan with their paths and states.
pub struct CandidateOutputLedger {
    keys: Vec<String>,
    paths: Vec<String>,
    states: Vec<CandidateOutputState>,
    map: Ghost<Map<Seq<char>, (Seq<char>, Option<Seq<char>>)>>,
}

impl View for CandidateOutputLedger {
    type V = Map<Seq<char>, (Seq<char>, Option<Seq<char>>)>;

    closed spec fn view(&self) -> Self::V {
        self.map@
    }
}

impl CandidateOutputLedger {
    /// The entries describe the view: one entry per key.
    pub closed spec fn wf(&self) -> bool {
        &&& self.paths@.len() == self.keys@.len()
        &&& self.states@.len() == self.keys@.len()
        &&& forall|i: int|
            0 <= i < self.keys@.len() ==> #[trigger] self.map@.contains_key(self.keys@[i]@)
                && self.map@[self.keys@[i]@] == (self.paths@[i]@, state_view(self.states@[i]))
        &&& forall|k: Seq<char>|
            #[trigger] self.map@.contains_key(k) ==> exists|i: int|
                0 <= i < self.keys@.len() && self.keys@[i]@ == k
        &&& forall|i: int, j: int|
            0 <= i < j < self.keys@.len() ==> #[trigger] self.keys@[i]@ != #[trigger] self.keys@[j]@
    }

    fn empty() -> (r: Self)
        ensures
            r.wf(),
            r@ == Map::<Seq<char>, (Seq<char>, Option<Seq<char>>)>::empty(),
    {
        CandidateOutputLedger {
            keys: Vec::new(),
            paths: Vec::new(),
            states: Vec::new(),
            map: Ghost(Map::empty()),
        }
    }

    fn find(&self, key: &str) -> (r: Option<usize>)
        requires
            self.wf(),
        ensures
            match r {
                Some(i) => i < self.keys@.len() && self.keys@[i as int]@ == key@,
                None => !self@.contains_key(key@),
            },
    {
        let mut i: usize = 0;
        while i < self.keys.len()
            invariant
                i <= self.keys@.len(),
                forall|j: int| 0 <= j < i ==> self.keys@[j]@ != key@,
            decreases self.keys@.len() - i,
        {
            if text_eq(self.keys[i].as_str(), key) {
                return Some(i);
            }
            i += 1;
        }
        proof {
            if self@.contains_key(key@) {
                let j = choose|j: int| 0 <= j < self.keys@.len() && self.keys@[j]@ == key@;
            }
        }
        None
    }

    /// Sets a key's path and state, adding the key where it is new.
    fn put(&mut self, key: &str, path: String, state: CandidateOutputState)
        requires
            old(self).wf(),
        ensures
            final(self).wf(),
            final(self)@ == old(self)@.insert(key@, (path@, state_view(state))),
    {
        let ghost before = self.map@;
        let ghost entry = (path@, state_view(state));
        match self.find(key) {
            Some(i) => {
                self.paths.set(i, path);
                self.states.set(i, state);
                proof {
                    self.map = Ghost(before.insert(key@, entry));
                    assert forall|k: Seq<char>| #[trigger] self.map@.contains_key(k) implies exists|j: int|
                        0 <= j < self.keys@.len() && self.keys@[j]@ == k by {
                        if k != key@ {
                            assert(before.contains_key(k));
                        } else {
                            assert(self.keys@[i as int]@ == k);
                        }
                    }
                    assert forall|j: int| 0 <= j < self.keys@.len() implies #[trigger] self.map@.contains_key(
                        self.keys@[j]@,
                    ) && self.map@[self.keys@[j]@] == (self.paths@[j]@, state_view(self.states@[j])) by {
                        if j != i as int {
                            assert(self.keys@[j]@ != self.keys@[i as int]@);
                            assert(before.contains_key(self.keys@[j]@));
                        }
                    }
                }
            },
            None => {
                let ghost old_keys = self.keys@;
                assert(forall|k: Seq<char>| before.contains_key(k) ==> exists|j: int|
                    0 <= j < old_keys.len() && old_keys[j]@ == k);
                self.keys.push(key.to_owned());
                self.paths.push(path);
                self.states.push(state);
                proof {
                    self.map = Ghost(before.insert(key@, entry));
                    let n = self.keys@.len() - 1;
                    assert(self.keys@[n]@ == key@);
                    assert forall|k: Seq<char>| #[trigger] self.map@.contains_key(k) implies exists|j: int|
                        0 <= j < self.keys@.len() && self.keys@[j]@ == k by {
                        if k != key@ {
                            assert(before.contains_key(k));
                            let j = choose|j: int| 0 <= j < old_keys.len() && old_keys[j]@ == k;
                            assert(self.keys@[j] == old_keys[j]);
                        }
                    }
                    assert forall|j: int| 0 <= j < self.keys@.len() implies #[trigger] self.map@.contains_key(
                        self.keys@[j]@,
                    ) && self.map@[self.keys@[j]@] == (self.paths@[j]@, state_view(self.states@[j])) by {
                        if j < n {
                            assert(before.contains_key(self.keys@[j]@));
                            assert(self.keys@[j]@ != key@);
                        }
                    }
                    assert forall|a: int, b: int| 0 <= a < b < self.keys@.len() implies #[trigger] self.keys@[a]@
                        != #[trigger] self.keys@[b]@ by {
                        if b == n {
                            assert(before.contains_key(self.keys@[a]@));
                        }
                    }
                }
            },
        }
    }

    /// Reserves every output of a plan that is valid for the admission:
    /// each key of the plan, at its path, held as an empty reservation.
    pub fn reserve(plan: &CandidateExecutionPlan, admission: &ReleaseGateAdmissionV1, catalog: &CandidateCatalog) -> (r:
        Result<Self, CandidateGateError>)
        ensures
            match r {
                Ok(l) => plan.valid(*admission, catalog@) && l.wf() && l@ == reserved_map(plan.output_list()),
                Err(_) => !plan.valid(*admission, catalog@),
            },
    {
        plan.validate_against_admission(admission, catalog)?;
        let pairs = plan.output_paths();
        let mut ledger = CandidateOutputLedger::empty();
        let mut i: usize = 0;
        while i < pairs.len()
            invariant
                i <= pairs@.len(),
                pair_views(pairs@) == plan.output_list(),
                ledger.wf(),
                ledger@ == reserved_map(pair_views(pairs@).subrange(0, i as int)),
            decreases pairs@.len() - i,
        {
            let ghost prefix = pair_views(pairs@).subrange(0, i as int);
            let ghost next = pair_views(pairs@).subrange(0, i + 1);
            assert(next.drop_last() =~= prefix);
            ledger.put(pairs[i].0.as_str(), pairs[i].1.clone(), CandidateOutputState::Reserved);
            i += 1;
        }
        assert(pair_views(pairs@).subrange(0, pairs@.len() as int) =~= pair_views(pairs@));
        Ok(ledger)
    }

    /// Reopens every output of a plan that is valid for the admission from
    /// the bytes found at each path, in plan order: empty bytes are a held
    /// reservation, anything else immutable completed output.
    pub fn resume(
        plan: &CandidateExecutionPlan,
        admission: &ReleaseGateAdmissionV1,
        catalog: &CandidateCatalog,
        contents: &Vec<Vec<u8>>,
    ) -> (r: Result<Self, CandidateGateError>)
        requires
            contents@.len() == plan.output_list().len(),
        ensures
            match r {
                Ok(l) => {
                    &&& plan.valid(*admission, catalog@)
                    &&& forall|i: int| 0 <= i < contents@.len() ==> #[trigger] contents@[i]@.len() <= MAX_RESUMED_OUTPUT_BYTES
                    &&& l.wf()
                    &&& l@ == resumed_map(plan.output_list(), Seq::new(contents@.len(), |i: int| contents@[i]@))
                },
                Err(_) => !plan.valid(*admission, catalog@) || exists|i: int|
                    0 <= i < contents@.len() && #[trigger] contents@[i]@.len() > MAX_RESUMED_OUTPUT_BYTES,
            },
    {
        plan.validate_against_admission(admission, catalog)?;
        let pairs = plan.output_paths();
        let ghost all = Seq::new(contents@.len(), |i: int| contents@[i]@);
        let mut ledger = CandidateOutputLedger::empty();
        let mut i: usize = 0;
        while i < pairs.len()
            invariant
                i <= pairs@.len(),
                pair_views(pairs@) == plan.output_list(),
                contents@.len() == pairs@.len(),
                all == Seq::new(contents@.len(), |i: int| contents@[i]@),
                forall|j: int| 0 <= j < i ==> #[trigger] contents@[j]@.len() <= MAX_RESUMED_OUTPUT_BYTES,
                ledger.wf(),
                ledger@ == resumed_map(pair_views(pairs@).subrange(0, i as int), all),
            decreases pairs@.len() - i,
        {
            let bytes = &contents[i];
            if bytes.len() as u64 > MAX_RESUMED_OUTPUT_BYTES {
                return Err(CandidateGateError::new("candidate resumed output exceeds its verification limit"));
            }
            let state = if bytes.len() == 0 {
                CandidateOutputState::Reserved
            } else {
                CandidateOutputState::Filled { sha256: digest_bytes(bytes.as_slice()) }
            };
            let ghost prefix = pair_views(pairs@).subrange(0, i as int);
            let ghost next = pair_views(pairs@).subrange(0, i + 1);
            assert(next.drop_last() =~= prefix);
            assert(all[i as int] == bytes@);
            ledger.put(pairs[i].0.as_str(), pairs[i].1.clone(), state);
            i += 1;
        }
        assert(pair_views(pairs@).subrange(0, pairs@.len() as int) =~= pair_views(pairs@));
        Ok(ledger)
    }

    /// Fills one held reservation exactly once with nonempty bytes, and
    /// returns their digest. A key outside the plan, or completed output,
    /// is refused and nothing changes.
    pub fn fill(&mut self, key: &str, bytes: &[u8]) -> (r: Result<String, CandidateGateError>)
        requires
            old(self).wf(),
        ensures
            final(self).wf(),
            match r {
                Ok(d) => {
                    &&& 0 < bytes@.len() <= MAX_RESUMED_OUTPUT_BYTES
                    &&& old(self)@.contains_key(key@)
                    &&& old(self)@[key@].1 is None
                    &&& d@ == digest_text(bytes@)
                    &&& final(self)@ == old(self)@.insert(key@, (old(self)@[key@].0, Some(d@)))
                },
                Err(_) => {
                    &&& final(self)@ == old(self)@
                    &&& (bytes@.len() == 0 || bytes@.len() > MAX_RESUMED_OUTPUT_BYTES
                        || !old(self)@.contains_key(key@) || old(self)@[key@].1 is Some)
                },
            },
    {
        if bytes.len() == 0 {
            return Err(CandidateGateError::new("candidate completed output must not be empty"));
        }
        if bytes.len() as u64 > MAX_RESUMED_OUTPUT_BYTES {
            return Err(CandidateGateError::new("candidate completed output exceeds its byte limit"));
        }
        let i = match self.find(key) {
            Some(i) => i,
            None => {
                return Err(CandidateGateError::new("candidate output key is not in the signed plan"));
            },
        };
        proof {
            assert(self.map@.contains_key(self.keys@[i as int]@));
        }
        let reserved = match &self.states[i] {
            CandidateOutputState::Reserved => true,
            CandidateOutputState::Filled { .. } => false,
        };
        if !reserved {
            return Err(CandidateGateError::new("candidate completed output cannot be overwritten"));
        }
        let digest = digest_bytes(bytes);
        let path = self.paths[i].clone();
        self.put(key, path, CandidateOutputState::Filled { sha256: digest.clone() });
        Ok(digest)
    }

    /// The digest of one completed output, which an aggregate reads back.
    pub fn filled_digest(&self, key: &str) -> (r: Result<String, CandidateGateError>)
        requires
            self.wf(),
        ensures
            match r {
                Ok(d) => self@.contains_key(key@) && self@[key@].1 == Some(d@),
                Err(_) => !self@.contains_key(key@) || self@[key@].1 is None,
            },
    {
        let i = match self.find(key) {
            Some(i) => i,
            None => {
                return Err(CandidateGateError::new("candidate output key is not in the signed plan"));
            },
        };
        proof {
            assert(self.map@.contains_key(self.keys@[i as int]@));
        }
        match &self.states[i] {
            CandidateOutputState::Filled { sha256 } => Ok(sha256.clone()),
            CandidateOutputState::Reserved => Err(
                CandidateGateError::new("candidate aggregate requires every unit output to be filled"),
            ),
        }
    }

    /// The exact plan-bound path for an output key.
    pub fn path(&self, key: &str) -> (r: Option<String>)
        requires
            self.wf(),
        ensures
            match r {
                Some(p) => self@.contains_key(key@) && self@[key@].0 == p@,
                None => !self@.contains_key(key@),
            },
    {
        match self.find(key) {
            Some(i) => {
                proof {
                    assert(self.map@.contains_key(self.keys@[i as int]@));
                }
                Some(self.paths[i].clone())
            },
            None => None,
        }
    }

    /// Every output key with its state, keyed in text order.
    pub fn states(&self) -> (r: Vec<(String, CandidateOutputState)>)
        requires
            self.wf(),
        ensures
            r@.len() == self@.len(),
            keys_increasing(r@),
            forall|i: int|
                0 <= i < r@.len() ==> self@.contains_key((#[trigger] r@[i]).0@) && self@[r@[i].0@].1
                    == state_view(r@[i].1),
            forall|i: int, j: int| 0 <= i < j < r@.len() ==> (#[trigger] r@[i]).0@ != (#[trigger] r@[j]).0@,
    {
        let mut out: Vec<(String, CandidateOutputState)> = Vec::new();
        let mut i: usize = 0;
        while i < self.keys.len()
            invariant
                self.wf(),
                i <= self.keys@.len(),
                out@.len() == i,
                forall|j: int| 0 <= j < i ==> (#[trigger] out@[j]).0@ == self.keys@[j]@ && state_view(out@[j].1)
                    == state_view(self.states@[j]),
            decreases self.keys@.len() - i,
        {
            let state = match &self.states[i] {
                CandidateOutputState::Reserved => CandidateOutputState::Reserved,
                CandidateOutputState::Filled { sha256 } => CandidateOutputState::Filled { sha256: sha256.clone() },
            };
            out.push((self.keys[i].clone(), state));
            i += 1;
        }
        proof {
            lemma_ledger_len(self);
            assert forall|j: int| 0 <= j < out@.len() implies self@.contains_key((#[trigger] out@[j]).0@)
                && self@[out@[j].0@].1 == state_view(out@[j].1) by {
                assert(self.map@.contains_key(self.keys@[j]@));
            }
            assert forall|a: int, b: int| 0 <= a < b < out@.len() implies (#[trigger] out@[a]).0@
                != (#[trigger] out@[b]).0@ by {
                assert(self.keys@[a]@ != self.keys@[b]@);
            }
        }
        let sorted = sort_by_key(out);
        proof {
            assert forall|j: int| 0 <= j < sorted@.len() implies self@.contains_key((#[trigger] sorted@[j]).0@)
                && self@[sorted@[j].0@].1 == state_view(sorted@[j].1) by {
                assert(out@.contains(sorted@[j]));
                let a = choose|a: int| 0 <= a < out@.len() && out@[a] == sorted@[j];
                assert(self@.contains_key(out@[a].0@));
            }
            lemma_increasing_keys_are_distinct(sorted@);
        }
        sorted
    }
}

/// Resuming records each output found nonempty as completed output
/// addressed by its bytes, so the ledger refuses to fill it again: what a
/// run completed before an interruption stays as it was.
pub proof fn law_resumed_outputs_keep_their_completed_bytes(
    pairs: Seq<(Seq<char>, Seq<char>)>,
    contents: Seq<Seq<u8>>,
    i: int,
)
    requires
        forall|a: int, b: int| 0 <= a < b < pairs.len() ==> #[trigger] pairs[a].0 != #[trigger] pairs[b].0,
        contents.len() == pairs.len(),
        0 <= i < pairs.len(),
    ensures
        resumed_map(pairs, contents).contains_key(pairs[i].0),
        resumed_map(pairs, contents)[pairs[i].0] == (pairs[i].1, observed_state(contents[i])),
        contents[i].len() > 0 ==> resumed_map(pairs, contents)[pairs[i].0].1 == Some(digest_text(contents[i])),
{
    lemma_resumed_entry(pairs, contents, i);
}

proof fn lemma_resumed_entry(pairs: Seq<(Seq<char>, Seq<char>)>, contents: Seq<Seq<u8>>, i: int)
    requires
        forall|a: int, b: int| 0 <= a < b < pairs.len() ==> #[trigger] pairs[a].0 != #[trigger] pairs[b].0,
        contents.len() >= pairs.len(),
        0 <= i < pairs.len(),
    ensures
        resumed_map(pairs, contents).contains_key(pairs[i].0),
        resumed_map(pairs, contents)[pairs[i].0] == (pairs[i].1, observed_state(contents[i])),
    decreases pairs.len(),
{
    let n = pairs.len() - 1;
    if i < n {
        let shorter = pairs.drop_last();
        assert forall|a: int, b: int| 0 <= a < b < shorter.len() implies #[trigger] shorter[a].0
            != #[trigger] shorter[b].0 by {
            assert(pairs[a].0 != pairs[b].0);
        }
        assert(shorter[i] == pairs[i]);
        lemma_resumed_entry(shorter, contents, i);
        assert(pairs[i].0 != pairs[n].0);
    }
}

proof fn lemma_ledger_len(l: &CandidateOutputLedger)
    requires
        l.wf(),
    ensures
        l@.len() == l.keys@.len(),
{
    let keys = Seq::new(l.keys@.len(), |i: int| l.keys@[i]@);
    assert(l@.dom() =~= keys.to_set()) by {
        assert forall|k: Seq<char>| l@.dom().contains(k) implies keys.to_set().contains(k) by {
            let i = choose|i: int| 0 <= i < l.keys@.len() && l.keys@[i]@ == k;
            assert(keys[i] == k);
        }
        assert forall|k: Seq<char>| keys.to_set().contains(k) implies l@.dom().contains(k) by {
            let i = choose|i: int| 0 <= i < keys.len() && keys[i] == k;
            assert(l.map@.contains_key(l.keys@[i]@));
        }
    }
    assert(keys.no_duplicates()) by {
        assert forall|i: int, j: int| 0 <= i < keys.len() && 0 <= j < keys.len() && i != j implies keys[i]
            != keys[j] by {
            if i < j {
                assert(l.keys@[i]@ != l.keys@[j]@);
            } else {
                assert(l.keys@[j]@ != l.keys@[i]@);
            }
        }
    }
    keys.unique_seq_to_set();
}

} // verus!
