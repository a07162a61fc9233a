//! The batch submission plan: a workload split into ordered chunks, one
//! envelope per chunk with consecutive nonces, every envelope submitted
//! before any finality is awaited, and the pending envelopes drained in
//! submission order.
use vstd::prelude::*;

verus! {

/// The most users registered by one envelope.
pub const MAX_USERS_ONE_BLOCK: usize = 500;

/// The number of chunks of at most `batch` units that `n` units make:
/// `n / batch` rounded up.
pub open spec fn chunk_count(n: nat, batch: nat) -> nat
    recommends
        batch > 0,
{
    if n == 0 {
        0
    } else {
        ((n - 1) as nat) / batch + 1
    }
}

/// The first unit of chunk `i`.
pub open spec fn chunk_start(i: nat, batch: nat) -> nat {
    i * batch
}

/// One past the last unit of chunk `i` of `n` units.
pub open spec fn chunk_end(i: nat, n: nat, batch: nat) -> nat {
    if (i + 1) * batch <= n {
        (i + 1) * batch
    } else {
        n
    }
}

proof fn lemma_chunk_count(n: nat, batch: nat, i: nat)
    requires
        batch > 0,
    ensures
        i < chunk_count(n, batch) <==> i * batch < n,
{
    if n > 0 {
        let x: int = n - 1;
        let b: int = batch as int;
        let q: int = x / b;
        let r: int = x % b;
        vstd::arithmetic::div_mod::lemma_fundamental_div_mod(x, b);
        assert(0 <= r < b);
        let ii: int = i as int;
        if ii <= q {
            assert(ii * b <= q * b) by (nonlinear_arith)
                requires
                    ii <= q,
                    b > 0,
            ;
            assert(q * b == b * q) by (nonlinear_arith);
        } else {
            assert(ii * b >= (q + 1) * b) by (nonlinear_arith)
                requires
                    ii >= q + 1,
                    b > 0,
            ;
            assert((q + 1) * b == b * q + b) by (nonlinear_arith);
        }
    } else {
        assert(i * batch >= 0) by (nonlinear_arith);
    }
}

/// Splits `n` units into chunks of `batch` units, the last one possibly
/// shorter, as `(start, end)` ranges in order.
pub fn chunk_bounds(n: usize, batch: usize) -> (res: Vec<(usize, usize)>)
    requires
        batch > 0,
    ensures
        res@.len() == chunk_count(n as nat, batch as nat),
        forall|i: int|
            #![trigger res@[i]]
                0 <= i < res@.len() ==> res@[i].0 as nat == chunk_start(i as nat, batch as nat)
                && res@[i].1 as nat == chunk_end(i as nat, n as nat, batch as nat),
{
    let count: usize = if n == 0 { 0 } else { (n - 1) / batch + 1 };
    let mut res: Vec<(usize, usize)> = Vec::new();
    let mut k: usize = 0;
    while k < count
        invariant
            batch > 0,
            count as nat == chunk_count(n as nat, batch as nat),
            k <= count,
            res@.len() == k,
            forall|i: int|
                #![trigger res@[i]]
                0 <= i < res@.len() ==> res@[i].0 as nat == chunk_start(i as nat, batch as nat)
                    && res@[i].1 as nat == chunk_end(i as nat, n as nat, batch as nat),
        decreases count - k,
    {
        proof {
            lemma_chunk_count(n as nat, batch as nat, k as nat);
        }
        assert((k + 1) * batch == k * batch + batch) by (nonlinear_arith);
        let start: usize = k * batch;
        let end: usize = if n - start > batch { start + batch } else { n };
        res.push((start, end));
        k = k + 1;
    }
    res
}

/// The chunks partition the workload in order: the first starts at unit 0,
/// each starts where the one before ended, each holds between 1 and `batch`
/// units and only the last one may hold fewer than `batch`, and the last
/// ends at unit `n`.
pub proof fn lemma_chunks_partition(n: nat, batch: nat)
    requires
        batch > 0,
    ensures
        n > 0 ==> chunk_start(0, batch) == 0,
        n > 0 ==> chunk_end((chunk_count(n, batch) - 1) as nat, n, batch) == n,
        forall|i: nat|
            i + 1 < chunk_count(n, batch) ==> #[trigger] chunk_end(i, n, batch) == chunk_start(i + 1, batch),
        forall|i: nat|
            i < chunk_count(n, batch) ==> chunk_start(i, batch) < #[trigger] chunk_end(i, n, batch)
                <= chunk_start(i, batch) + batch,
        forall|i: nat|
            i + 1 < chunk_count(n, batch) ==> #[trigger] chunk_end(i, n, batch) == chunk_start(i, batch) + batch,
{
    assert forall|i: nat| i + 1 < chunk_count(n, batch) implies #[trigger] chunk_end(i, n, batch)
        == chunk_start(i + 1, batch) && chunk_end(i, n, batch) == chunk_start(i, batch) + batch by {
        lemma_chunk_count(n, batch, i + 1);
        assert((i + 1) * batch == i * batch + batch) by (nonlinear_arith);
    }
    assert forall|i: nat| i < chunk_count(n, batch) implies chunk_start(i, batch)
        < #[trigger] chunk_end(i, n, batch) <= chunk_start(i, batch) + batch by {
        lemma_chunk_count(n, batch, i);
        assert((i + 1) * batch == i * batch + batch) by (nonlinear_arith);
    }
    if n > 0 {
        let c = chunk_count(n, batch);
        lemma_chunk_count(n, batch, 0);
        lemma_chunk_count(n, batch, c);
        lemma_chunk_count(n, batch, (c - 1) as nat);
        assert(c * batch == (c - 1) * batch + batch) by (nonlinear_arith)
            requires
                c > 0,
        ;
    }
}

/// What the driver of a run does next.
#[derive(Clone, Copy, Debug, PartialEq, Eq, Structural)]
pub enum Action {
    /// Sign the envelope of `chunk` with `nonce` and submit it without
    /// waiting for its inclusion.
    Submit { chunk: usize, nonce: u64 },
    /// Wait for the finality of the envelope of `chunk`, sent with `nonce`.
    AwaitFinality { chunk: usize, nonce: u64 },
    /// Nothing is left to do.
    Finish,
}

/// What the driver observed when it performed the last action.
#[derive(Clone, Copy, Debug, PartialEq, Eq, Structural)]
pub enum Event {
    /// The node accepted the submitted envelope.
    Accepted,
    /// The node rejected the submitted envelope.
    Rejected,
    /// The awaited envelope was finalized successfully.
    Finalized,
    /// The awaited envelope failed on chain or never finalized.
    FinalityFailed,
}

/// The state of a run, as numbers.
pub struct RunModel {
    /// How many envelopes the workload needs.
    pub chunks: nat,
    /// The nonce of the first envelope.
    pub first_nonce: nat,
    /// How many envelopes the node accepted, which are the first ones.
    pub submitted: nat,
    /// The chunk whose submission the node rejected, if any.
    pub rejected: Option<nat>,
    /// How many accepted envelopes have had their finality awaited.
    pub drained: nat,
    /// The chunks whose envelopes failed to finalize, in order.
    pub finality_failures: Seq<nat>,
}

/// The states that a run goes through.
pub open spec fn run_wf(s: RunModel) -> bool {
    &&& s.first_nonce + s.chunks <= u64::MAX
    &&& s.chunks <= usize::MAX
    &&& s.submitted <= s.chunks
    &&& s.drained <= s.submitted
    &&& (s.rejected matches Some(k) ==> k == s.submitted && k < s.chunks)
    &&& (forall|i: int| 0 <= i < s.finality_failures.len() ==> #[trigger] s.finality_failures[i] < s.drained)
}

/// The state in which a run of `n` units in chunks of `batch` starts.
pub open spec fn run_start(n: nat, batch: nat, first_nonce: nat) -> RunModel {
    RunModel {
        chunks: chunk_count(n, batch),
        first_nonce,
        submitted: 0,
        rejected: None,
        drained: 0,
        finality_failures: Seq::empty(),
    }
}

/// Submissions go first, in chunk order, until all are accepted or one is
/// rejected; then finality is awaited in submission order.
pub open spec fn next_action_spec(s: RunModel) -> Action {
    if s.rejected is None && s.submitted < s.chunks {
        Action::Submit { chunk: s.submitted as usize, nonce: (s.first_nonce + s.submitted) as u64 }
    } else if s.drained < s.submitted {
        Action::AwaitFinality { chunk: s.drained as usize, nonce: (s.first_nonce + s.drained) as u64 }
    } else {
        Action::Finish
    }
}

/// The state after the driver reports `e` for the action that `s` asked for.
/// An event that does not answer that action changes nothing.
pub open spec fn step_spec(s: RunModel, e: Event) -> RunModel {
    match (next_action_spec(s), e) {
        (Action::Submit { .. }, Event::Accepted) => RunModel { submitted: s.submitted + 1, ..s },
        (Action::Submit { .. }, Event::Rejected) => RunModel { rejected: Some(s.submitted), ..s },
        (Action::AwaitFinality { .. }, Event::Finalized) => RunModel { drained: s.drained + 1, ..s },
        (Action::AwaitFinality { .. }, Event::FinalityFailed) => RunModel {
            drained: s.drained + 1,
            finality_failures: s.finality_failures.push(s.drained),
            ..s
        },
        _ => s,
    }
}

/// The state after a sequence of events.
pub open spec fn run_after(s: RunModel, events: Seq<Event>) -> RunModel
    decreases events.len(),
{
    if events.len() == 0 {
        s
    } else {
        step_spec(run_after(s, events.drop_last()), events.last())
    }
}

/// The submissions that were performed during a sequence of events, whether
/// the node accepted or rejected them, in order.
pub open spec fn submissions(s: RunModel, events: Seq<Event>) -> Seq<Action>
    decreases events.len(),
{
    if events.len() == 0 {
        Seq::empty()
    } else {
        let before = run_after(s, events.drop_last());
        let earlier = submissions(s, events.drop_last());
        if next_action_spec(before) is Submit && (events.last() == Event::Accepted || events.last()
            == Event::Rejected) {
            earlier.push(next_action_spec(before))
        } else {
            earlier
        }
    }
}

/// The finality waits that were performed during a sequence of events, in
/// order.
pub open spec fn finality_waits(s: RunModel, events: Seq<Event>) -> Seq<Action>
    decreases events.len(),
{
    if events.len() == 0 {
        Seq::empty()
    } else {
        let before = run_after(s, events.drop_last());
        let earlier = finality_waits(s, events.drop_last());
        if next_action_spec(before) is AwaitFinality && (events.last() == Event::Finalized
            || events.last() == Event::FinalityFailed) {
            earlier.push(next_action_spec(before))
        } else {
            earlier
        }
    }
}

/// A batch submission run. It owns the nonce cursor: the nonce of chunk `i`
/// is the first nonce plus `i`, never fetched again during the run.
pub struct SubmissionPipeline {
    chunks: usize,
    first_nonce: u64,
    submitted: usize,
    rejected: Option<usize>,
    drained: usize,
    finality_failures: Vec<usize>,
}

impl View for SubmissionPipeline {
    type V = RunModel;

    closed spec fn view(&self) -> RunModel {
        RunModel {
            chunks: self.chunks as nat,
            first_nonce: self.first_nonce as nat,
            submitted: self.submitted as nat,
            rejected: match self.rejected {
                Some(k) => Some(k as nat),
                None => None,
            },
            drained: self.drained as nat,
            finality_failures: self.finality_failures@.map_values(|c: usize| c as nat),
        }
    }
}

impl SubmissionPipeline {
    /// Starts a run of `n` units in chunks of at most `batch` units, whose
    /// first envelope takes `first_nonce`. The nonces of all chunks must fit
    /// in a `u64`.
    pub fn new(n: usize, batch: usize, first_nonce: u64) -> (res: Self)
        requires
            batch > 0,
            first_nonce + chunk_count(n as nat, batch as nat) <= u64::MAX,
        ensures
            res@ == run_start(n as nat, batch as nat, first_nonce as nat),
            run_wf(res@),
    {
        let count: usize = if n == 0 { 0 } else { (n - 1) / batch + 1 };
        let res = SubmissionPipeline {
            chunks: count,
            first_nonce,
            submitted: 0,
            rejected: None,
            drained: 0,
            finality_failures: Vec::new(),
        };
        assert(res@.finality_failures =~= Seq::empty());
        res
    }

    /// What the driver does next.
    pub fn next_action(&self) -> (res: Action)
        requires
            run_wf(self@),
        ensures
            res == next_action_spec(self@),
    {
        if self.rejected.is_none() && self.submitted < self.chunks {
            Action::Submit { chunk: self.submitted, nonce: self.first_nonce + self.submitted as u64 }
        } else if self.drained < self.submitted {
            Action::AwaitFinality { chunk: self.drained, nonce: self.first_nonce + self.drained as u64 }
        } else {
            Action::Finish
        }
    }

    /// Records what the driver observed for the last action.
    pub fn on_event(&mut self, e: Event)
        requires
            run_wf(old(self)@),
        ensures
            final(self)@ == step_spec(old(self)@, e),
            run_wf(final(self)@),
    {
        let ghost before = self@;
        let a = self.next_action();
        match (a, e) {
            (Action::Submit { .. }, Event::Accepted) => {
                self.submitted = self.submitted + 1;
            },
            (Action::Submit { .. }, Event::Rejected) => {
                self.rejected = Some(self.submitted);
            },
            (Action::AwaitFinality { .. }, Event::Finalized) => {
                self.drained = self.drained + 1;
            },
            (Action::AwaitFinality { .. }, Event::FinalityFailed) => {
                self.finality_failures.push(self.drained);
                self.drained = self.drained + 1;
            },
            _ => {},
        }
        assert(self@.finality_failures =~= step_spec(before, e).finality_failures);
    }

    /// The chunk whose submission the node rejected, if any.
    pub fn rejected_chunk(&self) -> (res: Option<usize>)
        ensures
            res matches Some(k) ==> self@.rejected == Some(k as nat),
            res is None ==> self@.rejected is None,
    {
        self.rejected
    }

    /// The chunks whose envelopes failed to finalize, in the order awaited.
    pub fn finality_failures(&self) -> (res: Vec<usize>)
        ensures
            res@.map_values(|c: usize| c as nat) == self@.finality_failures,
    {
        self.finality_failures.clone()
    }
}

proof fn lemma_run_invariant(s: RunModel, events: Seq<Event>)
    requires
        run_wf(s),
        s.submitted == 0,
        s.drained == 0,
        s.rejected is None,
    ensures
        ({
            let t = run_after(s, events);
            let subs = submissions(s, events);
            let waits = finality_waits(s, events);
            &&& run_wf(t)
            &&& t.chunks == s.chunks
            &&& t.first_nonce == s.first_nonce
            &&& subs.len() == t.submitted + if t.rejected is Some { 1nat } else { 0nat }
            &&& forall|i: int|
                0 <= i < subs.len() ==> #[trigger] subs[i] == Action::Submit {
                    chunk: i as usize,
                    nonce: (s.first_nonce + i) as u64,
                }
            &&& waits.len() == t.drained
            &&& forall|i: int|
                0 <= i < waits.len() ==> #[trigger] waits[i] == Action::AwaitFinality {
                    chunk: i as usize,
                    nonce: (s.first_nonce + i) as u64,
                }
        }),
    decreases events.len(),
{
    if events.len() > 0 {
        let prev = events.drop_last();
        lemma_run_invariant(s, prev);
        let t0 = run_after(s, prev);
        let e = events.last();
        let subs0 = submissions(s, prev);
        let waits0 = finality_waits(s, prev);
        let subs = submissions(s, events);
        let waits = finality_waits(s, events);
        if next_action_spec(t0) is Submit && (e == Event::Accepted || e == Event::Rejected) {
            assert(subs == subs0.push(next_action_spec(t0)));
            assert forall|i: int| 0 <= i < subs.len() implies #[trigger] subs[i] == Action::Submit {
                chunk: i as usize,
                nonce: (s.first_nonce + i) as u64,
            } by {
                if i < subs0.len() {
                    assert(subs[i] == subs0[i]);
                }
            }
        }
        if next_action_spec(t0) is AwaitFinality && (e == Event::Finalized || e == Event::FinalityFailed) {
            assert(waits == waits0.push(next_action_spec(t0)));
            assert forall|i: int| 0 <= i < waits.len() implies #[trigger] waits[i] == Action::AwaitFinality {
                chunk: i as usize,
                nonce: (s.first_nonce + i) as u64,
            } by {
                if i < waits0.len() {
                    assert(waits[i] == waits0[i]);
                }
            }
        }
        let t = run_after(s, events);
        assert forall|i: int| 0 <= i < t.finality_failures.len() implies #[trigger] t.finality_failures[i] < t.drained by {
            if e == Event::FinalityFailed && next_action_spec(t0) is AwaitFinality && i < t0.finality_failures.len() {
                assert(t.finality_failures[i] == t0.finality_failures[i]);
            }
        }
    }
}

proof fn lemma_chunk_count_le(n: nat, batch: nat)
    requires
        batch > 0,
    ensures
        chunk_count(n, batch) <= n,
{
    if n > 0 {
        let x: int = n - 1;
        let b: int = batch as int;
        vstd::arithmetic::div_mod::lemma_fundamental_div_mod(x, b);
        let q: int = x / b;
        assert(q >= 0) by {
            vstd::arithmetic::div_mod::lemma_div_pos_is_pos(x, b);
        }
        assert(b * q >= q) by (nonlinear_arith)
            requires
                b >= 1,
                q >= 0,
        ;
    }
}

/// A run issues its envelopes in chunk order with consecutive nonces: the
/// `i`-th submission is chunk `i` with the first nonce plus `i`, so no nonce
/// is skipped or used twice. There are never more submissions than chunks,
/// and a run that finishes without a rejection has submitted, and awaited
/// the finality of, every one of the `ceil(n / batch)` chunks.
pub proof fn lemma_submissions_are_sequenced(n: nat, batch: nat, first_nonce: nat, events: Seq<Event>)
    requires
        batch > 0,
        n <= usize::MAX,
        first_nonce + chunk_count(n, batch) <= u64::MAX,
    ensures
        ({
            let s = run_start(n, batch, first_nonce);
            let subs = submissions(s, events);
            let waits = finality_waits(s, events);
            let t = run_after(s, events);
            &&& forall|i: int|
                0 <= i < subs.len() ==> #[trigger] subs[i] == Action::Submit {
                    chunk: i as usize,
                    nonce: (first_nonce + i) as u64,
                }
            &&& subs.len() <= chunk_count(n, batch)
            &&& (next_action_spec(t) == Action::Finish && t.rejected is None) ==> subs.len() == chunk_count(n, batch)
                && waits.len() == chunk_count(n, batch)
        }),
{
    lemma_chunk_count_le(n, batch);
    let s = run_start(n, batch, first_nonce);
    lemma_run_invariant(s, events);
}

/// When the node rejects the submission of chunk `k`, chunk `k` was the last
/// submission of the run: nothing after it is submitted. The finality of the
/// accepted chunks before it is still awaited in order, and a run that
/// finishes has awaited all of them.
pub proof fn lemma_rejection_stops_submissions(
    n: nat,
    batch: nat,
    first_nonce: nat,
    events: Seq<Event>,
    k: nat,
)
    requires
        batch > 0,
        n <= usize::MAX,
        first_nonce + chunk_count(n, batch) <= u64::MAX,
        run_after(run_start(n, batch, first_nonce), events).rejected == Some(k),
    ensures
        ({
            let s = run_start(n, batch, first_nonce);
            let subs = submissions(s, events);
            let waits = finality_waits(s, events);
            let t = run_after(s, events);
            &&& subs.len() == k + 1
            &&& subs.last() == Action::Submit { chunk: k as usize, nonce: (first_nonce + k) as u64 }
            &&& waits.len() <= k
            &&& forall|i: int|
                0 <= i < waits.len() ==> #[trigger] waits[i] == Action::AwaitFinality {
                    chunk: i as usize,
                    nonce: (first_nonce + i) as u64,
                }
            &&& next_action_spec(t) == Action::Finish ==> waits.len() == k
        }),
{
    lemma_chunk_count_le(n, batch);
    let s = run_start(n, batch, first_nonce);
    lemma_run_invariant(s, events);
}

} // verus!
