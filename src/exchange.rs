use vstd::prelude::*;

verus! {

/// Why the coupling exchange refused a request.
#[derive(Clone, Copy, Debug, PartialEq, Eq, Structural)]
pub enum ExchangeError {
    /// An exchange needs at least one worker.
    NoWorkers,
    /// The worker id is not below the number of workers.
    UnknownWorker,
    /// Two slots per worker would not fit in memory addresses.
    TooManyWorkers,
}

/// What an exchange holds: for each round parity and each worker, the round in
/// which the slot was last written (if ever) and the contribution written.
/// Slot `p * num_workers + id` belongs to worker `id` in rounds of parity `p`.
pub struct ExchangeModel {
    pub num_workers: nat,
    pub rounds: Seq<Option<u64>>,
    pub values: Seq<u64>,
}

impl ExchangeModel {
    pub open spec fn wf(self) -> bool {
        &&& self.num_workers >= 1
        &&& self.rounds.len() == 2 * self.num_workers
        &&& self.values.len() == 2 * self.num_workers
    }

    pub open spec fn slot(self, round: u64, worker_id: nat) -> int {
        if round % 2 == 0 {
            worker_id as int
        } else {
            (self.num_workers + worker_id) as int
        }
    }

    /// The model after worker `worker_id` published `value` for `round`.
    pub open spec fn publish(self, worker_id: nat, round: u64, value: u64) -> ExchangeModel {
        let i = self.slot(round, worker_id);
        ExchangeModel {
            num_workers: self.num_workers,
            rounds: self.rounds.update(i, Some(round)),
            values: self.values.update(i, value),
        }
    }

    /// Every worker has published its contribution for `round`.
    pub open spec fn round_complete(self, round: u64) -> bool {
        forall|id: nat| id < self.num_workers ==> #[trigger] self.rounds[self.slot(round, id)]
            == Some(round)
    }

    /// The contributions of `round`, indexed by worker id.
    pub open spec fn round_values(self, round: u64) -> Seq<u64> {
        Seq::new(self.num_workers, |id: int| self.values[self.slot(round, id as nat)])
    }

    /// The model after workers `0..k` published `contributions[0..k]` for `round`.
    pub open spec fn publish_first(self, round: u64, contributions: Seq<u64>, k: nat) -> ExchangeModel
        decreases k,
    {
        if k == 0 {
            self
        } else {
            self.publish_first(round, contributions, (k - 1) as nat).publish(
                (k - 1) as nat,
                round,
                contributions[k - 1],
            )
        }
    }
}

proof fn lemma_publish_first_slots(m: ExchangeModel, round: u64, contributions: Seq<u64>, k: nat)
    requires
        m.wf(),
        k <= m.num_workers,
        contributions.len() == m.num_workers,
    ensures
        m.publish_first(round, contributions, k).wf(),
        m.publish_first(round, contributions, k).num_workers == m.num_workers,
        forall|id: nat|
            id < k ==> {
                &&& #[trigger] m.publish_first(round, contributions, k).rounds[m.slot(round, id)] == Some(
                    round,
                )
                &&& m.publish_first(round, contributions, k).values[m.slot(round, id)]
                    == contributions[id as int]
            },
    decreases k,
{
    if k > 0 {
        lemma_publish_first_slots(m, round, contributions, (k - 1) as nat);
    }
}

/// Once every worker has published its contribution for a round, the round is
/// complete and its contributions are exactly those published, worker by
/// worker: the aggregate of a round is made of that round's contributions only.
pub proof fn lemma_round_collects_contributions(m: ExchangeModel, round: u64, contributions: Seq<u64>)
    requires
        m.wf(),
        contributions.len() == m.num_workers,
    ensures
        m.publish_first(round, contributions, m.num_workers).round_complete(round),
        m.publish_first(round, contributions, m.num_workers).round_values(round) == contributions,
{
    let r = m.publish_first(round, contributions, m.num_workers);
    lemma_publish_first_slots(m, round, contributions, m.num_workers);
    assert forall|id: nat| id < r.num_workers implies #[trigger] r.rounds[r.slot(round, id)] == Some(
        round,
    ) && r.values[r.slot(round, id)] == contributions[id as int] by {
        assert(r.slot(round, id) == m.slot(round, id));
        assert(m.publish_first(round, contributions, m.num_workers).rounds[m.slot(round, id)] == Some(
            round,
        ));
    }
    assert forall|i: int| 0 <= i < contributions.len() implies #[trigger] r.round_values(round)[i]
        == contributions[i] by {
        assert(r.rounds[r.slot(round, i as nat)] == Some(round));
    }
    assert(r.round_values(round) =~= contributions);
}

/// With a single worker, a round is complete as soon as that worker has
/// published, and its aggregate is that worker's own contribution alone.
pub proof fn lemma_single_worker_gathers_own_term(m: ExchangeModel, round: u64, value: u64)
    requires
        m.wf(),
        m.num_workers == 1,
    ensures
        m.publish(0, round, value).round_complete(round),
        m.publish(0, round, value).round_values(round) == seq![value],
{
    let c = seq![value];
    lemma_round_collects_contributions(m, round, c);
    assert(c[0] == value);
    assert(m.publish_first(round, c, 0) == m);
    assert(m.publish_first(round, c, 1) == m.publish(0, round, value));
}

/// A worker that goes on to publish for the next round leaves the current
/// round as it was: whether it is complete, and its contributions.
pub proof fn lemma_next_round_keeps_contributions(m: ExchangeModel, round: u64, worker_id: nat, value: u64)
    requires
        m.wf(),
        worker_id < m.num_workers,
        round < u64::MAX,
    ensures
        m.publish(worker_id, (round + 1) as u64, value).round_complete(round) == m.round_complete(round),
        m.publish(worker_id, (round + 1) as u64, value).round_values(round) == m.round_values(round),
{
    let m2 = m.publish(worker_id, (round + 1) as u64, value);
    assert forall|id: nat| id < m.num_workers implies m2.slot(round, id) != m.slot((round + 1) as u64, worker_id)
        && m2.slot(round, id) == m.slot(round, id) by {}
    assert forall|id: nat| id < m.num_workers implies #[trigger] m2.rounds[m2.slot(round, id)]
        == m.rounds[m.slot(round, id)] && m2.values[m2.slot(round, id)] == m.values[m.slot(
        round,
        id,
    )] by {}
    if m.round_complete(round) {
        assert forall|id: nat| id < m2.num_workers implies #[trigger] m2.rounds[m2.slot(round, id)]
            == Some(round) by {
            assert(m.rounds[m.slot(round, id)] == Some(round));
        }
    }
    if m2.round_complete(round) {
        assert forall|id: nat| id < m.num_workers implies #[trigger] m.rounds[m.slot(round, id)]
            == Some(round) by {
            assert(m2.rounds[m2.slot(round, id)] == Some(round));
        }
    }
    assert(m2.round_values(round) =~= m.round_values(round));
}

/// The coupling exchange shared by the workers of one run: one slot per worker
/// for even rounds and one for odd rounds. Each slot remembers the round it was
/// written in, so the contributions of a round are handed out only once all
/// workers wrote them for that very round. A worker that has passed the
/// rendezvous of round `i` writes round `i + 1` into the other half and leaves
/// the contributions of round `i` intact for the workers still reading them.
pub struct CouplingExchange {
    num_workers: usize,
    rounds: Vec<Option<u64>>,
    values: Vec<u64>,
}

impl View for CouplingExchange {
    type V = ExchangeModel;

    closed spec fn view(&self) -> ExchangeModel {
        ExchangeModel { num_workers: self.num_workers as nat, rounds: self.rounds@, values: self.values@ }
    }
}

impl CouplingExchange {
    pub closed spec fn wf(&self) -> bool {
        &&& self@.wf()
        &&& 2 * self.num_workers <= usize::MAX
    }

    /// An exchange for `num_workers` workers, with no slot written yet.
    pub fn new(num_workers: usize) -> (r: Result<CouplingExchange, ExchangeError>)
        ensures
            r is Err <==> (num_workers == 0 || num_workers > usize::MAX / 2),
            num_workers == 0 ==> r == Err::<CouplingExchange, ExchangeError>(ExchangeError::NoWorkers),
            num_workers > usize::MAX / 2 ==> r == Err::<CouplingExchange, ExchangeError>(
                ExchangeError::TooManyWorkers,
            ),
            r is Ok ==> r->Ok_0.wf() && r->Ok_0@.num_workers == num_workers,
            r is Ok ==> forall|i: int| 0 <= i < 2 * num_workers ==> #[trigger] r->Ok_0@.rounds[i] is None,
    {
        if num_workers == 0 {
            return Err(ExchangeError::NoWorkers);
        }
        if num_workers > usize::MAX / 2 {
            return Err(ExchangeError::TooManyWorkers);
        }
        let n: usize = 2 * num_workers;
        let mut rounds: Vec<Option<u64>> = Vec::new();
        let mut values: Vec<u64> = Vec::new();
        let mut i: usize = 0;
        while i < n
            invariant
                i <= n,
                rounds@.len() == i,
                values@.len() == i,
                forall|j: int| 0 <= j < i ==> #[trigger] rounds@[j] is None,
            decreases n - i,
        {
            rounds.push(None);
            values.push(0);
            i = i + 1;
        }
        Ok(CouplingExchange { num_workers, rounds, values })
    }

    /// The number of workers, which is also the number of parties of the
    /// rendezvous that must go with this exchange.
    pub fn num_workers(&self) -> (r: usize)
        ensures
            r == self@.num_workers,
    {
        self.num_workers
    }

    /// Worker `worker_id` publishes its coupling contribution for `round`.
    pub fn publish(&mut self, worker_id: usize, round: u64, value: u64) -> (r: Result<(), ExchangeError>)
        requires
            old(self).wf(),
        ensures
            final(self).wf(),
            r is Err <==> worker_id >= old(self)@.num_workers,
            r is Err ==> r->Err_0 == ExchangeError::UnknownWorker && final(self)@ == old(self)@,
            r is Ok ==> final(self)@ == old(self)@.publish(worker_id as nat, round, value),
    {
        if worker_id >= self.num_workers {
            return Err(ExchangeError::UnknownWorker);
        }
        let base: usize = if round % 2 == 0 { 0 } else { self.num_workers };
        let i: usize = base + worker_id;
        assert(i == old(self)@.slot(round, worker_id as nat));
        self.rounds.set(i, Some(round));
        self.values.set(i, value);
        Ok(())
    }

    /// The contributions of `round`, indexed by worker id, once every worker
    /// has published for that round; `None` before.
    pub fn gather(&self, round: u64) -> (r: Option<Vec<u64>>)
        requires
            self.wf(),
        ensures
            r is Some <==> self@.round_complete(round),
            r is Some ==> r->0@ == self@.round_values(round),
    {
        let base: usize = if round % 2 == 0 { 0 } else { self.num_workers };
        let mut out: Vec<u64> = Vec::new();
        let mut id: usize = 0;
        while id < self.num_workers
            invariant
                self.wf(),
                base == (if round % 2 == 0 { 0 } else { self@.num_workers }),
                id <= self@.num_workers,
                out@.len() == id,
                forall|j: nat| j < id ==> #[trigger] self@.rounds[self@.slot(round, j)] == Some(round),
                forall|j: int| 0 <= j < id ==> #[trigger] out@[j] == self@.values[self@.slot(round, j as nat)],
            decreases self@.num_workers - id,
        {
            let i: usize = base + id;
            match self.rounds[i] {
                Some(w) => {
                    if w != round {
                        assert(self@.rounds[self@.slot(round, id as nat)] != Some(round));
                        return None;
                    }
                },
                None => {
                    assert(self@.rounds[self@.slot(round, id as nat)] != Some(round));
                    return None;
                },
            }
            out.push(self.values[i]);
            id = id + 1;
        }
        assert(out@ =~= self@.round_values(round));
        Some(out)
    }
}

} // verus!
