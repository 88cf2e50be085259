//! The supervisor's restart policy. It counts the consecutive restarts of
//! each configured runner and decides, for each lifecycle event, whether to
//! restart the runner after a backoff, give up on it, cancel everything or
//! stop. The surrounding program spawns, cancels and sleeps.
use vstd::prelude::*;
use vstd::string::*;
use crate::topics::str_eq;

verus! {

/// Restarts in a row after which a runner is given up.
pub const MAX_RETRIES: u32 = 5;

/// Delay before the first restart, in milliseconds; each further restart in
/// a row waits twice as long.
pub const BASE_DELAY_MS: u64 = 1000;

pub open spec fn pow2(n: nat) -> nat
    decreases n,
{
    if n == 0 {
        1
    } else {
        2 * pow2((n - 1) as nat)
    }
}

/// The wait before the restart that follows `attempts` restarts in a row.
pub open spec fn restart_delay(attempts: nat) -> nat {
    (BASE_DELAY_MS as nat) * pow2(attempts)
}

/// What a failure does to a runner that has been restarted `attempts` times
/// in a row.
pub enum FailureOutcome {
    Restart(nat),
    GiveUp,
}

pub open spec fn failure_outcome(attempts: nat) -> FailureOutcome {
    if attempts >= MAX_RETRIES {
        FailureOutcome::GiveUp
    } else {
        FailureOutcome::Restart(restart_delay(attempts))
    }
}

pub open spec fn after_failure(attempts: nat) -> nat {
    if attempts >= MAX_RETRIES {
        attempts
    } else {
        attempts + 1
    }
}

/// The outcomes of `k` failures in a row, from a count of `a`.
pub open spec fn failure_run(a: nat, k: nat) -> Seq<FailureOutcome>
    decreases k,
{
    if k == 0 {
        Seq::empty()
    } else {
        seq![failure_outcome(a)] + failure_run(after_failure(a), (k - 1) as nat)
    }
}

/// The count after `k` failures in a row, from a count of `a`.
pub open spec fn count_after(a: nat, k: nat) -> nat
    decreases k,
{
    if k == 0 {
        a
    } else {
        count_after(after_failure(a), (k - 1) as nat)
    }
}

proof fn lemma_failure_run(a: nat, k: nat)
    requires
        a <= MAX_RETRIES,
    ensures
        failure_run(a, k).len() == k,
        forall|j: int|
            0 <= j < k ==> #[trigger] failure_run(a, k)[j] == failure_outcome(
                if a + j >= MAX_RETRIES {
                    MAX_RETRIES as nat
                } else {
                    (a + j) as nat
                },
            ),
        count_after(a, k) == if a + k >= MAX_RETRIES {
            MAX_RETRIES as nat
        } else {
            (a + k) as nat
        },
    decreases k,
{
    if k > 0 {
        lemma_failure_run(after_failure(a), (k - 1) as nat);
        let r = failure_run(a, k);
        let t = failure_run(after_failure(a), (k - 1) as nat);
        assert forall|j: int| 0 <= j < k implies #[trigger] r[j] == failure_outcome(
            if a + j >= MAX_RETRIES {
                MAX_RETRIES as nat
            } else {
                (a + j) as nat
            },
        ) by {
            if j > 0 {
                assert(r[j] == t[j - 1]);
            }
        }
    }
}

proof fn lemma_pow2_pos(n: nat)
    ensures
        pow2(n) >= 1,
    decreases n,
{
    if n > 0 {
        lemma_pow2_pos((n - 1) as nat);
    }
}

/// From a fresh count, `k` failures in a row give a restart each while
/// fewer than `MAX_RETRIES` restarts have been made, with delays that start
/// at the base delay and double each time, and give up on the runner from
/// then on. Reaching steady state sets the count back to zero, so that the
/// next failure restarts after the base delay again.
pub proof fn lemma_restart_policy(k: nat)
    ensures
        failure_run(0, k).len() == k,
        forall|j: int|
            0 <= j < k && j < MAX_RETRIES ==> #[trigger] failure_run(0, k)[j]
                == FailureOutcome::Restart(restart_delay(j as nat)),
        forall|j: int| 0 <= j < k && j >= MAX_RETRIES ==> #[trigger] failure_run(0, k)[j] == FailureOutcome::GiveUp,
        forall|j: nat| j + 1 < MAX_RETRIES ==> #[trigger] restart_delay(j + 1) == 2 * restart_delay(j),
        forall|j: nat| #[trigger] restart_delay(j) > 0,
        k < MAX_RETRIES ==> count_after(0, k) == k,
        k >= MAX_RETRIES ==> count_after(0, k) == MAX_RETRIES,
        k >= MAX_RETRIES ==> failure_outcome(count_after(0, k)) == FailureOutcome::GiveUp,
        failure_outcome(0) == FailureOutcome::Restart(BASE_DELAY_MS as nat),
{
    lemma_failure_run(0, k);
    assert forall|j: nat| j + 1 < MAX_RETRIES implies #[trigger] restart_delay(j + 1) == 2
        * restart_delay(j) by {
        assert(pow2(j + 1) == 2 * pow2(j));
        assert(BASE_DELAY_MS * (2 * pow2(j)) == 2 * (BASE_DELAY_MS * pow2(j))) by (nonlinear_arith);
    }
    assert forall|j: nat| #[trigger] restart_delay(j) > 0 by {
        lemma_pow2_pos(j);
        assert(BASE_DELAY_MS * pow2(j) > 0) by (nonlinear_arith)
            requires
                pow2(j) >= 1,
        ;
    }
    assert(pow2(0) == 1);
}

/// A lifecycle event of a runner task, or of the control plane.
#[derive(Debug, Clone)]
pub enum TaskEvent {
    /// The runner ended without error.
    StoppedCleanly(String),
    /// The runner ended with an error, given as text.
    StoppedWithError(String, String),
    /// The runner panicked, with the panic message.
    Panicked(String, String),
    /// The runner reached steady state.
    Running(String),
    /// The operator asked for shutdown.
    ShutdownRequested,
    /// No event can come any more.
    ChannelClosed,
}

/// What the supervisor does about an event.
#[derive(Debug, Clone)]
pub enum SupervisorAction {
    /// Wait `delay_ms`, build the driver again from the same configuration
    /// and start a new runner under the same name.
    Restart { name: String, delay_ms: u64 },
    /// Too many restarts in a row: leave the device unavailable.
    GiveUp(String),
    /// Cancel every runner and end the supervisor.
    CancelAll,
    /// End the supervisor.
    Stop,
    /// Nothing to do.
    Ignore,
}

/// The restart bookkeeping of the configured runners.
pub struct Supervisor {
    names: Vec<String>,
    attempts: Vec<u32>,
    shut_down: bool,
}

impl Supervisor {
    pub closed spec fn wf(&self) -> bool {
        &&& self.names@.len() == self.attempts@.len()
        &&& forall|i: int, j: int|
            0 <= i < j < self.names@.len() ==> (#[trigger] self.names@[i])@ != (
            #[trigger] self.names@[j])@
        &&& forall|i: int| 0 <= i < self.attempts@.len() ==> #[trigger] self.attempts@[i] <= MAX_RETRIES
    }

    /// Whether a runner of that name is configured.
    pub closed spec fn configured(&self, n: Seq<char>) -> bool {
        exists|i: int| 0 <= i < self.names@.len() && (#[trigger] self.names@[i])@ == n
    }

    closed spec fn index_of(&self, n: Seq<char>) -> int {
        choose|i: int| 0 <= i < self.names@.len() && (#[trigger] self.names@[i])@ == n
    }

    /// Consecutive restarts of each configured runner.
    pub closed spec fn counters(&self) -> Map<Seq<char>, nat> {
        Map::new(|n: Seq<char>| self.configured(n), |n: Seq<char>| self.attempts@[self.index_of(n)] as nat)
    }

    pub closed spec fn is_shut_down(&self) -> bool {
        self.shut_down
    }

    /// Supervises the runners called `names`, each with a count of zero;
    /// a repeated name counts once.
    pub fn new(names: &Vec<String>) -> (r: Supervisor)
        ensures
            r.wf(),
            !r.is_shut_down(),
            forall|n: Seq<char>| #[trigger] r.counters().contains_key(n) <==> exists|i: int|
                0 <= i < names@.len() && (#[trigger] names@[i])@ == n,
            forall|n: Seq<char>| #[trigger] r.counters().contains_key(n) ==> r.counters()[n] == 0,
    {
        let mut r = Supervisor { names: Vec::new(), attempts: Vec::new(), shut_down: false };
        let mut i: usize = 0;
        while i < names.len()
            invariant
                i <= names@.len(),
                r.wf(),
                !r.shut_down,
                forall|k: int| 0 <= k < r.attempts@.len() ==> #[trigger] r.attempts@[k] == 0,
                forall|n: Seq<char>| r.configured(n) <==> exists|k: int|
                    0 <= k < i && (#[trigger] names@[k])@ == n,
            decreases names@.len() - i,
        {
            let found = r.find(names[i].as_str());
            if found.is_none() {
                let ghost old_r = r;
                r.names.push(names[i].clone());
                r.attempts.push(0);
                proof {
                    assert forall|n: Seq<char>| r.configured(n) <==> exists|k: int|
                        0 <= k < i + 1 && (#[trigger] names@[k])@ == n by {
                        if r.configured(n) {
                            let j = choose|j: int| 0 <= j < r.names@.len() && (#[trigger] r.names@[j])@ == n;
                            if j < old_r.names@.len() {
                                assert(old_r.names@[j] == r.names@[j]);
                                assert(old_r.configured(n));
                            } else {
                                assert(names@[i as int]@ == n);
                            }
                        }
                        if exists|k: int| 0 <= k < i + 1 && (#[trigger] names@[k])@ == n {
                            let k = choose|k: int| 0 <= k < i + 1 && (#[trigger] names@[k])@ == n;
                            if k < i {
                                assert(old_r.configured(n));
                                let j = choose|j: int| 0 <= j < old_r.names@.len() && (#[trigger] old_r.names@[j])@ == n;
                                assert(r.names@[j] == old_r.names@[j]);
                            } else {
                                let last = r.names@.len() - 1;
                                assert(r.names@[last]@ == n);
                            }
                        }
                    }
                }
            } else {
                proof {
                    assert forall|n: Seq<char>| r.configured(n) <==> exists|k: int|
                        0 <= k < i + 1 && (#[trigger] names@[k])@ == n by {
                        if exists|k: int| 0 <= k < i + 1 && (#[trigger] names@[k])@ == n {
                            let k = choose|k: int| 0 <= k < i + 1 && (#[trigger] names@[k])@ == n;
                            if k == i {
                                let j = found->0 as int;
                                assert(r.names@[j]@ == n);
                            }
                        }
                    }
                }
            }
            i = i + 1;
        }
        proof {
            assert forall|n: Seq<char>| #[trigger] r.counters().contains_key(n) implies r.counters()[n] == 0 by {
                if r.configured(n) {
                    let j = r.index_of(n);
                    assert(r.attempts@[j] == 0);
                }
            }
        }
        r
    }

    /// The position of the runner called `name`.
    fn find(&self, name: &str) -> (r: Option<usize>)
        requires
            self.wf(),
        ensures
            r is Some <==> self.configured(name@),
            r matches Some(i) ==> i < self.names@.len() && self.names@[i as int]@ == name@
                && i == self.index_of(name@),
    {
        let mut i: usize = 0;
        while i < self.names.len()
            invariant
                self.wf(),
                i <= self.names@.len(),
                forall|k: int| 0 <= k < i ==> (#[trigger] self.names@[k])@ != name@,
            decreases self.names@.len() - i,
        {
            if str_eq(self.names[i].as_str(), name) {
                proof {
                    let j = self.index_of(name@);
                    assert(self.configured(name@));
                    if j != i {
                        if j < i {
                            assert(self.names@[j]@ != name@);
                        } else {
                            assert(self.names@[i as int]@ != self.names@[j]@);
                        }
                    }
                }
                return Some(i);
            }
            i = i + 1;
        }
        None
    }

    /// The wait before a restart that follows `attempts` restarts in a row.
    pub fn backoff_delay_ms(attempts: u32) -> (r: u64)
        requires
            attempts < MAX_RETRIES,
        ensures
            r == restart_delay(attempts as nat),
    {
        let mut d: u64 = BASE_DELAY_MS;
        let mut k: u32 = 0;
        while k < attempts
            invariant
                k <= attempts < MAX_RETRIES,
                d == BASE_DELAY_MS * pow2(k as nat),
                d <= BASE_DELAY_MS * 16,
            decreases attempts - k,
        {
            proof {
                assert(pow2((k + 1) as nat) == 2 * pow2(k as nat));
                assert(pow2(0) == 1);
                reveal_with_fuel(pow2, 5);
                assert(k < 4);
                assert(pow2(k as nat) <= 8) by {
                    if k == 0 {} else if k == 1 {} else if k == 2 {} else {}
                }
            }
            d = d * 2;
            k = k + 1;
        }
        d
    }

    /// Decides what to do about `event`. A failure or a panic of a
    /// configured runner restarts it after the backoff of its count and
    /// raises the count, unless the count has reached `MAX_RETRIES`, in
    /// which case the runner is given up. Steady state sets the count back
    /// to zero. A shutdown request cancels everything; after it, or when the
    /// events end, the supervisor stops.
    pub fn on_event(&mut self, event: &TaskEvent) -> (r: SupervisorAction)
        requires
            old(self).wf(),
        ensures
            final(self).wf(),
            old(self).is_shut_down() ==> r is Stop && final(self).counters() == old(self).counters()
                && final(self).is_shut_down(),
            !old(self).is_shut_down() ==> match *event {
                TaskEvent::StoppedWithError(n, _) | TaskEvent::Panicked(n, _) => if !old(
                    self,
                ).counters().contains_key(n@) {
                    r is Ignore && final(self).counters() == old(self).counters()
                        && !final(self).is_shut_down()
                } else {
                    let a = old(self).counters()[n@];
                    !final(self).is_shut_down() && final(self).counters() == old(
                        self,
                    ).counters().insert(n@, after_failure(a)) && match failure_outcome(a) {
                        FailureOutcome::Restart(d) => r matches SupervisorAction::Restart {
                            name,
                            delay_ms,
                        } && name@ == n@ && delay_ms == d,
                        FailureOutcome::GiveUp => r matches SupervisorAction::GiveUp(name)
                            && name@ == n@,
                    }
                },
                TaskEvent::Running(n) => r is Ignore && !final(self).is_shut_down() && (if old(
                    self,
                ).counters().contains_key(n@) {
                    final(self).counters() == old(self).counters().insert(n@, 0)
                } else {
                    final(self).counters() == old(self).counters()
                }),
                TaskEvent::StoppedCleanly(_) => r is Ignore && !final(self).is_shut_down()
                    && final(self).counters() == old(self).counters(),
                TaskEvent::ShutdownRequested => r is CancelAll && final(self).is_shut_down()
                    && final(self).counters() == old(self).counters(),
                TaskEvent::ChannelClosed => r is Stop && final(self).counters() == old(
                    self,
                ).counters() && !final(self).is_shut_down(),
            },
    {
        if self.shut_down {
            return SupervisorAction::Stop;
        }
        match event {
            TaskEvent::StoppedWithError(n, _) | TaskEvent::Panicked(n, _) => {
                match self.find(n.as_str()) {
                    None => SupervisorAction::Ignore,
                    Some(i) => {
                        let a = self.attempts[i];
                        if a >= MAX_RETRIES {
                            proof {
                                assert(self.counters() =~= old(self).counters().insert(n@, a as nat));
                            }
                            SupervisorAction::GiveUp(n.clone())
                        } else {
                            let delay_ms = Self::backoff_delay_ms(a);
                            self.set_count(i, a + 1);
                            SupervisorAction::Restart { name: n.clone(), delay_ms }
                        }
                    },
                }
            },
            TaskEvent::Running(n) => {
                match self.find(n.as_str()) {
                    None => {},
                    Some(i) => {
                        self.set_count(i, 0);
                    },
                }
                SupervisorAction::Ignore
            },
            TaskEvent::StoppedCleanly(_) => SupervisorAction::Ignore,
            TaskEvent::ShutdownRequested => {
                self.shut_down = true;
                SupervisorAction::CancelAll
            },
            TaskEvent::ChannelClosed => SupervisorAction::Stop,
        }
    }

    fn set_count(&mut self, i: usize, v: u32)
        requires
            old(self).wf(),
            i < old(self).names@.len(),
            v <= MAX_RETRIES,
        ensures
            final(self).wf(),
            final(self).names@ == old(self).names@,
            final(self).shut_down == old(self).shut_down,
            final(self).counters() == old(self).counters().insert(old(self).names@[i as int]@, v as nat),
    {
        let ghost n = self.names@[i as int]@;
        self.attempts.set(i, v);
        proof {
            assert(old(self).configured(n));
            assert(self.names@ == old(self).names@);
            assert forall|m: Seq<char>| self.configured(m) == old(self).configured(m) by {
                if self.configured(m) {
                    let j = choose|j: int| 0 <= j < self.names@.len() && (#[trigger] self.names@[j])@ == m;
                    assert(old(self).names@[j]@ == m);
                }
                if old(self).configured(m) {
                    let j = choose|j: int| 0 <= j < old(self).names@.len() && (#[trigger] old(self).names@[j])@ == m;
                    assert(self.names@[j]@ == m);
                }
            }
            assert forall|m: Seq<char>| #[trigger] self.configured(m) implies self.index_of(m) == old(self).index_of(m) by {}
            assert forall|m: Seq<char>| #[trigger] self.configured(m) && m != n implies self.index_of(m) != i by {
                let j = self.index_of(m);
                assert(self.names@[j]@ == m);
            }
            assert forall|m: Seq<char>| #[trigger] self.configured(m) && m == n implies self.index_of(m) == i by {
                let j = self.index_of(m);
                if j != i {
                    if j < i {
                        assert(self.names@[j]@ != self.names@[i as int]@);
                    } else {
                        assert(self.names@[i as int]@ != self.names@[j]@);
                    }
                }
            }
            assert(self.counters() =~= old(self).counters().insert(n, v as nat));
        }
    }
}

} // verus!
