//! Circuit breakers: one failure-isolation state machine per remote service.
//!
//! A breaker is a plain value. Time is read by the caller from a monotonic
//! clock and handed in as milliseconds; a breaker that is shared between
//! tasks is kept behind a lock by its owner, who takes the lock for each
//! transition and not for the operation itself.
use vstd::prelude::*;
use crate::text::str_eq;

verus! {

/// The tuning of a breaker.
#[derive(Debug, Clone, Copy, PartialEq, Eq, Structural)]
pub struct CircuitBreakerConfig {
    /// Failures after which a closed circuit opens.
    pub failure_threshold: u32,
    /// Successes after which a half-open circuit closes.
    pub success_threshold: u32,
    /// Milliseconds after the last failure during which an open circuit
    /// rejects calls.
    pub timeout_ms: u64,
}

/// The tuning of a breaker for an unnamed service.
pub open spec fn default_config() -> CircuitBreakerConfig {
    CircuitBreakerConfig { failure_threshold: 5, success_threshold: 3, timeout_ms: 60_000 }
}

/// The tuning of the breaker for the service named `name`.
pub open spec fn service_config(name: Seq<char>) -> CircuitBreakerConfig {
    if name == "google_calendar"@ {
        CircuitBreakerConfig { failure_threshold: 3, success_threshold: 2, timeout_ms: 30_000 }
    } else if name == "proton_calendar"@ {
        CircuitBreakerConfig { failure_threshold: 5, success_threshold: 3, timeout_ms: 60_000 }
    } else {
        default_config()
    }
}

impl Default for CircuitBreakerConfig {
    fn default() -> (config: Self)
        ensures
            config == default_config(),
    {
        Self { failure_threshold: 5, success_threshold: 3, timeout_ms: 60_000 }
    }
}

/// The tuning of the breaker for the service named `name`.
pub fn config_for_service(name: &str) -> (config: CircuitBreakerConfig)
    ensures
        config == service_config(name@),
{
    if str_eq(name, "google_calendar") {
        CircuitBreakerConfig { failure_threshold: 3, success_threshold: 2, timeout_ms: 30_000 }
    } else if str_eq(name, "proton_calendar") {
        CircuitBreakerConfig { failure_threshold: 5, success_threshold: 3, timeout_ms: 60_000 }
    } else {
        CircuitBreakerConfig::default()
    }
}

/// The three states of a circuit.
#[derive(Debug, Clone, Copy, PartialEq, Eq, Structural)]
pub enum CircuitState {
    /// Calls pass.
    Closed,
    /// Calls are rejected.
    Open,
    /// Calls pass on probation.
    HalfOpen,
}

/// `n + 1`, held at the top of the `u32` range.
pub open spec fn bumped(n: u32) -> u32 {
    if n < u32::MAX {
        (n + 1) as u32
    } else {
        n
    }
}

/// A breaker as a plain value: its tuning and what it has counted.
pub struct BreakerModel {
    pub config: CircuitBreakerConfig,
    pub state: CircuitState,
    pub failure_count: u32,
    pub success_count: u32,
    /// Clock reading at the last failure.
    pub last_failure_time: Option<u64>,
}

impl BreakerModel {
    /// A closed breaker that has counted nothing.
    pub open spec fn fresh(config: CircuitBreakerConfig) -> BreakerModel {
        BreakerModel {
            config,
            state: CircuitState::Closed,
            failure_count: 0,
            success_count: 0,
            last_failure_time: None,
        }
    }

    /// Whether the circuit is open and more than the timeout has passed
    /// since the recorded failure.
    pub open spec fn timed_out(self, now_ms: u64) -> bool {
        &&& self.state == CircuitState::Open
        &&& self.last_failure_time matches Some(failed_at)
        &&& now_ms - failed_at > self.config.timeout_ms
    }

    /// The breaker as a call at `now_ms` finds it: an open circuit whose
    /// timeout has passed becomes half-open, with no successes counted.
    pub open spec fn on_arrival(self, now_ms: u64) -> BreakerModel {
        if self.timed_out(now_ms) {
            BreakerModel { state: CircuitState::HalfOpen, success_count: 0, ..self }
        } else {
            self
        }
    }

    /// Whether a call at `now_ms` is let through.
    pub open spec fn admits(self, now_ms: u64) -> bool {
        self.on_arrival(now_ms).state != CircuitState::Open
    }

    /// The breaker after an admitted call succeeded.
    ///
    /// Closed: the failure count returns to zero. Half-open: the success is
    /// counted, and at the success threshold the circuit closes and the
    /// failure count returns to zero. Open (a call admitted earlier came
    /// back late): the circuit closes.
    pub open spec fn after_success(self) -> BreakerModel {
        match self.state {
            CircuitState::Closed => BreakerModel { failure_count: 0, ..self },
            CircuitState::HalfOpen => {
                let counted = bumped(self.success_count);
                if counted >= self.config.success_threshold {
                    BreakerModel {
                        state: CircuitState::Closed,
                        failure_count: 0,
                        success_count: counted,
                        ..self
                    }
                } else {
                    BreakerModel { success_count: counted, ..self }
                }
            },
            CircuitState::Open => BreakerModel {
                state: CircuitState::Closed,
                failure_count: 0,
                ..self
            },
        }
    }

    /// The breaker after an admitted call failed at `now_ms`.
    ///
    /// The failure is counted and its instant recorded. A closed circuit
    /// opens once the count reaches the failure threshold; a half-open
    /// circuit opens at once.
    pub open spec fn after_failure(self, now_ms: u64) -> BreakerModel {
        let counted = bumped(self.failure_count);
        let state = match self.state {
            CircuitState::Closed => if counted >= self.config.failure_threshold {
                CircuitState::Open
            } else {
                CircuitState::Closed
            },
            CircuitState::HalfOpen => CircuitState::Open,
            CircuitState::Open => CircuitState::Open,
        };
        BreakerModel { state, failure_count: counted, last_failure_time: Some(now_ms), ..self }
    }

    /// The breaker after an admitted call came back at `now_ms`.
    pub open spec fn after_outcome(self, succeeded: bool, now_ms: u64) -> BreakerModel {
        if succeeded {
            self.after_success()
        } else {
            self.after_failure(now_ms)
        }
    }
}

/// What a breaker has counted.
#[derive(Debug, Clone, Copy)]
pub struct CircuitBreakerStats {
    pub state: CircuitState,
    pub failure_count: u32,
    pub success_count: u32,
    /// Clock reading at the last failure.
    pub last_failure_time: Option<u64>,
}

/// Why `execute` returned no value.
#[derive(Debug)]
pub enum CircuitError<E> {
    /// The circuit is open; the operation was not run.
    Open,
    /// The operation ran and failed.
    Operation(E),
}

/// Whether `after` is `before` after a failure at some reading of `clock`.
pub open spec fn failed_at_reading<K: Fn() -> u64>(clock: &K, before: BreakerModel, after: BreakerModel) -> bool {
    exists|failed_at: u64| #[trigger]
        clock.ensures((), failed_at) && after == before.after_failure(failed_at)
}

/// What `execute` returns when the operation came back with `outcome`.
pub open spec fn passed_on<T, E>(outcome: Result<T, E>) -> Result<T, CircuitError<E>> {
    match outcome {
        Ok(value) => Ok(value),
        Err(error) => Err(CircuitError::Operation(error)),
    }
}

/// The message of a rejected call.
pub fn circuit_open_message() -> (text: String)
    ensures
        text@ == "Circuit breaker is open"@,
{
    String::from_str("Circuit breaker is open")
}

/// A circuit breaker for one service.
#[derive(Debug)]
pub struct CircuitBreaker {
    config: CircuitBreakerConfig,
    state: CircuitState,
    failure_count: u32,
    success_count: u32,
    last_failure_time: Option<u64>,
}

impl View for CircuitBreaker {
    type V = BreakerModel;

    closed spec fn view(&self) -> BreakerModel {
        BreakerModel {
            config: self.config,
            state: self.state,
            failure_count: self.failure_count,
            success_count: self.success_count,
            last_failure_time: self.last_failure_time,
        }
    }
}

impl CircuitBreaker {
    /// A closed breaker with the given tuning.
    pub fn new(config: CircuitBreakerConfig) -> (breaker: Self)
        ensures
            breaker@ == BreakerModel::fresh(config),
    {
        Self {
            config,
            state: CircuitState::Closed,
            failure_count: 0,
            success_count: 0,
            last_failure_time: None,
        }
    }

    /// Asks to let a call through at `now_ms`. An open circuit whose
    /// timeout has passed turns half-open first.
    pub fn try_acquire(&mut self, now_ms: u64) -> (admitted: bool)
        ensures
            final(self)@ == old(self)@.on_arrival(now_ms),
            admitted == old(self)@.admits(now_ms),
    {
        let timed_out = match self.state {
            CircuitState::Open => match self.last_failure_time {
                Some(failed_at) => now_ms > failed_at && now_ms - failed_at > self.config.timeout_ms,
                None => false,
            },
            CircuitState::HalfOpen => false,
            CircuitState::Closed => false,
        };
        if timed_out {
            self.state = CircuitState::HalfOpen;
            self.success_count = 0;
        }
        match self.state {
            CircuitState::Open => false,
            _ => true,
        }
    }

    /// Records that an admitted call succeeded.
    pub fn on_success(&mut self)
        ensures
            final(self)@ == old(self)@.after_success(),
    {
        match self.state {
            CircuitState::HalfOpen => {
                if self.success_count < u32::MAX {
                    self.success_count = self.success_count + 1;
                }
                if self.success_count >= self.config.success_threshold {
                    self.state = CircuitState::Closed;
                    self.failure_count = 0;
                }
            },
            CircuitState::Closed => {
                self.failure_count = 0;
            },
            CircuitState::Open => {
                self.state = CircuitState::Closed;
                self.failure_count = 0;
            },
        }
    }

    /// Records that an admitted call failed at `now_ms`.
    pub fn on_failure(&mut self, now_ms: u64)
        ensures
            final(self)@ == old(self)@.after_failure(now_ms),
    {
        if self.failure_count < u32::MAX {
            self.failure_count = self.failure_count + 1;
        }
        self.last_failure_time = Some(now_ms);
        match self.state {
            CircuitState::Closed => {
                if self.failure_count >= self.config.failure_threshold {
                    self.state = CircuitState::Open;
                }
            },
            CircuitState::HalfOpen => {
                self.state = CircuitState::Open;
            },
            CircuitState::Open => {},
        }
    }

    /// Runs `operation` under the breaker. `now_ms` is the clock reading at
    /// the call; `clock` is read again when the operation has failed.
    ///
    /// A call that is not admitted returns `CircuitError::Open`, and the
    /// operation is not run. An admitted call runs the operation once,
    /// records its outcome, and passes it on; a failure is recorded with the
    /// instant at which it came back.
    pub fn execute<T, E, F: FnOnce() -> Result<T, E>, K: Fn() -> u64>(
        &mut self,
        now_ms: u64,
        operation: F,
        clock: &K,
    ) -> (r: Result<T, CircuitError<E>>)
        requires
            operation.requires(()),
            clock.requires(()),
        ensures
            !old(self)@.admits(now_ms) ==> r is Err && r->Err_0 is Open && final(self)@ == old(
                self,
            )@,
            old(self)@.admits(now_ms) ==> exists|outcome: Result<T, E>|
                {
                    &&& operation.ensures((), outcome)
                    &&& r == passed_on(outcome)
                    &&& if outcome is Ok {
                        final(self)@ == old(self)@.on_arrival(now_ms).after_success()
                    } else {
                        failed_at_reading(clock, old(self)@.on_arrival(now_ms), final(self)@)
                    }
                },
    {
        if !self.try_acquire(now_ms) {
            return Err(CircuitError::Open);
        }
        let outcome = operation();
        match outcome {
            Ok(value) => {
                self.on_success();
                proof {
                    let witness: Result<T, E> = Ok(value);
                    assert(passed_on(witness) == Ok::<T, CircuitError<E>>(value));
                }
                Ok(value)
            },
            Err(error) => {
                let failed_at = clock();
                self.on_failure(failed_at);
                proof {
                    let witness: Result<T, E> = Err(error);
                    assert(passed_on(witness) == Err::<T, CircuitError<E>>(
                        CircuitError::Operation(error),
                    ));
                    assert(clock.ensures((), failed_at));
                }
                Err(CircuitError::Operation(error))
            },
        }
    }

    /// The state of the circuit.
    pub fn get_state(&self) -> (state: CircuitState)
        ensures
            state == self@.state,
    {
        self.state
    }

    /// What the breaker has counted.
    pub fn get_stats(&self) -> (stats: CircuitBreakerStats)
        ensures
            stats.state == self@.state,
            stats.failure_count == self@.failure_count,
            stats.success_count == self@.success_count,
            stats.last_failure_time == self@.last_failure_time,
    {
        CircuitBreakerStats {
            state: self.state,
            failure_count: self.failure_count,
            success_count: self.success_count,
            last_failure_time: self.last_failure_time,
        }
    }
}

/// The position of the service named `name` among `names`, if it is there.
pub open spec fn position_of(names: Seq<Seq<char>>, name: Seq<char>) -> Option<int> {
    if exists|i: int| 0 <= i < names.len() && names[i] == name {
        Some(choose|i: int| 0 <= i < names.len() && names[i] == name)
    } else {
        None
    }
}

/// A registry as a plain value: the names of the services, in the order in
/// which their breakers were made, and the breakers in that order.
pub struct RegistryModel {
    pub names: Seq<Seq<char>>,
    pub breakers: Seq<BreakerModel>,
}

impl RegistryModel {
    /// The breaker of the service named `name`: the one that was made for
    /// it, or the closed breaker that its first use will make.
    pub open spec fn breaker(self, name: Seq<char>) -> BreakerModel {
        match position_of(self.names, name) {
            Some(i) => self.breakers[i],
            None => BreakerModel::fresh(service_config(name)),
        }
    }

    /// The registry after the breaker of the service named `name` was used
    /// and left as `breaker`.
    pub open spec fn with_breaker(self, name: Seq<char>, breaker: BreakerModel) -> RegistryModel {
        match position_of(self.names, name) {
            Some(i) => RegistryModel { names: self.names, breakers: self.breakers.update(i, breaker) },
            None => RegistryModel {
                names: self.names.push(name),
                breakers: self.breakers.push(breaker),
            },
        }
    }

    /// Each service has one breaker.
    pub open spec fn wf(self) -> bool {
        &&& self.names.len() == self.breakers.len()
        &&& forall|i: int, j: int| 0 <= i < j < self.names.len() ==> self.names[i] != self.names[j]
    }
}

/// After its use, the breaker of a service is the one that the registry
/// holds for it.
pub proof fn lemma_breaker_after_use(registry: RegistryModel, name: Seq<char>, breaker: BreakerModel)
    requires
        registry.wf(),
    ensures
        registry.with_breaker(name, breaker).wf(),
        registry.with_breaker(name, breaker).breaker(name) == breaker,
{
    let after = registry.with_breaker(name, breaker);
    match position_of(registry.names, name) {
        Some(i) => {
            assert(0 <= i < registry.names.len() && registry.names[i] == name);
            assert(after.names[i] == name);
            let p = choose|k: int| 0 <= k < after.names.len() && after.names[k] == name;
            assert(p == i);
        },
        None => {
            let at = registry.names.len() as int;
            assert(after.names[at] == name);
            assert forall|k: int| 0 <= k < at implies after.names[k] != name by {
                assert(after.names[k] == registry.names[k]);
            }
            let p = choose|k: int| 0 <= k < after.names.len() && after.names[k] == name;
            assert(p == at);
        },
    }
}

/// The breakers of a process, one per service name, made on first use.
pub struct CircuitBreakerRegistry {
    names: Vec<String>,
    breakers: Vec<CircuitBreaker>,
}

impl View for CircuitBreakerRegistry {
    type V = RegistryModel;

    open spec fn view(&self) -> RegistryModel {
        RegistryModel { names: self.names(), breakers: self.breakers() }
    }
}

impl CircuitBreakerRegistry {
    /// The names of the services that have a breaker, in the order in
    /// which the breakers were made.
    pub closed spec fn names(&self) -> Seq<Seq<char>> {
        self.names@.map_values(|name: String| name@)
    }

    /// The breakers, in the order of `names`.
    pub closed spec fn breakers(&self) -> Seq<BreakerModel> {
        self.breakers@.map_values(|breaker: CircuitBreaker| breaker@)
    }

    /// Each service has one breaker.
    pub open spec fn wf(&self) -> bool {
        &&& self.names().len() == self.breakers().len()
        &&& forall|i: int, j: int|
            0 <= i < j < self.names().len() ==> self.names()[i] != self.names()[j]
    }

    /// A registry without breakers.
    pub fn new() -> (registry: Self)
        ensures
            registry.wf(),
            registry.names().len() == 0,
    {
        Self { names: Vec::new(), breakers: Vec::new() }
    }

    /// Where the breaker of the service named `name` stands, if it has one.
    fn find(&self, name: &str) -> (found: Option<usize>)
        requires
            self.wf(),
        ensures
            match found {
                Some(i) => i < self.names().len() && self.names()[i as int] == name@,
                None => forall|i: int| 0 <= i < self.names().len() ==> self.names()[i] != name@,
            },
    {
        let mut i: usize = 0;
        while i < self.names.len()
            invariant
                i <= self.names.len(),
                forall|k: int| 0 <= k < i ==> self.names()[k] != name@,
            decreases self.names.len() - i,
        {
            if str_eq(self.names[i].as_str(), name) {
                return Some(i);
            }
            i += 1;
        }
        None
    }

    /// The breaker of the service named `service_name`. On first use the
    /// breaker is made, closed, with the tuning of that service.
    ///
    /// The registry ends as it was, but for this one breaker, which ends as
    /// the caller leaves it.
    pub fn get_breaker(&mut self, service_name: &str) -> (breaker: &mut CircuitBreaker)
        requires
            old(self).wf(),
        ensures
            final(self).wf(),
            breaker@ == old(self)@.breaker(service_name@),
            final(self)@ == old(self)@.with_breaker(service_name@, final(breaker)@),
            match position_of(old(self).names(), service_name@) {
                Some(i) => {
                    &&& breaker@ == old(self).breakers()[i]
                    &&& final(self).names() == old(self).names()
                    &&& final(self).breakers() == old(self).breakers().update(i, final(breaker)@)
                },
                None => {
                    &&& breaker@ == BreakerModel::fresh(service_config(service_name@))
                    &&& final(self).names() == old(self).names().push(service_name@)
                    &&& final(self).breakers() == old(self).breakers().push(final(breaker)@)
                },
            },
    {
        let found = self.find(service_name);
        let index = match found {
            Some(i) => {
                proof {
                    let names = self.names();
                    let p = choose|k: int| 0 <= k < names.len() && names[k] == service_name@;
                    assert(p == i);
                }
                i
            },
            None => {
                let ghost before_names = self.names();
                let ghost before_breakers = self.breakers();
                self.names.push(String::from_str(service_name));
                self.breakers.push(CircuitBreaker::new(config_for_service(service_name)));
                proof {
                    assert(self.names() =~= before_names.push(service_name@));
                    assert(self.breakers() =~= before_breakers.push(
                        BreakerModel::fresh(service_config(service_name@)),
                    ));
                }
                self.names.len() - 1
            },
        };
        let ghost mid_names = self.names();
        let ghost mid_breakers = self.breakers();
        let ghost mid = self.breakers@;
        let breaker = &mut self.breakers[index];
        proof {
            let end = mid.update(index as int, *final(breaker));
            assert(end.map_values(|b: CircuitBreaker| b@) =~= mid_breakers.update(
                index as int,
                final(breaker)@,
            ));
            if found is None {
                assert(mid_breakers.update(index as int, final(breaker)@) =~= old(
                    self,
                ).breakers().push(final(breaker)@));
            }
        }
        breaker
    }

    /// What each breaker has counted, by service name, in the order in
    /// which the breakers were made.
    pub fn get_all_stats(&self) -> (stats: Vec<(String, CircuitBreakerStats)>)
        requires
            self.wf(),
        ensures
            stats@.len() == self.names().len(),
            forall|i: int|
                0 <= i < stats@.len() ==> {
                    &&& (#[trigger] stats@[i]).0@ == self.names()[i]
                    &&& stats@[i].1.state == self.breakers()[i].state
                    &&& stats@[i].1.failure_count == self.breakers()[i].failure_count
                    &&& stats@[i].1.success_count == self.breakers()[i].success_count
                    &&& stats@[i].1.last_failure_time == self.breakers()[i].last_failure_time
                },
    {
        let mut stats: Vec<(String, CircuitBreakerStats)> = Vec::new();
        let mut i: usize = 0;
        while i < self.names.len()
            invariant
                self.wf(),
                i <= self.names.len(),
                stats@.len() == i,
                forall|k: int|
                    0 <= k < i ==> {
                        &&& (#[trigger] stats@[k]).0@ == self.names()[k]
                        &&& stats@[k].1.state == self.breakers()[k].state
                        &&& stats@[k].1.failure_count == self.breakers()[k].failure_count
                        &&& stats@[k].1.success_count == self.breakers()[k].success_count
                        &&& stats@[k].1.last_failure_time == self.breakers()[k].last_failure_time
                    },
            decreases self.names.len() - i,
        {
            let name = self.names[i].clone();
            let entry = self.breakers[i].get_stats();
            stats.push((name, entry));
            i += 1;
        }
        stats
    }
}

} // verus!
