//! Shared stepping abstractions for the emulation cores.
use vstd::prelude::*;

verus! {

/// What one step of a core did: the cycles it took and whether the core halted.
#[derive(Debug, Clone, Copy, PartialEq, Eq, Structural)]
pub struct StepResult {
    pub cycles: u32,
    pub halted: bool,
}

impl StepResult {
    pub fn new(cycles: u32, halted: bool) -> (r: Self)
        ensures
            r.cycles == cycles,
            r.halted == halted,
    {
        Self { cycles, halted }
    }
}

/// A core that can be driven one instruction at a time.
pub trait HeadlessCore {
    type Error;

    /// What a core keeps true between steps; a core without one keeps `true`.
    open spec fn inv(&self) -> bool {
        true
    }

    /// Whether the core can take its next step; a core that always can keeps `true`.
    open spec fn can_step(&self) -> bool {
        true
    }

    /// Whether one step can take the core from `self` to `after` and return `r`; a core
    /// that says nothing of its steps keeps `true`.
    open spec fn step_rel(&self, after: &Self, r: Result<StepResult, Self::Error>) -> bool {
        true
    }

    /// Runs one instruction.
    fn step(&mut self) -> (r: Result<StepResult, Self::Error>)
        requires
            old(self).inv(),
            old(self).can_step(),
        ensures
            final(self).inv(),
            old(self).step_rel(&*final(self), r),
    ;
}

#[verifier::external_type_specification]
#[verifier::external_body]
pub struct ExIoError(std::io::Error);

/// One end of a serial link cable, exchanging a byte at a time with its peer.
pub trait LinkEndpoint: Send + std::fmt::Debug {
    /// Whether the endpoint can take `byte` now; an endpoint without limits takes any.
    open spec fn accepts_byte(&self, byte: u8) -> bool {
        true
    }

    /// Sends `byte` over the link and returns the byte the peer sent back.
    fn transfer_byte(&mut self, byte: u8) -> std::io::Result<u8>
        requires
            old(self).accepts_byte(byte),
    ;
}

/// Totals gathered while running a core for a number of steps.
#[derive(Debug, Clone, Copy, PartialEq, Eq, Structural)]
pub struct RunStats {
    pub instructions: u64,
    pub cycles: u64,
    pub halted: bool,
}

impl RunStats {
    pub open spec fn spec_empty() -> RunStats {
        RunStats { instructions: 0, cycles: 0, halted: false }
    }

    /// The totals before any step has run.
    pub fn empty() -> (r: Self)
        ensures
            r == RunStats::spec_empty(),
    {
        RunStats { instructions: 0, cycles: 0, halted: false }
    }

    /// The totals after one more step that returned `step`; the cycle total wraps at
    /// 2^64.
    pub open spec fn spec_record(self, step: StepResult) -> RunStats {
        RunStats {
            instructions: (self.instructions + 1) as u64,
            cycles: self.cycles.wrapping_add(step.cycles as u64),
            halted: step.halted,
        }
    }

    /// Adds one step to the totals; the cycle total wraps at 2^64.
    pub fn record(self, step: StepResult) -> (r: Self)
        requires
            self.instructions < u64::MAX,
        ensures
            r == self.spec_record(step),
    {
        RunStats {
            instructions: self.instructions + 1,
            cycles: self.cycles.wrapping_add(step.cycles as u64),
            halted: step.halted,
        }
    }
}

impl Default for RunStats {
    /// The totals before any step has run.
    fn default() -> (r: Self)
        ensures
            r == RunStats::spec_empty(),
    {
        RunStats::empty()
    }
}

/// The step result a result stands for: the step itself, or nothing for an error.
pub open spec fn step_of<E>(r: Result<StepResult, E>) -> StepResult {
    match r {
        Ok(s) => s,
        Err(_) => StepResult { cycles: 0, halted: false },
    }
}

/// The totals of the steps that returned `results`, in order.
pub open spec fn stats_of<E>(results: Seq<Result<StepResult, E>>) -> RunStats
    decreases results.len(),
{
    if results.len() == 0 {
        RunStats::spec_empty()
    } else {
        stats_of(results.drop_last()).spec_record(step_of(results.last()))
    }
}

/// Whether running for at most `steps` steps from `start` went through the cores
/// `cores` (from `start` to `end`) with the step results `results`, and returned `r`:
/// every step but the last succeeded without halting; the run stops early only after a
/// step that failed or halted; a failed step's error is returned, otherwise the totals
/// of all the steps.
pub open spec fn run_trace<C: HeadlessCore>(
    start: C,
    cores: Seq<C>,
    results: Seq<Result<StepResult, C::Error>>,
    steps: nat,
    end: C,
    r: Result<RunStats, C::Error>,
) -> bool {
    let k = results.len();
    &&& cores.len() == k + 1
    &&& cores[0] == start
    &&& cores[k as int] == end
    &&& k <= steps
    &&& forall|i: int| 0 <= i < k ==> #[trigger] cores[i].step_rel(&cores[i + 1], results[i])
    &&& forall|i: int| 0 <= i < k - 1 ==> #[trigger] results[i] is Ok && !step_of(results[i]).halted
    &&& k < steps ==> k > 0 && (results.last() is Err || step_of(results.last()).halted)
    &&& r == (if k > 0 && results.last() is Err { Err(results.last()->Err_0) } else { Ok(stats_of(results)) })
}

/// Runs `core` for at most `steps` steps, stopping early after a step that halts and
/// with the error of a step that fails.
///
/// The run goes step by step as the core's steps go; it returns the totals of the
/// steps, or the error of the step that failed.
pub fn run_steps<C: HeadlessCore>(core: &mut C, steps: usize) -> (r: Result<RunStats, C::Error>)
    requires
        old(core).inv(),
        forall|c: C| #[trigger] c.inv() ==> c.can_step(),
    ensures
        final(core).inv(),
        exists|cores: Seq<C>, results: Seq<Result<StepResult, C::Error>>|
            #[trigger] run_trace(*old(core), cores, results, steps as nat, *final(core), r),
        r matches Ok(s) ==> {
            &&& s.instructions <= steps
            &&& s.cycles <= s.instructions * (u32::MAX as int)
            &&& s.instructions < steps ==> s.halted
            &&& s.instructions == 0 ==> (s.cycles == 0 && !s.halted)
        },
{
    let mut stats = RunStats::empty();
    let ghost start = *core;
    let ghost mut cores: Seq<C> = seq![*core];
    let ghost mut results: Seq<Result<StepResult, C::Error>> = Seq::empty();
    let mut i: usize = 0;
    while i < steps
        invariant
            core.inv(),
            forall|c: C| #[trigger] c.inv() ==> c.can_step(),
            i <= steps,
            stats.instructions == i,
            stats.cycles <= stats.instructions * (u32::MAX as int),
            stats.instructions == 0 ==> (stats.cycles == 0 && !stats.halted),
            start == *old(core),
            results.len() == i,
            cores.len() == i + 1,
            cores[0] == start,
            cores[i as int] == *core,
            forall|j: int| 0 <= j < i ==> #[trigger] cores[j].step_rel(&cores[j + 1], results[j]),
            forall|j: int| 0 <= j < i ==> #[trigger] results[j] is Ok && !step_of(results[j]).halted,
            stats == stats_of(results),
        decreases steps - i,
    {
        let r1 = core.step();
        let ghost prev = results;
        proof {
            cores = cores.push(*core);
            results = results.push(r1);
            assert(results.drop_last() =~= prev);
        }
        let step = match r1 {
            Ok(s) => s,
            Err(e) => {
                proof {
                    assert(run_trace(start, cores, results, steps as nat, *core, Err(e)));
                }
                return Err(e);
            },
        };
        assert(stats.cycles + step.cycles <= (stats.instructions + 1) * (u32::MAX as int)) by (nonlinear_arith)
            requires
                stats.cycles <= stats.instructions * (u32::MAX as int),
                step.cycles <= u32::MAX,
        ;
        stats = stats.record(step);
        i = i + 1;
        if step.halted {
            proof {
                assert(run_trace(start, cores, results, steps as nat, *core, Ok(stats)));
            }
            return Ok(stats);
        }
    }
    proof {
        assert(run_trace(start, cores, results, steps as nat, *core, Ok(stats)));
    }
    Ok(stats)
}

} // verus!
