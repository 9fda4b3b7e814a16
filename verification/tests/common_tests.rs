use gb_gba_emu::common::{run_steps, HeadlessCore, RunStats, StepResult};

struct FakeCore {
    script: Vec<StepResult>,
    cursor: usize,
}

impl HeadlessCore for FakeCore {
    type Error = ();

    fn step(&mut self) -> Result<StepResult, Self::Error> {
        let value = self.script.get(self.cursor).copied().unwrap_or(StepResult::new(4, false));
        self.cursor += 1;
        Ok(value)
    }
}

#[test]
fn run_steps_tracks_instruction_and_cycle_totals() {
    let mut core = FakeCore {
        script: vec![StepResult::new(4, false), StepResult::new(8, false), StepResult::new(4, false)],
        cursor: 0,
    };

    let stats = run_steps(&mut core, 3).unwrap();

    assert_eq!(stats.instructions, 3);
    assert_eq!(stats.cycles, 16);
    assert!(!stats.halted);
}

#[test]
fn run_steps_stops_when_core_halts() {
    let mut core = FakeCore {
        script: vec![StepResult::new(4, false), StepResult::new(4, true), StepResult::new(4, false)],
        cursor: 0,
    };

    let stats = run_steps(&mut core, 10).unwrap();

    assert_eq!(stats.instructions, 2);
    assert_eq!(stats.cycles, 8);
    assert!(stats.halted);
}

#[test]
fn run_stats_default_is_empty_and_record_accumulates() {
    let stats = RunStats::default();
    assert_eq!(stats, RunStats::empty());
    assert_eq!(stats.instructions, 0);
    let stats = stats.record(StepResult::new(12, false)).record(StepResult::new(8, true));
    assert_eq!(stats.instructions, 2);
    assert_eq!(stats.cycles, 20);
    assert!(stats.halted);
}

#[test]
fn run_steps_with_zero_steps_runs_nothing() {
    let mut core = FakeCore { script: vec![StepResult::new(4, true)], cursor: 0 };
    let stats = run_steps(&mut core, 0).unwrap();
    assert_eq!(stats, RunStats::empty());
    assert_eq!(core.cursor, 0);
}
