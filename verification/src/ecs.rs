//! Shared resources and the engine's operating state.
//!
//! [`Operation`] tracks whether the engine is running or halted and drives
//! the optional run/stop cycle.  Deadlines are plain millisecond
//! timestamps; the host passes its clock reading in, so the logic is the
//! same whatever clock the host uses.

use vstd::prelude::*;

use crate::bridge::InputLog;
use crate::buff::{Buff, BuffState};
use crate::config::CycleRunStopMode;
use crate::minimap::MinimapEntity;
use crate::player::PlayerEntity;

verus! {

/// The engine's operating state.
#[derive(Clone, Copy, Debug, PartialEq, Eq, Structural)]
pub enum Operation {
    /// Halted until the deadline, then cycling back to running.
    HaltUntil {
        until_millis: u64,
        run_duration_millis: u64,
        stop_duration_millis: u64,
    },
    /// Halted by an external pause that remembers when to resume.
    TemporaryHalting {
        resume_millis: u64,
        run_duration_millis: u64,
        stop_duration_millis: u64,
        once: bool,
    },
    /// Halted for good until told otherwise.
    Halting,
    /// Running with no cycle configured.
    Running,
    /// Running until the deadline, then halting or cycling.
    RunUntil {
        until_millis: u64,
        run_duration_millis: u64,
        stop_duration_millis: u64,
        once: bool,
    },
}

impl Operation {
    /// Whether the engine counts as halted.
    pub open spec fn spec_halting(&self) -> bool {
        match self {
            Operation::Halting | Operation::HaltUntil { .. } | Operation::TemporaryHalting {
                ..
            } => true,
            Operation::Running | Operation::RunUntil { .. } => false,
        }
    }

    #[verifier::when_used_as_spec(spec_halting)]
    pub fn halting(&self) -> (r: bool)
        ensures
            r == self.spec_halting(),
    {
        matches!(
            self,
            Operation::Halting | Operation::HaltUntil { .. } | Operation::TemporaryHalting { .. }
        )
    }

    /// A halted phase of the run/stop cycle, ending `stop_duration_millis`
    /// after `now_millis`.
    pub fn halt_until(now_millis: u64, run_duration_millis: u64, stop_duration_millis: u64) -> (r:
        Operation)
        requires
            now_millis + stop_duration_millis <= u64::MAX,
        ensures
            r == (Operation::HaltUntil {
                until_millis: (now_millis + stop_duration_millis) as u64,
                run_duration_millis,
                stop_duration_millis,
            }),
    {
        Operation::HaltUntil {
            until_millis: now_millis + stop_duration_millis,
            run_duration_millis,
            stop_duration_millis,
        }
    }

    /// A running phase of the run/stop cycle, ending `run_duration_millis`
    /// after `now_millis`; `once` stops the cycle after this phase.
    pub fn run_until(
        now_millis: u64,
        run_duration_millis: u64,
        stop_duration_millis: u64,
        once: bool,
    ) -> (r: Operation)
        requires
            now_millis + run_duration_millis <= u64::MAX,
        ensures
            r == (Operation::RunUntil {
                until_millis: (now_millis + run_duration_millis) as u64,
                run_duration_millis,
                stop_duration_millis,
                once,
            }),
    {
        Operation::RunUntil {
            until_millis: now_millis + run_duration_millis,
            run_duration_millis,
            stop_duration_millis,
            once,
        }
    }

    /// What [`Operation::update_current`] returns.
    pub open spec fn spec_update_current(
        self,
        cycle_run_stop: CycleRunStopMode,
        run_duration_millis: u64,
        stop_duration_millis: u64,
        now_millis: u64,
    ) -> Operation {
        match self {
            Operation::HaltUntil { stop_duration_millis: current_stop, .. } => match cycle_run_stop {
                CycleRunStopMode::Disabled | CycleRunStopMode::Once => Operation::Halting,
                CycleRunStopMode::Repeat => if current_stop == stop_duration_millis {
                    self
                } else {
                    Operation::HaltUntil {
                        until_millis: (now_millis + stop_duration_millis) as u64,
                        run_duration_millis,
                        stop_duration_millis,
                    }
                },
            },
            Operation::TemporaryHalting { run_duration_millis: current_run, .. } => if current_run
                != run_duration_millis || cycle_run_stop is Disabled {
                Operation::Halting
            } else {
                self
            },
            Operation::Halting => Operation::Halting,
            Operation::Running | Operation::RunUntil { .. } => match cycle_run_stop {
                CycleRunStopMode::Disabled => Operation::Running,
                CycleRunStopMode::Once | CycleRunStopMode::Repeat => Operation::RunUntil {
                    until_millis: (now_millis + run_duration_millis) as u64,
                    run_duration_millis,
                    stop_duration_millis,
                    once: cycle_run_stop is Once,
                },
            },
        }
    }

    /// Re-seats the operating state on a fresh cycle configuration, keeping
    /// the phase the engine is in: a halted engine stays halted, a running
    /// engine keeps running, and deadlines are re-derived from `now_millis`
    /// where the configuration changed.
    pub fn update_current(
        self,
        cycle_run_stop: CycleRunStopMode,
        run_duration_millis: u64,
        stop_duration_millis: u64,
        now_millis: u64,
    ) -> (r: Operation)
        requires
            now_millis + run_duration_millis <= u64::MAX,
            now_millis + stop_duration_millis <= u64::MAX,
        ensures
            r == self.spec_update_current(
                cycle_run_stop,
                run_duration_millis,
                stop_duration_millis,
                now_millis,
            ),
            r.spec_halting() == self.spec_halting(),
    {
        match self {
            Operation::HaltUntil { stop_duration_millis: current_stop_duration_millis, .. } => {
                match cycle_run_stop {
                    CycleRunStopMode::Disabled | CycleRunStopMode::Once => Operation::Halting,
                    CycleRunStopMode::Repeat => {
                        if current_stop_duration_millis == stop_duration_millis {
                            self
                        } else {
                            Operation::halt_until(
                                now_millis,
                                run_duration_millis,
                                stop_duration_millis,
                            )
                        }
                    },
                }
            },
            Operation::TemporaryHalting { run_duration_millis: current_run_duration_millis, .. } => {
                if current_run_duration_millis != run_duration_millis || matches!(
                    cycle_run_stop,
                    CycleRunStopMode::Disabled,
                ) {
                    Operation::Halting
                } else {
                    self
                }
            },
            Operation::Halting => Operation::Halting,
            Operation::Running | Operation::RunUntil { .. } => match cycle_run_stop {
                CycleRunStopMode::Disabled => Operation::Running,
                CycleRunStopMode::Once | CycleRunStopMode::Repeat => Operation::run_until(
                    now_millis,
                    run_duration_millis,
                    stop_duration_millis,
                    matches!(cycle_run_stop, CycleRunStopMode::Once),
                ),
            },
        }
    }

    /// What [`Operation::update`] returns.
    pub open spec fn spec_update(self, now_millis: u64) -> Operation {
        match self {
            Operation::HaltUntil { until_millis, run_duration_millis, stop_duration_millis } => {
                if now_millis < until_millis {
                    self
                } else {
                    Operation::RunUntil {
                        until_millis: (now_millis + run_duration_millis) as u64,
                        run_duration_millis,
                        stop_duration_millis,
                        once: false,
                    }
                }
            },
            Operation::RunUntil {
                until_millis,
                run_duration_millis,
                stop_duration_millis,
                once,
            } => {
                if now_millis < until_millis {
                    self
                } else if once {
                    Operation::Halting
                } else {
                    Operation::HaltUntil {
                        until_millis: (now_millis + stop_duration_millis) as u64,
                        run_duration_millis,
                        stop_duration_millis,
                    }
                }
            },
            Operation::Halting | Operation::TemporaryHalting { .. } | Operation::Running => self,
        }
    }

    /// Advances the run/stop cycle against the clock: a timed halt whose
    /// deadline passed flips to a timed run and the other way around, a
    /// `once` run falls back to a permanent halt, and everything else is
    /// left alone.
    pub fn update(self, now_millis: u64) -> (r: Operation)
        requires
            self matches Operation::HaltUntil { run_duration_millis, .. } ==> now_millis
                + run_duration_millis <= u64::MAX,
            self matches Operation::RunUntil { stop_duration_millis, .. } ==> now_millis
                + stop_duration_millis <= u64::MAX,
        ensures
            r == self.spec_update(now_millis),
    {
        match self {
            Operation::HaltUntil { until_millis, run_duration_millis, stop_duration_millis } => {
                if now_millis < until_millis {
                    self
                } else {
                    Operation::run_until(
                        now_millis,
                        run_duration_millis,
                        stop_duration_millis,
                        false,
                    )
                }
            },
            Operation::RunUntil {
                until_millis,
                run_duration_millis,
                stop_duration_millis,
                once,
            } => {
                if now_millis < until_millis {
                    self
                } else if once {
                    Operation::Halting
                } else {
                    Operation::halt_until(now_millis, run_duration_millis, stop_duration_millis)
                }
            },
            Operation::Halting | Operation::TemporaryHalting { .. } | Operation::Running => self,
        }
    }
}

/// Game-level events the engine reports to the host.
#[derive(Clone, Copy, Debug, PartialEq, Eq, Structural)]
pub enum WorldEvent {
    CycledToHalt,
    PlayerDied,
    MinimapChanged,
    CaptureFailed,
}

/// Shared resources every update pass reads and writes: the input log the
/// host replays, the operating state, and the tick counter.
#[derive(Debug)]
pub struct Resources {
    /// Key strokes requested this tick.
    pub input: InputLog,
    /// Whether the input backend currently reports every key released.
    pub keys_cleared: bool,
    /// The operating state.
    pub operation: Operation,
    /// The current tick.
    pub tick: u64,
}

impl Resources {
    pub fn new() -> (r: Resources)
        ensures
            r.input@ == Seq::<crate::bridge::KeyRequest>::empty(),
            !r.keys_cleared,
            r.operation == Operation::Running,
            r.tick == 0,
    {
        Resources {
            input: InputLog::new(),
            keys_cleared: false,
            operation: Operation::Running,
            tick: 0,
        }
    }
}

/// One buff entity: its classification and its persistent state.
#[derive(Debug)]
pub struct BuffEntity {
    pub state: Buff,
    pub context: BuffState,
}

/// The entity container the control loop advances once per tick.
#[derive(Debug)]
pub struct World {
    pub minimap: MinimapEntity,
    pub player: PlayerEntity,
    pub buffs: Vec<BuffEntity>,
}

} // verus!
