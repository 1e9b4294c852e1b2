use vstd::prelude::*;
use crate::resolve::benchmark_guid;
use crate::resolve::is_guid_shaped;
use crate::resolve::lemma_benchmark_guid_shaped;
use crate::resolve::unalias_v;
use crate::scheme::KnownPowerSchemes;
use crate::scheme::PowerScheme;
use crate::scheme::spec_alias;
use crate::service::Action;
use crate::service::ActV;
use crate::service::CallV;
use crate::service::Event;
use crate::service::EventV;
use crate::service::PowerSource;
use crate::service::ServiceCall;

verus! {

/// How long the benchmark scheme stays active before the prior scheme is
/// restored, in seconds.
pub const HOLD_SECONDS: u64 = 10;

/// The display name given to a freshly created benchmark scheme.
pub open spec fn benchmark_name() -> Seq<char> {
    "Benchmarks"@
}

/// The description given to a freshly created benchmark scheme.
pub open spec fn benchmark_description() -> Seq<char> {
    "Power scheme added by the bench-mode tool. Disables performance boost."@
}

/// The subgroup that holds the three processor settings this system writes.
pub open spec fn processor_subgroup() -> Seq<char> {
    "sub_processor"@
}

/// The six writes go out in a fixed order, index 0 through 5: boost mode to
/// AC then DC, minimum throttle to AC then DC, maximum throttle to AC then
/// DC. This is the table the index selects from.
pub open spec fn setting_source(k: int) -> PowerSource {
    if k % 2 == 0 {
        PowerSource::AC
    } else {
        PowerSource::DC
    }
}

/// The setting name the `k`-th write addresses.
pub open spec fn setting_name(k: int) -> Seq<char> {
    if k < 2 {
        "PERFBOOSTMODE"@
    } else if k < 4 {
        "PROCTHROTTLEMIN"@
    } else {
        "PROCTHROTTLEMAX"@
    }
}

/// The value the `k`-th write stores: boost mode off, both throttle bounds
/// at 99 percent.
pub open spec fn setting_value(k: int) -> u32 {
    if k < 2 {
        0
    } else {
        99
    }
}

/// The `k`-th of the six setting writes, applied to the scheme `target`.
pub open spec fn setting_call(target: Seq<char>, k: int) -> CallV {
    CallV::SetValue {
        target,
        source: setting_source(k),
        subgroup: processor_subgroup(),
        setting: setting_name(k),
        value: setting_value(k),
    }
}

/// The step of the sequence at which a run can abort.
#[derive(Clone, Copy, PartialEq, Eq, Structural, Debug)]
pub enum StepName {
    CaptureActive,
    EnsureBenchmark,
    ResolveBaseline,
    Duplicate,
    Rename,
    ApplySetting,
    Switch,
    Hold,
    Restore,
}

/// Where the sequence stands: which reply (or elapsed hold) it waits for,
/// and which handles it carries forward.
#[derive(Debug)]
pub enum Phase {
    AwaitActive,
    AwaitBenchmark { active: PowerScheme },
    AwaitBaseline { active: PowerScheme },
    AwaitDuplicate { active: PowerScheme, benchmark: PowerScheme },
    AwaitRename { active: PowerScheme, benchmark: PowerScheme },
    AwaitSetting { active: PowerScheme, benchmark: PowerScheme, index: u8 },
    AwaitSwitch { active: PowerScheme },
    AwaitHold { active: PowerScheme },
    AwaitRestore,
    Finished,
    Failed { step: StepName },
}

/// Mathematical image of a `Phase`.
pub enum PhaseV {
    AwaitActive,
    AwaitBenchmark { active: Seq<char> },
    AwaitBaseline { active: Seq<char> },
    AwaitDuplicate { active: Seq<char>, benchmark: Seq<char> },
    AwaitRename { active: Seq<char>, benchmark: Seq<char> },
    AwaitSetting { active: Seq<char>, benchmark: Seq<char>, index: u8 },
    AwaitSwitch { active: Seq<char> },
    AwaitHold { active: Seq<char> },
    AwaitRestore,
    Finished,
    Failed { step: StepName },
}

impl View for Phase {
    type V = PhaseV;

    open spec fn view(&self) -> PhaseV {
        match self {
            Phase::AwaitActive => PhaseV::AwaitActive,
            Phase::AwaitBenchmark { active } => PhaseV::AwaitBenchmark { active: active@ },
            Phase::AwaitBaseline { active } => PhaseV::AwaitBaseline { active: active@ },
            Phase::AwaitDuplicate { active, benchmark } => PhaseV::AwaitDuplicate {
                active: active@,
                benchmark: benchmark@,
            },
            Phase::AwaitRename { active, benchmark } => PhaseV::AwaitRename {
                active: active@,
                benchmark: benchmark@,
            },
            Phase::AwaitSetting { active, benchmark, index } => PhaseV::AwaitSetting {
                active: active@,
                benchmark: benchmark@,
                index: *index,
            },
            Phase::AwaitSwitch { active } => PhaseV::AwaitSwitch { active: active@ },
            Phase::AwaitHold { active } => PhaseV::AwaitHold { active: active@ },
            Phase::AwaitRestore => PhaseV::AwaitRestore,
            Phase::Finished => PhaseV::Finished,
            Phase::Failed { step } => PhaseV::Failed { step: *step },
        }
    }
}

/// What one step of the sequence decides: go on and have the driver perform
/// an action, finish normally, or abort at the named step.
#[derive(Debug)]
pub enum Outcome {
    Continue(Action),
    Completed,
    Aborted(StepName),
}

/// Mathematical image of an `Outcome`.
pub enum OutcomeV {
    Continue(ActV),
    Completed,
    Aborted(StepName),
}

impl View for Outcome {
    type V = OutcomeV;

    open spec fn view(&self) -> OutcomeV {
        match self {
            Outcome::Continue(a) => OutcomeV::Continue(a@),
            Outcome::Completed => OutcomeV::Completed,
            Outcome::Aborted(s) => OutcomeV::Aborted(*s),
        }
    }
}

/// Every identifier a phase carries forward is in canonical shape.
pub open spec fn phase_wf(p: PhaseV) -> bool {
    match p {
        PhaseV::AwaitActive => true,
        PhaseV::AwaitBenchmark { active } => is_guid_shaped(active),
        PhaseV::AwaitBaseline { active } => is_guid_shaped(active),
        PhaseV::AwaitDuplicate { active, benchmark } => is_guid_shaped(active) && is_guid_shaped(
            benchmark,
        ),
        PhaseV::AwaitRename { active, benchmark } => is_guid_shaped(active) && is_guid_shaped(
            benchmark,
        ),
        PhaseV::AwaitSetting { active, benchmark, index } => is_guid_shaped(active)
            && is_guid_shaped(benchmark) && index < 6,
        PhaseV::AwaitSwitch { active } => is_guid_shaped(active),
        PhaseV::AwaitHold { active } => is_guid_shaped(active),
        PhaseV::AwaitRestore => true,
        PhaseV::Finished => true,
        PhaseV::Failed { .. } => true,
    }
}

/// The whole control sequence as one transition function: from the phase the
/// sequence stands in and the event the driver hands back, to the next phase
/// and what is decided. Failure at any step aborts at once; only the probe
/// for the well-known benchmark identifier may fail without aborting, by
/// falling back to creating the scheme from the maximum-performance
/// baseline.
pub open spec fn spec_step(p: PhaseV, e: EventV) -> (PhaseV, OutcomeV) {
    match p {
        PhaseV::AwaitActive => match e {
            EventV::Replied(r) => match unalias_v(r) {
                Some(active) => (
                    PhaseV::AwaitBenchmark { active },
                    OutcomeV::Continue(
                        ActV::Invoke(CallV::Query { target: benchmark_guid() }),
                    ),
                ),
                None => (
                    PhaseV::Failed { step: StepName::CaptureActive },
                    OutcomeV::Aborted(StepName::CaptureActive),
                ),
            },
            EventV::Held => (
                PhaseV::Failed { step: StepName::CaptureActive },
                OutcomeV::Aborted(StepName::CaptureActive),
            ),
        },
        PhaseV::AwaitBenchmark { active } => match e {
            EventV::Replied(r) => match unalias_v(r) {
                Some(benchmark) => (
                    PhaseV::AwaitSetting { active, benchmark, index: 0 },
                    OutcomeV::Continue(ActV::Invoke(setting_call(benchmark, 0))),
                ),
                None => (
                    PhaseV::AwaitBaseline { active },
                    OutcomeV::Continue(
                        ActV::Invoke(
                            CallV::Query { target: spec_alias(KnownPowerSchemes::Min) },
                        ),
                    ),
                ),
            },
            EventV::Held => (
                PhaseV::Failed { step: StepName::EnsureBenchmark },
                OutcomeV::Aborted(StepName::EnsureBenchmark),
            ),
        },
        PhaseV::AwaitBaseline { active } => match e {
            EventV::Replied(r) => match unalias_v(r) {
                Some(baseline) => (
                    PhaseV::AwaitDuplicate { active, benchmark: benchmark_guid() },
                    OutcomeV::Continue(
                        ActV::Invoke(
                            CallV::Duplicate { source: baseline, target: benchmark_guid() },
                        ),
                    ),
                ),
                None => (
                    PhaseV::Failed { step: StepName::ResolveBaseline },
                    OutcomeV::Aborted(StepName::ResolveBaseline),
                ),
            },
            EventV::Held => (
                PhaseV::Failed { step: StepName::ResolveBaseline },
                OutcomeV::Aborted(StepName::ResolveBaseline),
            ),
        },
        PhaseV::AwaitDuplicate { active, benchmark } => match e {
            EventV::Replied(r) => if r.success {
                (
                    PhaseV::AwaitRename { active, benchmark },
                    OutcomeV::Continue(
                        ActV::Invoke(
                            CallV::ChangeName {
                                target: benchmark,
                                name: benchmark_name(),
                                description: benchmark_description(),
                            },
                        ),
                    ),
                )
            } else {
                (
                    PhaseV::Failed { step: StepName::Duplicate },
                    OutcomeV::Aborted(StepName::Duplicate),
                )
            },
            EventV::Held => (
                PhaseV::Failed { step: StepName::Duplicate },
                OutcomeV::Aborted(StepName::Duplicate),
            ),
        },
        PhaseV::AwaitRename { active, benchmark } => match e {
            EventV::Replied(r) => if r.success {
                (
                    PhaseV::AwaitSetting { active, benchmark, index: 0 },
                    OutcomeV::Continue(ActV::Invoke(setting_call(benchmark, 0))),
                )
            } else {
                (
                    PhaseV::Failed { step: StepName::Rename },
                    OutcomeV::Aborted(StepName::Rename),
                )
            },
            EventV::Held => (
                PhaseV::Failed { step: StepName::Rename },
                OutcomeV::Aborted(StepName::Rename),
            ),
        },
        PhaseV::AwaitSetting { active, benchmark, index } => match e {
            EventV::Replied(r) => if r.success {
                if index < 5 {
                    (
                        PhaseV::AwaitSetting { active, benchmark, index: (index + 1) as u8 },
                        OutcomeV::Continue(
                            ActV::Invoke(setting_call(benchmark, index + 1)),
                        ),
                    )
                } else {
                    (
                        PhaseV::AwaitSwitch { active },
                        OutcomeV::Continue(
                            ActV::Invoke(CallV::SetActive { target: benchmark }),
                        ),
                    )
                }
            } else {
                (
                    PhaseV::Failed { step: StepName::ApplySetting },
                    OutcomeV::Aborted(StepName::ApplySetting),
                )
            },
            EventV::Held => (
                PhaseV::Failed { step: StepName::ApplySetting },
                OutcomeV::Aborted(StepName::ApplySetting),
            ),
        },
        PhaseV::AwaitSwitch { active } => match e {
            EventV::Replied(r) => if r.success {
                (PhaseV::AwaitHold { active }, OutcomeV::Continue(ActV::Hold(HOLD_SECONDS)))
            } else {
                (
                    PhaseV::Failed { step: StepName::Switch },
                    OutcomeV::Aborted(StepName::Switch),
                )
            },
            EventV::Held => (
                PhaseV::Failed { step: StepName::Switch },
                OutcomeV::Aborted(StepName::Switch),
            ),
        },
        PhaseV::AwaitHold { active } => match e {
            EventV::Held => (
                PhaseV::AwaitRestore,
                OutcomeV::Continue(ActV::Invoke(CallV::SetActive { target: active })),
            ),
            EventV::Replied(..) => (
                PhaseV::Failed { step: StepName::Hold },
                OutcomeV::Aborted(StepName::Hold),
            ),
        },
        PhaseV::AwaitRestore => match e {
            EventV::Replied(r) => if r.success {
                (PhaseV::Finished, OutcomeV::Completed)
            } else {
                (
                    PhaseV::Failed { step: StepName::Restore },
                    OutcomeV::Aborted(StepName::Restore),
                )
            },
            EventV::Held => (
                PhaseV::Failed { step: StepName::Restore },
                OutcomeV::Aborted(StepName::Restore),
            ),
        },
        PhaseV::Finished => (PhaseV::Finished, OutcomeV::Completed),
        PhaseV::Failed { step } => (PhaseV::Failed { step }, OutcomeV::Aborted(step)),
    }
}

/// The `k`-th setting write as a request against `benchmark`.
fn setting_write(benchmark: &PowerScheme, k: u8) -> (r: ServiceCall)
    requires
        k < 6,
    ensures
        r@ == setting_call(benchmark@, k as int),
{
    let src = if k % 2 == 0 {
        PowerSource::AC
    } else {
        PowerSource::DC
    };
    let name = if k < 2 {
        "PERFBOOSTMODE"
    } else if k < 4 {
        "PROCTHROTTLEMIN"
    } else {
        "PROCTHROTTLEMAX"
    };
    let value: u32 = if k < 2 {
        0
    } else {
        99
    };
    benchmark.set_value_index(src, "sub_processor", name, value)
}

/// The benchmark orchestrator: drives the capture / ensure / apply /
/// switch / hold / restore sequence one decision at a time. The driver
/// performs each returned action against the OS service and hands the
/// result back to `step`.
pub struct Orchestrator {
    pub phase: Phase,
}

impl Orchestrator {
    /// Every identifier the orchestrator carries is canonical.
    pub open spec fn inv(&self) -> bool {
        phase_wf(self.phase@)
    }

    /// Starts the sequence: the orchestrator awaits the reply to the first
    /// action, the query that captures the currently active scheme.
    pub fn new() -> (r: (Orchestrator, Action))
        ensures
            r.0.inv(),
            r.0.phase@ == PhaseV::AwaitActive,
            r.1@ == ActV::Invoke(CallV::Query { target: spec_alias(KnownPowerSchemes::Active) }),
    {
        let q = ServiceCall::Query { target: KnownPowerSchemes::Active.alias().to_owned() };
        (Orchestrator { phase: Phase::AwaitActive }, Action::Invoke(q))
    }

    /// Consumes the outcome of the last action and decides the next one,
    /// exactly as the transition function `spec_step` states.
    pub fn step(&mut self, e: &Event) -> (out: Outcome)
        requires
            old(self).inv(),
        ensures
            final(self).inv(),
            final(self).phase@ == spec_step(old(self).phase@, e@).0,
            out@ == spec_step(old(self).phase@, e@).1,
    {
        let (next, out) = match &self.phase {
            Phase::AwaitActive => match e {
                Event::Replied(reply) => match PowerScheme::get(reply) {
                    Some(active) => {
                        let q = ServiceCall::Query {
                            target: crate::resolve::benchmark_guid_str().to_owned(),
                        };
                        (
                            Phase::AwaitBenchmark { active },
                            Outcome::Continue(Action::Invoke(q)),
                        )
                    },
                    None => (
                        Phase::Failed { step: StepName::CaptureActive },
                        Outcome::Aborted(StepName::CaptureActive),
                    ),
                },
                Event::Held => (
                    Phase::Failed { step: StepName::CaptureActive },
                    Outcome::Aborted(StepName::CaptureActive),
                ),
            },
            Phase::AwaitBenchmark { active } => match e {
                Event::Replied(reply) => match PowerScheme::get(reply) {
                    Some(benchmark) => {
                        let c = setting_write(&benchmark, 0);
                        (
                            Phase::AwaitSetting { active: active.clone(), benchmark, index: 0 },
                            Outcome::Continue(Action::Invoke(c)),
                        )
                    },
                    None => {
                        let q = ServiceCall::Query {
                            target: KnownPowerSchemes::Min.alias().to_owned(),
                        };
                        (
                            Phase::AwaitBaseline { active: active.clone() },
                            Outcome::Continue(Action::Invoke(q)),
                        )
                    },
                },
                Event::Held => (
                    Phase::Failed { step: StepName::EnsureBenchmark },
                    Outcome::Aborted(StepName::EnsureBenchmark),
                ),
            },
            Phase::AwaitBaseline { active } => match e {
                Event::Replied(reply) => match PowerScheme::get(reply) {
                    Some(baseline) => {
                        proof {
                            lemma_benchmark_guid_shaped();
                        }
                        let (c, benchmark) = baseline.duplicate(
                            crate::resolve::benchmark_guid_str(),
                        );
                        (
                            Phase::AwaitDuplicate { active: active.clone(), benchmark },
                            Outcome::Continue(Action::Invoke(c)),
                        )
                    },
                    None => (
                        Phase::Failed { step: StepName::ResolveBaseline },
                        Outcome::Aborted(StepName::ResolveBaseline),
                    ),
                },
                Event::Held => (
                    Phase::Failed { step: StepName::ResolveBaseline },
                    Outcome::Aborted(StepName::ResolveBaseline),
                ),
            },
            Phase::AwaitDuplicate { active, benchmark } => match e {
                Event::Replied(reply) => if reply.success {
                    let c = benchmark.change_name(
                        "Benchmarks",
                        "Power scheme added by the bench-mode tool. Disables performance boost.",
                    );
                    (
                        Phase::AwaitRename {
                            active: active.clone(),
                            benchmark: benchmark.clone(),
                        },
                        Outcome::Continue(Action::Invoke(c)),
                    )
                } else {
                    (
                        Phase::Failed { step: StepName::Duplicate },
                        Outcome::Aborted(StepName::Duplicate),
                    )
                },
                Event::Held => (
                    Phase::Failed { step: StepName::Duplicate },
                    Outcome::Aborted(StepName::Duplicate),
                ),
            },
            Phase::AwaitRename { active, benchmark } => match e {
                Event::Replied(reply) => if reply.success {
                    let c = setting_write(benchmark, 0);
                    (
                        Phase::AwaitSetting {
                            active: active.clone(),
                            benchmark: benchmark.clone(),
                            index: 0,
                        },
                        Outcome::Continue(Action::Invoke(c)),
                    )
                } else {
                    (
                        Phase::Failed { step: StepName::Rename },
                        Outcome::Aborted(StepName::Rename),
                    )
                },
                Event::Held => (
                    Phase::Failed { step: StepName::Rename },
                    Outcome::Aborted(StepName::Rename),
                ),
            },
            Phase::AwaitSetting { active, benchmark, index } => match e {
                Event::Replied(reply) => if reply.success {
                    if *index < 5 {
                        let k: u8 = *index + 1;
                        let c = setting_write(benchmark, k);
                        (
                            Phase::AwaitSetting {
                                active: active.clone(),
                                benchmark: benchmark.clone(),
                                index: k,
                            },
                            Outcome::Continue(Action::Invoke(c)),
                        )
                    } else {
                        let c = benchmark.activate();
                        (
                            Phase::AwaitSwitch { active: active.clone() },
                            Outcome::Continue(Action::Invoke(c)),
                        )
                    }
                } else {
                    (
                        Phase::Failed { step: StepName::ApplySetting },
                        Outcome::Aborted(StepName::ApplySetting),
                    )
                },
                Event::Held => (
                    Phase::Failed { step: StepName::ApplySetting },
                    Outcome::Aborted(StepName::ApplySetting),
                ),
            },
            Phase::AwaitSwitch { active } => match e {
                Event::Replied(reply) => if reply.success {
                    (
                        Phase::AwaitHold { active: active.clone() },
                        Outcome::Continue(Action::Hold(HOLD_SECONDS)),
                    )
                } else {
                    (
                        Phase::Failed { step: StepName::Switch },
                        Outcome::Aborted(StepName::Switch),
                    )
                },
                Event::Held => (
                    Phase::Failed { step: StepName::Switch },
                    Outcome::Aborted(StepName::Switch),
                ),
            },
            Phase::AwaitHold { active } => match e {
                Event::Held => {
                    let c = active.activate();
                    (Phase::AwaitRestore, Outcome::Continue(Action::Invoke(c)))
                },
                Event::Replied(..) => (
                    Phase::Failed { step: StepName::Hold },
                    Outcome::Aborted(StepName::Hold),
                ),
            },
            Phase::AwaitRestore => match e {
                Event::Replied(reply) => if reply.success {
                    (Phase::Finished, Outcome::Completed)
                } else {
                    (
                        Phase::Failed { step: StepName::Restore },
                        Outcome::Aborted(StepName::Restore),
                    )
                },
                Event::Held => (
                    Phase::Failed { step: StepName::Restore },
                    Outcome::Aborted(StepName::Restore),
                ),
            },
            Phase::Finished => (Phase::Finished, Outcome::Completed),
            Phase::Failed { step } => (Phase::Failed { step: *step }, Outcome::Aborted(*step)),
        };
        self.phase = next;
        out
    }
}

} // verus!
