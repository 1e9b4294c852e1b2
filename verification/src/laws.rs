use vstd::prelude::*;
use crate::orchestrator::benchmark_description;
use crate::orchestrator::benchmark_name;
use crate::orchestrator::HOLD_SECONDS;
use crate::orchestrator::PhaseV;
use crate::orchestrator::OutcomeV;
use crate::orchestrator::setting_call;
use crate::orchestrator::spec_step;
use crate::resolve::benchmark_guid;
use crate::resolve::unalias_v;
use crate::scheme::KnownPowerSchemes;
use crate::scheme::spec_alias;
use crate::service::ActV;
use crate::service::CallV;
use crate::service::EventV;
use crate::service::ReplyV;

verus! {

/// The actions a run performs from phase `p` onward, one per consumed
/// event, up to (and not including) the point where it completes or aborts.
pub open spec fn run_trace(p: PhaseV, events: Seq<EventV>) -> Seq<ActV>
    decreases events.len(),
{
    if events.len() == 0 {
        Seq::empty()
    } else {
        let s = spec_step(p, events[0]);
        match s.1 {
            OutcomeV::Continue(a) => seq![a] + run_trace(s.0, events.skip(1)),
            OutcomeV::Completed => Seq::empty(),
            OutcomeV::Aborted(..) => Seq::empty(),
        }
    }
}

/// The phase a run stands in after consuming `events` from phase `p`.
pub open spec fn run_phase(p: PhaseV, events: Seq<EventV>) -> PhaseV
    decreases events.len(),
{
    if events.len() == 0 {
        p
    } else {
        run_phase(spec_step(p, events[0]).0, events.skip(1))
    }
}

/// An action that creates the benchmark scheme: a duplication or a rename.
pub open spec fn is_creation(a: ActV) -> bool {
    a matches ActV::Invoke(c) && (c is Duplicate || c is ChangeName)
}

/// A setting-write action.
pub open spec fn is_setting_write(a: ActV) -> bool {
    a matches ActV::Invoke(c) && c is SetValue
}

/// An activation action.
pub open spec fn is_activation(a: ActV) -> bool {
    a matches ActV::Invoke(c) && c is SetActive
}

/// A duplication action.
pub open spec fn is_duplication(a: ActV) -> bool {
    a matches ActV::Invoke(c) && c is Duplicate
}

/// A rename action.
pub open spec fn is_rename(a: ActV) -> bool {
    a matches ActV::Invoke(c) && c is ChangeName
}

/// Phases from which the sequence issues no duplication and no rename any
/// more.
pub open spec fn creation_done(p: PhaseV) -> bool {
    match p {
        PhaseV::AwaitSetting { .. } => true,
        PhaseV::AwaitSwitch { .. } => true,
        PhaseV::AwaitHold { .. } => true,
        PhaseV::AwaitRestore => true,
        PhaseV::Finished => true,
        PhaseV::Failed { .. } => true,
        _ => false,
    }
}

/// Phases from which the sequence issues no setting write any more.
pub open spec fn writes_done(p: PhaseV) -> bool {
    match p {
        PhaseV::AwaitSwitch { .. } => true,
        PhaseV::AwaitHold { .. } => true,
        PhaseV::AwaitRestore => true,
        PhaseV::Finished => true,
        PhaseV::Failed { .. } => true,
        _ => false,
    }
}

/// From any phase past the ensure-benchmark step, no run ever issues a
/// duplication or a rename again.
pub proof fn lemma_no_creation_after(p: PhaseV, events: Seq<EventV>)
    requires
        creation_done(p),
    ensures
        forall|i: int|
            0 <= i < run_trace(p, events).len() ==> !is_creation(
                #[trigger] run_trace(p, events)[i],
            ),
    decreases events.len(),
{
    if events.len() > 0 {
        let s = spec_step(p, events[0]);
        assert(creation_done(s.0));
        lemma_no_creation_after(s.0, events.skip(1));
        if s.1 is Continue {
            let a = s.1->Continue_0;
            assert(!is_creation(a));
            assert forall|i: int| 0 <= i < run_trace(p, events).len() implies !is_creation(
                run_trace(p, events)[i],
            ) by {
                if i > 0 {
                    assert(run_trace(p, events)[i] == run_trace(s.0, events.skip(1))[i - 1]);
                }
            }
        }
    }
}

/// From any phase past the apply-settings step, no run ever issues a
/// setting write again.
pub proof fn lemma_no_writes_after(p: PhaseV, events: Seq<EventV>)
    requires
        writes_done(p),
    ensures
        forall|i: int|
            0 <= i < run_trace(p, events).len() ==> !is_setting_write(
                #[trigger] run_trace(p, events)[i],
            ),
    decreases events.len(),
{
    if events.len() > 0 {
        let s = spec_step(p, events[0]);
        assert(writes_done(s.0));
        lemma_no_writes_after(s.0, events.skip(1));
        if s.1 is Continue {
            let a = s.1->Continue_0;
            assert(!is_setting_write(a));
            assert forall|i: int| 0 <= i < run_trace(p, events).len() implies !is_setting_write(
                run_trace(p, events)[i],
            ) by {
                if i > 0 {
                    assert(run_trace(p, events)[i] == run_trace(s.0, events.skip(1))[i - 1]);
                }
            }
        }
    }
}

/// Law: if the well-known benchmark identifier already resolves, the
/// creation path is never taken — the rest of the run, whatever its
/// replies, performs no duplication and no rename.
pub proof fn lemma_reuse_no_creation(active: Seq<char>, r: ReplyV, rest: Seq<EventV>)
    ensures ({
        let t = run_trace(PhaseV::AwaitBenchmark { active }, seq![EventV::Replied(r)] + rest);
        unalias_v(r) is Some ==> forall|i: int|
            0 <= i < t.len() ==> !is_creation(#[trigger] t[i])
    }),
{
    let events = seq![EventV::Replied(r)] + rest;
    let t = run_trace(PhaseV::AwaitBenchmark { active }, events);
    if unalias_v(r) is Some {
        let benchmark = unalias_v(r)->0;
        let s = spec_step(PhaseV::AwaitBenchmark { active }, events[0]);
        assert(s.0 == PhaseV::AwaitSetting { active, benchmark, index: 0u8 });
        assert(events.skip(1) =~= rest);
        lemma_no_creation_after(s.0, rest);
        assert forall|i: int| 0 <= i < t.len() implies !is_creation(t[i]) by {
            if i > 0 {
                assert(t[i] == run_trace(s.0, rest)[i - 1]);
            }
        }
    }
}

/// Law: a failed reply anywhere but at the probe for the well-known
/// benchmark identifier stops the run at once: no further action of any
/// kind is issued.
pub proof fn lemma_failure_stops_run(p: PhaseV, r: ReplyV, rest: Seq<EventV>)
    requires
        !r.success,
        !(p matches PhaseV::AwaitBenchmark { .. }),
    ensures
        run_trace(p, seq![EventV::Replied(r)] + rest) =~= Seq::<ActV>::empty(),
        !(p is Finished) ==> spec_step(p, EventV::Replied(r)).1 is Aborted,
{
    let events = seq![EventV::Replied(r)] + rest;
    assert(events[0] == EventV::Replied(r));
    assert(!(spec_step(p, events[0]).1 is Continue));
}

/// Law: once the activation of the benchmark scheme succeeds, the run holds
/// for exactly the fixed duration and then — with nothing in between —
/// activates the originally captured scheme.
pub proof fn lemma_hold_then_restore(active: Seq<char>, r: ReplyV, rest: Seq<EventV>)
    requires
        r.success,
    ensures ({
        let t = run_trace(PhaseV::AwaitSwitch { active }, seq![EventV::Replied(r)] + rest);
        &&& t.len() >= 1
        &&& t[0] == ActV::Hold(HOLD_SECONDS)
        &&& (rest.len() >= 1 && rest[0] is Held) ==> t.len() >= 2 && t[1] == ActV::Invoke(
            CallV::SetActive { target: active },
        )
    }),
{
    let events = seq![EventV::Replied(r)] + rest;
    let t = run_trace(PhaseV::AwaitSwitch { active }, events);
    let s = spec_step(PhaseV::AwaitSwitch { active }, events[0]);
    assert(s.0 == PhaseV::AwaitHold { active });
    assert(events.skip(1) =~= rest);
    if rest.len() >= 1 && rest[0] is Held {
        assert(t[1] == run_trace(s.0, rest)[0]);
    }
}

/// From the wait for the rename reply onward, no duplication and no rename
/// is ever issued again.
proof fn lemma_after_rename(active: Seq<char>, benchmark: Seq<char>, events: Seq<EventV>)
    ensures ({
        let w = run_trace(PhaseV::AwaitRename { active, benchmark }, events);
        forall|i: int| 0 <= i < w.len() ==> !is_creation(#[trigger] w[i])
    }),
{
    let w = run_trace(PhaseV::AwaitRename { active, benchmark }, events);
    if events.len() > 0 {
        let s = spec_step(PhaseV::AwaitRename { active, benchmark }, events[0]);
        if s.1 is Continue {
            lemma_no_creation_after(s.0, events.skip(1));
            assert forall|i: int| 0 <= i < w.len() implies !is_creation(w[i]) by {
                if i > 0 {
                    assert(w[i] == run_trace(s.0, events.skip(1))[i - 1]);
                }
            }
        }
    }
}

/// From the wait for the duplication reply onward: no further duplication,
/// at most one rename — the request that renames the benchmark scheme,
/// which is the very next action — and setting writes only after it.
proof fn lemma_after_duplicate(active: Seq<char>, benchmark: Seq<char>, events: Seq<EventV>)
    ensures ({
        let v = run_trace(PhaseV::AwaitDuplicate { active, benchmark }, events);
        &&& forall|i: int| 0 <= i < v.len() ==> !is_duplication(#[trigger] v[i])
        &&& forall|i: int| 0 <= i < v.len() && is_rename(#[trigger] v[i]) ==> i == 0
        &&& v.len() >= 1 ==> v[0] == ActV::Invoke(
            CallV::ChangeName {
                target: benchmark,
                name: benchmark_name(),
                description: benchmark_description(),
            },
        )
        &&& forall|i: int| 0 <= i < v.len() && is_setting_write(#[trigger] v[i]) ==> i >= 1
    }),
{
    let v = run_trace(PhaseV::AwaitDuplicate { active, benchmark }, events);
    if events.len() > 0 {
        let s = spec_step(PhaseV::AwaitDuplicate { active, benchmark }, events[0]);
        if s.1 is Continue {
            lemma_after_rename(active, benchmark, events.skip(1));
            let w = run_trace(s.0, events.skip(1));
            assert forall|i: int| 0 <= i < v.len() && i > 0 implies v[i] == w[i - 1] by {}
        }
    }
}

/// Law: if the well-known benchmark identifier does not resolve, the run
/// resolves the maximum-performance baseline and then performs exactly one
/// duplication — from that baseline to the well-known identifier — and
/// exactly one rename, in that order, before any setting write.
pub proof fn lemma_create_once(active: Seq<char>, r: ReplyV, rest: Seq<EventV>)
    requires
        unalias_v(r) is None,
    ensures ({
        let t = run_trace(PhaseV::AwaitBenchmark { active }, seq![EventV::Replied(r)] + rest);
        &&& t.len() >= 1
        &&& t[0] == ActV::Invoke(CallV::Query { target: spec_alias(KnownPowerSchemes::Min) })
        &&& forall|i: int| 0 <= i < t.len() && is_duplication(#[trigger] t[i]) ==> i == 1
        &&& forall|i: int| 0 <= i < t.len() && is_rename(#[trigger] t[i]) ==> i == 2
        &&& t.len() >= 2 ==> (rest[0] matches EventV::Replied(r1) && unalias_v(r1) is Some
            && t[1] == ActV::Invoke(
            CallV::Duplicate { source: unalias_v(r1)->0, target: benchmark_guid() },
        ))
        &&& t.len() >= 3 ==> t[2] == ActV::Invoke(
            CallV::ChangeName {
                target: benchmark_guid(),
                name: benchmark_name(),
                description: benchmark_description(),
            },
        )
        &&& forall|i: int| 0 <= i < t.len() && is_setting_write(#[trigger] t[i]) ==> i >= 3
    }),
{
    let events = seq![EventV::Replied(r)] + rest;
    let t = run_trace(PhaseV::AwaitBenchmark { active }, events);
    let s = spec_step(PhaseV::AwaitBenchmark { active }, events[0]);
    assert(s.0 == PhaseV::AwaitBaseline { active });
    assert(events.skip(1) =~= rest);
    let u = run_trace(PhaseV::AwaitBaseline { active }, rest);
    assert(t == seq![
        ActV::Invoke(CallV::Query { target: spec_alias(KnownPowerSchemes::Min) }),
    ] + u);
    if rest.len() > 0 {
        let s2 = spec_step(PhaseV::AwaitBaseline { active }, rest[0]);
        if s2.1 is Continue {
            let baseline = unalias_v(rest[0]->Replied_0)->0;
            assert(s2.0 == PhaseV::AwaitDuplicate { active, benchmark: benchmark_guid() });
            lemma_after_duplicate(active, benchmark_guid(), rest.skip(1));
            let v = run_trace(s2.0, rest.skip(1));
            assert(u == seq![
                ActV::Invoke(
                    CallV::Duplicate { source: baseline, target: benchmark_guid() },
                ),
            ] + v);
            assert forall|i: int| 0 <= i < t.len() && i >= 2 implies t[i] == v[i - 2] by {}
        }
    }
}

/// From the wait for the reply to setting write `k` onward: the next
/// `5 - k` actions are the remaining setting writes in their fixed order,
/// the action after them — the first activation the run ever issues from
/// here — activates the benchmark scheme, and no setting write follows it.
proof fn lemma_settings_then_switch(
    active: Seq<char>,
    benchmark: Seq<char>,
    k: u8,
    events: Seq<EventV>,
)
    requires
        k < 6,
    ensures ({
        let u = run_trace(PhaseV::AwaitSetting { active, benchmark, index: k }, events);
        let rem: int = 5 - k as int;
        &&& forall|i: int| 0 <= i < u.len() && i < rem ==> u[i] == ActV::Invoke(
            setting_call(benchmark, k + 1 + i),
        )
        &&& forall|i: int| 0 <= i < u.len() && is_setting_write(#[trigger] u[i]) ==> i < rem
        &&& forall|i: int| 0 <= i < u.len() && is_activation(#[trigger] u[i]) ==> i >= rem
        &&& u.len() > rem ==> u[rem] == ActV::Invoke(CallV::SetActive { target: benchmark })
    }),
    decreases events.len(),
{
    let u = run_trace(PhaseV::AwaitSetting { active, benchmark, index: k }, events);
    let rem: int = 5 - k as int;
    if events.len() > 0 {
        let s = spec_step(PhaseV::AwaitSetting { active, benchmark, index: k }, events[0]);
        if s.1 is Continue {
            if k < 5 {
                lemma_settings_then_switch(active, benchmark, (k + 1) as u8, events.skip(1));
                let w = run_trace(s.0, events.skip(1));
                assert forall|i: int| 0 <= i < u.len() && i > 0 implies u[i] == w[i - 1] by {}
            } else {
                lemma_no_writes_after(s.0, events.skip(1));
                let w = run_trace(s.0, events.skip(1));
                assert forall|i: int| 0 <= i < u.len() && i > 0 implies u[i] == w[i - 1] by {}
            }
        }
    }
}

/// Law: counting the write that enters the apply-settings step, exactly six
/// setting writes — boost mode, minimum throttle and maximum throttle, each
/// to the AC and then the DC table, six pairwise distinct requests — go out
/// before the first activation, and that activation is of the benchmark
/// scheme.
pub proof fn lemma_six_writes_before_activation(
    active: Seq<char>,
    benchmark: Seq<char>,
    events: Seq<EventV>,
)
    ensures ({
        let t = seq![ActV::Invoke(setting_call(benchmark, 0))] + run_trace(
            PhaseV::AwaitSetting { active, benchmark, index: 0 },
            events,
        );
        &&& forall|i: int| 0 <= i < t.len() && i < 6 ==> t[i] == ActV::Invoke(
            setting_call(benchmark, i),
        )
        &&& forall|i: int| 0 <= i < t.len() && is_setting_write(#[trigger] t[i]) ==> i < 6
        &&& forall|i: int| 0 <= i < t.len() && is_activation(#[trigger] t[i]) ==> i >= 6
        &&& t.len() > 6 ==> t[6] == ActV::Invoke(CallV::SetActive { target: benchmark })
        &&& forall|j: int, k: int|
            0 <= j < k < 6 ==> setting_call(benchmark, j) != setting_call(benchmark, k)
    }),
{
    let u = run_trace(PhaseV::AwaitSetting { active, benchmark, index: 0 }, events);
    let t = seq![ActV::Invoke(setting_call(benchmark, 0))] + u;
    lemma_settings_then_switch(active, benchmark, 0, events);
    assert forall|i: int| 0 <= i < t.len() && i > 0 implies t[i] == u[i - 1] by {}
    reveal_strlit("PERFBOOSTMODE");
    reveal_strlit("PROCTHROTTLEMIN");
    reveal_strlit("PROCTHROTTLEMAX");
    assert("PERFBOOSTMODE"@.len() == 13);
    assert("PROCTHROTTLEMIN"@.len() == 15);
    assert("PROCTHROTTLEMAX"@.len() == 15);
    assert("PROCTHROTTLEMIN"@[13] == 'I');
    assert("PROCTHROTTLEMAX"@[13] == 'A');
    assert forall|j: int, k: int| 0 <= j < k < 6 implies setting_call(benchmark, j)
        != setting_call(benchmark, k) by {
        if crate::orchestrator::setting_name(j) == crate::orchestrator::setting_name(k) {
            assert(crate::orchestrator::setting_source(j)
                != crate::orchestrator::setting_source(k));
        }
    }
}

/// An aborted run never leaves its failed state, whatever else comes in.
proof fn lemma_failed_stays(s: crate::orchestrator::StepName, events: Seq<EventV>)
    ensures
        run_phase(PhaseV::Failed { step: s }, events) == (PhaseV::Failed { step: s }),
    decreases events.len(),
{
    if events.len() > 0 {
        lemma_failed_stays(s, events.skip(1));
    }
}

/// Law (idempotence across runs): a run that completes normally has made
/// sure the benchmark scheme exists under its well-known identifier. Either
/// that identifier resolved at the probe — and the whole run performed no
/// duplication and no rename — or the run's one duplication onto the
/// well-known identifier and its one rename were both answered with
/// success. The OS store persists the scheme, so the probe of a second run
/// started after completion resolves, and by `lemma_reuse_no_creation` that
/// run reuses the scheme: it performs no duplication and no rename either.
pub proof fn lemma_completed_run_ensured_scheme(events: Seq<EventV>)
    requires
        run_phase(PhaseV::AwaitActive, events) is Finished,
    ensures ({
        let t = run_trace(PhaseV::AwaitActive, events);
        &&& events.len() >= 2
        &&& events[0] matches EventV::Replied(r0) && unalias_v(r0) is Some
        &&& events[1] is Replied
        &&& (unalias_v(events[1]->Replied_0) is Some ==> forall|i: int|
            0 <= i < t.len() ==> !is_creation(#[trigger] t[i]))
        &&& (unalias_v(events[1]->Replied_0) is None ==> {
            &&& t.len() >= 4
            &&& is_duplication(t[2])
            &&& t[2]->Invoke_0 matches CallV::Duplicate { target, .. } && target
                == benchmark_guid()
            &&& is_rename(t[3])
            &&& events.len() >= 5
            &&& events[3] matches EventV::Replied(r3) && r3.success
            &&& events[4] matches EventV::Replied(r4) && r4.success
        })
    }),
{
    let t = run_trace(PhaseV::AwaitActive, events);
    assert(events.len() > 0);
    let e0 = events[0];
    let s1 = spec_step(PhaseV::AwaitActive, e0);
    let ev1 = events.skip(1);
    assert(run_phase(PhaseV::AwaitActive, events) == run_phase(s1.0, ev1));
    match s1.0 {
        PhaseV::Failed { step } => {
            lemma_failed_stays(step, ev1);
            assert(false);
        },
        _ => {},
    }
    let active = unalias_v(e0->Replied_0)->0;
    assert(s1.0 == PhaseV::AwaitBenchmark { active });
    assert(ev1.len() > 0);
    let e1 = ev1[0];
    assert(e1 == events[1]);
    let s2 = spec_step(s1.0, e1);
    let ev2 = ev1.skip(1);
    assert(ev2 =~= events.skip(2));
    assert(run_phase(s1.0, ev1) == run_phase(s2.0, ev2));
    match s2.0 {
        PhaseV::Failed { step } => {
            lemma_failed_stays(step, ev2);
            assert(false);
        },
        _ => {},
    }
    let r1 = events[1]->Replied_0;
    let u = run_trace(s1.0, ev1);
    assert(t == seq![ActV::Invoke(CallV::Query { target: benchmark_guid() })] + u);
    if unalias_v(r1) is Some {
        let benchmark = unalias_v(r1)->0;
        assert(s2.0 == PhaseV::AwaitSetting { active, benchmark, index: 0u8 });
        lemma_no_creation_after(s2.0, ev2);
        let x = run_trace(s2.0, ev2);
        assert(u == seq![ActV::Invoke(setting_call(benchmark, 0))] + x);
        assert forall|i: int| 0 <= i < t.len() implies !is_creation(t[i]) by {
            if i >= 2 {
                assert(t[i] == x[i - 2]);
            }
        }
    } else {
        assert(s2.0 == PhaseV::AwaitBaseline { active });
        assert(u == seq![ActV::Invoke(CallV::Query { target: spec_alias(KnownPowerSchemes::Min) })]
            + run_trace(s2.0, ev2));
        assert(ev2.len() > 0);
        let e2 = ev2[0];
        assert(e2 == events[2]);
        let s3 = spec_step(s2.0, e2);
        let ev3 = ev2.skip(1);
        assert(ev3 =~= events.skip(3));
        assert(run_phase(s2.0, ev2) == run_phase(s3.0, ev3));
        match s3.0 {
            PhaseV::Failed { step } => {
                lemma_failed_stays(step, ev3);
                assert(false);
            },
            _ => {},
        }
        let baseline = unalias_v(e2->Replied_0)->0;
        assert(s3.0 == PhaseV::AwaitDuplicate { active, benchmark: benchmark_guid() });
        let v = run_trace(s3.0, ev3);
        assert(run_trace(s2.0, ev2) == seq![
            ActV::Invoke(CallV::Duplicate { source: baseline, target: benchmark_guid() }),
        ] + v);
        assert(t[2] == ActV::Invoke(
            CallV::Duplicate { source: baseline, target: benchmark_guid() },
        ));
        assert(ev3.len() > 0);
        let e3 = ev3[0];
        assert(e3 == events[3]);
        let s4 = spec_step(s3.0, e3);
        let ev4 = ev3.skip(1);
        assert(ev4 =~= events.skip(4));
        assert(run_phase(s3.0, ev3) == run_phase(s4.0, ev4));
        match s4.0 {
            PhaseV::Failed { step } => {
                lemma_failed_stays(step, ev4);
                assert(false);
            },
            _ => {},
        }
        assert(s4.0 == PhaseV::AwaitRename { active, benchmark: benchmark_guid() });
        let w = run_trace(s4.0, ev4);
        assert(v == seq![
            ActV::Invoke(
                CallV::ChangeName {
                    target: benchmark_guid(),
                    name: benchmark_name(),
                    description: benchmark_description(),
                },
            ),
        ] + w);
        assert(t[3] == ActV::Invoke(
            CallV::ChangeName {
                target: benchmark_guid(),
                name: benchmark_name(),
                description: benchmark_description(),
            },
        ));
        assert(ev4.len() > 0);
        let e4 = ev4[0];
        assert(e4 == events[4]);
        let s5 = spec_step(s4.0, e4);
        match s5.0 {
            PhaseV::Failed { step } => {
                lemma_failed_stays(step, ev4.skip(1));
                assert(false);
            },
            _ => {},
        }
        assert(e4 matches EventV::Replied(r4) && r4.success);
    }
}

} // verus!
