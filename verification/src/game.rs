//! The turn controller and directive resolver: the core state machine.
//!
//! One engine value owns the world, the current document batch, the per-turn
//! budgets and the pseudo-random stream. A caller starts a turn, submits
//! directives until one consumes the turn, then checks terminality; when the
//! red-phone flag is set, the crisis resolver runs before normal flow
//! resumes.

use crate::document::Document;
use crate::feedback::{AdviceKind, Feedback};
use crate::rng::SimpleRng;
use crate::state::{
    at_most_one_mole, clamp1000, clamp_unit, has_mole, sat64, sat_add, sat_u32,
    Advisor, AdvisorRole, WorldState,
};
use crate::text::{contains_fold, contains_folded};
use vstd::prelude::*;

verus! {

/// The closed set of commands a player (or the override) can issue.
#[derive(Clone, Debug, PartialEq)]
pub enum Directive {
    /// Turn-ending. Raises tension and paranoia; may cow the enemy.
    Escalate,
    /// Turn-ending. Advances the weapon and lowers secrecy.
    Investigate,
    /// Turn-ending. Lowers tension unless the enemy is too paranoid.
    Contain,
    /// Turn-ending. Trades secrecy for stability.
    Leak,
    /// Turn-ending. A capitulation: large simultaneous drops.
    StandDown,
    /// Minor. Spend intel to decrypt a document by id.
    Decrypt(String),
    /// Minor. Spend intel to grade a document's reliability.
    Analyze(String),
    /// Minor. Spend intel to trace a signal to an advisor.
    Trace(String),
    /// Minor. Ask an advisor for counsel.
    Consult(String),
    /// Minor. Aggressively question an advisor.
    Interrogate(String),
}

/// The five zero-argument directives are the turn-consuming ones.
pub open spec fn directive_is_major(d: Directive) -> bool {
    ||| d is Escalate
    ||| d is Investigate
    ||| d is Contain
    ||| d is Leak
    ||| d is StandDown
}

/// A fuzzy advisor reference resolves against an advisor: case-insensitive
/// substring match on the display name or the role label.
pub open spec fn advisor_matches(a: Advisor, target: Seq<char>) -> bool {
    contains_folded(a.name@, target) || contains_folded(a.role.label_s(), target)
}

/// `i` is the first advisor, in roster order, that the reference resolves to.
pub open spec fn first_advisor_match(s: Seq<Advisor>, target: Seq<char>, i: int) -> bool {
    &&& 0 <= i < s.len()
    &&& advisor_matches(s[i], target)
    &&& forall|j: int| 0 <= j < i ==> !advisor_matches(#[trigger] s[j], target)
}

/// The reference resolves to no advisor at all.
pub open spec fn no_advisor_match(s: Seq<Advisor>, target: Seq<char>) -> bool {
    forall|j: int| 0 <= j < s.len() ==> !advisor_matches(#[trigger] s[j], target)
}

/// `i` is the first document in the batch with the given id.
pub open spec fn first_doc_match(docs: Seq<Document>, id: Seq<char>, i: int) -> bool {
    &&& 0 <= i < docs.len()
    &&& docs[i].id@ == id
    &&& forall|j: int| 0 <= j < i ==> (#[trigger] docs[j]).id@ != id
}

/// Some document in the batch carries the given id.
pub open spec fn has_doc_id(docs: Seq<Document>, id: Seq<char>) -> bool {
    exists|i: int| 0 <= i < docs.len() && (#[trigger] docs[i]).id@ == id
}

/// A name list holds a given name.
pub open spec fn contains_name(names: Seq<String>, name: Seq<char>) -> bool {
    exists|k: int| 0 <= k < names.len() && (#[trigger] names[k])@ == name
}

/// No two entries of a name list are the same name.
pub open spec fn distinct_strs(names: Seq<String>) -> bool {
    forall|i: int, j: int| 0 <= i < j < names.len() ==> names[i]@ != names[j]@
}

/// Names, roles, seat count and mole marks all carry over; only suspicion
/// may move.
pub open spec fn roster_preserved(a0: Seq<Advisor>, a1: Seq<Advisor>) -> bool {
    &&& a1.len() == a0.len()
    &&& forall|i: int|
        0 <= i < a0.len() ==> (#[trigger] a1[i]).name@ == a0[i].name@ && a1[i].role == a0[i].role
            && a1[i].is_mole == a0[i].is_mole
}

/// Escalation's successful-deterrence branch: moderate tension and paranoia
/// gains with a small stability boost.
pub open spec fn escalate_good_s(w: WorldState) -> WorldState {
    WorldState {
        global_tension: sat64(w.global_tension + 200),
        foreign_paranoia: sat64(w.foreign_paranoia + 200),
        domestic_stability: sat64(w.domestic_stability + 50),
        ..w
    }
}

/// Escalation's near-miss branch: a larger tension gain plus an accident-risk
/// bump.
pub open spec fn escalate_bad_s(w: WorldState) -> WorldState {
    WorldState {
        global_tension: sat64(w.global_tension + 350),
        accidental_escalation_risk: sat64(w.accidental_escalation_risk + 150),
        ..w
    }
}

/// Investigation: secrecy falls, the weapon advances, and on the lucky roll
/// the accident risk falls too.
pub open spec fn investigate_s(w: WorldState, tightened: bool) -> WorldState {
    WorldState {
        internal_secrecy: sat64(w.internal_secrecy - 100),
        secret_weapon_progress: sat64(w.secret_weapon_progress + 150),
        accidental_escalation_risk: if tightened {
            sat64(w.accidental_escalation_risk - 100)
        } else {
            w.accidental_escalation_risk
        },
        ..w
    }
}

/// Containment: fails against a paranoid enemy (tension rises), otherwise
/// tension and stability both fall.
pub open spec fn contain_s(w: WorldState) -> WorldState {
    if w.foreign_paranoia > 600 {
        WorldState { global_tension: sat64(w.global_tension + 100), ..w }
    } else {
        WorldState {
            global_tension: sat64(w.global_tension - 150),
            domestic_stability: sat64(w.domestic_stability - 100),
            ..w
        }
    }
}

/// A leak: secrecy drops sharply, stability rises, paranoia eases.
pub open spec fn leak_s(w: WorldState) -> WorldState {
    WorldState {
        internal_secrecy: sat64(w.internal_secrecy - 250),
        domestic_stability: sat64(w.domestic_stability + 200),
        foreign_paranoia: sat64(w.foreign_paranoia - 50),
        ..w
    }
}

/// Standing down: large simultaneous drops to tension, paranoia and
/// stability.
pub open spec fn stand_down_s(w: WorldState) -> WorldState {
    WorldState {
        global_tension: sat64(w.global_tension - 400),
        foreign_paranoia: sat64(w.foreign_paranoia - 300),
        domestic_stability: sat64(w.domestic_stability - 350),
        ..w
    }
}

/// Passive drift after a consumed turn: tension and weapon progress creep up
/// once past their thresholds.
pub open spec fn drift_s(w: WorldState) -> WorldState {
    WorldState {
        global_tension: if w.global_tension > 300 {
            sat64(w.global_tension + 30)
        } else {
            w.global_tension
        },
        secret_weapon_progress: if w.secret_weapon_progress > 200 {
            sat64(w.secret_weapon_progress + 20)
        } else {
            w.secret_weapon_progress
        },
        ..w
    }
}

/// The low-probability red-phone trigger: only possible while drifted
/// tension reads above the threshold.
pub open spec fn red_phone_s(w: WorldState, red_roll: bool) -> WorldState {
    WorldState {
        red_phone_active: w.red_phone_active || (w.global_tension > 800 && red_roll),
        ..w
    }
}

/// An unauthorized silo activation fired on this resolution.
pub open spec fn silo_spike(w: WorldState, silo_roll: bool) -> bool {
    w.accidental_escalation_risk > 600 && silo_roll
}

/// The silo tension spike; the result stays within the unit interval.
pub open spec fn silo_s(w: WorldState, silo_roll: bool) -> WorldState {
    if silo_spike(w, silo_roll) {
        WorldState { global_tension: clamp1000(w.global_tension + 150), ..w }
    } else {
        w
    }
}

/// Corruption accumulates in proportion to weapon progress past one half,
/// and is clamped to the unit interval unconditionally.
pub open spec fn corruption_s(w: WorldState) -> WorldState {
    if w.secret_weapon_progress > 500 {
        WorldState {
            system_corruption: clamp1000(
                w.system_corruption + (w.secret_weapon_progress - 500) / 10,
            ),
            ..w
        }
    } else {
        WorldState { system_corruption: clamp1000(w.system_corruption as int), ..w }
    }
}

/// The whole turn-ending post-step: drift, the red-phone roll, the clamp,
/// the possible silo spike, and the corruption update.
pub open spec fn post_step_s(w: WorldState, red_roll: bool, silo_roll: bool) -> WorldState {
    let clamped = WorldState::clamp_bounded_s(red_phone_s(drift_s(w), red_roll));
    corruption_s(silo_s(clamped, silo_roll))
}

/// The warning lines the post-step may add: a silo warning when the spike
/// fires, then a corruption whisper when corruption runs critical.
pub open spec fn post_step_fb(
    w: WorldState,
    red_roll: bool,
    silo_roll: bool,
    whisper_roll: bool,
) -> Seq<Feedback> {
    let clamped = WorldState::clamp_bounded_s(red_phone_s(drift_s(w), red_roll));
    let warn: Seq<Feedback> = if silo_spike(clamped, silo_roll) {
        seq![Feedback::SiloWarning]
    } else {
        Seq::empty()
    };
    let done = post_step_s(w, red_roll, silo_roll);
    let whisper: Seq<Feedback> = if done.system_corruption > 900 && whisper_roll {
        seq![Feedback::CorruptionWhisper]
    } else {
        Seq::empty()
    };
    warn + whisper
}

/// Everything a turn-ending directive leaves untouched: turn bookkeeping,
/// budgets, rate limits and the document batch.
pub open spec fn major_frame(e0: GameEngine, e1: GameEngine) -> bool {
    &&& e1.turn_count == e0.turn_count
    &&& e1.max_intel_points == e0.max_intel_points
    &&& e1.interruption_active == e0.interruption_active
    &&& e1.intel_points == e0.intel_points
    &&& e1.consult_count == e0.consult_count
    &&& e1.traces_this_turn == e0.traces_this_turn
    &&& e1.interrogations_this_turn == e0.interrogations_this_turn
    &&& e1.traced_advisors@ == e0.traced_advisors@
    &&& e1.interrogated_advisors@ == e0.interrogated_advisors@
    &&& e1.pending_documents@ == e0.pending_documents@
}

/// One complete escalation resolution with all four rolls fixed.
pub open spec fn escalate_witness(
    e0: GameEngine,
    e1: GameEngine,
    fb: Seq<Feedback>,
    good: bool,
    red_roll: bool,
    silo_roll: bool,
    whisper_roll: bool,
) -> bool {
    let w1 = if good {
        escalate_good_s(e0.state)
    } else {
        escalate_bad_s(e0.state)
    };
    let head: Seq<Feedback> = if good {
        seq![Feedback::EscalatePrimed, Feedback::EscalatePanic]
    } else {
        seq![Feedback::EscalateMisfire]
    };
    &&& e1.state == post_step_s(w1, red_roll, silo_roll)
    &&& fb == head + post_step_fb(w1, red_roll, silo_roll, whisper_roll)
}

/// The escalation contract: framed, and one of the two narrated branches
/// followed by the post-step.
pub open spec fn escalate_post(e0: GameEngine, e1: GameEngine, fb: Seq<Feedback>) -> bool {
    &&& major_frame(e0, e1)
    &&& exists|good: bool, red_roll: bool, silo_roll: bool, whisper_roll: bool|
        escalate_witness(e0, e1, fb, good, red_roll, silo_roll, whisper_roll)
}

/// One complete investigation resolution with all four rolls fixed.
pub open spec fn investigate_witness(
    e0: GameEngine,
    e1: GameEngine,
    fb: Seq<Feedback>,
    tightened: bool,
    red_roll: bool,
    silo_roll: bool,
    whisper_roll: bool,
) -> bool {
    let w1 = investigate_s(e0.state, tightened);
    let head: Seq<Feedback> = if tightened {
        seq![Feedback::InvestigateAudit, Feedback::InvestigateTightened]
    } else {
        seq![Feedback::InvestigateAudit]
    };
    &&& e1.state == post_step_s(w1, red_roll, silo_roll)
    &&& fb == head + post_step_fb(w1, red_roll, silo_roll, whisper_roll)
}

/// The investigation contract.
pub open spec fn investigate_post(e0: GameEngine, e1: GameEngine, fb: Seq<Feedback>) -> bool {
    &&& major_frame(e0, e1)
    &&& exists|tightened: bool, red_roll: bool, silo_roll: bool, whisper_roll: bool|
        investigate_witness(e0, e1, fb, tightened, red_roll, silo_roll, whisper_roll)
}

/// One complete containment resolution with the post-step rolls fixed; the
/// directive effect itself is deterministic.
pub open spec fn contain_witness(
    e0: GameEngine,
    e1: GameEngine,
    fb: Seq<Feedback>,
    red_roll: bool,
    silo_roll: bool,
    whisper_roll: bool,
) -> bool {
    let w1 = contain_s(e0.state);
    let head: Seq<Feedback> = if e0.state.foreign_paranoia > 600 {
        seq![Feedback::ContainFailed]
    } else {
        seq![Feedback::ContainSuccess]
    };
    &&& e1.state == post_step_s(w1, red_roll, silo_roll)
    &&& fb == head + post_step_fb(w1, red_roll, silo_roll, whisper_roll)
}

/// The containment contract.
pub open spec fn contain_post(e0: GameEngine, e1: GameEngine, fb: Seq<Feedback>) -> bool {
    &&& major_frame(e0, e1)
    &&& exists|red_roll: bool, silo_roll: bool, whisper_roll: bool|
        contain_witness(e0, e1, fb, red_roll, silo_roll, whisper_roll)
}

/// One complete leak resolution with the post-step rolls fixed.
pub open spec fn leak_witness(
    e0: GameEngine,
    e1: GameEngine,
    fb: Seq<Feedback>,
    red_roll: bool,
    silo_roll: bool,
    whisper_roll: bool,
) -> bool {
    let w1 = leak_s(e0.state);
    &&& e1.state == post_step_s(w1, red_roll, silo_roll)
    &&& fb == seq![Feedback::LeakReleased] + post_step_fb(w1, red_roll, silo_roll, whisper_roll)
}

/// The leak contract.
pub open spec fn leak_post(e0: GameEngine, e1: GameEngine, fb: Seq<Feedback>) -> bool {
    &&& major_frame(e0, e1)
    &&& exists|red_roll: bool, silo_roll: bool, whisper_roll: bool|
        leak_witness(e0, e1, fb, red_roll, silo_roll, whisper_roll)
}

/// One complete stand-down resolution with the post-step rolls fixed.
pub open spec fn stand_down_witness(
    e0: GameEngine,
    e1: GameEngine,
    fb: Seq<Feedback>,
    red_roll: bool,
    silo_roll: bool,
    whisper_roll: bool,
) -> bool {
    let w1 = stand_down_s(e0.state);
    &&& e1.state == post_step_s(w1, red_roll, silo_roll)
    &&& fb == seq![Feedback::StandDownOrdered, Feedback::TribunalRumors] + post_step_fb(
        w1,
        red_roll,
        silo_roll,
        whisper_roll,
    )
}

/// The stand-down contract.
pub open spec fn stand_down_post(e0: GameEngine, e1: GameEngine, fb: Seq<Feedback>) -> bool {
    &&& major_frame(e0, e1)
    &&& exists|red_roll: bool, silo_roll: bool, whisper_roll: bool|
        stand_down_witness(e0, e1, fb, red_roll, silo_roll, whisper_roll)
}

/// The two world states agree on all seven scalar metrics.
pub open spec fn world_scalars_eq(w0: WorldState, w1: WorldState) -> bool {
    &&& w1.global_tension == w0.global_tension
    &&& w1.internal_secrecy == w0.internal_secrecy
    &&& w1.foreign_paranoia == w0.foreign_paranoia
    &&& w1.accidental_escalation_risk == w0.accidental_escalation_risk
    &&& w1.domestic_stability == w0.domestic_stability
    &&& w1.secret_weapon_progress == w0.secret_weapon_progress
    &&& w1.system_corruption == w0.system_corruption
}

/// The metric a loyal advisor's distressed response dents, by role.
pub open spec fn distress_s(w: WorldState, role: AdvisorRole) -> WorldState {
    match role {
        AdvisorRole::General => WorldState {
            domestic_stability: sat64(w.domestic_stability - 50),
            ..w
        },
        AdvisorRole::Director => WorldState { internal_secrecy: sat64(w.internal_secrecy - 50), ..w },
        AdvisorRole::Ambassador => WorldState {
            foreign_paranoia: sat64(w.foreign_paranoia + 50),
            ..w
        },
    }
}

/// The counsel an advisor gives, keyed on loyalty, role and the current
/// state thresholds: a mole misleads toward the adversarial agenda, a loyal
/// advisor pushes toward stabilizing the metric their role cares about.
pub open spec fn advice_s(role: AdvisorRole, is_mole: bool, w: WorldState) -> AdviceKind {
    if is_mole {
        match role {
            AdvisorRole::General => if w.global_tension > 700 {
                AdviceKind::MoleUrgeStrike
            } else {
                AdviceKind::MoleUrgeWithdrawal
            },
            AdvisorRole::Director => if w.internal_secrecy < 400 {
                AdviceKind::MoleUrgeLeaks
            } else {
                AdviceKind::MoleUrgePurge
            },
            AdvisorRole::Ambassador => if w.foreign_paranoia > 600 {
                AdviceKind::MoleUrgeDismissal
            } else {
                AdviceKind::MoleUrgeApology
            },
        }
    } else {
        match role {
            AdvisorRole::General => if w.global_tension > 800 {
                AdviceKind::AdviseResolve
            } else if w.foreign_paranoia > 700 {
                AdviceKind::AdviseCalming
            } else {
                AdviceKind::AdviseReadinessTest
            },
            AdvisorRole::Director => if w.secret_weapon_progress > 700 {
                AdviceKind::AdviseSecureProject
            } else if w.internal_secrecy < 500 {
                AdviceKind::AdvisePlugLeaks
            } else {
                AdviceKind::AdviseExploitChaos
            },
            AdvisorRole::Ambassador => if w.global_tension > 600 {
                AdviceKind::AdviseBackchannel
            } else if w.domestic_stability < 400 {
                AdviceKind::AdviseGoPublic
            } else {
                AdviceKind::AdviseHoldCourse
            },
        }
    }
}

/// Everything every minor action leaves untouched.
pub open spec fn minor_frame(e0: GameEngine, e1: GameEngine) -> bool {
    &&& e1.turn_count == e0.turn_count
    &&& e1.max_intel_points == e0.max_intel_points
    &&& e1.interruption_active == e0.interruption_active
}

/// The decrypt resolution against the first document carrying the id.
pub open spec fn decrypt_found_witness(
    e0: GameEngine,
    id: Seq<char>,
    e1: GameEngine,
    fb: Seq<Feedback>,
    i: int,
) -> bool {
    &&& first_doc_match(e0.pending_documents@, id, i)
    &&& if e0.pending_documents@[i].is_encrypted {
        &&& e1.pending_documents@ == e0.pending_documents@.update(
            i,
            Document { is_encrypted: false, ..e0.pending_documents@[i] },
        )
        &&& fb.len() == 2
        &&& fb[0] matches Feedback::DocumentDecrypted(t) && t@ == id
        &&& fb[1] matches Feedback::DocumentContent(c) && c@ == e0.pending_documents@[i].content@
    } else {
        &&& e1.pending_documents@ == e0.pending_documents@
        &&& fb.len() == 1
        &&& fb[0] matches Feedback::DocumentNotEncrypted(t) && t@ == id
    }
}

/// The decrypt contract: one point tentatively charged, refunded when the id
/// resolves to nothing; a hit either flips the document in place or reports
/// the asset wasted.
pub open spec fn decrypt_post(
    e0: GameEngine,
    id: Seq<char>,
    e1: GameEngine,
    fb: Seq<Feedback>,
) -> bool {
    &&& minor_frame(e0, e1)
    &&& e1.state == e0.state
    &&& e1.consult_count == e0.consult_count
    &&& e1.traces_this_turn == e0.traces_this_turn
    &&& e1.interrogations_this_turn == e0.interrogations_this_turn
    &&& e1.traced_advisors@ == e0.traced_advisors@
    &&& e1.interrogated_advisors@ == e0.interrogated_advisors@
    &&& if e0.intel_points == 0 {
        &&& e1.intel_points == 0
        &&& e1.pending_documents@ == e0.pending_documents@
        &&& fb.len() == 1
        &&& fb[0] is InsufficientIntelUrgent
    } else if has_doc_id(e0.pending_documents@, id) {
        &&& e1.intel_points == e0.intel_points - 1
        &&& exists|i: int| decrypt_found_witness(e0, id, e1, fb, i)
    } else {
        &&& e1.intel_points == e0.intel_points
        &&& e1.pending_documents@ == e0.pending_documents@
        &&& fb.len() == 1
        &&& fb[0] matches Feedback::DocumentNotFound(t) && t@ == id
    }
}

/// The analyze resolution against the first document carrying the id.
pub open spec fn analyze_found_witness(
    e0: GameEngine,
    id: Seq<char>,
    fb: Seq<Feedback>,
    i: int,
) -> bool {
    &&& first_doc_match(e0.pending_documents@, id, i)
    &&& fb.len() == 2
    &&& fb[0] matches Feedback::AnalysisComplete(t) && t@ == id
    &&& fb[1] matches Feedback::ReliabilityReport(p) && p == e0.pending_documents@[i].reliability
        / 10
}

/// The analyze contract: the same cost and refund shape as decrypt; a hit
/// reports the integrity percentage without touching the document.
pub open spec fn analyze_post(
    e0: GameEngine,
    id: Seq<char>,
    e1: GameEngine,
    fb: Seq<Feedback>,
) -> bool {
    &&& minor_frame(e0, e1)
    &&& e1.state == e0.state
    &&& e1.consult_count == e0.consult_count
    &&& e1.traces_this_turn == e0.traces_this_turn
    &&& e1.interrogations_this_turn == e0.interrogations_this_turn
    &&& e1.traced_advisors@ == e0.traced_advisors@
    &&& e1.interrogated_advisors@ == e0.interrogated_advisors@
    &&& e1.pending_documents@ == e0.pending_documents@
    &&& if e0.intel_points == 0 {
        &&& e1.intel_points == 0
        &&& fb.len() == 1
        &&& fb[0] is InsufficientIntelUrgent
    } else if has_doc_id(e0.pending_documents@, id) {
        &&& e1.intel_points == e0.intel_points - 1
        &&& exists|i: int| analyze_found_witness(e0, id, fb, i)
    } else {
        &&& e1.intel_points == e0.intel_points
        &&& fb.len() == 1
        &&& fb[0] matches Feedback::DocumentNotFound(t) && t@ == id
    }
}

/// A trace that reached no advisor: budget, counters and world untouched.
pub open spec fn trace_no_change(e0: GameEngine, e1: GameEngine) -> bool {
    &&& e1.state == e0.state
    &&& e1.intel_points == e0.intel_points
    &&& e1.traces_this_turn == e0.traces_this_turn
    &&& e1.traced_advisors@ == e0.traced_advisors@
}

/// The trace resolution against the first advisor the reference resolves to.
pub open spec fn trace_found_witness(
    e0: GameEngine,
    target: Seq<char>,
    e1: GameEngine,
    fb: Seq<Feedback>,
    i: int,
) -> bool {
    let a = e0.state.advisors@[i];
    &&& first_advisor_match(e0.state.advisors@, target, i)
    &&& if contains_name(e0.traced_advisors@, a.name@) {
        &&& trace_no_change(e0, e1)
        &&& fb.len() == 1
        &&& fb[0] matches Feedback::AdvisorAlreadyTraced(n) && n@ == a.name@
    } else {
        &&& e1.intel_points == e0.intel_points - 1
        &&& e1.traces_this_turn == e0.traces_this_turn + 1
        &&& e1.traced_advisors@ == e0.traced_advisors@.push(a.name)
        &&& if a.is_mole {
            &&& e1.state.advisors@ == e0.state.advisors@.update(
                i,
                Advisor { suspicion: 100, ..a },
            )
            &&& world_scalars_eq(e0.state, e1.state)
            &&& e1.state.red_phone_active
            &&& fb.len() == 3
            &&& fb[0] is TraceStarted
            &&& fb[1] matches Feedback::TraceMoleMatch(n) && n@ == a.name@
            &&& fb[2] is MoleConfirmed
        } else {
            &&& e1.state == e0.state
            &&& fb.len() == 2
            &&& fb[0] is TraceStarted
            &&& fb[1] matches Feedback::TraceClean(n) && n@ == a.name@
        }
    }
}

/// The trace contract: rate-limited to two per turn and one per advisor,
/// gated on budget and an active interruption; a confirmed mole maxes
/// suspicion and raises the red phone.
pub open spec fn trace_post(
    e0: GameEngine,
    target: Seq<char>,
    e1: GameEngine,
    fb: Seq<Feedback>,
) -> bool {
    &&& minor_frame(e0, e1)
    &&& e1.pending_documents@ == e0.pending_documents@
    &&& e1.consult_count == e0.consult_count
    &&& e1.interrogations_this_turn == e0.interrogations_this_turn
    &&& e1.interrogated_advisors@ == e0.interrogated_advisors@
    &&& if e0.traces_this_turn >= 2 {
        &&& trace_no_change(e0, e1)
        &&& fb.len() == 1
        &&& fb[0] is TraceLimitReached
    } else if e0.intel_points == 0 {
        &&& trace_no_change(e0, e1)
        &&& fb.len() == 1
        &&& fb[0] is InsufficientIntel
    } else if !e0.interruption_active {
        &&& trace_no_change(e0, e1)
        &&& fb.len() == 1
        &&& fb[0] is NoActiveInterruption
    } else if no_advisor_match(e0.state.advisors@, target) {
        &&& trace_no_change(e0, e1)
        &&& fb.len() == 1
        &&& fb[0] matches Feedback::AdvisorNotFound(t) && t@ == target
    } else {
        exists|i: int| trace_found_witness(e0, target, e1, fb, i)
    }
}

/// A consult that went nowhere: budget and counter restored.
pub open spec fn consult_no_change(e0: GameEngine, e1: GameEngine) -> bool {
    &&& e1.state == e0.state
    &&& e1.intel_points == e0.intel_points
    &&& e1.consult_count == e0.consult_count
}

/// The consult resolution against the first advisor the reference resolves
/// to: the counsel is pinned by the advice table.
pub open spec fn consult_found_witness(
    e0: GameEngine,
    target: Seq<char>,
    e1: GameEngine,
    fb: Seq<Feedback>,
    i: int,
) -> bool {
    let a = e0.state.advisors@[i];
    let paid = e0.consult_count > 0;
    &&& first_advisor_match(e0.state.advisors@, target, i)
    &&& e1.state == e0.state
    &&& e1.intel_points == if paid {
        (e0.intel_points - 1) as int
    } else {
        e0.intel_points as int
    }
    &&& e1.consult_count == sat_u32(e0.consult_count + 1)
    &&& fb.len() == 2
    &&& if paid {
        fb[0] matches Feedback::ConsultPaid(n) && n@ == a.name@
    } else {
        fb[0] matches Feedback::ConsultFree(n) && n@ == a.name@
    }
    &&& fb[1] matches Feedback::Advice(k) && k == advice_s(a.role, a.is_mole, e0.state)
}

/// The consult contract: the first consult each turn is free, later ones
/// cost one point, refunded exactly when the reference resolves to nobody.
pub open spec fn consult_post(
    e0: GameEngine,
    target: Seq<char>,
    e1: GameEngine,
    fb: Seq<Feedback>,
) -> bool {
    &&& minor_frame(e0, e1)
    &&& e1.pending_documents@ == e0.pending_documents@
    &&& e1.traces_this_turn == e0.traces_this_turn
    &&& e1.traced_advisors@ == e0.traced_advisors@
    &&& e1.interrogations_this_turn == e0.interrogations_this_turn
    &&& e1.interrogated_advisors@ == e0.interrogated_advisors@
    &&& if e0.consult_count > 0 && e0.intel_points == 0 {
        &&& consult_no_change(e0, e1)
        &&& fb.len() == 1
        &&& fb[0] is InsufficientIntelForConsult
    } else if no_advisor_match(e0.state.advisors@, target) {
        &&& consult_no_change(e0, e1)
        &&& fb.len() == 1
        &&& fb[0] matches Feedback::AdvisorNotFound(t) && t@ == target
    } else {
        exists|i: int| consult_found_witness(e0, target, e1, fb, i)
    }
}

/// An interrogation that never started: budget, counters, roster untouched.
pub open spec fn interrogate_no_change(e0: GameEngine, e1: GameEngine) -> bool {
    &&& e1.state == e0.state
    &&& e1.intel_points == e0.intel_points
    &&& e1.interrogations_this_turn == e0.interrogations_this_turn
    &&& e1.interrogated_advisors@ == e0.interrogated_advisors@
}

/// The outcome of a started interrogation, with the mole's coin flip fixed.
pub open spec fn interrogate_outcome(
    e0: GameEngine,
    e1: GameEngine,
    fb: Seq<Feedback>,
    i: int,
    slip: bool,
) -> bool {
    let a = e0.state.advisors@[i];
    if a.is_mole {
        let susp = if slip {
            sat_u32(a.suspicion + 35)
        } else {
            sat_u32(a.suspicion + 20)
        };
        &&& e1.state.advisors@ == e0.state.advisors@.update(i, Advisor { suspicion: susp, ..a })
        &&& world_scalars_eq(e0.state, e1.state)
        &&& e1.state.red_phone_active == (e0.state.red_phone_active || susp >= 100)
        &&& fb.len() == (if susp >= 100 {
            4int
        } else {
            3int
        })
        &&& fb[0] matches Feedback::Interrogating(n) && n@ == a.name@
        &&& if slip {
            fb[1] matches Feedback::MoleDenial(n) && n@ == a.name@ && fb[2]
                is DeceptionIndicated
        } else {
            fb[1] matches Feedback::MoleDeflection(n) && n@ == a.name@ && fb[2]
                is DeflectionNoted
        }
        &&& susp >= 100 ==> (fb[3] matches Feedback::SuspicionCritical(n) && n@ == a.name@)
    } else {
        let susp = sat_u32(a.suspicion + 20);
        &&& e1.state.advisors@ == e0.state.advisors@.update(i, Advisor { suspicion: susp, ..a })
        &&& world_scalars_eq(distress_s(e0.state, a.role), e1.state)
        &&& e1.state.red_phone_active == e0.state.red_phone_active
        &&& fb.len() == (if susp >= 100 {
            4int
        } else {
            3int
        })
        &&& fb[0] matches Feedback::Interrogating(n) && n@ == a.name@
        &&& fb[1] matches Feedback::LoyalOutburst(r, n) && r == a.role && n@ == a.name@
        &&& fb[2] is GenuineDistress
        &&& susp >= 100 ==> (fb[3] matches Feedback::SuspicionCritical(n) && n@ == a.name@)
    }
}

/// The interrogation resolution against the first advisor the reference
/// resolves to.
pub open spec fn interrogate_found_witness(
    e0: GameEngine,
    target: Seq<char>,
    e1: GameEngine,
    fb: Seq<Feedback>,
    i: int,
) -> bool {
    let a = e0.state.advisors@[i];
    &&& first_advisor_match(e0.state.advisors@, target, i)
    &&& if contains_name(e0.interrogated_advisors@, a.name@) {
        &&& interrogate_no_change(e0, e1)
        &&& fb.len() == 1
        &&& fb[0] matches Feedback::AlreadyQuestioned(n) && n@ == a.name@
    } else {
        &&& e1.intel_points == e0.intel_points - 2
        &&& e1.interrogations_this_turn == e0.interrogations_this_turn + 1
        &&& e1.interrogated_advisors@ == e0.interrogated_advisors@.push(a.name)
        &&& exists|slip: bool| interrogate_outcome(e0, e1, fb, i, slip)
    }
}

/// The interrogation contract: rate-limited like trace, costs two points,
/// always raises suspicion by twenty; a mole may slip for fifteen more, a
/// loyal target dents one world metric by role; critical suspicion raises
/// the red phone only for the mole.
pub open spec fn interrogate_post(
    e0: GameEngine,
    target: Seq<char>,
    e1: GameEngine,
    fb: Seq<Feedback>,
) -> bool {
    &&& minor_frame(e0, e1)
    &&& e1.pending_documents@ == e0.pending_documents@
    &&& e1.consult_count == e0.consult_count
    &&& e1.traces_this_turn == e0.traces_this_turn
    &&& e1.traced_advisors@ == e0.traced_advisors@
    &&& if e0.interrogations_this_turn >= 2 {
        &&& interrogate_no_change(e0, e1)
        &&& fb.len() == 1
        &&& fb[0] is InterrogationLimitReached
    } else if e0.intel_points < 2 {
        &&& interrogate_no_change(e0, e1)
        &&& fb.len() == 1
        &&& fb[0] is InsufficientIntelForInterrogation
    } else if no_advisor_match(e0.state.advisors@, target) {
        &&& interrogate_no_change(e0, e1)
        &&& fb.len() == 1
        &&& fb[0] matches Feedback::AdvisorNotFound(t) && t@ == target
    } else {
        exists|i: int| interrogate_found_witness(e0, target, e1, fb, i)
    }
}

/// The resolution contract, by directive kind: the five zero-argument
/// directives consume the turn, the targeted ones never do.
pub open spec fn resolve_post(
    e0: GameEngine,
    d: Directive,
    e1: GameEngine,
    fb: Seq<Feedback>,
    ended: bool,
) -> bool {
    match d {
        Directive::Escalate => ended && escalate_post(e0, e1, fb),
        Directive::Investigate => ended && investigate_post(e0, e1, fb),
        Directive::Contain => ended && contain_post(e0, e1, fb),
        Directive::Leak => ended && leak_post(e0, e1, fb),
        Directive::StandDown => ended && stand_down_post(e0, e1, fb),
        Directive::Decrypt(id) => !ended && decrypt_post(e0, id@, e1, fb),
        Directive::Analyze(id) => !ended && analyze_post(e0, id@, e1, fb),
        Directive::Trace(t) => !ended && trace_post(e0, t@, e1, fb),
        Directive::Consult(t) => !ended && consult_post(e0, t@, e1, fb),
        Directive::Interrogate(t) => !ended && interrogate_post(e0, t@, e1, fb),
    }
}

/// The override took the turn: the submitted directive was discarded, an
/// override notice leads the feedback, and either escalation or
/// investigation ran in its place.
pub open spec fn overridden_post(
    e0: GameEngine,
    e1: GameEngine,
    fb: Seq<Feedback>,
    ended: bool,
) -> bool {
    &&& ended
    &&& fb.len() >= 2
    &&& fb[0] is OverrideAlert
    &&& (fb[1] is OverrideEscalate && escalate_post(e0, e1, fb.skip(2))) || (fb[1]
        is OverrideInvestigate && investigate_post(e0, e1, fb.skip(2)))
}

/// The operator's answer in the red-phone dialog. The first two apply to the
/// mole confrontation, the rest to the nuclear standoff; the caller maps any
/// unrecognized input to `Turn` or `Threaten` as the dialog prescribes.
#[derive(Clone, Copy, Debug, PartialEq, Eq, Structural)]
pub enum CrisisChoice {
    /// Neutralize the confirmed traitor.
    Execute,
    /// Flip the traitor into a double agent.
    Turn,
    /// Claim the bombers are a training exercise.
    Deny,
    /// Tell the truth and ask for de-escalation.
    Admit,
    /// Tell them to back down — or stay silent.
    Threaten,
}

/// How the red-phone crisis came out.
#[derive(Clone, Copy, Debug, PartialEq, Eq, Structural)]
pub enum CrisisOutcome {
    /// The traitor was executed: stability up, paranoia up.
    MoleExecuted,
    /// The traitor was turned: tension and secrecy down, risk up.
    MoleTurned,
    /// The denial was believed: tension down.
    DenialAccepted,
    /// The denial was not believed: tension forced to the ceiling.
    DenialRejected,
    /// The admission bought de-escalation at a stability price.
    Admission,
    /// The standoff ended in a launch: tension forced to the ceiling.
    Launch,
}

/// `i` is the first advisor at or past the critical suspicion threshold.
pub open spec fn first_critical_suspect(s: Seq<Advisor>, i: int) -> bool {
    &&& 0 <= i < s.len()
    &&& s[i].suspicion >= 100
    &&& forall|j: int| 0 <= j < i ==> (#[trigger] s[j]).suspicion < 100
}

/// Some advisor stands at or past the critical suspicion threshold.
pub open spec fn any_critical_suspect(s: Seq<Advisor>) -> bool {
    exists|i: int| 0 <= i < s.len() && (#[trigger] s[i]).suspicion >= 100
}

/// The mole-confrontation outcome: whatever the choice, the confirmed
/// suspect's suspicion resets and the mole mark clears for good.
pub open spec fn mole_crisis_witness(
    e0: GameEngine,
    choice: CrisisChoice,
    e1: GameEngine,
    outcome: CrisisOutcome,
    i: int,
) -> bool {
    let a = e0.state.advisors@[i];
    &&& first_critical_suspect(e0.state.advisors@, i)
    &&& e1.state.advisors@ == e0.state.advisors@.update(
        i,
        Advisor { suspicion: 0, is_mole: false, ..a },
    )
    &&& if choice is Execute {
        &&& world_scalars_eq(
            WorldState {
                domestic_stability: sat64(e0.state.domestic_stability + 300),
                foreign_paranoia: sat64(e0.state.foreign_paranoia + 200),
                ..e0.state
            },
            e1.state,
        )
        &&& outcome == CrisisOutcome::MoleExecuted
    } else {
        &&& world_scalars_eq(
            WorldState {
                global_tension: sat64(e0.state.global_tension - 300),
                internal_secrecy: sat64(e0.state.internal_secrecy - 100),
                accidental_escalation_risk: sat64(e0.state.accidental_escalation_risk + 100),
                ..e0.state
            },
            e1.state,
        )
        &&& outcome == CrisisOutcome::MoleTurned
    }
}

/// The nuclear-standoff outcome: denial is judged by the enemy's paranoia,
/// admission trades stability for calm, anything else is a launch.
pub open spec fn nuclear_crisis_post(
    e0: GameEngine,
    choice: CrisisChoice,
    e1: GameEngine,
    outcome: CrisisOutcome,
) -> bool {
    &&& e1.state.advisors@ == e0.state.advisors@
    &&& match choice {
        CrisisChoice::Deny => if e0.state.foreign_paranoia > 700 {
            &&& world_scalars_eq(WorldState { global_tension: 1000, ..e0.state }, e1.state)
            &&& outcome == CrisisOutcome::DenialRejected
        } else {
            &&& world_scalars_eq(
                WorldState { global_tension: sat64(e0.state.global_tension - 200), ..e0.state },
                e1.state,
            )
            &&& outcome == CrisisOutcome::DenialAccepted
        },
        CrisisChoice::Admit => {
            &&& world_scalars_eq(
                WorldState {
                    global_tension: sat64(e0.state.global_tension - 500),
                    domestic_stability: sat64(e0.state.domestic_stability - 300),
                    ..e0.state
                },
                e1.state,
            )
            &&& outcome == CrisisOutcome::Admission
        },
        _ => {
            &&& world_scalars_eq(WorldState { global_tension: 1000, ..e0.state }, e1.state)
            &&& outcome == CrisisOutcome::Launch
        },
    }
}

/// The two engines differ at most in the position of the pseudo-random
/// stream.
pub open spec fn engines_eq_mod_rng(a: GameEngine, b: GameEngine) -> bool {
    &&& b.state == a.state
    &&& b.turn_count == a.turn_count
    &&& b.pending_documents@ == a.pending_documents@
    &&& b.intel_points == a.intel_points
    &&& b.max_intel_points == a.max_intel_points
    &&& b.interruption_active == a.interruption_active
    &&& b.consult_count == a.consult_count
    &&& b.interrogations_this_turn == a.interrogations_this_turn
    &&& b.interrogated_advisors@ == a.interrogated_advisors@
    &&& b.traces_this_turn == a.traces_this_turn
    &&& b.traced_advisors@ == a.traced_advisors@
}

/// A resolution contract is insensitive to where the pseudo-random stream
/// stood beforehand: it constrains every field of the starting engine but
/// the stream itself.
proof fn lemma_resolve_post_mod_rng(
    e0a: GameEngine,
    e0b: GameEngine,
    d: Directive,
    e1: GameEngine,
    fb: Seq<Feedback>,
    ended: bool,
)
    requires
        resolve_post(e0a, d, e1, fb, ended),
        engines_eq_mod_rng(e0a, e0b),
    ensures
        resolve_post(e0b, d, e1, fb, ended),
{
    match d {
        Directive::Escalate => {
            let (g, rr, sr, wr) = choose|g: bool, rr: bool, sr: bool, wr: bool|
                escalate_witness(e0a, e1, fb, g, rr, sr, wr);
            assert(escalate_witness(e0b, e1, fb, g, rr, sr, wr));
        },
        Directive::Investigate => {
            let (t, rr, sr, wr) = choose|t: bool, rr: bool, sr: bool, wr: bool|
                investigate_witness(e0a, e1, fb, t, rr, sr, wr);
            assert(investigate_witness(e0b, e1, fb, t, rr, sr, wr));
        },
        Directive::Contain => {
            let (rr, sr, wr) = choose|rr: bool, sr: bool, wr: bool|
                contain_witness(e0a, e1, fb, rr, sr, wr);
            assert(contain_witness(e0b, e1, fb, rr, sr, wr));
        },
        Directive::Leak => {
            let (rr, sr, wr) = choose|rr: bool, sr: bool, wr: bool|
                leak_witness(e0a, e1, fb, rr, sr, wr);
            assert(leak_witness(e0b, e1, fb, rr, sr, wr));
        },
        Directive::StandDown => {
            let (rr, sr, wr) = choose|rr: bool, sr: bool, wr: bool|
                stand_down_witness(e0a, e1, fb, rr, sr, wr);
            assert(stand_down_witness(e0b, e1, fb, rr, sr, wr));
        },
        Directive::Decrypt(id) => {
            if e0a.intel_points != 0 && has_doc_id(e0a.pending_documents@, id@) {
                let i = choose|i: int| decrypt_found_witness(e0a, id@, e1, fb, i);
                assert(decrypt_found_witness(e0b, id@, e1, fb, i));
            }
        },
        Directive::Analyze(id) => {
            if e0a.intel_points != 0 && has_doc_id(e0a.pending_documents@, id@) {
                let i = choose|i: int| analyze_found_witness(e0a, id@, fb, i);
                assert(analyze_found_witness(e0b, id@, fb, i));
            }
        },
        Directive::Trace(t) => {
            if e0a.traces_this_turn < 2 && e0a.intel_points != 0 && e0a.interruption_active
                && !no_advisor_match(e0a.state.advisors@, t@) {
                let i = choose|i: int| trace_found_witness(e0a, t@, e1, fb, i);
                assert(trace_found_witness(e0b, t@, e1, fb, i));
            }
        },
        Directive::Consult(t) => {
            if !(e0a.consult_count > 0 && e0a.intel_points == 0) && !no_advisor_match(
                e0a.state.advisors@,
                t@,
            ) {
                let i = choose|i: int| consult_found_witness(e0a, t@, e1, fb, i);
                assert(consult_found_witness(e0b, t@, e1, fb, i));
            }
        },
        Directive::Interrogate(t) => {
            if e0a.interrogations_this_turn < 2 && e0a.intel_points >= 2 && !no_advisor_match(
                e0a.state.advisors@,
                t@,
            ) {
                let i = choose|i: int| interrogate_found_witness(e0a, t@, e1, fb, i);
                if !contains_name(e0a.interrogated_advisors@, e0a.state.advisors@[i].name@) {
                    let slip = choose|slip: bool| interrogate_outcome(e0a, e1, fb, i, slip);
                    assert(interrogate_outcome(e0b, e1, fb, i, slip));
                }
                assert(interrogate_found_witness(e0b, t@, e1, fb, i));
            }
        },
    }
}

/// The core engine: world state, turn lifecycle, budgets and rate limits.
pub struct GameEngine {
    /// The current state of the world.
    pub state: WorldState,
    /// Current turn number; zero before the first turn starts.
    pub turn_count: u32,
    /// Documents waiting to be processed this turn.
    pub pending_documents: Vec<Document>,
    /// Current available intel points.
    pub intel_points: u32,
    /// Maximum intel points for this turn.
    pub max_intel_points: u32,
    /// Whether a signal interruption exists this turn (gates tracing).
    pub interruption_active: bool,
    /// Consults so far this turn; only the first is free.
    pub consult_count: u32,
    /// Interrogations so far this turn (at most two).
    pub interrogations_this_turn: u32,
    /// Names of advisors already interrogated this turn.
    pub interrogated_advisors: Vec<String>,
    /// Traces so far this turn (at most two).
    pub traces_this_turn: u32,
    /// Names of advisors already traced this turn.
    pub traced_advisors: Vec<String>,
    /// The one pseudo-random stream threaded through document generation and
    /// directive resolution.
    pub rng: SimpleRng,
}

impl GameEngine {
    /// The engine's running invariant: budget within its cap, rate limits
    /// within their caps and aligned with their target lists, and a
    /// well-formed world.
    pub open spec fn wf(self) -> bool {
        &&& self.state.wf()
        &&& self.intel_points <= self.max_intel_points
        &&& 1 <= self.max_intel_points <= 3
        &&& self.traces_this_turn <= 2
        &&& self.interrogations_this_turn <= 2
        &&& self.traced_advisors@.len() == self.traces_this_turn
        &&& self.interrogated_advisors@.len() == self.interrogations_this_turn
        &&& distinct_strs(self.traced_advisors@)
        &&& distinct_strs(self.interrogated_advisors@)
    }

    /// Builds a fresh engine from a seed: the opening world, an empty batch,
    /// a one-point budget, and one advisor marked as the mole, chosen
    /// uniformly from the roster.
    pub fn new(seed: u64) -> (r: Self)
        ensures
            r.wf(),
            r.turn_count == 0,
            r.pending_documents@.len() == 0,
            r.intel_points == 1,
            r.max_intel_points == 1,
            !r.interruption_active,
            r.consult_count == 0,
            r.interrogations_this_turn == 0,
            r.traces_this_turn == 0,
            r.state.global_tension == 200,
            r.state.internal_secrecy == 500,
            r.state.foreign_paranoia == 300,
            r.state.accidental_escalation_risk == 50,
            r.state.domestic_stability == 800,
            r.state.secret_weapon_progress == 100,
            r.state.system_corruption == 0,
            !r.state.red_phone_active,
            r.state.advisors@.len() == 3,
            has_mole(r.state.advisors@),
            forall|i: int| 0 <= i < 3 ==> (#[trigger] r.state.advisors@[i]).suspicion == 0,
            r.state.advisors@[0].name@ == "Gen. Vance"@ && r.state.advisors@[0].role
                == AdvisorRole::General,
            r.state.advisors@[1].name@ == "Director K."@ && r.state.advisors@[1].role
                == AdvisorRole::Director,
            r.state.advisors@[2].name@ == "Amb. Sterling"@ && r.state.advisors@[2].role
                == AdvisorRole::Ambassador,
    {
        let mut rng = SimpleRng::new(seed);
        let mut state = WorldState::new();
        let mole_idx = rng.range(0, 3) as usize;
        state.advisors[mole_idx].is_mole = true;
        Self {
            state,
            turn_count: 0,
            pending_documents: Vec::new(),
            intel_points: 1,
            max_intel_points: 1,
            interruption_active: false,
            consult_count: 0,
            interrogations_this_turn: 0,
            interrogated_advisors: Vec::new(),
            traces_this_turn: 0,
            traced_advisors: Vec::new(),
            rng,
        }
    }

    /// The per-turn document batch size: three below turn four, four below
    /// turn seven, then five.
    pub open spec fn doc_count_for(turn: u32) -> int {
        if turn >= 7 {
            5
        } else if turn >= 4 {
            4
        } else {
            3
        }
    }

    /// The per-turn intel budget: one below turn three, two below turn six,
    /// then three.
    pub open spec fn max_intel_for(turn: u32) -> u32 {
        if turn >= 6 {
            3
        } else if turn >= 3 {
            2
        } else {
            1
        }
    }

    /// Advances to the next turn: resets the per-turn counters, rolls the
    /// interruption event by the turn-indexed table, refills the intel
    /// budget, and replaces the batch with fresh documents, at least one of
    /// them encrypted.
    pub fn start_turn(&mut self)
        requires
            old(self).wf(),
            old(self).turn_count < u32::MAX,
        ensures
            final(self).wf(),
            final(self).turn_count == old(self).turn_count + 1,
            final(self).state == old(self).state,
            final(self).consult_count == 0,
            final(self).interrogations_this_turn == 0,
            final(self).traces_this_turn == 0,
            final(self).interrogated_advisors@.len() == 0,
            final(self).traced_advisors@.len() == 0,
            final(self).max_intel_points == Self::max_intel_for(final(self).turn_count),
            final(self).intel_points == final(self).max_intel_points,
            final(self).pending_documents@.len() == Self::doc_count_for(final(self).turn_count),
            final(self).turn_count <= 2 ==> !final(self).interruption_active,
            exists|i: int|
                0 <= i < final(self).pending_documents@.len()
                    && (#[trigger] final(self).pending_documents@[i]).is_encrypted,
            forall|i: int|
                0 <= i < final(self).pending_documents@.len()
                    ==> (#[trigger] final(self).pending_documents@[i]).wf(),
    {
        self.turn_count = self.turn_count + 1;
        self.interruption_active = false;
        self.consult_count = 0;
        self.interrogations_this_turn = 0;
        self.interrogated_advisors.clear();
        self.traces_this_turn = 0;
        self.traced_advisors.clear();

        let interruption_chance: u64 = if self.turn_count <= 2 {
            0
        } else if self.turn_count <= 5 {
            150
        } else if self.turn_count <= 10 {
            300
        } else {
            500
        };
        if self.rng.chance(interruption_chance) {
            self.interruption_active = true;
        }
        proof {
            assert(self.turn_count <= 2 ==> !self.interruption_active);
        }

        let doc_count: usize = if self.turn_count >= 7 {
            5
        } else if self.turn_count >= 4 {
            4
        } else {
            3
        };

        self.max_intel_points = if self.turn_count >= 6 {
            3
        } else if self.turn_count >= 3 {
            2
        } else {
            1
        };
        self.intel_points = self.max_intel_points;

        let mut new_docs = Document::generate_batch(
            &self.state,
            doc_count,
            self.turn_count,
            &mut self.rng,
        );

        let mut has_encrypted = false;
        let mut scan: usize = 0;
        let total = new_docs.len();
        while scan < total
            invariant
                scan <= total,
                total == new_docs@.len(),
                has_encrypted == exists|i: int|
                    0 <= i < scan && (#[trigger] new_docs@[i]).is_encrypted,
            decreases total - scan,
        {
            if new_docs[scan].is_encrypted {
                has_encrypted = true;
                proof {
                    assert(new_docs@[scan as int].is_encrypted);
                }
            }
            scan = scan + 1;
        }
        if !has_encrypted && new_docs.len() > 0 {
            new_docs[0].is_encrypted = true;
            proof {
                assert(new_docs@[0].is_encrypted);
            }
        }

        self.pending_documents = new_docs;
    }

    /// Resolves a fuzzy advisor reference to the first matching roster
    /// index, in fixed declaration order.
    pub fn find_advisor(&self, target: &str) -> (r: Option<usize>)
        ensures
            match r {
                Some(i) => first_advisor_match(self.state.advisors@, target@, i as int),
                None => no_advisor_match(self.state.advisors@, target@),
            },
    {
        let n = self.state.advisors.len();
        let mut k: usize = 0;
        while k < n
            invariant
                k <= n,
                n == self.state.advisors@.len(),
                forall|j: int|
                    0 <= j < k ==> !advisor_matches(#[trigger] self.state.advisors@[j], target@),
            decreases n - k,
        {
            let a = &self.state.advisors[k];
            if contains_fold(a.name.as_str(), target) || contains_fold(a.role.label(), target) {
                return Some(k);
            }
            k = k + 1;
        }
        None
    }

    /// Finds the first document in the current batch with the given id.
    fn find_document(&self, id: &String) -> (r: Option<usize>)
        ensures
            match r {
                Some(i) => first_doc_match(self.pending_documents@, id@, i as int),
                None => !has_doc_id(self.pending_documents@, id@),
            },
    {
        let n = self.pending_documents.len();
        let mut k: usize = 0;
        while k < n
            invariant
                k <= n,
                n == self.pending_documents@.len(),
                forall|j: int| 0 <= j < k ==> (#[trigger] self.pending_documents@[j]).id@ != id@,
            decreases n - k,
        {
            if self.pending_documents[k].id == *id {
                return Some(k);
            }
            k = k + 1;
        }
        None
    }

    /// The first advisor at or past the critical suspicion threshold.
    fn critical_suspect_idx(&self) -> (r: Option<usize>)
        ensures
            match r {
                Some(i) => first_critical_suspect(self.state.advisors@, i as int),
                None => !any_critical_suspect(self.state.advisors@),
            },
    {
        let n = self.state.advisors.len();
        let mut k: usize = 0;
        while k < n
            invariant
                k <= n,
                n == self.state.advisors@.len(),
                forall|j: int| 0 <= j < k ==> (#[trigger] self.state.advisors@[j]).suspicion < 100,
            decreases n - k,
        {
            if self.state.advisors[k].suspicion >= 100 {
                return Some(k);
            }
            k = k + 1;
        }
        None
    }

    /// Handles the red-phone crisis. The mole confrontation runs when some
    /// advisor stands at critical suspicion: whatever the choice, that
    /// advisor's suspicion resets and the mole mark clears, with no
    /// replacement ever assigned. Otherwise the nuclear standoff runs on the
    /// three-way choice. Either way the crisis flag clears.
    pub fn resolve_crisis(&mut self, choice: CrisisChoice) -> (outcome: CrisisOutcome)
        requires
            old(self).wf(),
            old(self).state.red_phone_active,
        ensures
            final(self).wf(),
            !final(self).state.red_phone_active,
            final(self).turn_count == old(self).turn_count,
            final(self).max_intel_points == old(self).max_intel_points,
            final(self).intel_points == old(self).intel_points,
            final(self).interruption_active == old(self).interruption_active,
            final(self).consult_count == old(self).consult_count,
            final(self).traces_this_turn == old(self).traces_this_turn,
            final(self).interrogations_this_turn == old(self).interrogations_this_turn,
            final(self).traced_advisors@ == old(self).traced_advisors@,
            final(self).interrogated_advisors@ == old(self).interrogated_advisors@,
            final(self).pending_documents@ == old(self).pending_documents@,
            final(self).state.advisors@.len() == old(self).state.advisors@.len(),
            forall|i: int|
                0 <= i < old(self).state.advisors@.len()
                    ==> (#[trigger] final(self).state.advisors@[i]).name@
                    == old(self).state.advisors@[i].name@ && final(self).state.advisors@[i].role
                    == old(self).state.advisors@[i].role,
            if any_critical_suspect(old(self).state.advisors@) {
                exists|i: int|
                    mole_crisis_witness(*old(self), choice, *final(self), outcome, i)
            } else {
                nuclear_crisis_post(*old(self), choice, *final(self), outcome)
            },
    {
        let outcome: CrisisOutcome;
        self.state.red_phone_active = false;
        match self.critical_suspect_idx() {
            Some(i) => {
                match choice {
                    CrisisChoice::Execute => {
                        self.state.domestic_stability = sat_add(self.state.domestic_stability, 300);
                        self.state.foreign_paranoia = sat_add(self.state.foreign_paranoia, 200);
                        outcome = CrisisOutcome::MoleExecuted;
                    },
                    _ => {
                        self.state.global_tension = sat_add(self.state.global_tension, -300);
                        self.state.internal_secrecy = sat_add(self.state.internal_secrecy, -100);
                        self.state.accidental_escalation_risk = sat_add(
                            self.state.accidental_escalation_risk,
                            100,
                        );
                        outcome = CrisisOutcome::MoleTurned;
                    },
                }
                self.state.advisors[i].suspicion = 0;
                self.state.advisors[i].is_mole = false;
                proof {
                    assert(self.state.advisors@ =~= old(self).state.advisors@.update(
                        i as int,
                        Advisor {
                            suspicion: 0,
                            is_mole: false,
                            ..old(self).state.advisors@[i as int]
                        },
                    ));
                    assert(mole_crisis_witness(*old(self), choice, *self, outcome, i as int));
                }
            },
            None => {
                match choice {
                    CrisisChoice::Deny => {
                        if self.state.foreign_paranoia > 700 {
                            self.state.global_tension = 1000;
                            outcome = CrisisOutcome::DenialRejected;
                        } else {
                            self.state.global_tension = sat_add(self.state.global_tension, -200);
                            outcome = CrisisOutcome::DenialAccepted;
                        }
                    },
                    CrisisChoice::Admit => {
                        self.state.global_tension = sat_add(self.state.global_tension, -500);
                        self.state.domestic_stability = sat_add(
                            self.state.domestic_stability,
                            -300,
                        );
                        outcome = CrisisOutcome::Admission;
                    },
                    _ => {
                        self.state.global_tension = 1000;
                        outcome = CrisisOutcome::Launch;
                    },
                }
            },
        }
        outcome
    }

    /// Whether any advisor's suspicion has reached the critical threshold;
    /// selects the mole-confrontation variant of the crisis.
    pub fn has_critical_suspect(&self) -> (r: bool)
        ensures
            r == exists|i: int|
                0 <= i < self.state.advisors@.len() && (#[trigger] self.state.advisors@[i]).suspicion
                    >= 100,
    {
        let n = self.state.advisors.len();
        let mut k: usize = 0;
        while k < n
            invariant
                k <= n,
                n == self.state.advisors@.len(),
                forall|j: int| 0 <= j < k ==> (#[trigger] self.state.advisors@[j]).suspicion < 100,
            decreases n - k,
        {
            if self.state.advisors[k].suspicion >= 100 {
                return true;
            }
            k = k + 1;
        }
        false
    }
    /// Spends one point to decrypt a document by id; refunds the point when
    /// the id is not in the batch. Never ends the turn.
    fn do_decrypt(&mut self, target_id: &String) -> (fb: Vec<Feedback>)
        requires
            old(self).wf(),
        ensures
            final(self).wf(),
            decrypt_post(*old(self), target_id@, *final(self), fb@),
            final(self).state.advisors@ == old(self).state.advisors@,
    {
        let mut fb: Vec<Feedback> = Vec::new();
        if self.intel_points == 0 {
            fb.push(Feedback::InsufficientIntelUrgent);
            return fb;
        }
        self.intel_points = self.intel_points - 1;
        match self.find_document(target_id) {
            Some(i) => {
                if self.pending_documents[i].is_encrypted {
                    self.pending_documents[i].is_encrypted = false;
                    let content = self.pending_documents[i].content.clone();
                    fb.push(Feedback::DocumentDecrypted(target_id.clone()));
                    fb.push(Feedback::DocumentContent(content));
                    proof {
                        assert(self.pending_documents@ =~= old(self).pending_documents@.update(
                            i as int,
                            Document {
                                is_encrypted: false,
                                ..old(self).pending_documents@[i as int]
                            },
                        ));
                        assert(decrypt_found_witness(
                            *old(self),
                            target_id@,
                            *self,
                            fb@,
                            i as int,
                        ));
                    }
                } else {
                    fb.push(Feedback::DocumentNotEncrypted(target_id.clone()));
                    proof {
                        assert(decrypt_found_witness(
                            *old(self),
                            target_id@,
                            *self,
                            fb@,
                            i as int,
                        ));
                    }
                }
            },
            None => {
                self.intel_points = self.intel_points + 1;
                fb.push(Feedback::DocumentNotFound(target_id.clone()));
            },
        }
        fb
    }

    /// Spends one point to grade a document's reliability; refunds the point
    /// when the id is not in the batch. Never ends the turn.
    fn do_analyze(&mut self, target_id: &String) -> (fb: Vec<Feedback>)
        requires
            old(self).wf(),
        ensures
            final(self).wf(),
            analyze_post(*old(self), target_id@, *final(self), fb@),
            final(self).state.advisors@ == old(self).state.advisors@,
    {
        let mut fb: Vec<Feedback> = Vec::new();
        if self.intel_points == 0 {
            fb.push(Feedback::InsufficientIntelUrgent);
            return fb;
        }
        self.intel_points = self.intel_points - 1;
        match self.find_document(target_id) {
            Some(i) => {
                let integrity = self.pending_documents[i].reliability / 10;
                fb.push(Feedback::AnalysisComplete(target_id.clone()));
                fb.push(Feedback::ReliabilityReport(integrity));
                proof {
                    assert(analyze_found_witness(*old(self), target_id@, fb@, i as int));
                }
            },
            None => {
                self.intel_points = self.intel_points + 1;
                fb.push(Feedback::DocumentNotFound(target_id.clone()));
            },
        }
        fb
    }

    /// Spends one point to trace the interruption signal to an advisor;
    /// rate-limited and gated on an active interruption. Never ends the
    /// turn.
    fn do_trace(&mut self, target: &String) -> (fb: Vec<Feedback>)
        requires
            old(self).wf(),
        ensures
            final(self).wf(),
            trace_post(*old(self), target@, *final(self), fb@),
            roster_preserved(old(self).state.advisors@, final(self).state.advisors@),
    {
        let mut fb: Vec<Feedback> = Vec::new();
        if self.traces_this_turn >= 2 {
            fb.push(Feedback::TraceLimitReached);
            return fb;
        }
        if self.intel_points == 0 {
            fb.push(Feedback::InsufficientIntel);
            return fb;
        }
        if !self.interruption_active {
            fb.push(Feedback::NoActiveInterruption);
            return fb;
        }
        match self.find_advisor(target.as_str()) {
            None => {
                fb.push(Feedback::AdvisorNotFound(target.clone()));
            },
            Some(i) => {
                let name = self.state.advisors[i].name.clone();
                if name_list_contains(&self.traced_advisors, &name) {
                    fb.push(Feedback::AdvisorAlreadyTraced(name));
                    proof {
                        assert(trace_found_witness(*old(self), target@, *self, fb@, i as int));
                    }
                } else {
                    self.intel_points = self.intel_points - 1;
                    self.traces_this_turn = self.traces_this_turn + 1;
                    self.traced_advisors.push(name.clone());
                    fb.push(Feedback::TraceStarted);
                    if self.state.advisors[i].is_mole {
                        fb.push(Feedback::TraceMoleMatch(name));
                        fb.push(Feedback::MoleConfirmed);
                        self.state.advisors[i].suspicion = 100;
                        self.state.red_phone_active = true;
                        proof {
                            assert(self.state.advisors@ =~= old(self).state.advisors@.update(
                                i as int,
                                Advisor { suspicion: 100, ..old(self).state.advisors@[i as int] },
                            ));
                            assert(trace_found_witness(*old(self), target@, *self, fb@, i as int));
                        }
                    } else {
                        fb.push(Feedback::TraceClean(name));
                        proof {
                            assert(trace_found_witness(*old(self), target@, *self, fb@, i as int));
                        }
                    }
                }
            },
        }
        fb
    }

    /// Asks an advisor for counsel; the first consult each turn is free,
    /// later ones cost one point, refunded when the reference resolves to
    /// nobody. Never ends the turn.
    fn do_consult(&mut self, target: &String) -> (fb: Vec<Feedback>)
        requires
            old(self).wf(),
        ensures
            final(self).wf(),
            consult_post(*old(self), target@, *final(self), fb@),
            final(self).state.advisors@ == old(self).state.advisors@,
    {
        let mut fb: Vec<Feedback> = Vec::new();
        let paid = self.consult_count > 0;
        if paid {
            if self.intel_points == 0 {
                fb.push(Feedback::InsufficientIntelForConsult);
                return fb;
            }
            self.intel_points = self.intel_points - 1;
        }
        let prev_count = self.consult_count;
        self.consult_count = if self.consult_count == u32::MAX {
            u32::MAX
        } else {
            self.consult_count + 1
        };
        match self.find_advisor(target.as_str()) {
            Some(i) => {
                let name = self.state.advisors[i].name.clone();
                if paid {
                    fb.push(Feedback::ConsultPaid(name));
                } else {
                    fb.push(Feedback::ConsultFree(name));
                }
                let role = self.state.advisors[i].role;
                let is_mole = self.state.advisors[i].is_mole;
                let kind = advice_for(role, is_mole, &self.state);
                fb.push(Feedback::Advice(kind));
                proof {
                    assert(consult_found_witness(*old(self), target@, *self, fb@, i as int));
                }
            },
            None => {
                if paid {
                    self.intel_points = self.intel_points + 1;
                }
                self.consult_count = prev_count;
                fb.push(Feedback::AdvisorNotFound(target.clone()));
            },
        }
        fb
    }

    /// Spends two points to aggressively question an advisor; rate-limited
    /// like trace. Suspicion always rises; a loyal target's distress dents
    /// one world metric. Never ends the turn.
    fn do_interrogate(&mut self, target: &String) -> (fb: Vec<Feedback>)
        requires
            old(self).wf(),
        ensures
            final(self).wf(),
            interrogate_post(*old(self), target@, *final(self), fb@),
            roster_preserved(old(self).state.advisors@, final(self).state.advisors@),
    {
        let mut fb: Vec<Feedback> = Vec::new();
        if self.interrogations_this_turn >= 2 {
            fb.push(Feedback::InterrogationLimitReached);
            return fb;
        }
        if self.intel_points < 2 {
            fb.push(Feedback::InsufficientIntelForInterrogation);
            return fb;
        }
        match self.find_advisor(target.as_str()) {
            None => {
                fb.push(Feedback::AdvisorNotFound(target.clone()));
            },
            Some(i) => {
                let name = self.state.advisors[i].name.clone();
                if name_list_contains(&self.interrogated_advisors, &name) {
                    fb.push(Feedback::AlreadyQuestioned(name));
                    proof {
                        assert(interrogate_found_witness(
                            *old(self),
                            target@,
                            *self,
                            fb@,
                            i as int,
                        ));
                    }
                    return fb;
                }
                self.intel_points = self.intel_points - 2;
                self.interrogations_this_turn = self.interrogations_this_turn + 1;
                self.interrogated_advisors.push(name.clone());
                fb.push(Feedback::Interrogating(name.clone()));
                self.state.advisors[i].suspicion = self.state.advisors[i].suspicion.saturating_add(
                    20,
                );
                let slip: bool;
                if self.state.advisors[i].is_mole {
                    slip = self.rng.chance(500);
                    if slip {
                        fb.push(Feedback::MoleDenial(name.clone()));
                        fb.push(Feedback::DeceptionIndicated);
                        self.state.advisors[i].suspicion = self.state.advisors[
                            i
                        ].suspicion.saturating_add(15);
                    } else {
                        fb.push(Feedback::MoleDeflection(name.clone()));
                        fb.push(Feedback::DeflectionNoted);
                    }
                } else {
                    slip = false;
                    let role = self.state.advisors[i].role;
                    fb.push(Feedback::LoyalOutburst(role, name.clone()));
                    match role {
                        AdvisorRole::General => {
                            self.state.domestic_stability = sat_add(
                                self.state.domestic_stability,
                                -50,
                            );
                        },
                        AdvisorRole::Director => {
                            self.state.internal_secrecy = sat_add(self.state.internal_secrecy, -50);
                        },
                        AdvisorRole::Ambassador => {
                            self.state.foreign_paranoia = sat_add(self.state.foreign_paranoia, 50);
                        },
                    }
                    fb.push(Feedback::GenuineDistress);
                }
                if self.state.advisors[i].suspicion >= 100 {
                    fb.push(Feedback::SuspicionCritical(name));
                    if self.state.advisors[i].is_mole {
                        self.state.red_phone_active = true;
                    }
                }
                proof {
                    assert(self.state.advisors@ =~= old(self).state.advisors@.update(
                        i as int,
                        Advisor {
                            suspicion: self.state.advisors@[i as int].suspicion,
                            ..old(self).state.advisors@[i as int]
                        },
                    ));
                    assert(interrogate_outcome(*old(self), *self, fb@, i as int, slip));
                    assert(interrogate_found_witness(*old(self), target@, *self, fb@, i as int));
                }
            },
        }
        fb
    }

    /// Resolves one directive: the override pre-step may hijack the command
    /// once corruption runs high, then the directive's own rules apply, and
    /// a consumed turn triggers the passive-drift post-step. Returns the
    /// ordered feedback lines and whether the turn was consumed.
    ///
    /// Bounds held across every resolution: the budget never exceeds its
    /// cap, a targeted action on an unresolvable reference leaves the budget
    /// unchanged end-to-end, the roster's names, roles and mole marks are
    /// untouched, and after a consumed turn every bounded metric is back in
    /// the unit interval.
    pub fn resolve_directive(&mut self, directive: Directive) -> (r: (Vec<Feedback>, bool))
        requires
            old(self).wf(),
        ensures
            final(self).wf(),
            final(self).turn_count == old(self).turn_count,
            final(self).max_intel_points == old(self).max_intel_points,
            final(self).interruption_active == old(self).interruption_active,
            directive_is_major(directive) ==> r.1,
            r.1 ==> final(self).state.bounded_ok(),
            roster_preserved(old(self).state.advisors@, final(self).state.advisors@),
            (directive matches Directive::Decrypt(id) && !has_doc_id(
                old(self).pending_documents@,
                id@,
            )) ==> final(self).intel_points == old(self).intel_points,
            (directive matches Directive::Analyze(id) && !has_doc_id(
                old(self).pending_documents@,
                id@,
            )) ==> final(self).intel_points == old(self).intel_points,
            (directive matches Directive::Trace(t) && no_advisor_match(
                old(self).state.advisors@,
                t@,
            )) ==> final(self).intel_points == old(self).intel_points,
            (directive matches Directive::Interrogate(t) && no_advisor_match(
                old(self).state.advisors@,
                t@,
            )) ==> final(self).intel_points == old(self).intel_points,
            old(self).state.system_corruption <= 400 ==> r.1 == directive_is_major(directive)
                && resolve_post(*old(self), directive, *final(self), r.0@, r.1),
            old(self).state.system_corruption > 400 ==> resolve_post(
                *old(self),
                directive,
                *final(self),
                r.0@,
                r.1,
            ) || overridden_post(*old(self), *final(self), r.0@, r.1),
    {
        let mut feedback: Vec<Feedback> = Vec::new();
        let mut resolved = directive;
        let mut was_override = false;
        if self.state.system_corruption > 400 {
            let override_chance = ((self.state.system_corruption - 400) / 2) as u64;
            if self.rng.chance(override_chance) {
                was_override = true;
                feedback.push(Feedback::OverrideAlert);
                if self.rng.chance(500) {
                    feedback.push(Feedback::OverrideEscalate);
                    resolved = Directive::Escalate;
                } else {
                    feedback.push(Feedback::OverrideInvestigate);
                    resolved = Directive::Investigate;
                }
            }
        }
        let ghost pre = *self;
        let ghost pre_fb = feedback@;
        let ghost mut dispatch_fb: Seq<Feedback> = Seq::empty();

        let turn_ended: bool;
        match &resolved {
            Directive::Escalate => {
                let mut lines = self.do_escalate();
                proof {
                    dispatch_fb = lines@;
                }
                feedback.append(&mut lines);
                turn_ended = true;
            },
            Directive::Investigate => {
                let mut lines = self.do_investigate();
                proof {
                    dispatch_fb = lines@;
                }
                feedback.append(&mut lines);
                turn_ended = true;
            },
            Directive::Contain => {
                let mut lines = self.do_contain();
                proof {
                    dispatch_fb = lines@;
                }
                feedback.append(&mut lines);
                turn_ended = true;
            },
            Directive::Leak => {
                let mut lines = self.do_leak();
                proof {
                    dispatch_fb = lines@;
                }
                feedback.append(&mut lines);
                turn_ended = true;
            },
            Directive::StandDown => {
                let mut lines = self.do_stand_down();
                proof {
                    dispatch_fb = lines@;
                }
                feedback.append(&mut lines);
                turn_ended = true;
            },
            Directive::Decrypt(id) => {
                let mut lines = self.do_decrypt(id);
                proof {
                    dispatch_fb = lines@;
                }
                feedback.append(&mut lines);
                turn_ended = false;
            },
            Directive::Analyze(id) => {
                let mut lines = self.do_analyze(id);
                proof {
                    dispatch_fb = lines@;
                }
                feedback.append(&mut lines);
                turn_ended = false;
            },
            Directive::Trace(t) => {
                let mut lines = self.do_trace(t);
                proof {
                    dispatch_fb = lines@;
                }
                feedback.append(&mut lines);
                turn_ended = false;
            },
            Directive::Consult(t) => {
                let mut lines = self.do_consult(t);
                proof {
                    dispatch_fb = lines@;
                }
                feedback.append(&mut lines);
                turn_ended = false;
            },
            Directive::Interrogate(t) => {
                let mut lines = self.do_interrogate(t);
                proof {
                    dispatch_fb = lines@;
                }
                feedback.append(&mut lines);
                turn_ended = false;
            },
        }

        proof {
            assert(resolve_post(pre, resolved, *self, dispatch_fb, turn_ended));
            if !was_override {
                assert(feedback@ =~= dispatch_fb);
                lemma_resolve_post_mod_rng(pre, *old(self), resolved, *self, feedback@, turn_ended);
            } else {
                assert(feedback@.skip(2) =~= dispatch_fb);
                lemma_resolve_post_mod_rng(
                    pre,
                    *old(self),
                    resolved,
                    *self,
                    feedback@.skip(2),
                    turn_ended,
                );
                assert(overridden_post(*old(self), *self, feedback@, turn_ended));
            }
        }
        (feedback, turn_ended)
    }

    /// Runs the turn-ending post-step: passive drift, the red-phone roll,
    /// the clamp of all bounded metrics, a possible silo tension spike, and
    /// the corruption update. Returns the extra warning lines and the three
    /// roll outcomes.
    fn end_turn_post(&mut self) -> (r: (Vec<Feedback>, bool, bool, bool))
        requires
            old(self).state.wf(),
        ensures
            final(self).state == post_step_s(old(self).state, r.1, r.2),
            r.0@ == post_step_fb(old(self).state, r.1, r.2, r.3),
            final(self).state.bounded_ok(),
            final(self).state.wf(),
            final(self).turn_count == old(self).turn_count,
            final(self).max_intel_points == old(self).max_intel_points,
            final(self).intel_points == old(self).intel_points,
            final(self).interruption_active == old(self).interruption_active,
            final(self).consult_count == old(self).consult_count,
            final(self).traces_this_turn == old(self).traces_this_turn,
            final(self).interrogations_this_turn == old(self).interrogations_this_turn,
            final(self).traced_advisors@ == old(self).traced_advisors@,
            final(self).interrogated_advisors@ == old(self).interrogated_advisors@,
            final(self).pending_documents@ == old(self).pending_documents@,
    {
        let mut fb: Vec<Feedback> = Vec::new();

        if self.state.global_tension > 300 {
            self.state.global_tension = sat_add(self.state.global_tension, 30);
        }
        if self.state.secret_weapon_progress > 200 {
            self.state.secret_weapon_progress = sat_add(self.state.secret_weapon_progress, 20);
        }

        let red_roll = if self.state.global_tension > 800 {
            self.rng.chance(100)
        } else {
            false
        };
        if red_roll {
            self.state.red_phone_active = true;
        }

        self.state.clamp_bounded();

        let silo_roll = if self.state.accidental_escalation_risk > 600 {
            self.rng.chance(300)
        } else {
            false
        };
        if silo_roll {
            self.state.global_tension = clamp_unit(self.state.global_tension + 150);
            fb.push(Feedback::SiloWarning);
        }

        if self.state.secret_weapon_progress > 500 {
            let increase = (self.state.secret_weapon_progress - 500) / 10;
            self.state.system_corruption = clamp_unit(self.state.system_corruption + increase);
        } else {
            self.state.system_corruption = clamp_unit(self.state.system_corruption);
        }

        let whisper_roll = if self.state.system_corruption > 900 {
            self.rng.chance(200)
        } else {
            false
        };
        if whisper_roll {
            fb.push(Feedback::CorruptionWhisper);
        }

        proof {
            assert(self.state == post_step_s(old(self).state, red_roll, silo_roll));
            assert(fb@ =~= post_step_fb(old(self).state, red_roll, silo_roll, whisper_roll));
        }
        (fb, red_roll, silo_roll, whisper_roll)
    }

    /// Resolves the escalation directive: one of two narrated branches, then
    /// the turn-ending post-step.
    fn do_escalate(&mut self) -> (fb: Vec<Feedback>)
        requires
            old(self).wf(),
        ensures
            final(self).wf(),
            final(self).state.bounded_ok(),
            escalate_post(*old(self), *final(self), fb@),
            final(self).state.advisors@ == old(self).state.advisors@,
    {
        let mut fb: Vec<Feedback> = Vec::new();
        let good = self.rng.chance(600);
        if good {
            self.state.global_tension = sat_add(self.state.global_tension, 200);
            self.state.foreign_paranoia = sat_add(self.state.foreign_paranoia, 200);
            self.state.domestic_stability = sat_add(self.state.domestic_stability, 50);
            fb.push(Feedback::EscalatePrimed);
            fb.push(Feedback::EscalatePanic);
        } else {
            self.state.global_tension = sat_add(self.state.global_tension, 350);
            self.state.accidental_escalation_risk = sat_add(
                self.state.accidental_escalation_risk,
                150,
            );
            fb.push(Feedback::EscalateMisfire);
        }
        let (mut post_fb, red_roll, silo_roll, whisper_roll) = self.end_turn_post();
        fb.append(&mut post_fb);
        proof {
            let w1 = if good {
                escalate_good_s(old(self).state)
            } else {
                escalate_bad_s(old(self).state)
            };
            let head: Seq<Feedback> = if good {
                seq![Feedback::EscalatePrimed, Feedback::EscalatePanic]
            } else {
                seq![Feedback::EscalateMisfire]
            };
            assert(fb@ =~= head + post_step_fb(w1, red_roll, silo_roll, whisper_roll));
            assert(escalate_witness(
                *old(self),
                *self,
                fb@,
                good,
                red_roll,
                silo_roll,
                whisper_roll,
            ));
        }
        fb
    }

    /// Resolves the investigation directive.
    fn do_investigate(&mut self) -> (fb: Vec<Feedback>)
        requires
            old(self).wf(),
        ensures
            final(self).wf(),
            final(self).state.bounded_ok(),
            investigate_post(*old(self), *final(self), fb@),
            final(self).state.advisors@ == old(self).state.advisors@,
    {
        let mut fb: Vec<Feedback> = Vec::new();
        self.state.internal_secrecy = sat_add(self.state.internal_secrecy, -100);
        self.state.secret_weapon_progress = sat_add(self.state.secret_weapon_progress, 150);
        fb.push(Feedback::InvestigateAudit);
        let tightened = self.rng.chance(500);
        if tightened {
            self.state.accidental_escalation_risk = sat_add(
                self.state.accidental_escalation_risk,
                -100,
            );
            fb.push(Feedback::InvestigateTightened);
        }
        let (mut post_fb, red_roll, silo_roll, whisper_roll) = self.end_turn_post();
        fb.append(&mut post_fb);
        proof {
            let w1 = investigate_s(old(self).state, tightened);
            let head: Seq<Feedback> = if tightened {
                seq![Feedback::InvestigateAudit, Feedback::InvestigateTightened]
            } else {
                seq![Feedback::InvestigateAudit]
            };
            assert(fb@ =~= head + post_step_fb(w1, red_roll, silo_roll, whisper_roll));
            assert(investigate_witness(
                *old(self),
                *self,
                fb@,
                tightened,
                red_roll,
                silo_roll,
                whisper_roll,
            ));
        }
        fb
    }

    /// Resolves the containment directive.
    fn do_contain(&mut self) -> (fb: Vec<Feedback>)
        requires
            old(self).wf(),
        ensures
            final(self).wf(),
            final(self).state.bounded_ok(),
            contain_post(*old(self), *final(self), fb@),
            final(self).state.advisors@ == old(self).state.advisors@,
    {
        let mut fb: Vec<Feedback> = Vec::new();
        if self.state.foreign_paranoia > 600 {
            fb.push(Feedback::ContainFailed);
            self.state.global_tension = sat_add(self.state.global_tension, 100);
        } else {
            self.state.global_tension = sat_add(self.state.global_tension, -150);
            self.state.domestic_stability = sat_add(self.state.domestic_stability, -100);
            fb.push(Feedback::ContainSuccess);
        }
        let (mut post_fb, red_roll, silo_roll, whisper_roll) = self.end_turn_post();
        fb.append(&mut post_fb);
        proof {
            let w1 = contain_s(old(self).state);
            let head: Seq<Feedback> = if old(self).state.foreign_paranoia > 600 {
                seq![Feedback::ContainFailed]
            } else {
                seq![Feedback::ContainSuccess]
            };
            assert(fb@ =~= head + post_step_fb(w1, red_roll, silo_roll, whisper_roll));
            assert(contain_witness(*old(self), *self, fb@, red_roll, silo_roll, whisper_roll));
        }
        fb
    }

    /// Resolves the leak directive.
    fn do_leak(&mut self) -> (fb: Vec<Feedback>)
        requires
            old(self).wf(),
        ensures
            final(self).wf(),
            final(self).state.bounded_ok(),
            leak_post(*old(self), *final(self), fb@),
            final(self).state.advisors@ == old(self).state.advisors@,
    {
        let mut fb: Vec<Feedback> = Vec::new();
        self.state.internal_secrecy = sat_add(self.state.internal_secrecy, -250);
        self.state.domestic_stability = sat_add(self.state.domestic_stability, 200);
        self.state.foreign_paranoia = sat_add(self.state.foreign_paranoia, -50);
        fb.push(Feedback::LeakReleased);
        let (mut post_fb, red_roll, silo_roll, whisper_roll) = self.end_turn_post();
        fb.append(&mut post_fb);
        proof {
            let w1 = leak_s(old(self).state);
            assert(fb@ =~= seq![Feedback::LeakReleased] + post_step_fb(
                w1,
                red_roll,
                silo_roll,
                whisper_roll,
            ));
            assert(leak_witness(*old(self), *self, fb@, red_roll, silo_roll, whisper_roll));
        }
        fb
    }

    /// Resolves the stand-down directive.
    fn do_stand_down(&mut self) -> (fb: Vec<Feedback>)
        requires
            old(self).wf(),
        ensures
            final(self).wf(),
            final(self).state.bounded_ok(),
            stand_down_post(*old(self), *final(self), fb@),
            final(self).state.advisors@ == old(self).state.advisors@,
    {
        let mut fb: Vec<Feedback> = Vec::new();
        self.state.global_tension = sat_add(self.state.global_tension, -400);
        self.state.foreign_paranoia = sat_add(self.state.foreign_paranoia, -300);
        self.state.domestic_stability = sat_add(self.state.domestic_stability, -350);
        fb.push(Feedback::StandDownOrdered);
        fb.push(Feedback::TribunalRumors);
        let (mut post_fb, red_roll, silo_roll, whisper_roll) = self.end_turn_post();
        fb.append(&mut post_fb);
        proof {
            let w1 = stand_down_s(old(self).state);
            assert(fb@ =~= seq![Feedback::StandDownOrdered, Feedback::TribunalRumors]
                + post_step_fb(w1, red_roll, silo_roll, whisper_roll));
            assert(stand_down_witness(*old(self), *self, fb@, red_roll, silo_roll, whisper_roll));
        }
        fb
    }
}

/// In every well-formed engine state, never more than one advisor carries
/// the mole mark; the intel budget sits between zero and its per-turn cap;
/// and the per-turn trace and interrogation counts never pass two. Every
/// public operation requires and re-establishes well-formedness, so these
/// bounds hold across any sequence of resolutions.
pub proof fn lemma_engine_invariants(e: GameEngine)
    requires
        e.wf(),
    ensures
        at_most_one_mole(e.state.advisors@),
        0 <= e.intel_points <= e.max_intel_points,
        e.max_intel_points <= 3,
        e.traces_this_turn <= 2,
        e.interrogations_this_turn <= 2,
        distinct_strs(e.traced_advisors@),
        distinct_strs(e.interrogated_advisors@),
{
}

/// A trace attempted at the per-turn cap performs nothing at all, so no
/// turn ever sees more than two successful traces.
pub proof fn lemma_trace_rate_limited(
    e0: GameEngine,
    target: Seq<char>,
    e1: GameEngine,
    fb: Seq<Feedback>,
)
    requires
        trace_post(e0, target, e1, fb),
        e0.traces_this_turn >= 2,
    ensures
        trace_no_change(e0, e1),
        fb.len() == 1 && fb[0] is TraceLimitReached,
{
}

/// A trace aimed at an advisor already scanned this turn performs nothing
/// at all, so no advisor is traced twice within one turn.
pub proof fn lemma_trace_unique_target(
    e0: GameEngine,
    target: Seq<char>,
    e1: GameEngine,
    fb: Seq<Feedback>,
    i: int,
)
    requires
        trace_post(e0, target, e1, fb),
        first_advisor_match(e0.state.advisors@, target, i),
        contains_name(e0.traced_advisors@, e0.state.advisors@[i].name@),
    ensures
        trace_no_change(e0, e1),
{
    if e0.traces_this_turn < 2 && e0.intel_points != 0 && e0.interruption_active {
        assert(!no_advisor_match(e0.state.advisors@, target));
        let i2 = choose|i2: int| trace_found_witness(e0, target, e1, fb, i2);
        assert(advisor_matches(e0.state.advisors@[i2], target));
        assert(advisor_matches(e0.state.advisors@[i], target));
        assert(i2 == i);
    }
}

/// An interrogation attempted at the per-turn cap performs nothing at all,
/// so no turn ever sees more than two successful interrogations.
pub proof fn lemma_interrogate_rate_limited(
    e0: GameEngine,
    target: Seq<char>,
    e1: GameEngine,
    fb: Seq<Feedback>,
)
    requires
        interrogate_post(e0, target, e1, fb),
        e0.interrogations_this_turn >= 2,
    ensures
        interrogate_no_change(e0, e1),
        fb.len() == 1 && fb[0] is InterrogationLimitReached,
{
}

/// An interrogation aimed at an advisor already questioned this turn
/// performs nothing at all, so no advisor is interrogated twice within one
/// turn.
pub proof fn lemma_interrogate_unique_target(
    e0: GameEngine,
    target: Seq<char>,
    e1: GameEngine,
    fb: Seq<Feedback>,
    i: int,
)
    requires
        interrogate_post(e0, target, e1, fb),
        first_advisor_match(e0.state.advisors@, target, i),
        contains_name(e0.interrogated_advisors@, e0.state.advisors@[i].name@),
    ensures
        interrogate_no_change(e0, e1),
{
    if e0.interrogations_this_turn < 2 && e0.intel_points >= 2 {
        assert(!no_advisor_match(e0.state.advisors@, target));
        let i2 = choose|i2: int| interrogate_found_witness(e0, target, e1, fb, i2);
        assert(advisor_matches(e0.state.advisors@[i2], target));
        assert(advisor_matches(e0.state.advisors@[i], target));
        assert(i2 == i);
    }
}

/// One successful interrogation, read off the contract in plain arithmetic:
/// it costs exactly two points; it raises the target's suspicion by exactly
/// twenty, or thirty-five on the mole's slip branch; a loyal target's
/// distress dents their role's metric while the mole's answers leave the
/// world untouched; and the red phone ends up raised exactly when it
/// already was, or the target is the mole and their suspicion has reached
/// the critical threshold — a loyal target never raises it. Stated for
/// suspicion far below the counter's saturation point, where the saturating
/// additions read as plain sums.
pub proof fn lemma_interrogate_effect(
    e0: GameEngine,
    target: Seq<char>,
    e1: GameEngine,
    fb: Seq<Feedback>,
    i: int,
)
    requires
        interrogate_post(e0, target, e1, fb),
        e0.interrogations_this_turn < 2,
        e0.intel_points >= 2,
        first_advisor_match(e0.state.advisors@, target, i),
        !contains_name(e0.interrogated_advisors@, e0.state.advisors@[i].name@),
        e0.state.advisors@[i].suspicion <= 1000000,
    ensures
        e1.intel_points == e0.intel_points - 2,
        e1.interrogations_this_turn == e0.interrogations_this_turn + 1,
        e1.state.advisors@[i].suspicion == e0.state.advisors@[i].suspicion + 20 || (
        e0.state.advisors@[i].is_mole && e1.state.advisors@[i].suspicion
            == e0.state.advisors@[i].suspicion + 35),
        !e0.state.advisors@[i].is_mole ==> e1.state.advisors@[i].suspicion
            == e0.state.advisors@[i].suspicion + 20,
        e1.state.red_phone_active == (e0.state.red_phone_active || (e0.state.advisors@[i].is_mole
            && e1.state.advisors@[i].suspicion >= 100)),
        !e0.state.advisors@[i].is_mole ==> world_scalars_eq(
            distress_s(e0.state, e0.state.advisors@[i].role),
            e1.state,
        ),
        e0.state.advisors@[i].is_mole ==> world_scalars_eq(e0.state, e1.state),
{
    assert(advisor_matches(e0.state.advisors@[i], target));
    assert(!no_advisor_match(e0.state.advisors@, target));
    let i2 = choose|i2: int| interrogate_found_witness(e0, target, e1, fb, i2);
    assert(advisor_matches(e0.state.advisors@[i2], target));
    assert(i2 == i);
    let slip = choose|slip: bool| interrogate_outcome(e0, e1, fb, i, slip);
    assert(interrogate_outcome(e0, e1, fb, i, slip));
}

/// The counsel table: executable form.
fn advice_for(role: AdvisorRole, is_mole: bool, w: &WorldState) -> (k: AdviceKind)
    ensures
        k == advice_s(role, is_mole, *w),
{
    if is_mole {
        match role {
            AdvisorRole::General => if w.global_tension > 700 {
                AdviceKind::MoleUrgeStrike
            } else {
                AdviceKind::MoleUrgeWithdrawal
            },
            AdvisorRole::Director => if w.internal_secrecy < 400 {
                AdviceKind::MoleUrgeLeaks
            } else {
                AdviceKind::MoleUrgePurge
            },
            AdvisorRole::Ambassador => if w.foreign_paranoia > 600 {
                AdviceKind::MoleUrgeDismissal
            } else {
                AdviceKind::MoleUrgeApology
            },
        }
    } else {
        match role {
            AdvisorRole::General => if w.global_tension > 800 {
                AdviceKind::AdviseResolve
            } else if w.foreign_paranoia > 700 {
                AdviceKind::AdviseCalming
            } else {
                AdviceKind::AdviseReadinessTest
            },
            AdvisorRole::Director => if w.secret_weapon_progress > 700 {
                AdviceKind::AdviseSecureProject
            } else if w.internal_secrecy < 500 {
                AdviceKind::AdvisePlugLeaks
            } else {
                AdviceKind::AdviseExploitChaos
            },
            AdvisorRole::Ambassador => if w.global_tension > 600 {
                AdviceKind::AdviseBackchannel
            } else if w.domestic_stability < 400 {
                AdviceKind::AdviseGoPublic
            } else {
                AdviceKind::AdviseHoldCourse
            },
        }
    }
}

/// A name list holds a given name: executable form.
fn name_list_contains(names: &Vec<String>, name: &String) -> (r: bool)
    ensures
        r == contains_name(names@, name@),
{
    let n = names.len();
    let mut k: usize = 0;
    while k < n
        invariant
            k <= n,
            n == names@.len(),
            forall|j: int| 0 <= j < k ==> (#[trigger] names@[j])@ != name@,
        decreases n - k,
    {
        if names[k] == *name {
            return true;
        }
        k = k + 1;
    }
    false
}

} // verus!
