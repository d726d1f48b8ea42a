use coldwar::feedback::Feedback;
use coldwar::game::{CrisisChoice, CrisisOutcome, Directive, GameEngine};

fn fresh() -> GameEngine {
    GameEngine::new(42)
}

fn mole_index(e: &GameEngine) -> usize {
    e.state.advisors.iter().position(|a| a.is_mole).unwrap()
}

fn loyal_index(e: &GameEngine) -> usize {
    e.state.advisors.iter().position(|a| !a.is_mole).unwrap()
}

#[test]
fn fresh_engine_turn_one_budget_and_batch() {
    let mut e = fresh();
    e.start_turn();
    assert_eq!(e.turn_count, 1);
    assert_eq!(e.max_intel_points, 1);
    assert_eq!(e.intel_points, 1);
    assert_eq!(e.pending_documents.len(), 3);
    assert!(!e.interruption_active);
    assert!(e.pending_documents.iter().any(|d| d.is_encrypted));
}

#[test]
fn fresh_engine_has_exactly_one_mole() {
    for seed in 0..20u64 {
        let e = GameEngine::new(seed);
        let moles = e.state.advisors.iter().filter(|a| a.is_mole).count();
        assert_eq!(moles, 1);
    }
}

#[test]
fn decrypt_without_intel_fails_without_cost() {
    let mut e = fresh();
    e.start_turn();
    e.intel_points = 0;
    let (fb, ended) = e.resolve_directive(Directive::Decrypt("DOC-0001".to_string()));
    assert!(matches!(fb[0], Feedback::InsufficientIntelUrgent));
    assert_eq!(e.intel_points, 0);
    assert!(!ended);
}

#[test]
fn decrypt_unknown_id_refunds_the_point() {
    let mut e = fresh();
    e.start_turn();
    let before = e.intel_points;
    let (fb, ended) = e.resolve_directive(Directive::Decrypt("NO-SUCH-ID".to_string()));
    assert!(!ended);
    assert_eq!(e.intel_points, before);
    match &fb[0] {
        Feedback::DocumentNotFound(id) => assert_eq!(id, "NO-SUCH-ID"),
        other => panic!("unexpected feedback: {:?}", other),
    }
}

#[test]
fn decrypt_flips_an_encrypted_document_once() {
    let mut e = fresh();
    e.start_turn();
    let idx = e.pending_documents.iter().position(|d| d.is_encrypted).unwrap();
    let id = e.pending_documents[idx].id.clone();
    let content = e.pending_documents[idx].content.clone();
    let (fb, ended) = e.resolve_directive(Directive::Decrypt(id.clone()));
    assert!(!ended);
    assert_eq!(e.intel_points, 0);
    assert!(!e.pending_documents[idx].is_encrypted);
    match &fb[0] {
        Feedback::DocumentDecrypted(got) => assert_eq!(*got, id),
        other => panic!("unexpected feedback: {:?}", other),
    }
    match &fb[1] {
        Feedback::DocumentContent(got) => assert_eq!(*got, content),
        other => panic!("unexpected feedback: {:?}", other),
    }
    // A second decrypt of the same document wastes the asset but still costs.
    e.intel_points = 1;
    let (fb2, _) = e.resolve_directive(Directive::Decrypt(id));
    assert!(matches!(fb2[0], Feedback::DocumentNotEncrypted(_)));
    assert_eq!(e.intel_points, 0);
}

#[test]
fn analyze_reports_the_reliability_tier() {
    let mut e = fresh();
    e.start_turn();
    let id = e.pending_documents[0].id.clone();
    let reliability = e.pending_documents[0].reliability;
    let (fb, ended) = e.resolve_directive(Directive::Analyze(id.clone()));
    assert!(!ended);
    assert_eq!(e.intel_points, 0);
    assert!(matches!(&fb[0], Feedback::AnalysisComplete(got) if *got == id));
    match fb[1] {
        Feedback::ReliabilityReport(p) => assert_eq!(p, reliability / 10),
        ref other => panic!("unexpected feedback: {:?}", other),
    }
}

#[test]
fn analyze_unknown_id_refunds_the_point() {
    let mut e = fresh();
    e.start_turn();
    let before = e.intel_points;
    let (fb, _) = e.resolve_directive(Directive::Analyze("DOC-XXXX-MISSING".to_string()));
    assert!(matches!(fb[0], Feedback::DocumentNotFound(_)));
    assert_eq!(e.intel_points, before);
}

#[test]
fn escalate_twice_strictly_raises_bounded_tension() {
    let mut e = fresh();
    e.start_turn();
    let t0 = e.state.global_tension;
    assert_eq!(t0, 200);
    let (_, ended1) = e.resolve_directive(Directive::Escalate);
    assert!(ended1);
    let t1 = e.state.global_tension;
    assert!(t1 > t0);
    assert!(t1 <= 1000);
    e.start_turn();
    let (_, ended2) = e.resolve_directive(Directive::Escalate);
    assert!(ended2);
    let t2 = e.state.global_tension;
    assert!(t2 > t1);
    assert!(t2 <= 1000);
}

#[test]
fn suspicion_critical_raises_red_phone_only_for_the_mole() {
    // Two interrogations drive an advisor from 60 to at least 100.
    for pick_mole in [true, false] {
        let mut e = fresh();
        e.start_turn();
        let idx = if pick_mole { mole_index(&e) } else { loyal_index(&e) };
        let name = e.state.advisors[idx].name.clone();
        e.state.advisors[idx].suspicion = 60;
        e.max_intel_points = 3;
        e.intel_points = 3;
        let (_, ended) = e.resolve_directive(Directive::Interrogate(name.clone()));
        assert!(!ended);
        // Fresh allowance, as a new turn would grant.
        e.interrogations_this_turn = 0;
        e.interrogated_advisors.clear();
        e.intel_points = 3;
        e.resolve_directive(Directive::Interrogate(name));
        assert!(e.state.advisors[idx].suspicion >= 100);
        assert_eq!(e.state.red_phone_active, pick_mole);
    }
}

#[test]
fn interrogate_costs_two_and_raises_suspicion() {
    let mut e = fresh();
    e.start_turn();
    e.max_intel_points = 3;
    e.intel_points = 3;
    let idx = loyal_index(&e);
    let name = e.state.advisors[idx].name.clone();
    let before = e.state.advisors[idx].suspicion;
    let (fb, ended) = e.resolve_directive(Directive::Interrogate(name));
    assert!(!ended);
    assert_eq!(e.intel_points, 1);
    assert_eq!(e.state.advisors[idx].suspicion, before + 20);
    assert!(matches!(fb[0], Feedback::Interrogating(_)));
    assert!(matches!(fb[1], Feedback::LoyalOutburst(_, _)));
    assert!(matches!(fb[2], Feedback::GenuineDistress));
}

#[test]
fn interrogate_with_one_point_fails_without_cost() {
    let mut e = fresh();
    e.start_turn();
    assert_eq!(e.intel_points, 1);
    let (fb, _) = e.resolve_directive(Directive::Interrogate("General".to_string()));
    assert!(matches!(fb[0], Feedback::InsufficientIntelForInterrogation));
    assert_eq!(e.intel_points, 1);
    assert_eq!(e.interrogations_this_turn, 0);
}

#[test]
fn interrogate_unknown_reference_leaves_intel_unchanged() {
    let mut e = fresh();
    e.start_turn();
    e.max_intel_points = 3;
    e.intel_points = 3;
    let (fb, _) = e.resolve_directive(Directive::Interrogate("nobody at all".to_string()));
    assert!(matches!(fb[0], Feedback::AdvisorNotFound(_)));
    assert_eq!(e.intel_points, 3);
}

#[test]
fn rate_limits_cap_traces_and_interrogations_at_two() {
    let mut e = fresh();
    e.start_turn();
    e.max_intel_points = 3;
    e.intel_points = 3;
    e.interruption_active = true;
    let names: Vec<String> = e.state.advisors.iter().map(|a| a.name.clone()).collect();
    let (_, _) = e.resolve_directive(Directive::Trace(names[0].clone()));
    let (_, _) = e.resolve_directive(Directive::Trace(names[1].clone()));
    assert_eq!(e.traces_this_turn, 2);
    let (fb, _) = e.resolve_directive(Directive::Trace(names[2].clone()));
    assert!(matches!(fb[0], Feedback::TraceLimitReached));
    assert_eq!(e.traces_this_turn, 2);

    let mut e2 = fresh();
    e2.start_turn();
    e2.max_intel_points = 3;
    e2.intel_points = 3;
    let (_, _) = e2.resolve_directive(Directive::Interrogate(names[0].clone()));
    e2.intel_points = 3;
    let (_, _) = e2.resolve_directive(Directive::Interrogate(names[1].clone()));
    assert_eq!(e2.interrogations_this_turn, 2);
    e2.intel_points = 3;
    let (fb2, _) = e2.resolve_directive(Directive::Interrogate(names[2].clone()));
    assert!(matches!(fb2[0], Feedback::InterrogationLimitReached));
}

#[test]
fn same_advisor_cannot_be_traced_twice_in_a_turn() {
    let mut e = fresh();
    e.start_turn();
    e.max_intel_points = 3;
    e.intel_points = 3;
    e.interruption_active = true;
    let name = e.state.advisors[0].name.clone();
    e.resolve_directive(Directive::Trace(name.clone()));
    let intel_after_first = e.intel_points;
    let (fb, _) = e.resolve_directive(Directive::Trace(name));
    assert!(matches!(fb[0], Feedback::AdvisorAlreadyTraced(_)));
    assert_eq!(e.intel_points, intel_after_first);
    assert_eq!(e.traces_this_turn, 1);
}

#[test]
fn trace_needs_an_active_interruption() {
    let mut e = fresh();
    e.start_turn();
    assert!(!e.interruption_active);
    let (fb, _) = e.resolve_directive(Directive::Trace("General".to_string()));
    assert!(matches!(fb[0], Feedback::NoActiveInterruption));
    assert_eq!(e.intel_points, 1);
}

#[test]
fn trace_unknown_reference_leaves_intel_unchanged() {
    let mut e = fresh();
    e.start_turn();
    e.interruption_active = true;
    let before = e.intel_points;
    let (fb, _) = e.resolve_directive(Directive::Trace("premier chernov".to_string()));
    assert!(matches!(fb[0], Feedback::AdvisorNotFound(_)));
    assert_eq!(e.intel_points, before);
    assert_eq!(e.traces_this_turn, 0);
}

#[test]
fn trace_confirms_the_mole_and_raises_the_red_phone() {
    let mut e = fresh();
    e.start_turn();
    e.interruption_active = true;
    let idx = mole_index(&e);
    let name = e.state.advisors[idx].name.clone();
    let (fb, ended) = e.resolve_directive(Directive::Trace(name.clone()));
    assert!(!ended);
    assert!(matches!(fb[0], Feedback::TraceStarted));
    assert!(matches!(&fb[1], Feedback::TraceMoleMatch(n) if *n == name));
    assert!(matches!(fb[2], Feedback::MoleConfirmed));
    assert_eq!(e.state.advisors[idx].suspicion, 100);
    assert!(e.state.red_phone_active);
    assert_eq!(e.intel_points, 0);
}

#[test]
fn trace_of_a_loyal_advisor_reads_clean() {
    let mut e = fresh();
    e.start_turn();
    e.interruption_active = true;
    let idx = loyal_index(&e);
    let name = e.state.advisors[idx].name.clone();
    let (fb, _) = e.resolve_directive(Directive::Trace(name));
    assert!(matches!(fb[0], Feedback::TraceStarted));
    assert!(matches!(fb[1], Feedback::TraceClean(_)));
    assert!(!e.state.red_phone_active);
}

#[test]
fn first_consult_is_free_and_later_ones_cost() {
    let mut e = fresh();
    e.start_turn();
    assert_eq!(e.intel_points, 1);
    let (fb, _) = e.resolve_directive(Directive::Consult("General".to_string()));
    assert!(matches!(fb[0], Feedback::ConsultFree(_)));
    assert!(matches!(fb[1], Feedback::Advice(_)));
    assert_eq!(e.intel_points, 1);
    let (fb2, _) = e.resolve_directive(Directive::Consult("Director".to_string()));
    assert!(matches!(fb2[0], Feedback::ConsultPaid(_)));
    assert_eq!(e.intel_points, 0);
    let (fb3, _) = e.resolve_directive(Directive::Consult("Ambassador".to_string()));
    assert!(matches!(fb3[0], Feedback::InsufficientIntelForConsult));
    assert_eq!(e.intel_points, 0);
}

#[test]
fn failed_consult_reference_is_refunded_and_not_counted() {
    let mut e = fresh();
    e.start_turn();
    e.consult_count = 1;
    let before = e.intel_points;
    let (fb, _) = e.resolve_directive(Directive::Consult("no one here".to_string()));
    assert!(matches!(fb[0], Feedback::AdvisorNotFound(_)));
    assert_eq!(e.intel_points, before);
    assert_eq!(e.consult_count, 1);
}

#[test]
fn contain_against_calm_enemy_reduces_tension_exactly() {
    let mut e = fresh();
    e.start_turn();
    assert!(e.state.foreign_paranoia <= 600);
    let (fb, ended) = e.resolve_directive(Directive::Contain);
    assert!(ended);
    assert!(matches!(fb[0], Feedback::ContainSuccess));
    // 200 - 150 = 50, below the drift threshold, and nothing else moves it.
    assert_eq!(e.state.global_tension, 50);
    assert_eq!(e.state.domestic_stability, 700);
}

#[test]
fn contain_against_paranoid_enemy_backfires() {
    let mut e = fresh();
    e.start_turn();
    e.state.foreign_paranoia = 700;
    let (fb, _) = e.resolve_directive(Directive::Contain);
    assert!(matches!(fb[0], Feedback::ContainFailed));
    // 200 + 100 = 300, not past the drift threshold.
    assert_eq!(e.state.global_tension, 300);
}

#[test]
fn leak_trades_secrecy_for_stability_exactly() {
    let mut e = fresh();
    e.start_turn();
    let (fb, ended) = e.resolve_directive(Directive::Leak);
    assert!(ended);
    assert!(matches!(fb[0], Feedback::LeakReleased));
    assert_eq!(e.state.internal_secrecy, 250);
    assert_eq!(e.state.domestic_stability, 1000);
    assert_eq!(e.state.foreign_paranoia, 250);
}

#[test]
fn stand_down_collapses_posture_with_clamping() {
    let mut e = fresh();
    e.start_turn();
    let (fb, ended) = e.resolve_directive(Directive::StandDown);
    assert!(ended);
    assert!(matches!(fb[0], Feedback::StandDownOrdered));
    assert!(matches!(fb[1], Feedback::TribunalRumors));
    assert_eq!(e.state.global_tension, 0);
    assert_eq!(e.state.foreign_paranoia, 0);
    assert_eq!(e.state.domestic_stability, 450);
}

#[test]
fn investigate_advances_the_weapon_and_lowers_secrecy() {
    let mut e = fresh();
    e.start_turn();
    let (fb, ended) = e.resolve_directive(Directive::Investigate);
    assert!(ended);
    assert!(matches!(fb[0], Feedback::InvestigateAudit));
    assert_eq!(e.state.internal_secrecy, 400);
    // 100 + 150 = 250, past the drift threshold: +20.
    assert_eq!(e.state.secret_weapon_progress, 270);
    assert!(e.state.accidental_escalation_risk == 0 || e.state.accidental_escalation_risk == 50);
}

#[test]
fn bounded_metrics_stay_in_range_after_every_consumed_turn() {
    let mut e = fresh();
    let majors = [
        Directive::Escalate,
        Directive::Investigate,
        Directive::Escalate,
        Directive::Leak,
        Directive::Escalate,
        Directive::Contain,
        Directive::Escalate,
        Directive::StandDown,
        Directive::Escalate,
        Directive::Investigate,
        Directive::Escalate,
        Directive::Escalate,
    ];
    for d in majors {
        if e.state.is_terminal() {
            break;
        }
        e.start_turn();
        let (_, ended) = e.resolve_directive(d);
        assert!(ended);
        for v in [
            e.state.global_tension,
            e.state.internal_secrecy,
            e.state.foreign_paranoia,
            e.state.accidental_escalation_risk,
            e.state.domestic_stability,
            e.state.secret_weapon_progress,
        ] {
            assert!((0..=1000).contains(&v));
        }
        assert!((0..=1000).contains(&e.state.system_corruption));
    }
}

#[test]
fn intel_never_exceeds_its_cap_across_many_resolutions() {
    let mut e = fresh();
    for turn in 0..12 {
        if e.state.is_terminal() {
            break;
        }
        e.start_turn();
        assert!(e.intel_points <= e.max_intel_points);
        let minors = [
            Directive::Consult("General".to_string()),
            Directive::Decrypt("DOC-BOGUS".to_string()),
            Directive::Analyze("DOC-BOGUS".to_string()),
            Directive::Trace("Director".to_string()),
            Directive::Interrogate("Ambassador".to_string()),
            Directive::Consult("nobody".to_string()),
        ];
        for d in minors {
            let (_, ended) = e.resolve_directive(d);
            assert!(!ended || e.state.system_corruption > 400);
            assert!(e.intel_points <= e.max_intel_points);
        }
        let (_, _) = e.resolve_directive(if turn % 2 == 0 {
            Directive::Investigate
        } else {
            Directive::Contain
        });
        assert!(e.intel_points <= e.max_intel_points);
    }
}

#[test]
fn mole_crisis_execute_clears_the_mole_for_good() {
    let mut e = fresh();
    e.start_turn();
    let idx = mole_index(&e);
    e.state.advisors[idx].suspicion = 100;
    e.state.red_phone_active = true;
    assert!(e.has_critical_suspect());
    let outcome = e.resolve_crisis(CrisisChoice::Execute);
    assert_eq!(outcome, CrisisOutcome::MoleExecuted);
    assert!(!e.state.red_phone_active);
    assert_eq!(e.state.advisors[idx].suspicion, 0);
    assert!(!e.state.advisors[idx].is_mole);
    assert!(e.state.advisors.iter().all(|a| !a.is_mole));
    // 800 + 300 and 300 + 200; the crisis does not clamp.
    assert_eq!(e.state.domestic_stability, 1100);
    assert_eq!(e.state.foreign_paranoia, 500);
}

#[test]
fn mole_crisis_turn_flips_the_asset() {
    let mut e = fresh();
    e.start_turn();
    let idx = mole_index(&e);
    e.state.advisors[idx].suspicion = 120;
    e.state.red_phone_active = true;
    let outcome = e.resolve_crisis(CrisisChoice::Turn);
    assert_eq!(outcome, CrisisOutcome::MoleTurned);
    assert_eq!(e.state.global_tension, -100);
    assert_eq!(e.state.internal_secrecy, 400);
    assert_eq!(e.state.accidental_escalation_risk, 150);
    assert!(!e.state.advisors[idx].is_mole);
    assert_eq!(e.state.advisors[idx].suspicion, 0);
}

#[test]
fn nuclear_crisis_branches() {
    // Denial believed while paranoia is moderate.
    let mut e = fresh();
    e.state.red_phone_active = true;
    let outcome = e.resolve_crisis(CrisisChoice::Deny);
    assert_eq!(outcome, CrisisOutcome::DenialAccepted);
    assert_eq!(e.state.global_tension, 0);
    assert!(!e.state.red_phone_active);

    // Denial rejected under heavy paranoia: a loss.
    let mut e2 = fresh();
    e2.state.foreign_paranoia = 800;
    e2.state.red_phone_active = true;
    assert_eq!(e2.resolve_crisis(CrisisChoice::Deny), CrisisOutcome::DenialRejected);
    assert_eq!(e2.state.global_tension, 1000);
    assert!(e2.state.is_terminal());

    // Admission de-escalates at a stability price.
    let mut e3 = fresh();
    e3.state.red_phone_active = true;
    assert_eq!(e3.resolve_crisis(CrisisChoice::Admit), CrisisOutcome::Admission);
    assert_eq!(e3.state.global_tension, -300);
    assert_eq!(e3.state.domestic_stability, 500);

    // Threats end the world.
    let mut e4 = fresh();
    e4.state.red_phone_active = true;
    assert_eq!(e4.resolve_crisis(CrisisChoice::Threaten), CrisisOutcome::Launch);
    assert_eq!(e4.state.global_tension, 1000);
    assert!(e4.state.is_terminal());
}

#[test]
fn override_can_seize_a_minor_directive_under_high_corruption() {
    let mut hijacked = false;
    for seed in 0..200u64 {
        let mut e = GameEngine::new(seed);
        e.start_turn();
        e.state.system_corruption = 1000;
        let (fb, ended) = e.resolve_directive(Directive::Decrypt("DOC-0000".to_string()));
        if matches!(fb.first(), Some(Feedback::OverrideAlert)) {
            assert!(ended);
            assert!(matches!(
                fb[1],
                Feedback::OverrideEscalate | Feedback::OverrideInvestigate
            ));
            hijacked = true;
            break;
        } else {
            assert!(!ended);
        }
    }
    assert!(hijacked, "no seed in range triggered the override");
}

#[test]
fn no_override_below_the_corruption_threshold() {
    for seed in 0..50u64 {
        let mut e = GameEngine::new(seed);
        e.start_turn();
        e.state.system_corruption = 400;
        let (fb, ended) = e.resolve_directive(Directive::Consult("General".to_string()));
        assert!(!ended);
        assert!(!matches!(fb.first(), Some(Feedback::OverrideAlert)));
    }
}

#[test]
fn fuzzy_lookup_matches_name_and_role_case_insensitively() {
    let e = fresh();
    assert_eq!(e.find_advisor("vance"), Some(0));
    assert_eq!(e.find_advisor("GENERAL"), Some(0));
    assert_eq!(e.find_advisor("director"), Some(1));
    assert_eq!(e.find_advisor("k."), Some(1));
    assert_eq!(e.find_advisor("sterling"), Some(2));
    assert_eq!(e.find_advisor("ambassador"), Some(2));
    assert_eq!(e.find_advisor("premier chernov"), None);
}

#[test]
fn same_seed_replays_the_same_game() {
    let mut a = GameEngine::new(7);
    let mut b = GameEngine::new(7);
    for _ in 0..5 {
        a.start_turn();
        b.start_turn();
        let (fa, ea) = a.resolve_directive(Directive::Escalate);
        let (fb, eb) = b.resolve_directive(Directive::Escalate);
        assert_eq!(ea, eb);
        assert_eq!(fa.len(), fb.len());
        assert_eq!(a.state.global_tension, b.state.global_tension);
        assert_eq!(a.intel_points, b.intel_points);
        assert_eq!(a.pending_documents.len(), b.pending_documents.len());
        for (da, db) in a.pending_documents.iter().zip(b.pending_documents.iter()) {
            assert_eq!(da.id, db.id);
            assert_eq!(da.content, db.content);
            assert_eq!(da.reliability, db.reliability);
        }
    }
}
