use coldwar::display::{
    corrupt_text, defcon_level, get_system_status, random_char, scramble_text, stability_desc,
    StatusTone,
};
use coldwar::document::{Document, DocumentType};
use coldwar::feedback::{AdviceKind, Feedback};
use coldwar::game::{Directive, GameEngine};
use coldwar::rng::SimpleRng;
use coldwar::state::WorldState;

#[test]
fn rng_is_deterministic_and_range_respects_bounds() {
    let mut a = SimpleRng::new(123);
    let mut b = SimpleRng::new(123);
    for _ in 0..100 {
        assert_eq!(a.next_u64(), b.next_u64());
    }
    let mut r = SimpleRng::new(99);
    for _ in 0..200 {
        let v = r.range(10, 20);
        assert!((10..20).contains(&v));
        let p = r.next_permille();
        assert!(p < 1000);
    }
    // An empty range hands back the lower bound without advancing.
    let mut s = SimpleRng::new(5);
    assert_eq!(s.range(7, 7), 7);
    assert_eq!(s.range(9, 3), 9);
}

#[test]
fn chance_extremes_behave() {
    let mut r = SimpleRng::new(1);
    for _ in 0..50 {
        assert!(!r.chance(0));
        assert!(r.chance(1000));
    }
}

#[test]
fn world_state_opening_position() {
    let w = WorldState::new();
    assert_eq!(w.global_tension, 200);
    assert_eq!(w.internal_secrecy, 500);
    assert_eq!(w.foreign_paranoia, 300);
    assert_eq!(w.accidental_escalation_risk, 50);
    assert_eq!(w.domestic_stability, 800);
    assert_eq!(w.secret_weapon_progress, 100);
    assert_eq!(w.system_corruption, 0);
    assert!(!w.red_phone_active);
    assert_eq!(w.advisors.len(), 3);
    assert!(w.advisors.iter().all(|a| !a.is_mole && a.suspicion == 0));
    assert_eq!(w.advisors[0].name, "Gen. Vance");
    assert_eq!(w.advisors[1].name, "Director K.");
    assert_eq!(w.advisors[2].name, "Amb. Sterling");
}

#[test]
fn terminality_thresholds() {
    let mut w = WorldState::new();
    assert!(!w.is_terminal());
    w.global_tension = 1000;
    assert!(w.is_terminal());
    w.global_tension = 999;
    assert!(!w.is_terminal());
    w.domestic_stability = 0;
    assert!(w.is_terminal());
}

#[test]
fn generated_documents_are_well_formed() {
    let w = WorldState::new();
    let mut rng = SimpleRng::new(31337);
    for turn in [1u32, 3, 5, 9, 15] {
        let docs = Document::generate_batch(&w, 5, turn, &mut rng);
        assert_eq!(docs.len(), 5);
        for d in &docs {
            assert!((300..=950).contains(&d.reliability));
            assert!(d.id == "SIGNAL-???" || (d.id.len() == 8 && d.id.starts_with("DOC-")));
            if d.is_encrypted {
                assert!(d.doc_type != DocumentType::AnonymousLeak);
                assert!(d.doc_type != DocumentType::AdvisorMessage);
            }
            if turn <= 1 {
                assert!(!d.is_encrypted);
            }
            assert!(!d.content.is_empty());
            let expected_clearance = match d.doc_type {
                DocumentType::BudgetAnomaly => "CONFIDENTIAL",
                DocumentType::AnonymousLeak => "UNVERIFIED",
                DocumentType::AdvisorMessage => "EYES ONLY",
                _ => "TOP SECRET",
            };
            assert_eq!(d.clearance_level, expected_clearance);
        }
    }
}

#[test]
fn batch_size_and_budget_follow_the_difficulty_tables() {
    let mut e = GameEngine::new(4);
    let mut expected = Vec::new();
    for turn in 1..=12u32 {
        let docs = if turn >= 7 { 5 } else if turn >= 4 { 4 } else { 3 };
        let intel = if turn >= 6 { 3 } else if turn >= 3 { 2 } else { 1 };
        expected.push((docs, intel));
    }
    for (i, (docs, intel)) in expected.iter().enumerate() {
        e.start_turn();
        assert_eq!(e.turn_count as usize, i + 1);
        assert_eq!(e.pending_documents.len(), *docs);
        assert_eq!(e.max_intel_points, *intel);
        assert_eq!(e.intel_points, *intel);
        assert!(e.pending_documents.iter().any(|d| d.is_encrypted));
        assert_eq!(e.consult_count, 0);
        assert_eq!(e.traces_this_turn, 0);
        assert_eq!(e.interrogations_this_turn, 0);
        assert!(e.traced_advisors.is_empty());
        assert!(e.interrogated_advisors.is_empty());
        if e.turn_count <= 2 {
            assert!(!e.interruption_active);
        }
    }
}

#[test]
fn corrupt_text_is_identity_before_turn_eight() {
    let mut rng = SimpleRng::new(8);
    let s = "FLASH TRAFFIC: ALL STATIONS REPORT.";
    assert_eq!(corrupt_text(s, 1, &mut rng), s);
    assert_eq!(corrupt_text(s, 7, &mut rng), s);
    // No draw is consumed below turn eight: the stream stays aligned with a
    // fresh one that never saw the call.
    let mut untouched = SimpleRng::new(8);
    assert_eq!(rng.next_u64(), untouched.next_u64());
}

#[test]
fn corrupt_text_keeps_shape_and_whitespace() {
    let mut rng = SimpleRng::new(77);
    let s = "THE QUICK BROWN FOX JUMPS OVER THE LAZY DOG";
    let out = corrupt_text(s, 20, &mut rng);
    assert_eq!(out.chars().count(), s.chars().count());
    for (a, b) in s.chars().zip(out.chars()) {
        if a.is_ascii_whitespace() {
            assert_eq!(a, b);
        } else {
            assert!(b == a || ['#', '_', '?', '%', ' '].contains(&b));
        }
    }
}

#[test]
fn scramble_text_masks_everything_but_spaces() {
    let mut rng = SimpleRng::new(3);
    let s = "WE ARE NOT ALONE";
    let out = scramble_text(s, &mut rng);
    assert_eq!(out.chars().count(), s.chars().count());
    let glyphs: Vec<char> = "0123456789ABCDEFXZ@#&".chars().collect();
    for (a, b) in s.chars().zip(out.chars()) {
        if a == ' ' {
            assert_eq!(b, ' ');
        } else {
            assert!(glyphs.contains(&b));
        }
    }
}

#[test]
fn random_char_draws_from_the_glyph_alphabet() {
    let mut rng = SimpleRng::new(17);
    let glyphs: Vec<char> = "0123456789ABCDEFXZ@#&".chars().collect();
    for _ in 0..100 {
        assert!(glyphs.contains(&random_char(&mut rng)));
    }
}

#[test]
fn system_status_follows_the_turn_bands() {
    let mut rng = SimpleRng::new(2);
    let (s, tone) = get_system_status(1, &mut rng);
    assert_eq!(s, "OPERATIONAL - ALL SYSTEMS GREEN");
    assert_eq!(tone, StatusTone::Nominal);
    let (s, tone) = get_system_status(6, &mut rng);
    assert_eq!(s, "MINOR COOLING FAULTS - FANS SPINNING UP");
    assert_eq!(tone, StatusTone::Nominal);
    let (s, tone) = get_system_status(10, &mut rng);
    assert_eq!(s, "WARNING: CO2 SCRUBBERS AT 60% EFFICIENCY");
    assert_eq!(tone, StatusTone::Caution);
    let (s, tone) = get_system_status(14, &mut rng);
    assert!(
        s == "ERROR: SECTOR 4 VENTILATION FAILURE" || s == "ALERT: EXTERNAL SENSORS BLIND"
    );
    assert_eq!(tone, StatusTone::Critical);
    let (s, tone) = get_system_status(18, &mut rng);
    assert_eq!(s, "CRITICAL: OXYGEN DEPLETION IMMINENT");
    assert_eq!(tone, StatusTone::Critical);
}

#[test]
fn defcon_and_mood_bands() {
    assert_eq!(defcon_level(950), "1 (IMMINENT NUCLEAR WAR)");
    assert_eq!(defcon_level(800), "2 (NEXT STEP TO NUCLEAR WAR)");
    assert_eq!(defcon_level(600), "3 (AIR FORCE READY TO MOBILIZE)");
    assert_eq!(defcon_level(400), "4 (ABOVE NORMAL READINESS)");
    assert_eq!(defcon_level(200), "5 (NORMAL READINESS)");
    assert_eq!(stability_desc(900), "UNIFIED");
    assert_eq!(stability_desc(700), "STABLE");
    assert_eq!(stability_desc(500), "UNREST");
    assert_eq!(stability_desc(300), "RIOTS");
    assert_eq!(stability_desc(100), "ANARCHY");
}

#[test]
fn feedback_lines_render_as_the_operator_sees_them() {
    assert_eq!(
        Feedback::InsufficientIntel.text(),
        "FAILURE: INSUFFICIENT INTEL ASSETS."
    );
    assert_eq!(
        Feedback::InsufficientIntelForInterrogation.text(),
        "FAILURE: INSUFFICIENT INTEL ASSETS (REQ: 2)."
    );
    assert_eq!(
        Feedback::TraceLimitReached.text(),
        "FAILURE: SIGNAL TRACE LIMIT REACHED FOR THIS CYCLE (MAX 2)."
    );
    assert_eq!(
        Feedback::DocumentNotFound("DOC-0001".to_string()).text(),
        "ERROR: DOCUMENT DOC-0001 NOT FOUND."
    );
    assert_eq!(
        Feedback::AdvisorNotFound("smith".to_string()).text(),
        "ERROR: ADVISOR 'smith' NOT FOUND."
    );
    assert_eq!(
        Feedback::DocumentContent("ALL CLEAR".to_string()).text(),
        "CONTENT: ALL CLEAR"
    );
    assert_eq!(
        Feedback::ReliabilityReport(85).text(),
        "SOURCE RELIABILITY: 85% - HIGH (VERIFIED)"
    );
    assert_eq!(
        Feedback::ReliabilityReport(60).text(),
        "SOURCE RELIABILITY: 60% - MODERATE (UNCERTAIN)"
    );
    assert_eq!(
        Feedback::ReliabilityReport(42).text(),
        "SOURCE RELIABILITY: 42% - LOW (POSSIBLE DISINFORMATION)"
    );
    assert_eq!(
        Feedback::Advice(AdviceKind::AdviseHoldCourse).text(),
        "\"Maintain current diplomatic pressure. (Recommend: WAIT)\""
    );
}

#[test]
fn advice_follows_loyalty_and_thresholds() {
    let mut e = GameEngine::new(11);
    e.start_turn();
    // Make the roster deterministic: the general is the mole.
    for a in e.state.advisors.iter_mut() {
        a.is_mole = false;
    }
    e.state.advisors[0].is_mole = true;
    e.state.global_tension = 200;
    let (fb, _) = e.resolve_directive(Directive::Consult("General".to_string()));
    assert!(matches!(fb[1], Feedback::Advice(AdviceKind::MoleUrgeWithdrawal)));
    e.state.global_tension = 800;
    let (fb, _) = e.resolve_directive(Directive::Consult("General".to_string()));
    assert!(matches!(fb[1], Feedback::Advice(AdviceKind::MoleUrgeStrike)));
    // A loyal director with middling secrecy pushes an audit of the leaks.
    e.state.global_tension = 200;
    e.state.internal_secrecy = 450;
    e.intel_points = e.max_intel_points;
    let (fb, _) = e.resolve_directive(Directive::Consult("Director".to_string()));
    assert!(matches!(fb[1], Feedback::Advice(AdviceKind::AdvisePlugLeaks)));
    // A loyal ambassador under high tension opens a backchannel.
    e.state.global_tension = 700;
    e.intel_points = e.max_intel_points;
    let (fb, _) = e.resolve_directive(Directive::Consult("Ambassador".to_string()));
    assert!(matches!(fb[1], Feedback::Advice(AdviceKind::AdviseBackchannel)));
}
