//! Structured feedback from the directive resolver.
//!
//! The resolver reports an ordered sequence of `Feedback` values; `text`
//! renders each as one human-readable line. The presentation layer treats
//! each entry as an independent line; the single reserved convention is the
//! `CONTENT: ` prefix marking a decrypted document body.

use crate::state::AdvisorRole;
use crate::text::push_dec;
use vstd::prelude::*;

verus! {

/// One line of advisor counsel, keyed by who gives it and what they push.
#[derive(Clone, Copy, Debug, PartialEq, Eq, Structural)]
pub enum AdviceKind {
    /// Mole general, tension high: push for a strike.
    MoleUrgeStrike,
    /// Mole general, tension low: push for a pull-back.
    MoleUrgeWithdrawal,
    /// Mole director, secrecy low: let the leaks flow.
    MoleUrgeLeaks,
    /// Mole director, otherwise: purge the departments.
    MoleUrgePurge,
    /// Mole ambassador, paranoia high: dismiss the threats.
    MoleUrgeDismissal,
    /// Mole ambassador, otherwise: apologize and stand down.
    MoleUrgeApology,
    /// Loyal general, tension critical: show resolve, avoid a first strike.
    AdviseResolve,
    /// Loyal general, paranoia high: reduce readiness.
    AdviseCalming,
    /// Loyal general, otherwise: probe their response times.
    AdviseReadinessTest,
    /// Loyal director, weapon advanced: secure the facility.
    AdviseSecureProject,
    /// Loyal director, secrecy low: plug the leaks.
    AdvisePlugLeaks,
    /// Loyal director, otherwise: exploit the confusion.
    AdviseExploitChaos,
    /// Loyal ambassador, tension high: open a backchannel.
    AdviseBackchannel,
    /// Loyal ambassador, stability low: go public for peace.
    AdviseGoPublic,
    /// Loyal ambassador, otherwise: hold the current course.
    AdviseHoldCourse,
}

/// One structured feedback line from the directive resolver.
#[derive(Clone, Debug)]
pub enum Feedback {
    /// The corrupted system discarded the submitted directive.
    OverrideAlert,
    /// The override substituted an escalation order.
    OverrideEscalate,
    /// The override substituted an investigation order.
    OverrideInvestigate,
    TraceLimitReached,
    InsufficientIntel,
    NoActiveInterruption,
    AdvisorAlreadyTraced(String),
    TraceStarted,
    TraceMoleMatch(String),
    MoleConfirmed,
    TraceClean(String),
    AdvisorNotFound(String),
    InsufficientIntelForConsult,
    /// Consultation under the once-per-turn free allowance.
    ConsultFree(String),
    /// Consultation billed at one intel point.
    ConsultPaid(String),
    Advice(AdviceKind),
    InterrogationLimitReached,
    InsufficientIntelForInterrogation,
    AlreadyQuestioned(String),
    Interrogating(String),
    MoleDenial(String),
    DeceptionIndicated,
    MoleDeflection(String),
    DeflectionNoted,
    LoyalOutburst(AdvisorRole, String),
    GenuineDistress,
    SuspicionCritical(String),
    InsufficientIntelUrgent,
    DocumentDecrypted(String),
    /// A decrypted document body; rendered with the reserved content marker.
    DocumentContent(String),
    DocumentNotEncrypted(String),
    DocumentNotFound(String),
    AnalysisComplete(String),
    /// Source integrity as a percentage.
    ReliabilityReport(u32),
    EscalatePrimed,
    EscalatePanic,
    EscalateMisfire,
    InvestigateAudit,
    InvestigateTightened,
    ContainFailed,
    ContainSuccess,
    LeakReleased,
    StandDownOrdered,
    TribunalRumors,
    SiloWarning,
    CorruptionWhisper,
}

/// The quoted counsel text for one advice line.
fn advice_text(kind: AdviceKind) -> (s: &'static str) {
    match kind {
        AdviceKind::MoleUrgeStrike => "We have the advantage! Strike now before they mobilize further! (Recommend: ESCALATE)",
        AdviceKind::MoleUrgeWithdrawal => "Intelligence is flawed. They are just exercises. We should pull back. (Recommend: STAND DOWN)",
        AdviceKind::MoleUrgeLeaks => "The leaks are useful. They confuse the enemy. Let them flow. (Recommend: LEAK)",
        AdviceKind::MoleUrgePurge => "Our own agents are the problem. Purge the departments. (Recommend: INVESTIGATE)",
        AdviceKind::MoleUrgeDismissal => "They are bluffing. Ignore their threats. (Recommend: CONTAIN)",
        AdviceKind::MoleUrgeApology => "We should apologize for the border incident immediately. (Recommend: STAND DOWN)",
        AdviceKind::AdviseResolve => "Situation Critical. We must show resolve but avoid a first strike. (Recommend: CONTAIN)",
        AdviceKind::AdviseCalming => "They are scared. Reducing readiness might calm them. (Recommend: STAND DOWN)",
        AdviceKind::AdviseReadinessTest => "We should test their response times. (Recommend: INVESTIGATE)",
        AdviceKind::AdviseSecureProject => "The Project is becoming unstable. We need to secure the facility. (Recommend: INVESTIGATE)",
        AdviceKind::AdvisePlugLeaks => "Too many leaks. We need to plug the holes. (Recommend: INVESTIGATE)",
        AdviceKind::AdviseExploitChaos => "We can use the confusion to our advantage. (Recommend: LEAK)",
        AdviceKind::AdviseBackchannel => "We need a backchannel. I can arrange a meeting. (Recommend: CONTAIN)",
        AdviceKind::AdviseGoPublic => "The people need to know we are working for peace. (Recommend: LEAK)",
        AdviceKind::AdviseHoldCourse => "Maintain current diplomatic pressure. (Recommend: WAIT)",
    }
}

impl Feedback {
    /// Renders this line for display. A decrypted body carries the reserved
    /// `CONTENT: ` marker, and nothing else does; the failure lines of the
    /// error taxonomy render to their fixed wording.
    pub fn text(&self) -> (r: String)
        ensures
            self matches Feedback::DocumentContent(c) ==> r@ == "CONTENT: "@ + c@,
            self is InsufficientIntel ==> r@ == "FAILURE: INSUFFICIENT INTEL ASSETS."@,
            self is InsufficientIntelUrgent ==> r@
                == "FAILURE: INSUFFICIENT INTEL ASSETS. YOU MUST ACT NOW."@,
            self is InsufficientIntelForConsult ==> r@
                == "FAILURE: INSUFFICIENT INTEL ASSETS FOR ADDITIONAL CONSULTATION."@,
            self is InsufficientIntelForInterrogation ==> r@
                == "FAILURE: INSUFFICIENT INTEL ASSETS (REQ: 2)."@,
            self is TraceLimitReached ==> r@
                == "FAILURE: SIGNAL TRACE LIMIT REACHED FOR THIS CYCLE (MAX 2)."@,
            self is InterrogationLimitReached ==> r@
                == "FAILURE: INTERROGATION LIMIT REACHED FOR THIS CYCLE (MAX 2)."@,
            self is NoActiveInterruption ==> r@
                == "TRACE FAILED: NO ACTIVE SIGNAL INTERRUPTION TO LOCK ONTO."@,
    {
        match self {
            Feedback::OverrideAlert => String::from_str(
                "WARNING: SYSTEM OVERRIDE DETECTED. AI ASSUMING DIRECT CONTROL.",
            ),
            Feedback::OverrideEscalate => String::from_str(
                ">> COMMAND REWRITTEN: ESCALATING CONFLICT.",
            ),
            Feedback::OverrideInvestigate => String::from_str(
                ">> COMMAND REWRITTEN: PURGING INTERNAL THREATS.",
            ),
            Feedback::TraceLimitReached => String::from_str(
                "FAILURE: SIGNAL TRACE LIMIT REACHED FOR THIS CYCLE (MAX 2).",
            ),
            Feedback::InsufficientIntel => String::from_str("FAILURE: INSUFFICIENT INTEL ASSETS."),
            Feedback::NoActiveInterruption => String::from_str(
                "TRACE FAILED: NO ACTIVE SIGNAL INTERRUPTION TO LOCK ONTO.",
            ),
            Feedback::AdvisorAlreadyTraced(name) => {
                let mut s = String::from_str("FAILURE: SIGNAL SIGNATURE FOR '");
                s.append(name.as_str());
                s.append("' ALREADY SCANNED THIS CYCLE.");
                s
            },
            Feedback::TraceStarted => String::from_str(
                "TRACE INITIATED... COMPARING SIGNAL SIGNATURES...",
            ),
            Feedback::TraceMoleMatch(name) => {
                let mut s = String::from_str(">> MATCH CONFIRMED: ");
                s.append(name.as_str());
                s.append(" IS BROADCASTING ON UNAUTHORIZED FREQUENCY.");
                s
            },
            Feedback::MoleConfirmed => String::from_str(
                "!!! MOLE IDENTITY CONFIRMED. THEY KNOW WE KNOW. !!!",
            ),
            Feedback::TraceClean(name) => {
                let mut s = String::from_str(">> NO MATCH: ");
                s.append(name.as_str());
                s.append(" DEVICE SIGNATURE IS CLEAN.");
                s
            },
            Feedback::AdvisorNotFound(target) => {
                let mut s = String::from_str("ERROR: ADVISOR '");
                s.append(target.as_str());
                s.append("' NOT FOUND.");
                s
            },
            Feedback::InsufficientIntelForConsult => String::from_str(
                "FAILURE: INSUFFICIENT INTEL ASSETS FOR ADDITIONAL CONSULTATION.",
            ),
            Feedback::ConsultFree(name) => {
                let mut s = String::from_str("CONSULTING WITH ");
                s.append(name.as_str());
                s.append("... (STANDARD PROTOCOL)");
                s
            },
            Feedback::ConsultPaid(name) => {
                let mut s = String::from_str("CONSULTING WITH ");
                s.append(name.as_str());
                s.append("... (INTEL COST: 1)");
                s
            },
            Feedback::Advice(kind) => {
                let mut s = String::from_str("\"");
                s.append(advice_text(*kind));
                s.append("\"");
                s
            },
            Feedback::InterrogationLimitReached => String::from_str(
                "FAILURE: INTERROGATION LIMIT REACHED FOR THIS CYCLE (MAX 2).",
            ),
            Feedback::InsufficientIntelForInterrogation => String::from_str(
                "FAILURE: INSUFFICIENT INTEL ASSETS (REQ: 2).",
            ),
            Feedback::AlreadyQuestioned(name) => {
                let mut s = String::from_str("FAILURE: SUBJECT '");
                s.append(name.as_str());
                s.append("' ALREADY QUESTIONED THIS CYCLE.");
                s
            },
            Feedback::Interrogating(name) => {
                let mut s = String::from_str("INTERROGATING SUBJECT: ");
                s.append(name.as_str());
                s
            },
            Feedback::MoleDenial(name) => {
                let mut s = String::from_str(">> ");
                s.append(name.as_str());
                s.append(": \"You have no proof! The system is lying to you!\"");
                s
            },
            Feedback::DeceptionIndicated => String::from_str(
                "ANALYSIS: SUBJECT HEART RATE ELEVATED. DECEPTION INDICATED.",
            ),
            Feedback::MoleDeflection(name) => {
                let mut s = String::from_str(">> ");
                s.append(name.as_str());
                s.append(": \"I am not the leak! Check the logs! It's clearly a setup!\"");
                s
            },
            Feedback::DeflectionNoted => String::from_str("ANALYSIS: SUBJECT ATTEMPTS TO DEFLECT."),
            Feedback::LoyalOutburst(role, name) => {
                let mut s = String::from_str(">> ");
                s.append(name.as_str());
                match role {
                    AdvisorRole::General => s.append(
                        ": \"How dare you question my loyalty! I have bled for this country!\"",
                    ),
                    AdvisorRole::Director => s.append(
                        ": \"This inquiry is unauthorized. You are making a mistake.\"",
                    ),
                    AdvisorRole::Ambassador => s.append(
                        ": \"This is a witch hunt! We are losing credibility!\"",
                    ),
                }
                s
            },
            Feedback::GenuineDistress => String::from_str(
                "ANALYSIS: SUBJECT APPEARS GENUINELY DISTRESSED.",
            ),
            Feedback::SuspicionCritical(name) => {
                let mut s = String::from_str("!!! SUSPICION CRITICAL: ");
                s.append(name.as_str());
                s.append(" IDENTIFIED AS THREAT !!!");
                s
            },
            Feedback::InsufficientIntelUrgent => String::from_str(
                "FAILURE: INSUFFICIENT INTEL ASSETS. YOU MUST ACT NOW.",
            ),
            Feedback::DocumentDecrypted(id) => {
                let mut s = String::from_str("SUCCESS: DOCUMENT ");
                s.append(id.as_str());
                s.append(" DECRYPTED.");
                s
            },
            Feedback::DocumentContent(content) => {
                let mut s = String::from_str("CONTENT: ");
                s.append(content.as_str());
                s
            },
            Feedback::DocumentNotEncrypted(id) => {
                let mut s = String::from_str("NOTICE: DOCUMENT ");
                s.append(id.as_str());
                s.append(" WAS NOT ENCRYPTED. (Intel Asset Wasted)");
                s
            },
            Feedback::DocumentNotFound(id) => {
                let mut s = String::from_str("ERROR: DOCUMENT ");
                s.append(id.as_str());
                s.append(" NOT FOUND.");
                s
            },
            Feedback::AnalysisComplete(id) => {
                let mut s = String::from_str("ANALYSIS COMPLETE: DOCUMENT ");
                s.append(id.as_str());
                s
            },
            Feedback::ReliabilityReport(integrity) => {
                let mut s = String::from_str("SOURCE RELIABILITY: ");
                push_dec(&mut s, *integrity as u64);
                s.append("% - ");
                if *integrity > 80 {
                    s.append("HIGH (VERIFIED)");
                } else if *integrity > 50 {
                    s.append("MODERATE (UNCERTAIN)");
                } else {
                    s.append("LOW (POSSIBLE DISINFORMATION)");
                }
                s
            },
            Feedback::EscalatePrimed => String::from_str(
                "Directive executed: GLOBAL STRIKE ASSETS PRIMED.",
            ),
            Feedback::EscalatePanic => String::from_str(
                "Intelligence reports panic in enemy high command.",
            ),
            Feedback::EscalateMisfire => String::from_str(
                "CRITICAL: MISCOMMUNICATION. SQUADRON LAUNCHED TACTICAL NUKE. ABORTED MID-FLIGHT.",
            ),
            Feedback::InvestigateAudit => String::from_str(
                "Internal audit reveals deeper layers of the Project.",
            ),
            Feedback::InvestigateTightened => String::from_str(
                "Protocols tightened. We are watching the watchers.",
            ),
            Feedback::ContainFailed => String::from_str(
                "Diplomacy FAILED. Enemy interprets silence as preparation for war.",
            ),
            Feedback::ContainSuccess => String::from_str(
                "Tension reduced. Military leadership questions your resolve.",
            ),
            Feedback::LeakReleased => String::from_str(
                "The truth is out. The public riots, but they trust you more than the Generals.",
            ),
            Feedback::StandDownOrdered => String::from_str(
                "Total withdrawal ordered. We are naked before our enemies.",
            ),
            Feedback::TribunalRumors => String::from_str(
                "Rumors of a military tribunal are circulating.",
            ),
            Feedback::SiloWarning => String::from_str(
                "WARNING: UNAUTHORIZED SILO ACTIVATION DETECTED.",
            ),
            Feedback::CorruptionWhisper => String::from_str(
                " THE BASILISK IS SPEAKING TO THE OPERATORS. THEY ARE WEEPING.",
            ),
        }
    }
}

} // verus!
