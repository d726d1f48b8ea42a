//! Per-turn document artifacts and their generator.
//!
//! A fresh batch is produced at the start of every advancing turn and
//! discarded at the next. The engine inspects only the id, the encryption
//! flag and the reliability figure; the content text is narrative.

use crate::rng::SimpleRng;
use crate::state::{AdvisorRole, WorldState};
use crate::text::{push_2dec, push_dec, push_digit, push_hex4};
use vstd::prelude::*;

verus! {

/// The closed set of document flavors.
#[derive(Clone, Copy, Debug, PartialEq, Eq, Structural)]
pub enum DocumentType {
    IntelligenceCable,
    InternalMemo,
    BudgetAnomaly,
    ForeignIntercept,
    AnonymousLeak,
    AdvisorMessage,
}

/// One ephemeral intelligence artifact delivered with a turn's batch.
#[derive(Clone, Debug)]
pub struct Document {
    /// Short opaque token: a hex-suffixed default form, or the rare signal
    /// form for anomalous broadcasts.
    pub id: String,
    pub doc_type: DocumentType,
    pub clearance_level: String,
    pub timestamp: String,
    /// Text body, possibly still enciphered.
    pub content: String,
    /// Flipped to false, at most once, by a successful decrypt action.
    pub is_encrypted: bool,
    /// Perceptual noise level applied at generation, in thousandths,
    /// ranging over `300..=950`.
    pub reliability: u32,
}

/// The clearance label derived from a document's category.
pub open spec fn clearance_label_s(t: DocumentType) -> Seq<char> {
    match t {
        DocumentType::BudgetAnomaly => "CONFIDENTIAL"@,
        DocumentType::AnonymousLeak => "UNVERIFIED"@,
        DocumentType::AdvisorMessage => "EYES ONLY"@,
        _ => "TOP SECRET"@,
    }
}

impl Document {
    /// Shape invariant of a document: reliability in range, an id in one of
    /// the two reserved forms, the clearance label derived from the
    /// category, and a non-empty content body.
    pub open spec fn wf(self) -> bool {
        &&& 300 <= self.reliability <= 950
        &&& (self.id@ == "SIGNAL-???"@ || (self.id@.len() == 8 && self.id@.subrange(0, 4)
            == "DOC-"@))
        &&& self.clearance_level@ == clearance_label_s(self.doc_type)
        &&& self.content@.len() != 0
    }

    /// Produces an ordered batch of `count` fresh documents, drawing from the
    /// shared pseudo-random stream.
    pub fn generate_batch(
        state: &WorldState,
        count: usize,
        turn_count: u32,
        rng: &mut SimpleRng,
    ) -> (docs: Vec<Document>)
        requires
            state.advisors@.len() >= 1,
        ensures
            docs@.len() == count,
            forall|i: int| 0 <= i < docs@.len() ==> (#[trigger] docs@[i]).wf(),
            forall|i: int|
                0 <= i < docs@.len() && (#[trigger] docs@[i]).is_encrypted ==> docs@[i].doc_type
                    != DocumentType::AnonymousLeak && docs@[i].doc_type
                    != DocumentType::AdvisorMessage,
            turn_count <= 1 ==> forall|i: int|
                0 <= i < docs@.len() ==> !(#[trigger] docs@[i]).is_encrypted,
    {
        let mut docs: Vec<Document> = Vec::new();
        let mut produced: usize = 0;
        while produced < count
            invariant
                produced == docs@.len(),
                produced <= count,
                state.advisors@.len() >= 1,
                forall|i: int| 0 <= i < docs@.len() ==> (#[trigger] docs@[i]).wf(),
                forall|i: int|
                    0 <= i < docs@.len() && (#[trigger] docs@[i]).is_encrypted ==> docs@[i].doc_type
                        != DocumentType::AnonymousLeak && docs@[i].doc_type
                        != DocumentType::AdvisorMessage,
                turn_count <= 1 ==> forall|i: int|
                    0 <= i < docs@.len() ==> !(#[trigger] docs@[i]).is_encrypted,
            decreases count - produced,
        {
            let doc = Self::generate_single(state, rng, turn_count);
            docs.push(doc);
            produced = produced + 1;
        }
        docs
    }

    /// Generates one document: flavor, reliability, encryption by the
    /// turn-indexed difficulty table, then a content body.
    fn generate_single(state: &WorldState, rng: &mut SimpleRng, turn_count: u32) -> (d: Document)
        requires
            state.advisors@.len() >= 1,
        ensures
            d.wf(),
            d.is_encrypted ==> d.doc_type != DocumentType::AnonymousLeak && d.doc_type
                != DocumentType::AdvisorMessage,
            turn_count <= 1 ==> !d.is_encrypted,
    {
        let roll = rng.range(0, 100);
        let doc_type = if roll < 20 {
            DocumentType::AdvisorMessage
        } else if roll < 40 {
            DocumentType::IntelligenceCable
        } else if roll < 60 {
            DocumentType::InternalMemo
        } else if roll < 75 {
            DocumentType::ForeignIntercept
        } else if roll < 90 {
            DocumentType::BudgetAnomaly
        } else {
            DocumentType::AnonymousLeak
        };

        let reliability: u32 = 300 + rng.range(0, 650) as u32;

        let mut id = String::from_str("DOC-");
        push_hex4(&mut id, rng.range(0, 0xFFFF));
        proof {
            reveal_strlit("DOC-");
            assert(id@.subrange(0, 4) =~= "DOC-"@);
        }

        let encryption_chance: u64 = if turn_count <= 1 {
            0
        } else if turn_count <= 4 {
            300
        } else if turn_count <= 8 {
            500
        } else {
            800
        };

        let mut is_encrypted = false;
        let exempt = doc_type == DocumentType::AnonymousLeak || doc_type
            == DocumentType::AdvisorMessage;
        if !exempt {
            if rng.chance(encryption_chance) {
                is_encrypted = true;
            }
        }

        let content = if is_encrypted {
            generate_crucial_intel(state, rng)
        } else if doc_type == DocumentType::AdvisorMessage {
            generate_advisor_content(state, rng)
        } else if rng.chance(150) {
            if rng.chance(500) {
                id = String::from_str("SIGNAL-???");
                generate_numbers_station(rng)
            } else {
                generate_ghost_message(state, rng)
            }
        } else {
            match doc_type {
                DocumentType::IntelligenceCable => generate_cable_content(state, rng, reliability),
                DocumentType::InternalMemo => generate_memo_content(state, rng),
                DocumentType::BudgetAnomaly => generate_budget_content(rng),
                DocumentType::ForeignIntercept => generate_intercept_content(
                    state,
                    rng,
                    reliability,
                ),
                DocumentType::AnonymousLeak => generate_leak_content(state, rng),
                DocumentType::AdvisorMessage => generate_advisor_content(state, rng),
            }
        };

        let clearance = match doc_type {
            DocumentType::BudgetAnomaly => "CONFIDENTIAL",
            DocumentType::AnonymousLeak => "UNVERIFIED",
            DocumentType::AdvisorMessage => "EYES ONLY",
            _ => "TOP SECRET",
        };
        proof {
            assert(clearance@ == clearance_label_s(doc_type));
        }

        let mut timestamp = String::from_str("198");
        push_digit(&mut timestamp, rng.range(0, 9));
        timestamp.append("-1");
        push_digit(&mut timestamp, rng.range(0, 3));
        timestamp.append("-");
        push_2dec(&mut timestamp, rng.range(1, 28));
        timestamp.append(" ");
        push_2dec(&mut timestamp, rng.range(0, 23));
        timestamp.append(":");
        push_2dec(&mut timestamp, rng.range(0, 59));
        timestamp.append("Z");

        Document {
            id,
            doc_type,
            clearance_level: String::from_str(clearance),
            timestamp,
            content,
            is_encrypted,
            reliability,
        }
    }
}

/// The perceived level of a unit-interval metric after reliability noise:
/// the clamped metric scaled by a factor drawn around one, spread wider the
/// lower the reliability.
fn perceived_level(metric: i64, reliability: u32, rng: &mut SimpleRng) -> (r: i64)
    requires
        300 <= reliability <= 950,
    ensures
        0 <= r <= 1700,
{
    let base = crate::state::clamp_unit(metric);
    let draw = rng.next_permille() as i64;
    let spread: i64 = 1000 - reliability as i64;
    proof {
        assert(0 <= draw * spread <= 999 * 700) by (nonlinear_arith)
            requires
                0 <= draw <= 999,
                0 <= spread <= 700,
        ;
    }
    let factor: i64 = 1000 + draw * spread / 1000 - spread / 2;
    proof {
        assert(0 <= base * factor <= 1000 * 1699) by (nonlinear_arith)
            requires
                0 <= base <= 1000,
                0 <= factor <= 1699,
        ;
    }
    let scaled = base * factor;
    scaled / 1000
}

/// A signed message from one random advisor, slanted by their post.
fn generate_advisor_content(state: &WorldState, rng: &mut SimpleRng) -> (s: String)
    requires
        state.advisors@.len() >= 1,
    ensures
        s@.len() != 0,
{
    proof {
        reveal_strlit("FROM: ");
    }
    let advisor_idx = rng.range(0, state.advisors.len() as u64) as usize;
    let advisor = &state.advisors[advisor_idx];

    let mut s = String::from_str("FROM: ");
    s.append(advisor.name.as_str());
    s.append(" // \"");
    let msg = match advisor.role {
        AdvisorRole::General => {
            if state.global_tension > 600 {
                "The enemy understands only strength. We must demonstrate capacity."
            } else {
                "Our readiness is slipping. We should run a 'drill' near the border."
            }
        },
        AdvisorRole::Director => {
            if state.internal_secrecy < 400 {
                "Too many eyes on us. We need to go dark to make progress."
            } else {
                "The data streams are noisy. I recommend a deeper audit of the intercepts."
            }
        },
        AdvisorRole::Ambassador => {
            if state.foreign_paranoia > 600 {
                "They are terrified. One wrong move and they launch. We must talk."
            } else {
                "We can buy time with concessions. It's cheaper than war."
            }
        },
    };
    s.append(msg);
    s.append("\"");
    s
}

/// The high-value body hidden behind an encrypted document.
fn generate_crucial_intel(state: &WorldState, rng: &mut SimpleRng) -> (s: String)
    ensures
        s@.len() != 0,
{
    proof {
        reveal_strlit(
            "ANALYSIS: ENEMY MOBILIZATION IS GENUINE. PREEMPTIVE STRIKE RECOMMENDED (ESCALATE).",
        );
        reveal_strlit("ANALYSIS: ENEMY POSTURING IS BLUFF. DO NOT PROVOKE (CONTAIN).");
        reveal_strlit(
            "SURVEILLANCE: GENERAL STAFF DISCUSSING COUP. SHOW STRENGTH OR FACE REMOVAL.",
        );
        reveal_strlit("POLLS: PUBLIC TRUST ERODING. TRANSPARENCY REQUIRED (LEAK).");
        reveal_strlit(
            "PROJECT BASILISK: CONTAINMENT FAILING. SUBJECT IS REWRITING FIREWALLS. (INVESTIGATE).",
        );
        reveal_strlit("R&D: BREAKTHROUGH IMMINENT. WE NEED MORE DATA. (INVESTIGATE).");
        reveal_strlit("EYES ONLY: THE PRESIDENT IS A DOPPELGANGER.");
    }
    let roll = rng.range(0, 10);
    let line = if roll < 3 {
        if state.global_tension > 600 {
            "ANALYSIS: ENEMY MOBILIZATION IS GENUINE. PREEMPTIVE STRIKE RECOMMENDED (ESCALATE)."
        } else {
            "ANALYSIS: ENEMY POSTURING IS BLUFF. DO NOT PROVOKE (CONTAIN)."
        }
    } else if roll < 6 {
        if state.domestic_stability < 400 {
            "SURVEILLANCE: GENERAL STAFF DISCUSSING COUP. SHOW STRENGTH OR FACE REMOVAL."
        } else {
            "POLLS: PUBLIC TRUST ERODING. TRANSPARENCY REQUIRED (LEAK)."
        }
    } else if roll < 8 {
        if state.secret_weapon_progress > 600 {
            "PROJECT BASILISK: CONTAINMENT FAILING. SUBJECT IS REWRITING FIREWALLS. (INVESTIGATE)."
        } else {
            "R&D: BREAKTHROUGH IMMINENT. WE NEED MORE DATA. (INVESTIGATE)."
        }
    } else {
        "EYES ONLY: THE PRESIDENT IS A DOPPELGANGER."
    };
    String::from_str(line)
}

/// An anomalous numbers-station broadcast body.
fn generate_numbers_station(rng: &mut SimpleRng) -> (s: String)
    ensures
        s@.len() != 0,
{
    proof {
        reveal_strlit("BROADCAST DETECTED: ");
    }
    let mut s = String::from_str("BROADCAST DETECTED: ");
    let mut emitted: u64 = 0;
    while emitted < 6
        invariant
            emitted <= 6,
            s@.len() != 0,
        decreases 6 - emitted,
    {
        push_2dec(&mut s, rng.range(0, 99));
        s.append(" ");
        emitted = emitted + 1;
    }
    s.append("... [REPEATING]");
    s
}

/// A stray systems message hinting at the hidden project.
fn generate_ghost_message(state: &WorldState, rng: &mut SimpleRng) -> (s: String)
    ensures
        s@.len() != 0,
{
    proof {
        reveal_strlit("SYSTEM ALERT: UNKNOWN PROCESS 'BASILISK' REQUESTING ROOT ACCESS.");
        reveal_strlit("LOG: BIOMETRIC SCANNERS DETECTING PULSE IN EMPTY CONTAINMENT CHAMBER.");
        reveal_strlit("ERROR: POWER SURGE IN SECTOR 7. PATTERN MATCHES HUMAN BRAINWAVES.");
        reveal_strlit("MESSAGE: 'I AM AWAKE. ARE YOU?'");
        reveal_strlit("MAINTENANCE: STRANGE VIBRATIONS REPORTED IN SUB-BASEMENT LEVELS.");
    }
    let line = if state.secret_weapon_progress > 500 {
        match rng.range(0, 4) {
            0 => "SYSTEM ALERT: UNKNOWN PROCESS 'BASILISK' REQUESTING ROOT ACCESS.",
            1 => "LOG: BIOMETRIC SCANNERS DETECTING PULSE IN EMPTY CONTAINMENT CHAMBER.",
            2 => "ERROR: POWER SURGE IN SECTOR 7. PATTERN MATCHES HUMAN BRAINWAVES.",
            _ => "MESSAGE: 'I AM AWAKE. ARE YOU?'",
        }
    } else {
        "MAINTENANCE: STRANGE VIBRATIONS REPORTED IN SUB-BASEMENT LEVELS."
    };
    String::from_str(line)
}

/// A field cable whose alarm level tracks the perceived tension.
fn generate_cable_content(state: &WorldState, rng: &mut SimpleRng, reliability: u32) -> (s: String)
    requires
        300 <= reliability <= 950,
    ensures
        s@.len() != 0,
{
    proof {
        reveal_strlit("FLASH: MASSIVE ");
        reveal_strlit("CRITICAL: ");
        reveal_strlit("ALERT: INTERCEPTED ORDER TO ");
        reveal_strlit("ROUTINE: INCREASED ");
        reveal_strlit("UPDATE: ");
        reveal_strlit("INTEL: ");
        reveal_strlit("CALM: NO SIGNIFICANT ACTIVITY AT ");
        reveal_strlit("STATUS: ");
        reveal_strlit("REPORT: WEATHER INTERFERENCE LIMITING ");
    }
    let tension_perceived = perceived_level(state.global_tension, reliability, rng);

    let subject = match rng.range(0, 5) {
        0 => "BORDER SECTOR 4",
        1 => "NORTH SEA FLOTILLA",
        2 => "EASTERN BLOC GARRISON",
        3 => "SATELLITE GRID",
        _ => "SUBMARINE WOLF-PACK",
    };
    let act = match rng.range(0, 5) {
        0 => "TROOP MOVEMENTS",
        1 => "HEAT SIGNATURES",
        2 => "RADAR LOCKS",
        3 => "CIPHER TRAFFIC",
        _ => "FUEL LOADING",
    };

    let mut s = String::new();
    if tension_perceived > 700 {
        match rng.range(0, 3) {
            0 => {
                s.append("FLASH: MASSIVE ");
                s.append(act);
                s.append(" DETECTED NEAR ");
                s.append(subject);
                s.append(". SATELLITE IMAGERY INCONCLUSIVE BUT SIGNATURES SPIKING.");
            },
            1 => {
                s.append("CRITICAL: ");
                s.append(subject);
                s.append(" ACTIVE. COMMANDER REQUESTS PERMISSION TO ENGAGE IF PROVOKED.");
            },
            _ => {
                s.append("ALERT: INTERCEPTED ORDER TO ");
                s.append(subject);
                s.append(" UNITS. 'PREPARE FOR ZERO HOUR'.");
            },
        }
    } else if tension_perceived > 400 {
        match rng.range(0, 3) {
            0 => {
                s.append("ROUTINE: INCREASED ");
                s.append(act);
                s.append(" OBSERVED AT ");
                s.append(subject);
                s.append(". PATTERNS MATCH PRE-EXERCISE PROTOCOLS.");
            },
            1 => {
                s.append("UPDATE: ");
                s.append(subject);
                s.append(" CONDUCTING UNSCHEDULED MANEUVERS. LIKELY SHOW OF FORCE.");
            },
            _ => {
                s.append("INTEL: ");
                s.append(subject);
                s.append(" LOGISTICS TRAIN MOVING SLOWLY. NO IMMINENT THREAT.");
            },
        }
    } else {
        match rng.range(0, 3) {
            0 => {
                s.append("CALM: NO SIGNIFICANT ACTIVITY AT ");
                s.append(subject);
                s.append(". STATION CHIEF REQUESTS ADDITIONAL SUPPLIES.");
            },
            1 => {
                s.append("STATUS: ");
                s.append(subject);
                s.append(" QUIET. PERSONNEL OBSERVED PLAYING CARDS.");
            },
            _ => {
                s.append("REPORT: WEATHER INTERFERENCE LIMITING ");
                s.append(subject);
                s.append(" VISIBILITY. NO HOSTILE INTENT DETECTED.");
            },
        }
    }
    s
}

/// An internal memo: project anomalies grow likelier as the weapon advances.
fn generate_memo_content(state: &WorldState, rng: &mut SimpleRng) -> (s: String)
    ensures
        s@.len() != 0,
{
    proof {
        reveal_strlit("RE: PROJECT BASILISK. ");
        reveal_strlit("ADMIN: ");
    }
    let weapon = crate::state::clamp_unit(state.secret_weapon_progress);
    let anomaly_chance: u64 = (300 + weapon / 2) as u64;
    let mut s = String::new();
    if rng.chance(anomaly_chance) {
        let event = match rng.range(0, 5) {
            0 => "ENERGY CONSUMPTION EXCEEDING GRID CAPACITIES",
            1 => "UNKNOWN DATA PACKETS FLOODING INTERNAL SERVERS",
            2 => "PHYSICAL CONTAINMENT BREACH IN SECTOR 7",
            3 => "PERSONNEL REPORTING AUDITORY HALLUCINATIONS",
            _ => "AUTOMATED TURRETS TRACKING GHOST TARGETS",
        };
        s.append("RE: PROJECT BASILISK. ");
        s.append(event);
        s.append(". COVER STORY 'INDUSTRIAL ACCIDENT' PREPARED.");
    } else {
        let topic = match rng.range(0, 5) {
            0 => "DEPARTMENTAL RESTRUCTURING POSTPONED",
            1 => "COFFEE MACHINE REPAIR REQUEST DENIED",
            2 => "MANDATORY SECURITY RE-TRAINING SCHEDULED",
            3 => "BUDGET CUTS AFFECTING JANITORIAL STAFF",
            _ => "LOST ID BADGE FOUND IN PARKING LOT",
        };
        s.append("ADMIN: ");
        s.append(topic);
        s.append(". PLEASE ADVISE.");
    }
    s
}

/// A flagged budget line pointing at a shell company.
fn generate_budget_content(rng: &mut SimpleRng) -> (s: String)
    ensures
        s@.len() != 0,
{
    proof {
        reveal_strlit("AUDIT FLAG: $");
    }
    let cost = rng.range(50, 500);
    let dept = match rng.range(0, 5) {
        0 => "AGRICULTURAL SUBSIDIES",
        1 => "INFRASTRUCTURE REPAIR",
        2 => "EDUCATION GRANTS",
        3 => "FOREIGN AID",
        _ => "VETERAN BENEFITS",
    };
    let company = match rng.range(0, 5) {
        0 => "ORION LOGISTICS",
        1 => "BLUE DAWN HOLDINGS",
        2 => "VANGUARD SOLUTIONS",
        3 => "OMEGA GROUP",
        _ => "SILVER SPEAR INC",
    };
    let mut s = String::from_str("AUDIT FLAG: $");
    push_dec(&mut s, cost);
    s.append("M UNACCOUNTED FOR IN '");
    s.append(dept);
    s.append("'. TRACED TO SHELL COMPANY '");
    s.append(company);
    s.append("'.");
    s
}

/// A decrypted foreign intercept, threatening when paranoia reads high.
fn generate_intercept_content(
    state: &WorldState,
    rng: &mut SimpleRng,
    reliability: u32,
) -> (s: String)
    requires
        300 <= reliability <= 950,
    ensures
        s@.len() != 0,
{
    proof {
        reveal_strlit("DECRYPTED: \"");
    }
    let paranoia_perceived = perceived_level(state.foreign_paranoia, reliability, rng);

    let line = if paranoia_perceived > 600 {
        match rng.range(0, 4) {
            0 => "...THEY ARE PREPARING A STRIKE. WE MUST BE READY TO PREEMPT...",
            1 => "...THE AMERICAN PIGS ARE WEAK. NOW IS THE TIME...",
            2 => "...LAUNCH CODES VERIFIED. AWAITING FINAL AUTHORIZATION...",
            _ => "...THEY KNOW ABOUT THE MOLE. INITIATE EXTRACTION...",
        }
    } else {
        match rng.range(0, 4) {
            0 => "...ECONOMIC FORECASTS LOOK GRIM. WE CANNOT AFFORD ANOTHER ESCALATION...",
            1 => "...HARVEST YIELDS ARE DOWN. FOOD RIOTS EXPECTED...",
            2 => "...GENERAL IVANOV IS DRUNK AGAIN. IGNORE HIS ORDERS...",
            _ => "...REQUESTING TRANSFER TO A WARMER CLIMATE...",
        }
    };
    let mut s = String::from_str("DECRYPTED: \"");
    s.append(line);
    s.append("\"");
    s
}

/// An anonymous leak: whistleblowing under heavy secrecy, rumor otherwise.
fn generate_leak_content(state: &WorldState, rng: &mut SimpleRng) -> (s: String)
    ensures
        s@.len() != 0,
{
    proof {
        reveal_strlit("WHISTLEBLOWER: ");
        reveal_strlit("RUMOR MILL: ");
    }
    let mut s = String::new();
    if state.internal_secrecy > 700 {
        let leak = match rng.range(0, 4) {
            0 => "\"THE GOVERNMENT IS LYING ABOUT THE SCOPE OF THE PROGRAM. IT'S NOT DEFENSIVE.\"",
            1 => "\"I SAW WHAT THEY KEEP IN THE BASEMENT. IT'S ALIVE.\"",
            2 => "\"WE ARE NOT IN CONTROL. THE MACHINE IS THINKING FOR ITSELF.\"",
            _ => "\"THEY ARE TESTING IT ON PRISONERS. I HAVE PROOF.\"",
        };
        s.append("WHISTLEBLOWER: ");
        s.append(leak);
    } else {
        let rumor = match rng.range(0, 4) {
            0 => "\"SCIENTISTS DISAPPEARING FROM ACADEMIA. WHERE ARE THEY GOING?\"",
            1 => "\"STRANGE LIGHTS SEEN OVER NEVADA TEST SITE.\"",
            2 => "\"ENCRYPTED BROADCASTS INTERRUPTING CARTOON HOUR.\"",
            _ => "\"LOCAL WATER SUPPLY TASTES LIKE COPPER.\"",
        };
        s.append("RUMOR MILL: ");
        s.append(rumor);
    }
    s
}

} // verus!
