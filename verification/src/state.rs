//! Simulation truth: the world's bounded metrics and the advisor roster.
//!
//! The six bounded metrics are fixed-point values in thousandths standing for
//! the unit interval; between clamps they may drift outside it, and additions
//! saturate at the `i64` range instead of overflowing.

use vstd::prelude::*;

verus! {

/// An advisor's post; doubles as a lookup label for fuzzy references.
#[derive(Clone, Copy, Debug, PartialEq, Eq, Structural)]
pub enum AdvisorRole {
    General,
    Director,
    Ambassador,
}

impl AdvisorRole {
    /// The role's display label, also matched by fuzzy advisor references.
    pub open spec fn label_s(self) -> Seq<char> {
        match self {
            AdvisorRole::General => "General"@,
            AdvisorRole::Director => "Director"@,
            AdvisorRole::Ambassador => "Ambassador"@,
        }
    }

    /// The role's display label.
    pub fn label(&self) -> (r: &'static str)
        ensures
            r@ == self.label_s(),
    {
        match self {
            AdvisorRole::General => "General",
            AdvisorRole::Director => "Director",
            AdvisorRole::Ambassador => "Ambassador",
        }
    }
}

/// A member of the player's inner circle; at most one is the mole.
#[derive(Clone, Debug)]
pub struct Advisor {
    pub name: String,
    pub role: AdvisorRole,
    /// Loose 0–100 scale; deliberately not clamped above 100.
    pub suspicion: u32,
    pub is_mole: bool,
}

/// The nearest `i64` to a mathematical integer: saturating conversion.
pub open spec fn sat64(a: int) -> i64 {
    if a > i64::MAX {
        i64::MAX
    } else if a < i64::MIN {
        i64::MIN
    } else {
        a as i64
    }
}

/// Clamp of a fixed-point metric to the unit interval `0..=1000`.
pub open spec fn clamp1000(a: int) -> i64 {
    if a < 0 {
        0
    } else if a > 1000 {
        1000
    } else {
        a as i64
    }
}

/// Saturating increment of a suspicion counter.
pub open spec fn sat_u32(a: int) -> u32 {
    if a > u32::MAX {
        u32::MAX
    } else if a < 0 {
        0
    } else {
        a as u32
    }
}

/// Adds two metrics without overflowing, saturating at the `i64` range.
pub fn sat_add(a: i64, b: i64) -> (r: i64)
    ensures
        r == sat64(a + b),
{
    match a.checked_add(b) {
        Some(v) => v,
        None => if b > 0 {
            i64::MAX
        } else {
            i64::MIN
        },
    }
}

/// Clamps a metric to the unit interval `0..=1000`.
pub fn clamp_unit(a: i64) -> (r: i64)
    ensures
        r == clamp1000(a as int),
{
    if a < 0 {
        0
    } else if a > 1000 {
        1000
    } else {
        a
    }
}

/// No two advisors both carry the mole mark.
pub open spec fn at_most_one_mole(s: Seq<Advisor>) -> bool {
    forall|i: int, j: int|
        0 <= i < s.len() && 0 <= j < s.len() && s[i].is_mole && s[j].is_mole ==> i == j
}

/// Some advisor carries the mole mark.
pub open spec fn has_mole(s: Seq<Advisor>) -> bool {
    exists|i: int| 0 <= i < s.len() && s[i].is_mole
}

/// Advisor display names are pairwise distinct, so a name identifies one
/// advisor.
pub open spec fn distinct_names(s: Seq<Advisor>) -> bool {
    forall|i: int, j: int| 0 <= i < j < s.len() ==> s[i].name@ != s[j].name@
}

/// The mutable simulation data: six bounded metrics, a derived corruption
/// metric, the advisor roster, and the crisis-pending flag.
#[derive(Clone, Debug)]
pub struct WorldState {
    /// 0 (peace) to 1000 (nuclear war).
    pub global_tension: i64,
    /// 0 (open society) to 1000 (totalitarian state).
    pub internal_secrecy: i64,
    /// 0 (trusting) to 1000 (hostile).
    pub foreign_paranoia: i64,
    /// 0 (safe) to 1000 (critical failure imminent).
    pub accidental_escalation_risk: i64,
    /// 0 (anarchy) to 1000 (unified).
    pub domestic_stability: i64,
    /// Hidden weapon progress, 0 to 1000.
    pub secret_weapon_progress: i64,
    /// Derived corruption metric, clamped to 0..=1000 after every resolution.
    pub system_corruption: i64,
    pub advisors: Vec<Advisor>,
    /// Crisis-pending flag: set when a confirmed mole or a tension spike
    /// forces the red-phone dialog before normal turn flow resumes.
    pub red_phone_active: bool,
}

impl WorldState {
    /// All six bounded metrics lie in the unit interval.
    pub open spec fn bounded_ok(self) -> bool {
        &&& 0 <= self.global_tension <= 1000
        &&& 0 <= self.internal_secrecy <= 1000
        &&& 0 <= self.foreign_paranoia <= 1000
        &&& 0 <= self.accidental_escalation_risk <= 1000
        &&& 0 <= self.domestic_stability <= 1000
        &&& 0 <= self.secret_weapon_progress <= 1000
    }

    /// Structural well-formedness: a three-seat roster with distinct names,
    /// at most one mole, and corruption inside the unit interval.
    pub open spec fn wf(self) -> bool {
        &&& self.advisors@.len() == 3
        &&& at_most_one_mole(self.advisors@)
        &&& distinct_names(self.advisors@)
        &&& 0 <= self.system_corruption <= 1000
    }

    /// The fixed opening position, with a full roster and no mole assigned
    /// yet; the engine marks one advisor when a game begins.
    pub fn new() -> (r: Self)
        ensures
            r.wf(),
            r.bounded_ok(),
            r.global_tension == 200,
            r.internal_secrecy == 500,
            r.foreign_paranoia == 300,
            r.accidental_escalation_risk == 50,
            r.domestic_stability == 800,
            r.secret_weapon_progress == 100,
            r.system_corruption == 0,
            !r.red_phone_active,
            r.advisors@.len() == 3,
            forall|i: int|
                0 <= i < 3 ==> !r.advisors@[i].is_mole && r.advisors@[i].suspicion == 0,
            r.advisors@[0].name@ == "Gen. Vance"@ && r.advisors@[0].role == AdvisorRole::General,
            r.advisors@[1].name@ == "Director K."@ && r.advisors@[1].role
                == AdvisorRole::Director,
            r.advisors@[2].name@ == "Amb. Sterling"@ && r.advisors@[2].role
                == AdvisorRole::Ambassador,
    {
        let mut advisors: Vec<Advisor> = Vec::new();
        advisors.push(
            Advisor {
                name: String::from_str("Gen. Vance"),
                role: AdvisorRole::General,
                suspicion: 0,
                is_mole: false,
            },
        );
        advisors.push(
            Advisor {
                name: String::from_str("Director K."),
                role: AdvisorRole::Director,
                suspicion: 0,
                is_mole: false,
            },
        );
        advisors.push(
            Advisor {
                name: String::from_str("Amb. Sterling"),
                role: AdvisorRole::Ambassador,
                suspicion: 0,
                is_mole: false,
            },
        );
        proof {
            reveal_strlit("Gen. Vance");
            reveal_strlit("Director K.");
            reveal_strlit("Amb. Sterling");
            assert(("Gen. Vance")@.len() == 10);
            assert(("Director K.")@.len() == 11);
            assert(("Amb. Sterling")@.len() == 13);
        }
        Self {
            global_tension: 200,
            internal_secrecy: 500,
            foreign_paranoia: 300,
            accidental_escalation_risk: 50,
            domestic_stability: 800,
            secret_weapon_progress: 100,
            system_corruption: 0,
            advisors,
            red_phone_active: false,
        }
    }

    /// True exactly when the game is lost: tension at the ceiling or
    /// stability at the floor.
    pub fn is_terminal(&self) -> (r: bool)
        ensures
            r == (self.global_tension >= 1000 || self.domestic_stability <= 0),
    {
        self.global_tension >= 1000 || self.domestic_stability <= 0
    }

    /// The world with all six bounded metrics clamped to the unit interval.
    pub open spec fn clamp_bounded_s(w: WorldState) -> WorldState {
        WorldState {
            global_tension: clamp1000(w.global_tension as int),
            internal_secrecy: clamp1000(w.internal_secrecy as int),
            foreign_paranoia: clamp1000(w.foreign_paranoia as int),
            accidental_escalation_risk: clamp1000(w.accidental_escalation_risk as int),
            domestic_stability: clamp1000(w.domestic_stability as int),
            secret_weapon_progress: clamp1000(w.secret_weapon_progress as int),
            ..w
        }
    }

    /// Clamps all six bounded metrics to the unit interval; everything else
    /// is left untouched.
    pub fn clamp_bounded(&mut self)
        ensures
            *final(self) == Self::clamp_bounded_s(*old(self)),
            final(self).bounded_ok(),
    {
        self.global_tension = clamp_unit(self.global_tension);
        self.internal_secrecy = clamp_unit(self.internal_secrecy);
        self.foreign_paranoia = clamp_unit(self.foreign_paranoia);
        self.accidental_escalation_risk = clamp_unit(self.accidental_escalation_risk);
        self.domestic_stability = clamp_unit(self.domestic_stability);
        self.secret_weapon_progress = clamp_unit(self.secret_weapon_progress);
    }
}

} // verus!
