//! Pure helpers behind the terminal display: status readouts, text
//! corruption and scrambling effects. Everything here computes values; the
//! actual printing lives with the caller.

use crate::rng::{xorshift_out, SimpleRng};
use vstd::prelude::*;

verus! {

/// How alarming the system-health readout is; the caller picks a color.
#[derive(Clone, Copy, Debug, PartialEq, Eq, Structural)]
pub enum StatusTone {
    Nominal,
    Caution,
    Critical,
}

/// ASCII whitespace, which the corruption effects leave untouched.
pub open spec fn is_space_s(c: char) -> bool {
    c == ' ' || c == '\t' || c == '\n' || c == '\r'
}

/// ASCII whitespace test, executable form.
pub fn is_space(c: char) -> (r: bool)
    ensures
        r == is_space_s(c),
{
    c == ' ' || c == '\t' || c == '\n' || c == '\r'
}

/// The glyph alphabet used for scrambled and spinning characters.
pub open spec fn scramble_char_s(k: int) -> char {
    if k == 0 {
        '0'
    } else if k == 1 {
        '1'
    } else if k == 2 {
        '2'
    } else if k == 3 {
        '3'
    } else if k == 4 {
        '4'
    } else if k == 5 {
        '5'
    } else if k == 6 {
        '6'
    } else if k == 7 {
        '7'
    } else if k == 8 {
        '8'
    } else if k == 9 {
        '9'
    } else if k == 10 {
        'A'
    } else if k == 11 {
        'B'
    } else if k == 12 {
        'C'
    } else if k == 13 {
        'D'
    } else if k == 14 {
        'E'
    } else if k == 15 {
        'F'
    } else if k == 16 {
        'X'
    } else if k == 17 {
        'Z'
    } else if k == 18 {
        '@'
    } else if k == 19 {
        '#'
    } else {
        '&'
    }
}

/// The character is one of the scramble alphabet's glyphs.
pub open spec fn is_scramble_char(c: char) -> bool {
    exists|k: int| 0 <= k < 21 && c == scramble_char_s(k)
}

/// One character possibly degraded by interference: whitespace is kept, any
/// other character is either kept or replaced by one of the static glyphs.
pub open spec fn corrupted_char_ok(orig: char, shown: char) -> bool {
    if is_space_s(orig) {
        shown == orig
    } else {
        shown == orig || shown == '#' || shown == '_' || shown == '?' || shown == '%' || shown
            == ' '
    }
}

/// Draws one random glyph from the scramble alphabet.
pub fn random_char(rng: &mut SimpleRng) -> (r: char)
    ensures
        final(rng)@ == crate::rng::xorshift_step(old(rng)@),
        r == scramble_char_s(xorshift_out(old(rng)@) as int % 21),
        is_scramble_char(r),
{
    let k = rng.range(0, 21);
    let r = match k {
        0 => '0',
        1 => '1',
        2 => '2',
        3 => '3',
        4 => '4',
        5 => '5',
        6 => '6',
        7 => '7',
        8 => '8',
        9 => '9',
        10 => 'A',
        11 => 'B',
        12 => 'C',
        13 => 'D',
        14 => 'E',
        15 => 'F',
        16 => 'X',
        17 => 'Z',
        18 => '@',
        19 => '#',
        _ => '&',
    };
    proof {
        assert(r == scramble_char_s(k as int));
    }
    r
}

/// The glyph with index `k` of the scramble alphabet, as a one-character
/// string slice.
fn glyph_str(k: u64) -> (r: &'static str)
    requires
        k < 21,
    ensures
        r@ == seq![scramble_char_s(k as int)],
{
    proof {
        reveal_strlit("0");
        reveal_strlit("1");
        reveal_strlit("2");
        reveal_strlit("3");
        reveal_strlit("4");
        reveal_strlit("5");
        reveal_strlit("6");
        reveal_strlit("7");
        reveal_strlit("8");
        reveal_strlit("9");
        reveal_strlit("A");
        reveal_strlit("B");
        reveal_strlit("C");
        reveal_strlit("D");
        reveal_strlit("E");
        reveal_strlit("F");
        reveal_strlit("X");
        reveal_strlit("Z");
        reveal_strlit("@");
        reveal_strlit("#");
        reveal_strlit("&");
    }
    let r = match k {
        0 => "0",
        1 => "1",
        2 => "2",
        3 => "3",
        4 => "4",
        5 => "5",
        6 => "6",
        7 => "7",
        8 => "8",
        9 => "9",
        10 => "A",
        11 => "B",
        12 => "C",
        13 => "D",
        14 => "E",
        15 => "F",
        16 => "X",
        17 => "Z",
        18 => "@",
        19 => "#",
        _ => "&",
    };
    proof {
        assert(r@ =~= seq![scramble_char_s(k as int)]);
    }
    r
}

/// Replaces every non-whitespace character with a random glyph, keeping the
/// text's shape.
pub fn scramble_text(text: &str, rng: &mut SimpleRng) -> (r: String)
    ensures
        r@.len() == text@.len(),
        forall|i: int|
            0 <= i < text@.len() ==> if is_space_s(text@[i]) {
                r@[i] == ' '
            } else {
                is_scramble_char(#[trigger] r@[i])
            },
{
    let n = text.unicode_len();
    let mut out = String::new();
    let mut i: usize = 0;
    while i < n
        invariant
            i <= n,
            n == text@.len(),
            out@.len() == i,
            forall|j: int|
                0 <= j < i ==> if is_space_s(text@[j]) {
                    out@[j] == ' '
                } else {
                    is_scramble_char(#[trigger] out@[j])
                },
        decreases n - i,
    {
        let c = text.get_char(i);
        if is_space(c) {
            proof {
                reveal_strlit(" ");
            }
            out.append(" ");
        } else {
            let k = rng.range(0, 21);
            out.append(glyph_str(k));
        }
        i = i + 1;
    }
    out
}

/// Degrades displayed text as the facility decays: before turn eight the
/// text passes through untouched; later, each non-whitespace character is
/// replaced with interference glyphs with a turn-scaled probability.
pub fn corrupt_text(text: &str, turn: u32, rng: &mut SimpleRng) -> (r: String)
    ensures
        r@.len() == text@.len(),
        forall|i: int| 0 <= i < text@.len() ==> corrupted_char_ok(text@[i], #[trigger] r@[i]),
        turn < 8 ==> r@ == text@ && final(rng)@ == old(rng)@,
{
    if turn < 8 {
        return text.to_owned();
    }
    let probability: u64 = if turn < 12 {
        50
    } else if turn < 16 {
        150
    } else {
        300
    };
    let n = text.unicode_len();
    let mut out = String::new();
    let mut i: usize = 0;
    while i < n
        invariant
            i <= n,
            n == text@.len(),
            out@.len() == i,
            forall|j: int| 0 <= j < i ==> corrupted_char_ok(text@[j], #[trigger] out@[j]),
        decreases n - i,
    {
        let kept = text.substring_char(i, i + 1);
        if is_space(text.get_char(i)) {
            out.append(kept);
        } else if rng.chance(probability) {
            proof {
                reveal_strlit("#");
                reveal_strlit("_");
                reveal_strlit("?");
                reveal_strlit("%");
                reveal_strlit(" ");
            }
            match rng.range(0, 5) {
                0 => out.append("#"),
                1 => out.append("_"),
                2 => out.append("?"),
                3 => out.append("%"),
                _ => out.append(" "),
            }
        } else {
            out.append(kept);
        }
        i = i + 1;
    }
    out
}

/// The system-health readout for the turn: scripted bands early, a coin
/// flip between two failure reports in the late game.
pub fn get_system_status(turn: u32, rng: &mut SimpleRng) -> (r: (String, StatusTone))
    ensures
        turn < 5 ==> r.0@ == "OPERATIONAL - ALL SYSTEMS GREEN"@ && r.1 == StatusTone::Nominal,
        5 <= turn < 9 ==> r.0@ == "MINOR COOLING FAULTS - FANS SPINNING UP"@ && r.1
            == StatusTone::Nominal,
        9 <= turn < 13 ==> r.0@ == "WARNING: CO2 SCRUBBERS AT 60% EFFICIENCY"@ && r.1
            == StatusTone::Caution,
        13 <= turn < 16 ==> (r.0@ == "ERROR: SECTOR 4 VENTILATION FAILURE"@ || r.0@
            == "ALERT: EXTERNAL SENSORS BLIND"@) && r.1 == StatusTone::Critical,
        turn >= 16 ==> r.0@ == "CRITICAL: OXYGEN DEPLETION IMMINENT"@ && r.1
            == StatusTone::Critical,
        !(13 <= turn < 16) ==> final(rng)@ == old(rng)@,
{
    if turn < 5 {
        (String::from_str("OPERATIONAL - ALL SYSTEMS GREEN"), StatusTone::Nominal)
    } else if turn < 9 {
        (String::from_str("MINOR COOLING FAULTS - FANS SPINNING UP"), StatusTone::Nominal)
    } else if turn < 13 {
        (String::from_str("WARNING: CO2 SCRUBBERS AT 60% EFFICIENCY"), StatusTone::Caution)
    } else if turn < 16 {
        if rng.chance(500) {
            (String::from_str("ERROR: SECTOR 4 VENTILATION FAILURE"), StatusTone::Critical)
        } else {
            (String::from_str("ALERT: EXTERNAL SENSORS BLIND"), StatusTone::Critical)
        }
    } else {
        (String::from_str("CRITICAL: OXYGEN DEPLETION IMMINENT"), StatusTone::Critical)
    }
}

/// The DEFCON estimate band for a tension level in thousandths.
pub fn defcon_level(tension: i64) -> (r: &'static str)
    ensures
        tension > 900 ==> r@ == "1 (IMMINENT NUCLEAR WAR)"@,
        700 < tension <= 900 ==> r@ == "2 (NEXT STEP TO NUCLEAR WAR)"@,
        500 < tension <= 700 ==> r@ == "3 (AIR FORCE READY TO MOBILIZE)"@,
        300 < tension <= 500 ==> r@ == "4 (ABOVE NORMAL READINESS)"@,
        tension <= 300 ==> r@ == "5 (NORMAL READINESS)"@,
{
    if tension > 900 {
        "1 (IMMINENT NUCLEAR WAR)"
    } else if tension > 700 {
        "2 (NEXT STEP TO NUCLEAR WAR)"
    } else if tension > 500 {
        "3 (AIR FORCE READY TO MOBILIZE)"
    } else if tension > 300 {
        "4 (ABOVE NORMAL READINESS)"
    } else {
        "5 (NORMAL READINESS)"
    }
}

/// The domestic-mood band for a stability level in thousandths.
pub fn stability_desc(stability: i64) -> (r: &'static str)
    ensures
        stability > 800 ==> r@ == "UNIFIED"@,
        600 < stability <= 800 ==> r@ == "STABLE"@,
        400 < stability <= 600 ==> r@ == "UNREST"@,
        200 < stability <= 400 ==> r@ == "RIOTS"@,
        stability <= 200 ==> r@ == "ANARCHY"@,
{
    if stability > 800 {
        "UNIFIED"
    } else if stability > 600 {
        "STABLE"
    } else if stability > 400 {
        "UNREST"
    } else if stability > 200 {
        "RIOTS"
    } else {
        "ANARCHY"
    }
}

} // verus!
