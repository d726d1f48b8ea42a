//! Text utilities: ASCII case-folded substring search, used for fuzzy
//! advisor references, and exact decimal/hex digit formatting for generated
//! identifiers and report lines.

use vstd::prelude::*;

verus! {

/// A character's code point with ASCII upper case folded to lower case.
pub open spec fn fold(c: char) -> u32 {
    if 65 <= c as u32 <= 90 {
        ((c as u32) + 32) as u32
    } else {
        c as u32
    }
}

/// The needle matches the hay case-insensitively at offset `k`.
pub open spec fn match_at(needle: Seq<char>, hay: Seq<char>, k: int) -> bool {
    forall|j: int| 0 <= j < needle.len() ==> fold(hay[k + j]) == fold(needle[j])
}

/// The needle occurs somewhere in the hay, compared case-insensitively
/// (ASCII folding); an empty needle always occurs.
pub open spec fn contains_folded(hay: Seq<char>, needle: Seq<char>) -> bool {
    exists|k: int| 0 <= k && k + needle.len() <= hay.len() && match_at(needle, hay, k)
}

/// Case-folds one character (ASCII only).
pub fn fold_char(c: char) -> (r: u32)
    ensures
        r == fold(c),
{
    let u = c as u32;
    if 65 <= u && u <= 90 {
        u + 32
    } else {
        u
    }
}

/// Case-insensitive substring test: does `hay` contain `needle` anywhere,
/// with ASCII case folded?
pub fn contains_fold(hay: &str, needle: &str) -> (b: bool)
    ensures
        b == contains_folded(hay@, needle@),
{
    let n = needle.unicode_len();
    let h = hay.unicode_len();
    if n > h {
        return false;
    }
    let mut k: usize = 0;
    while k <= h - n
        invariant
            n <= h,
            h == hay@.len(),
            n == needle@.len(),
            k <= h - n + 1,
            forall|k2: int| 0 <= k2 < k ==> !match_at(needle@, hay@, k2),
        decreases h - n + 1 - k,
    {
        let mut j: usize = 0;
        let mut matches_here = true;
        while matches_here && j < n
            invariant
                j <= n,
                n <= h,
                h == hay@.len(),
                n == needle@.len(),
                k + n <= h,
                matches_here ==> forall|j2: int|
                    0 <= j2 < j ==> fold(hay@[k + j2]) == fold(needle@[j2]),
                !matches_here ==> !match_at(needle@, hay@, k as int),
            decreases n - j + (if matches_here {
                1int
            } else {
                0int
            }),
        {
            if fold_char(hay.get_char(k + j)) != fold_char(needle.get_char(j)) {
                proof {
                    assert(fold(hay@[k + j]) != fold(needle@[j as int]));
                }
                matches_here = false;
            } else {
                j = j + 1;
            }
        }
        if matches_here {
            assert(match_at(needle@, hay@, k as int));
            assert(contains_folded(hay@, needle@));
            return true;
        }
        k = k + 1;
    }
    assert(forall|k2: int|
        0 <= k2 && k2 + needle@.len() <= hay@.len() ==> !match_at(needle@, hay@, k2));
    false
}

/// The decimal digit character for `d`.
pub open spec fn digit_char(d: int) -> char {
    if d == 0 {
        '0'
    } else if d == 1 {
        '1'
    } else if d == 2 {
        '2'
    } else if d == 3 {
        '3'
    } else if d == 4 {
        '4'
    } else if d == 5 {
        '5'
    } else if d == 6 {
        '6'
    } else if d == 7 {
        '7'
    } else if d == 8 {
        '8'
    } else {
        '9'
    }
}

/// The upper-case hexadecimal digit character for `d`.
pub open spec fn hex_char(d: int) -> char {
    if d < 10 {
        digit_char(d)
    } else if d == 10 {
        'A'
    } else if d == 11 {
        'B'
    } else if d == 12 {
        'C'
    } else if d == 13 {
        'D'
    } else if d == 14 {
        'E'
    } else {
        'F'
    }
}

/// The decimal digit string of a natural number, most significant first.
pub open spec fn dec_str(n: nat) -> Seq<char>
    decreases n,
{
    if n < 10 {
        seq![digit_char(n as int)]
    } else {
        dec_str(n / 10).push(digit_char((n % 10) as int))
    }
}

/// Appends the single decimal digit `d`.
pub fn push_digit(s: &mut String, d: u64)
    requires
        d < 10,
    ensures
        final(s)@ == old(s)@ + seq![digit_char(d as int)],
{
    proof {
        reveal_strlit("0");
        reveal_strlit("1");
        reveal_strlit("2");
        reveal_strlit("3");
        reveal_strlit("4");
        reveal_strlit("5");
        reveal_strlit("6");
        reveal_strlit("7");
        reveal_strlit("8");
        reveal_strlit("9");
    }
    match d {
        0 => s.append("0"),
        1 => s.append("1"),
        2 => s.append("2"),
        3 => s.append("3"),
        4 => s.append("4"),
        5 => s.append("5"),
        6 => s.append("6"),
        7 => s.append("7"),
        8 => s.append("8"),
        _ => s.append("9"),
    }
    proof {
        assert(s@ =~= old(s)@ + seq![digit_char(d as int)]);
    }
}

/// Appends the single hexadecimal digit `d`, upper case.
pub fn push_hex_digit(s: &mut String, d: u64)
    requires
        d < 16,
    ensures
        final(s)@ == old(s)@ + seq![hex_char(d as int)],
{
    if d < 10 {
        push_digit(s, d);
    } else {
        proof {
            reveal_strlit("A");
            reveal_strlit("B");
            reveal_strlit("C");
            reveal_strlit("D");
            reveal_strlit("E");
            reveal_strlit("F");
        }
        match d {
            10 => s.append("A"),
            11 => s.append("B"),
            12 => s.append("C"),
            13 => s.append("D"),
            14 => s.append("E"),
            _ => s.append("F"),
        }
        proof {
            assert(s@ =~= old(s)@ + seq![hex_char(d as int)]);
        }
    }
}

/// Appends the decimal digits of `n`, most significant first, no padding.
pub fn push_dec(s: &mut String, n: u64)
    ensures
        final(s)@ == old(s)@ + dec_str(n as nat),
    decreases n,
{
    if n < 10 {
        push_digit(s, n);
    } else {
        push_dec(s, n / 10);
        push_digit(s, n % 10);
        proof {
            assert(s@ =~= old(s)@ + dec_str(n as nat));
        }
    }
}

/// Appends `n` as exactly two decimal digits, zero padded.
pub fn push_2dec(s: &mut String, n: u64)
    requires
        n < 100,
    ensures
        final(s)@ == old(s)@ + seq![
            digit_char((n / 10) as int),
            digit_char((n % 10) as int),
        ],
{
    push_digit(s, n / 10);
    push_digit(s, n % 10);
    proof {
        assert(s@ =~= old(s)@ + seq![
            digit_char((n / 10) as int),
            digit_char((n % 10) as int),
        ]);
    }
}

/// Appends `n` as exactly four upper-case hexadecimal digits, zero padded.
pub fn push_hex4(s: &mut String, n: u64)
    requires
        n < 0x10000,
    ensures
        final(s)@ == old(s)@ + seq![
            hex_char((n / 0x1000) as int),
            hex_char((n / 0x100 % 16) as int),
            hex_char((n / 16 % 16) as int),
            hex_char((n % 16) as int),
        ],
{
    push_hex_digit(s, n / 0x1000);
    push_hex_digit(s, n / 0x100 % 16);
    push_hex_digit(s, n / 16 % 16);
    push_hex_digit(s, n % 16);
    proof {
        assert(s@ =~= old(s)@ + seq![
            hex_char((n / 0x1000) as int),
            hex_char((n / 0x100 % 16) as int),
            hex_char((n / 16 % 16) as int),
            hex_char((n % 16) as int),
        ]);
    }
}

} // verus!
