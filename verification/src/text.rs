//! Text formatter: maps a battery sample to the short string shown on the
//! tray icon.
//!
//! Three rules, tried in order: a charging battery above the "topped off"
//! threshold gets a fixed full marker, any other charging battery gets its
//! percentage with a trailing star, and a non-charging battery gets the bare
//! percentage.

use vstd::prelude::*;
use vstd::string::StringExecFns;
use crate::sample::ChargeState;

verus! {

/// Percentage above which a charging battery counts as topped off.
pub const FULL_THRESHOLD: u32 = 97;

/// The character standing for the decimal digit `d`.
pub open spec fn digit_char(d: int) -> char {
    if d == 0 {
        '0'
    } else if d == 1 {
        '1'
    } else if d == 2 {
        '2'
    } else if d == 3 {
        '3'
    } else if d == 4 {
        '4'
    } else if d == 5 {
        '5'
    } else if d == 6 {
        '6'
    } else if d == 7 {
        '7'
    } else if d == 8 {
        '8'
    } else {
        '9'
    }
}

/// Whether `c` is a decimal digit character.
pub open spec fn is_digit(c: char) -> bool {
    ||| c == '0'
    ||| c == '1'
    ||| c == '2'
    ||| c == '3'
    ||| c == '4'
    ||| c == '5'
    ||| c == '6'
    ||| c == '7'
    ||| c == '8'
    ||| c == '9'
}

/// Decimal representation of a non-negative integer, most significant digit
/// first, with no leading zeros (except for zero itself).
pub open spec fn dec_rep(n: int) -> Seq<char>
    decreases n,
{
    if n < 10 {
        seq![digit_char(n)]
    } else {
        dec_rep(n / 10).push(digit_char(n % 10))
    }
}

/// The fixed marker shown for a topped-off charging battery.
pub open spec fn full_marker() -> Seq<char> {
    seq!['^', '_', '^']
}

/// Rule 1: charging and topped off.
pub open spec fn rule_full(p: int, charging: bool) -> bool {
    charging && p > FULL_THRESHOLD
}

/// Rule 2: charging but not yet topped off.
pub open spec fn rule_charging(p: int, charging: bool) -> bool {
    charging && p <= FULL_THRESHOLD
}

/// Rule 3: not charging.
pub open spec fn rule_plain(p: int, charging: bool) -> bool {
    !charging
}

/// The display text for a battery state, by the three rules above.
pub open spec fn display_text(p: int, charging: bool) -> Seq<char> {
    if rule_full(p, charging) {
        full_marker()
    } else if rule_charging(p, charging) {
        dec_rep(p).push('*')
    } else {
        dec_rep(p)
    }
}

/// Every character of a decimal representation is a digit, and the
/// representation is never empty.
pub proof fn lemma_dec_rep_digits(n: int)
    requires
        n >= 0,
    ensures
        dec_rep(n).len() >= 1,
        forall|i: int| 0 <= i < dec_rep(n).len() ==> is_digit(#[trigger] dec_rep(n)[i]),
    decreases n,
{
    if n >= 10 {
        lemma_dec_rep_digits(n / 10);
    }
}

/// The formatter is total and deterministic: for every sample exactly one of
/// the three rules fires, and the display text is the one that rule gives.
/// (Determinism is inherent: `display_text` is a function of its arguments.)
pub proof fn lemma_format_total(p: int, charging: bool)
    ensures
        rule_full(p, charging) || rule_charging(p, charging) || rule_plain(p, charging),
        !(rule_full(p, charging) && rule_charging(p, charging)),
        !(rule_full(p, charging) && rule_plain(p, charging)),
        !(rule_charging(p, charging) && rule_plain(p, charging)),
        rule_full(p, charging) ==> display_text(p, charging) == full_marker(),
        rule_charging(p, charging) ==> display_text(p, charging) == dec_rep(p).push('*'),
        rule_plain(p, charging) ==> display_text(p, charging) == dec_rep(p),
{
}

/// A topped-off charging battery always gets the fixed full marker, which is
/// never a percentage string, bare or starred.
pub proof fn lemma_full_marker_not_digits(p: int, q: int)
    requires
        p > FULL_THRESHOLD,
        q >= 0,
    ensures
        display_text(p, true) == full_marker(),
        display_text(p, true) != dec_rep(q),
        display_text(p, true) != dec_rep(q).push('*'),
{
    lemma_dec_rep_digits(q);
    assert(full_marker()[0] == '^');
    assert(is_digit(dec_rep(q)[0]));
    assert(dec_rep(q).push('*')[0] == dec_rep(q)[0]);
    if display_text(p, true) == dec_rep(q) {
        assert(full_marker()[0] == dec_rep(q)[0]);
    }
    if display_text(p, true) == dec_rep(q).push('*') {
        assert(full_marker()[0] == dec_rep(q)[0]);
    }
}

/// The string `"d"` for a single decimal digit `d`.
fn digit_str(d: u32) -> (r: &'static str)
    requires
        d < 10,
    ensures
        r@ =~= seq![digit_char(d as int)],
{
    proof {
        reveal_strlit("0");
        reveal_strlit("1");
        reveal_strlit("2");
        reveal_strlit("3");
        reveal_strlit("4");
        reveal_strlit("5");
        reveal_strlit("6");
        reveal_strlit("7");
        reveal_strlit("8");
        reveal_strlit("9");
    }
    match d {
        0 => "0",
        1 => "1",
        2 => "2",
        3 => "3",
        4 => "4",
        5 => "5",
        6 => "6",
        7 => "7",
        8 => "8",
        _ => "9",
    }
}

/// The decimal string of `n`, most significant digit first.
pub fn decimal_string(n: u32) -> (r: String)
    ensures
        r@ == dec_rep(n as int),
    decreases n,
{
    if n < 10 {
        String::from_str(digit_str(n))
    } else {
        let mut s = decimal_string(n / 10);
        s.append(digit_str(n % 10));
        proof {
            assert(s@ =~= dec_rep(n as int));
        }
        s
    }
}

/// Builds the display text for a battery sample: the full marker when
/// charging above the threshold, the percentage with a trailing star when
/// charging below it, the bare percentage otherwise.
pub fn build_text(percentage: u32, charging: bool) -> (r: String)
    ensures
        r@ == display_text(percentage as int, charging),
{
    if charging && percentage > FULL_THRESHOLD {
        let s = String::from_str("^_^");
        proof {
            reveal_strlit("^_^");
            assert(s@ =~= full_marker());
        }
        s
    } else if charging {
        let mut s = decimal_string(percentage);
        s.append("*");
        proof {
            reveal_strlit("*");
            assert(s@ =~= dec_rep(percentage as int).push('*'));
        }
        s
    } else {
        decimal_string(percentage)
    }
}

/// The tray tooltip for a battery state: the charging state spelled out
/// with the percentage, a bare label when full, and a fallback wording for
/// unrecognized states.
pub open spec fn tooltip_text(p: int, state: ChargeState) -> Seq<char> {
    match state {
        ChargeState::Charging => "Charging: "@ + dec_rep(p) + "%"@,
        ChargeState::Discharging => "Discharging: "@ + dec_rep(p) + "%"@,
        ChargeState::Full => "Full"@,
        ChargeState::Unknown => "Unhandled state: "@ + dec_rep(p) + "%"@,
    }
}

/// Builds the tooltip shown beside the tray icon.
pub fn build_tooltip(percentage: u32, state: ChargeState) -> (r: String)
    ensures
        r@ == tooltip_text(percentage as int, state),
{
    match state {
        ChargeState::Charging => {
            let mut s = String::from_str("Charging: ");
            s.append(decimal_string(percentage).as_str());
            s.append("%");
            proof {
                assert(s@ =~= tooltip_text(percentage as int, state));
            }
            s
        },
        ChargeState::Discharging => {
            let mut s = String::from_str("Discharging: ");
            s.append(decimal_string(percentage).as_str());
            s.append("%");
            proof {
                assert(s@ =~= tooltip_text(percentage as int, state));
            }
            s
        },
        ChargeState::Full => String::from_str("Full"),
        ChargeState::Unknown => {
            let mut s = String::from_str("Unhandled state: ");
            s.append(decimal_string(percentage).as_str());
            s.append("%");
            proof {
                assert(s@ =~= tooltip_text(percentage as int, state));
            }
            s
        },
    }
}

} // verus!
