//! Rendering a `Duration` for a clock face.
//!
//! `DurationDisplay` wraps a `Duration` and renders it as `MM:SS`, growing to
//! `HH:MM:SS` from an hour upwards. The plain form rounds to whole seconds,
//! the alternate form keeps two fractional digits (`MM:SS.ss`); both round
//! half up at the last kept digit. The exact character sequence of either
//! form is a spec function, and the exec renderers are proved to produce it.

use vstd::arithmetic::div_mod::{
    lemma_fundamental_div_mod, lemma_fundamental_div_mod_converse_div,
};
use vstd::prelude::*;

use crate::times::Duration;

verus! {

/// The decimal digit character for `d` (meaningful for `d < 10`).
pub open spec fn digit_char(d: nat) -> char
    recommends
        d < 10,
{
    if d == 0 {
        '0'
    } else if d == 1 {
        '1'
    } else if d == 2 {
        '2'
    } else if d == 3 {
        '3'
    } else if d == 4 {
        '4'
    } else if d == 5 {
        '5'
    } else if d == 6 {
        '6'
    } else if d == 7 {
        '7'
    } else if d == 8 {
        '8'
    } else {
        '9'
    }
}

/// The decimal digits of `n`, most significant first, no leading zeros.
pub open spec fn dec_digits(n: nat) -> Seq<char>
    decreases n,
{
    if n < 10 {
        seq![digit_char(n)]
    } else {
        dec_digits(n / 10) + seq![digit_char(n % 10)]
    }
}

/// The decimal digits of `n`, padded with a zero to at least two digits.
pub open spec fn two_digits(n: nat) -> Seq<char> {
    if n < 10 {
        seq!['0', digit_char(n)]
    } else {
        dec_digits(n)
    }
}

/// `millis` rounded half up to whole seconds.
pub open spec fn rounded_secs(millis: nat) -> nat {
    (millis + 500) / 1000
}

/// `millis` rounded half up to centiseconds.
pub open spec fn rounded_centis(millis: nat) -> nat {
    (millis + 5) / 10
}

/// The plain clock face for a span of `millis`: minutes and whole seconds,
/// rounded half up, with hours split off once the minutes reach sixty.
pub open spec fn plain_face(millis: nat) -> Seq<char> {
    let total = rounded_secs(millis);
    let mins = total / 60;
    let secs = total % 60;
    if mins >= 60 {
        two_digits(mins / 60) + seq![':'] + two_digits(mins % 60) + seq![':'] + two_digits(secs)
    } else {
        two_digits(mins) + seq![':'] + two_digits(secs)
    }
}

/// The alternate clock face for a span of `millis`: like `plain_face`, but
/// with two fractional digits, rounded half up at the centisecond.
pub open spec fn precise_face(millis: nat) -> Seq<char> {
    let total = rounded_centis(millis);
    let mins = total / 6000;
    let secs = (total % 6000) / 100;
    let centis = total % 100;
    if mins >= 60 {
        two_digits(mins / 60) + seq![':'] + two_digits(mins % 60) + seq![':'] + two_digits(secs)
            + seq!['.'] + two_digits(centis)
    } else {
        two_digits(mins) + seq![':'] + two_digits(secs) + seq!['.'] + two_digits(centis)
    }
}

/// Rounding half up at granularity `unit` is a carry on the remainder:
/// `(m + unit/2) / unit` equals `m / unit`, plus one when the remainder is at
/// least half a unit.
proof fn lemma_round_half_up(m: nat, unit: nat, half: nat)
    requires
        half * 2 == unit,
        half > 0,
    ensures
        (m + half) / unit == m / unit + if m % unit >= half {
            1nat
        } else {
            0nat
        },
{
    let u = unit as int;
    let q = m as int / u;
    let r = m as int % u;
    lemma_fundamental_div_mod(m as int, u);
    if r >= half {
        assert((q + 1) * u + (r - half) == m as int + half) by (nonlinear_arith)
            requires
                m as int == u * q + r,
                half * 2 == unit,
                u == unit as int,
        ;
        lemma_fundamental_div_mod_converse_div(m as int + half, u, q + 1, r - half);
    } else {
        assert(q * u + (r + half) == m as int + half) by (nonlinear_arith)
            requires
                m as int == u * q + r,
        ;
        lemma_fundamental_div_mod_converse_div(m as int + half, u, q, r + half);
    }
}

/// The single-character string for digit `d`.
fn digit_str(d: u64) -> (r: &'static str)
    requires
        d < 10,
    ensures
        r@ == seq![digit_char(d as nat)],
{
    let r: &'static str = match d {
        0 => "0",
        1 => "1",
        2 => "2",
        3 => "3",
        4 => "4",
        5 => "5",
        6 => "6",
        7 => "7",
        8 => "8",
        _ => "9",
    };
    proof {
        reveal_strlit("0");
        reveal_strlit("1");
        reveal_strlit("2");
        reveal_strlit("3");
        reveal_strlit("4");
        reveal_strlit("5");
        reveal_strlit("6");
        reveal_strlit("7");
        reveal_strlit("8");
        reveal_strlit("9");
        assert(r@ =~= seq![digit_char(d as nat)]);
    }
    r
}

/// Appends the decimal digits of `n` to `out`.
fn push_dec(out: &mut String, n: u64)
    ensures
        final(out)@ == old(out)@ + dec_digits(n as nat),
    decreases n,
{
    if n < 10 {
        out.append(digit_str(n));
        proof {
            assert(out@ =~= old(out)@ + dec_digits(n as nat));
        }
    } else {
        proof {
            assert(n / 10 < n) by (nonlinear_arith)
                requires
                    n >= 10,
            ;
        }
        push_dec(out, n / 10);
        out.append(digit_str(n % 10));
        proof {
            assert(out@ =~= old(out)@ + dec_digits(n as nat));
        }
    }
}

/// Appends the decimal digits of `n`, zero-padded to at least two, to `out`.
fn push_two_digits(out: &mut String, n: u64)
    ensures
        final(out)@ == old(out)@ + two_digits(n as nat),
{
    if n < 10 {
        out.append("0");
        out.append(digit_str(n));
        proof {
            reveal_strlit("0");
            assert(out@ =~= old(out)@ + two_digits(n as nat));
        }
    } else {
        push_dec(out, n);
    }
}

/// A `Duration` dressed for display.
pub struct DurationDisplay(pub Duration);

impl View for DurationDisplay {
    type V = nat;

    open spec fn view(&self) -> nat {
        self.0@
    }
}

impl From<Duration> for DurationDisplay {
    fn from(duration: Duration) -> (r: DurationDisplay) {
        DurationDisplay(duration)
    }
}

impl vstd::std_specs::convert::FromSpecImpl<Duration> for DurationDisplay {
    open spec fn obeys_from_spec() -> bool {
        true
    }

    open spec fn from_spec(duration: Duration) -> DurationDisplay {
        DurationDisplay(duration)
    }
}

impl DurationDisplay {
    /// The plain clock face: `MM:SS` (or `HH:MM:SS` from an hour upwards),
    /// rounded half up to whole seconds.
    pub fn format(&self) -> (r: String)
        ensures
            r@ == plain_face(self@),
    {
        let millis = self.0.as_millis();
        let total = millis / 1000 + if millis % 1000 >= 500 {
            1
        } else {
            0
        };
        proof {
            lemma_round_half_up(millis as nat, 1000, 500);
        }
        let mins = total / 60;
        let secs = total % 60;
        let mut out = String::new();
        if mins >= 60 {
            push_two_digits(&mut out, mins / 60);
            out.append(":");
            push_two_digits(&mut out, mins % 60);
            out.append(":");
            push_two_digits(&mut out, secs);
        } else {
            push_two_digits(&mut out, mins);
            out.append(":");
            push_two_digits(&mut out, secs);
        }
        proof {
            reveal_strlit(":");
            assert(out@ =~= plain_face(self@));
        }
        out
    }

    /// The alternate clock face: two fractional digits (`MM:SS.ss`), rounded
    /// half up at the centisecond.
    pub fn format_alternate(&self) -> (r: String)
        ensures
            r@ == precise_face(self@),
    {
        let millis = self.0.as_millis();
        let total = millis / 10 + if millis % 10 >= 5 {
            1
        } else {
            0
        };
        proof {
            lemma_round_half_up(millis as nat, 10, 5);
        }
        let mins = total / 6000;
        let secs = (total % 6000) / 100;
        let centis = total % 100;
        let mut out = String::new();
        if mins >= 60 {
            push_two_digits(&mut out, mins / 60);
            out.append(":");
            push_two_digits(&mut out, mins % 60);
            out.append(":");
            push_two_digits(&mut out, secs);
            out.append(".");
            push_two_digits(&mut out, centis);
        } else {
            push_two_digits(&mut out, mins);
            out.append(":");
            push_two_digits(&mut out, secs);
            out.append(".");
            push_two_digits(&mut out, centis);
        }
        proof {
            reveal_strlit(":");
            reveal_strlit(".");
            assert(out@ =~= precise_face(self@));
        }
        out
    }
}

} // verus!
