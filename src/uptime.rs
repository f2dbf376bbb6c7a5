use vstd::prelude::*;
use crate::text::{decimal, digit_char, is_digit, push_char, push_decimal, lemma_decimal_digits};

verus! {

/// Time elapsed since the bot started, as whole seconds and the nanoseconds
/// of the second under way.
#[derive(Clone, Copy, Debug, PartialEq, Eq, Structural)]
pub struct Uptime {
    pub secs: u64,
    pub nanos: u32,
}

pub const NANOS_PER_SEC: u32 = 1_000_000_000;

impl Uptime {
    pub open spec fn wf(self) -> bool {
        self.nanos < NANOS_PER_SEC
    }
}

/// The unit an uptime is shown in: the largest one it has at least one of.
pub open spec fn unit_nanos(u: Uptime) -> nat {
    if u.secs > 0 {
        1_000_000_000
    } else if u.nanos >= 1_000_000 {
        1_000_000
    } else if u.nanos >= 1_000 {
        1_000
    } else {
        1
    }
}

pub open spec fn unit_name(u: Uptime) -> Seq<char> {
    if u.secs > 0 {
        seq!['s']
    } else if u.nanos >= 1_000_000 {
        seq!['m', 's']
    } else if u.nanos >= 1_000 {
        seq!['\u{b5}', 's']
    } else {
        seq!['n', 's']
    }
}

/// Whole units, before rounding.
pub open spec fn whole_units(u: Uptime) -> nat {
    if u.secs > 0 {
        u.secs as nat
    } else {
        u.nanos as nat / unit_nanos(u)
    }
}

/// Nanoseconds left over after the whole units.
pub open spec fn rest_nanos(u: Uptime) -> nat {
    if u.secs > 0 {
        u.nanos as nat
    } else {
        u.nanos as nat % unit_nanos(u)
    }
}

/// Hundredths of a unit left over, rounded half up (may reach 100).
pub open spec fn rounded_hundredths(u: Uptime) -> nat {
    (200 * rest_nanos(u) + unit_nanos(u)) / (2 * unit_nanos(u))
}

proof fn lemma_hundredths_bound(rest: nat, unit: nat)
    requires
        rest < unit,
    ensures
        (200 * rest + unit) / (2 * unit) <= 100,
{
    assert((200 * rest + unit) / (2 * unit) <= 100) by (nonlinear_arith)
        requires
            rest < unit,
    ;
}

/// Whole units after rounding.
pub open spec fn shown_whole(u: Uptime) -> nat {
    if rounded_hundredths(u) >= 100 { whole_units(u) + 1 } else { whole_units(u) }
}

/// Hundredths after rounding.
pub open spec fn shown_hundredths(u: Uptime) -> nat {
    if rounded_hundredths(u) >= 100 { 0 } else { rounded_hundredths(u) }
}

/// The uptime shown with exactly two decimals in its unit, for example `1.50s`.
pub open spec fn uptime_text(u: Uptime) -> Seq<char> {
    let f = shown_hundredths(u);
    decimal(shown_whole(u)) + seq!['.', digit_char(f / 10), digit_char(f % 10)] + unit_name(u)
}

/// Appends the uptime, with two decimals and its unit, to `out`.
pub fn push_uptime(out: &mut String, u: Uptime)
    requires
        u.wf(),
    ensures
        final(out)@ == old(out)@ + uptime_text(u),
{
    let n: u64 = u.nanos as u64;
    let (whole, rest, unit): (u128, u64, u64) = if u.secs > 0 {
        (u.secs as u128, n, 1_000_000_000)
    } else if n >= 1_000_000 {
        ((n / 1_000_000) as u128, n % 1_000_000, 1_000_000)
    } else if n >= 1_000 {
        ((n / 1_000) as u128, n % 1_000, 1_000)
    } else {
        (n as u128, 0, 1)
    };
    assert(unit as nat == unit_nanos(u));
    assert(whole as nat == whole_units(u) && rest as nat == rest_nanos(u) && rest < unit) by {
        if u.secs == 0 {
            if n >= 1_000 {
                assert(n / unit == u.nanos as nat / unit_nanos(u));
                assert(n % unit == u.nanos as nat % unit_nanos(u));
                assert(n % unit < unit);
            } else {
                assert(unit_nanos(u) == 1);
                assert(u.nanos as nat / 1 == u.nanos as nat) by (nonlinear_arith);
                assert(u.nanos as nat % 1 == 0) by (nonlinear_arith);
            }
        }
    }
    let h: u64 = (200 * rest + unit) / (2 * unit);
    assert(h as nat == rounded_hundredths(u));
    proof {
        lemma_hundredths_bound(rest as nat, unit as nat);
    }
    let (w, f): (u128, u64) = if h >= 100 { (whole + 1, 0) } else { (whole, h) };
    push_decimal(out, w);
    push_char(out, '.');
    push_char(out, ((f / 10) as u8 + 48) as char);
    push_char(out, ((f % 10) as u8 + 48) as char);
    if u.secs > 0 {
        push_char(out, 's');
    } else {
        if n >= 1_000_000 {
            push_char(out, 'm');
        } else if n >= 1_000 {
            push_char(out, '\u{b5}');
        } else {
            push_char(out, 'n');
        }
        push_char(out, 's');
    }
    assert(out@ == old(out)@ + uptime_text(u));
}

/// Whatever the uptime, its text is a decimal number with exactly two digits
/// after the point, followed by one of the units `s`, `ms`, `µs` or `ns`.
pub proof fn lemma_uptime_two_decimals(u: Uptime)
    requires
        u.wf(),
    ensures
        ({
            let f = shown_hundredths(u);
            &&& uptime_text(u) == decimal(shown_whole(u)) + seq!['.', digit_char(f / 10), digit_char(f % 10)] + unit_name(u)
            &&& forall|i: int| 0 <= i < decimal(shown_whole(u)).len() ==> is_digit(#[trigger] decimal(shown_whole(u))[i])
            &&& is_digit(digit_char(f / 10))
            &&& is_digit(digit_char(f % 10))
            &&& unit_name(u) == seq!['s'] || unit_name(u) == seq!['m', 's']
                || unit_name(u) == seq!['\u{b5}', 's'] || unit_name(u) == seq!['n', 's']
        }),
{
    lemma_hundredths_bound(rest_nanos(u), unit_nanos(u));
    lemma_decimal_digits(shown_whole(u));
}

} // verus!
