//! Times of the day.

use vstd::prelude::*;

use crate::number::digit;

verus! {

/// A time of the day. The nanoseconds reach 1,000,000,000 during a leap second,
/// which follows second 59.
#[derive(Clone, Copy, Debug, PartialEq, Eq, Structural)]
pub struct ClockTime {
    pub hour: u32,
    pub minute: u32,
    pub second: u32,
    pub nano: u32,
}

/// The last two digits of `n`.
pub open spec fn two_digits(n: nat) -> Seq<char> {
    seq![digit((n / 10) % 10), digit(n % 10)]
}

/// The second that is shown: a leap second is shown as 60.
pub open spec fn shown_second(second: u32, nano: u32) -> nat {
    if nano >= 1_000_000_000 {
        (second + 1) as nat
    } else {
        second as nat
    }
}

/// `chrono::NaiveTime::from_hms_nano_opt`, and `format` with `%H:%M:%S`: the hour,
/// the minute and the second with two digits each and colons between them, where a
/// leap second counts as second 60. Values that make no time of the day are left
/// out.
#[verifier::external_body]
fn format_clock(hour: u32, minute: u32, second: u32, nano: u32) -> (r: String)
    requires
        hour < 24,
        minute < 60,
        second < 60,
        nano < 2_000_000_000,
        nano >= 1_000_000_000 ==> second == 59,
    ensures
        r@ == two_digits(hour as nat) + ":"@ + two_digits(minute as nat) + ":"@ + two_digits(
            shown_second(second, nano),
        ),
{
    let time = chrono::NaiveTime::from_hms_nano_opt(hour, minute, second, nano).unwrap();
    time.format("%H:%M:%S").to_string()
}

impl ClockTime {
    /// The values make a time of the day.
    pub open spec fn valid(self) -> bool {
        &&& self.hour < 24
        &&& self.minute < 60
        &&& self.second < 60
        &&& self.nano < 2_000_000_000
        &&& self.nano >= 1_000_000_000 ==> self.second == 59
    }

    /// The time of the day that the values make, if they make one.
    pub fn new(hour: u32, minute: u32, second: u32, nano: u32) -> (r: Option<ClockTime>)
        ensures
            r == {
                let t = ClockTime { hour, minute, second, nano };
                if t.valid() {
                    Some(t)
                } else {
                    None
                }
            },
    {
        let leap: bool = nano >= 1_000_000_000;
        if hour >= 24 || minute >= 60 || second >= 60 || nano >= 2_000_000_000 || (leap && second
            != 59) {
            None
        } else {
            Some(ClockTime { hour, minute, second, nano })
        }
    }

    /// How the time is shown, for instance `07:12:24`.
    pub open spec fn shown(self) -> Seq<char> {
        two_digits(self.hour as nat) + ":"@ + two_digits(self.minute as nat) + ":"@ + two_digits(
            shown_second(self.second, self.nano),
        )
    }

    /// How the time is shown.
    pub fn text(&self) -> (r: String)
        requires
            self.valid(),
        ensures
            r@ == self.shown(),
    {
        format_clock(self.hour, self.minute, self.second, self.nano)
    }
}

} // verus!
