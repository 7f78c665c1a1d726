//! The time of day as the shell tells it when it boots up and when it shuts
//! down: on the twelve-hour clock, two digits each for hour, minute and
//! second.

use chrono::Timelike;
use vstd::prelude::*;
use vstd::string::*;

verus! {

/// The character of the decimal digit `d`.
pub open spec fn digit(d: nat) -> char
    recommends
        d < 10,
{
    ('0' as nat + d) as char
}

/// The two decimal digits of `n`, the tens first.
pub open spec fn two_digits(n: nat) -> Seq<char>
    recommends
        n < 100,
{
    seq![digit(n / 10), digit(n % 10)]
}

/// The hour of the twelve-hour clock at `hour` of the day: from 1 to 12.
pub open spec fn hour12_of(hour: nat) -> nat {
    if hour % 12 == 0 {
        12
    } else {
        hour % 12
    }
}

/// The time as it is told: hour of the twelve-hour clock, minute and second
/// with colons between them, a space, and `AM` before noon or `PM` from noon
/// on.
pub open spec fn stamp_of(hour: nat, minute: nat, second: nat) -> Seq<char> {
    two_digits(hour12_of(hour)) + seq![':'] + two_digits(minute) + seq![':'] + two_digits(second)
        + seq![' '] + (if hour >= 12 {
        seq!['P', 'M']
    } else {
        seq!['A', 'M']
    })
}

/// A time of day: an hour below 24, a minute and a second below 60.
#[derive(Clone, Copy, Debug)]
pub struct TimeOfDay {
    hour: u32,
    minute: u32,
    second: u32,
}

/// A time of day, as numbers.
pub struct TimeOfDayView {
    pub hour: nat,
    pub minute: nat,
    pub second: nat,
}

impl View for TimeOfDay {
    type V = TimeOfDayView;

    closed spec fn view(&self) -> TimeOfDayView {
        TimeOfDayView {
            hour: self.hour as nat,
            minute: self.minute as nat,
            second: self.second as nat,
        }
    }
}

/// `chrono::Timelike::hour12`, called on the `chrono::NaiveTime` that
/// `NaiveTime::from_hms_opt` makes of `hour` o'clock sharp; there is such a
/// time for every hour below 24. The call tells whether the hour is at or
/// after noon, and the hour of the twelve-hour clock: the hour modulo 12,
/// with 12 in place of 0. This is taken on trust from chrono, not proved.
#[verifier::external_body]
fn hour12(hour: u32) -> (r: (bool, u32))
    requires
        hour < 24,
    ensures
        r.0 == (hour >= 12),
        r.1 == hour12_of(hour as nat),
{
    chrono::NaiveTime::from_hms_opt(hour, 0, 0).unwrap().hour12()
}

/// The text of the decimal digit `d`.
fn digit_text(d: u32) -> (r: &'static str)
    requires
        d < 10,
    ensures
        r@ == seq![digit(d as nat)],
{
    proof {
        reveal_strlit("0");
        reveal_strlit("1");
        reveal_strlit("2");
        reveal_strlit("3");
        reveal_strlit("4");
        reveal_strlit("5");
        reveal_strlit("6");
        reveal_strlit("7");
        reveal_strlit("8");
        reveal_strlit("9");
    }
    let r = match d {
        0 => "0",
        1 => "1",
        2 => "2",
        3 => "3",
        4 => "4",
        5 => "5",
        6 => "6",
        7 => "7",
        8 => "8",
        _ => "9",
    };
    proof {
        assert(r@ =~= seq![digit(d as nat)]);
    }
    r
}

/// Appends the two decimal digits of `n` to `text`.
fn push_two_digits(text: &mut String, n: u32)
    requires
        n < 100,
    ensures
        final(text)@ == old(text)@ + two_digits(n as nat),
{
    text.append(digit_text(n / 10));
    text.append(digit_text(n % 10));
    proof {
        assert(final(text)@ =~= old(text)@ + two_digits(n as nat));
    }
}

impl TimeOfDay {
    #[verifier::type_invariant]
    spec fn in_range(&self) -> bool {
        self.hour < 24 && self.minute < 60 && self.second < 60
    }

    /// The time of day at `hour`, `minute` and `second`, where there is such
    /// a time.
    pub fn new(hour: u32, minute: u32, second: u32) -> (r: Option<TimeOfDay>)
        ensures
            r is Some <==> hour < 24 && minute < 60 && second < 60,
            r is Some ==> r->0@ == (TimeOfDayView {
                hour: hour as nat,
                minute: minute as nat,
                second: second as nat,
            }),
    {
        if hour < 24 && minute < 60 && second < 60 {
            Some(TimeOfDay { hour, minute, second })
        } else {
            None
        }
    }

    /// The time as it is told.
    pub fn stamp(&self) -> (r: String)
        ensures
            self@.hour < 24 && self@.minute < 60 && self@.second < 60,
            r@ == stamp_of(self@.hour, self@.minute, self@.second),
    {
        proof {
            use_type_invariant(self);
            reveal_strlit(":");
            reveal_strlit(" PM");
            reveal_strlit(" AM");
        }
        let (afternoon, hour) = hour12(self.hour);
        let mut text = String::new();
        push_two_digits(&mut text, hour);
        text.append(":");
        push_two_digits(&mut text, self.minute);
        text.append(":");
        push_two_digits(&mut text, self.second);
        if afternoon {
            text.append(" PM");
        } else {
            text.append(" AM");
        }
        proof {
            assert(text@ =~= stamp_of(self@.hour, self@.minute, self@.second));
        }
        text
    }

    /// The notice of the boot at this time.
    pub fn boot_notice(&self) -> (r: String)
        ensures
            r@ == "Catherine Framework booted up at "@ + stamp_of(
                self@.hour,
                self@.minute,
                self@.second,
            ),
    {
        let mut text = "Catherine Framework booted up at ".to_owned();
        text.append(self.stamp().as_str());
        text
    }

    /// The notice of the shutdown at this time.
    pub fn shutdown_notice(&self) -> (r: String)
        ensures
            r@ == "Catherine Framework shutdown at "@ + stamp_of(
                self@.hour,
                self@.minute,
                self@.second,
            ),
    {
        let mut text = "Catherine Framework shutdown at ".to_owned();
        text.append(self.stamp().as_str());
        text
    }
}

} // verus!
