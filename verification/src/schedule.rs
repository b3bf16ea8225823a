//! The pure rules of the announcement scheduler: which day a schedule
//! entry names, and how far away its next occurrence lies.  The clock
//! and the timers live outside the library.

use crate::strings::{append_chars, chars_string, chars_vec, eq_lit};
use vstd::prelude::*;

verus! {

/// A day of the week, numbered from Monday = 1 as the chat platform
/// numbers them.
#[derive(Clone, Copy, Debug, PartialEq, Eq, Structural)]
pub enum Weekday {
    Mon,
    Tue,
    Wed,
    Thu,
    Fri,
    Sat,
    Sun,
}

impl Weekday {
    /// Monday is 1, Sunday is 7.
    pub open spec fn spec_number(self) -> int {
        match self {
            Weekday::Mon => 1,
            Weekday::Tue => 2,
            Weekday::Wed => 3,
            Weekday::Thu => 4,
            Weekday::Fri => 5,
            Weekday::Sat => 6,
            Weekday::Sun => 7,
        }
    }

    pub fn number_from_monday(self) -> (n: u8)
        ensures
            n == self.spec_number(),
    {
        match self {
            Weekday::Mon => 1,
            Weekday::Tue => 2,
            Weekday::Wed => 3,
            Weekday::Thu => 4,
            Weekday::Fri => 5,
            Weekday::Sat => 6,
            Weekday::Sun => 7,
        }
    }
}

/// The day field of a schedule entry: a fixed weekday, or every day.
#[derive(Clone, Copy, Debug, PartialEq, Eq, Structural)]
pub enum Day {
    Any,
    Weekday(Weekday),
}

impl Day {
    /// How many days lie between two firings: one for a daily entry,
    /// a week for a weekly one.
    pub fn get_loop_interval(&self) -> (n: i64)
        ensures
            *self == Day::Any ==> n == 1,
            self matches Day::Weekday(_) ==> n == 7,
    {
        match self {
            Day::Any => 1,
            Day::Weekday(_) => 7,
        }
    }

    /// How many days from `day` until this entry first fires: zero
    /// for a daily entry, and the forward distance to the named
    /// weekday otherwise.
    pub fn get_start_interval(&self, day: Weekday) -> (n: i64)
        ensures
            *self == Day::Any ==> n == 0,
            self matches Day::Weekday(target) ==> {
                &&& 0 <= n < 7
                &&& (day.spec_number() + n) % 7 == target.spec_number() % 7
            },
    {
        match self {
            Day::Any => 0,
            Day::Weekday(weekday) => {
                let day_num = day.number_from_monday() as i64;
                let target_day_num = weekday.number_from_monday() as i64;
                let mut v = target_day_num - day_num;
                if v < 0 {
                    v = v + 7;
                }
                v
            },
        }
    }
}

/// A day name the schedule does not know.
#[derive(Debug)]
pub struct UnknownDay(pub String);

impl UnknownDay {
    /// The message shown for this error.
    pub fn message(&self) -> (r: String)
        ensures
            r@ == "unknown day: "@ + self.0@,
    {
        let mut buf = chars_vec("unknown day: ");
        let raw = chars_vec(self.0.as_str());
        append_chars(&mut buf, &raw);
        chars_string(&buf)
    }
}

/// Parses the day field of a schedule entry: `*` for every day, or a
/// three-letter weekday name.
pub fn parse_day(raw: &str) -> (r: Result<Day, UnknownDay>)
    ensures
        raw@ == "*"@ ==> r == Ok::<Day, UnknownDay>(Day::Any),
        raw@ == "mon"@ ==> r == Ok::<Day, UnknownDay>(Day::Weekday(Weekday::Mon)),
        raw@ == "tue"@ ==> r == Ok::<Day, UnknownDay>(Day::Weekday(Weekday::Tue)),
        raw@ == "wed"@ ==> r == Ok::<Day, UnknownDay>(Day::Weekday(Weekday::Wed)),
        raw@ == "thu"@ ==> r == Ok::<Day, UnknownDay>(Day::Weekday(Weekday::Thu)),
        raw@ == "fri"@ ==> r == Ok::<Day, UnknownDay>(Day::Weekday(Weekday::Fri)),
        raw@ == "sat"@ ==> r == Ok::<Day, UnknownDay>(Day::Weekday(Weekday::Sat)),
        raw@ == "sun"@ ==> r == Ok::<Day, UnknownDay>(Day::Weekday(Weekday::Sun)),
        r matches Err(e) ==> e.0@ == raw@,
        !(raw@ == "*"@ || raw@ == "mon"@ || raw@ == "tue"@ || raw@ == "wed"@ || raw@ == "thu"@
            || raw@ == "fri"@ || raw@ == "sat"@ || raw@ == "sun"@) ==> r is Err,
{
    proof {
        reveal_strlit("*");
        reveal_strlit("mon");
        reveal_strlit("tue");
        reveal_strlit("wed");
        reveal_strlit("thu");
        reveal_strlit("fri");
        reveal_strlit("sat");
        reveal_strlit("sun");
        assert("*"@.len() == 1);
        assert("mon"@[0] == 'm' && "mon"@.len() == 3);
        assert("tue"@[0] == 't' && "tue"@[1] == 'u' && "tue"@.len() == 3);
        assert("wed"@[0] == 'w' && "wed"@.len() == 3);
        assert("thu"@[0] == 't' && "thu"@[1] == 'h' && "thu"@.len() == 3);
        assert("fri"@[0] == 'f' && "fri"@.len() == 3);
        assert("sat"@[0] == 's' && "sat"@[1] == 'a' && "sat"@.len() == 3);
        assert("sun"@[0] == 's' && "sun"@[1] == 'u' && "sun"@.len() == 3);
    }
    let v = chars_vec(raw);
    if eq_lit(&v, "*") {
        return Ok(Day::Any);
    }
    if eq_lit(&v, "mon") {
        return Ok(Day::Weekday(Weekday::Mon));
    }
    if eq_lit(&v, "tue") {
        return Ok(Day::Weekday(Weekday::Tue));
    }
    if eq_lit(&v, "wed") {
        return Ok(Day::Weekday(Weekday::Wed));
    }
    if eq_lit(&v, "thu") {
        return Ok(Day::Weekday(Weekday::Thu));
    }
    if eq_lit(&v, "fri") {
        return Ok(Day::Weekday(Weekday::Fri));
    }
    if eq_lit(&v, "sat") {
        return Ok(Day::Weekday(Weekday::Sat));
    }
    if eq_lit(&v, "sun") {
        return Ok(Day::Weekday(Weekday::Sun));
    }
    Err(UnknownDay(chars_string(&v)))
}

} // verus!
