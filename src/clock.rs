use vstd::prelude::*;

verus! {

/// The spoken name of an hour of the day.
pub open spec fn hour_word(h: int) -> Seq<char> {
    if h == 0 {
        "Midnight"@
    } else if h == 12 {
        "Midday"@
    } else if h == 1 || h == 13 {
        "One"@
    } else if h == 2 || h == 14 {
        "Two"@
    } else if h == 3 || h == 15 {
        "Three"@
    } else if h == 4 || h == 16 {
        "Four"@
    } else if h == 5 || h == 17 {
        "Five"@
    } else if h == 6 || h == 18 {
        "Six"@
    } else if h == 7 || h == 19 {
        "Seven"@
    } else if h == 8 || h == 20 {
        "Eight"@
    } else if h == 9 || h == 21 {
        "Nine"@
    } else if h == 10 || h == 22 {
        "Ten"@
    } else {
        "Eleven"@
    }
}

/// The spoken phrase for the `k`-th five-minute step of an hour.
pub open spec fn minute_phrase(k: int) -> Seq<char> {
    if k == 0 {
        "O'Clock"@
    } else if k == 1 {
        "Five past"@
    } else if k == 2 {
        "Ten past"@
    } else if k == 3 {
        "Quater past"@
    } else if k == 4 {
        "Twenty past"@
    } else if k == 5 {
        "Twenty-five past"@
    } else if k == 6 {
        "Half past"@
    } else if k == 7 {
        "Twenty-five to"@
    } else if k == 8 {
        "Twenty to"@
    } else if k == 9 {
        "Quater to"@
    } else if k == 10 {
        "Ten to"@
    } else {
        "Five to"@
    }
}

/// The time of day in words, rounded down to five minutes: past the hour up to
/// half past, then to the next hour.
pub open spec fn spoken_time(hour: int, minute: int) -> Seq<char> {
    let k = minute / 5;
    if k == 0 {
        if hour == 0 || hour == 12 {
            hour_word(hour)
        } else {
            hour_word(hour) + " "@ + minute_phrase(0)
        }
    } else if k <= 6 {
        minute_phrase(k) + " "@ + hour_word(hour)
    } else {
        minute_phrase(k) + " "@ + hour_word((hour + 1) % 24)
    }
}

fn hour_name(h: u32) -> (r: &'static str)
    requires
        h <= 23,
    ensures
        r@ == hour_word(h as int),
{
    if h == 0 {
        "Midnight"
    } else if h == 12 {
        "Midday"
    } else if h == 1 || h == 13 {
        "One"
    } else if h == 2 || h == 14 {
        "Two"
    } else if h == 3 || h == 15 {
        "Three"
    } else if h == 4 || h == 16 {
        "Four"
    } else if h == 5 || h == 17 {
        "Five"
    } else if h == 6 || h == 18 {
        "Six"
    } else if h == 7 || h == 19 {
        "Seven"
    } else if h == 8 || h == 20 {
        "Eight"
    } else if h == 9 || h == 21 {
        "Nine"
    } else if h == 10 || h == 22 {
        "Ten"
    } else {
        "Eleven"
    }
}

fn minute_name(k: u32) -> (r: &'static str)
    requires
        k <= 11,
    ensures
        r@ == minute_phrase(k as int),
{
    if k == 0 {
        "O'Clock"
    } else if k == 1 {
        "Five past"
    } else if k == 2 {
        "Ten past"
    } else if k == 3 {
        "Quater past"
    } else if k == 4 {
        "Twenty past"
    } else if k == 5 {
        "Twenty-five past"
    } else if k == 6 {
        "Half past"
    } else if k == 7 {
        "Twenty-five to"
    } else if k == 8 {
        "Twenty to"
    } else if k == 9 {
        "Quater to"
    } else if k == 10 {
        "Ten to"
    } else {
        "Five to"
    }
}

/// A time of day to the minute, shown on the dashboard's clock.
#[derive(Debug, Clone, Copy, Default, PartialEq, Eq, Structural)]
pub struct Time {
    hour: u32,
    minute: u32,
}

impl Time {
    /// Holds when the hour and minute name a time of day.
    pub open spec fn valid(hour: u32, minute: u32) -> bool {
        hour <= 23 && minute <= 59
    }

    pub closed spec fn hour_spec(&self) -> u32 {
        self.hour
    }

    pub closed spec fn minute_spec(&self) -> u32 {
        self.minute
    }

    pub closed spec fn wf(&self) -> bool {
        Self::valid(self.hour, self.minute)
    }

    /// The time, or `None` when the hour is over 23 or the minute over 59.
    pub fn new(hour: u32, minute: u32) -> (r: Option<Time>)
        ensures
            r is Some <==> Self::valid(hour, minute),
            r matches Some(t) ==> t.wf() && t.hour_spec() == hour && t.minute_spec() == minute,
    {
        if hour <= 23 && minute <= 59 {
            Some(Time { hour, minute })
        } else {
            None
        }
    }

    /// The time, for an hour and minute already known to be in range.
    pub fn new_unchecked(hour: u32, minute: u32) -> (r: Time)
        requires
            Self::valid(hour, minute),
        ensures
            r.wf(),
            r.hour_spec() == hour,
            r.minute_spec() == minute,
    {
        Time { hour, minute }
    }

    pub fn hour(&self) -> (r: u32)
        ensures
            r == self.hour_spec(),
    {
        self.hour
    }

    pub fn minute(&self) -> (r: u32)
        ensures
            r == self.minute_spec(),
    {
        self.minute
    }

    /// The time in words, as `spoken_time` gives it.
    pub fn format(&self) -> (r: String)
        requires
            self.wf(),
        ensures
            r@ == spoken_time(self.hour_spec() as int, self.minute_spec() as int),
    {
        let hour = self.hour;
        let k = self.minute / 5;
        if k == 0 {
            if hour == 0 || hour == 12 {
                String::from_str(hour_name(hour))
            } else {
                let mut r = String::from_str(hour_name(hour));
                r.append(" ");
                r.append(minute_name(0));
                r
            }
        } else {
            let next = if k <= 6 {
                hour
            } else if hour != 23 {
                hour + 1
            } else {
                0
            };
            let mut r = String::from_str(minute_name(k));
            r.append(" ");
            r.append(hour_name(next));
            r
        }
    }
}

} // verus!
