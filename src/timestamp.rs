//! Calendar timestamps (UTC) as the tables show them.
use vstd::prelude::*;
use crate::text::{zero_padded, zero_padded_text};

verus! {

/// A UTC instant, to the minute, as plain calendar fields.
#[derive(Clone, Copy, Debug, PartialEq, Eq)]
pub struct Timestamp {
    pub year: i32,
    pub month: u32,
    pub day: u32,
    pub hour: u32,
    pub minute: u32,
}

/// The year as `%Y` writes it: four digits, zero-padded, for years 0 to 9999;
/// otherwise an explicit sign and at least four digits.
pub open spec fn year_text(y: int) -> Seq<char> {
    if 0 <= y <= 9999 {
        zero_padded(y as nat, 4)
    } else if y < 0 {
        seq!['-'] + zero_padded((-y) as nat, 4)
    } else {
        seq!['+'] + zero_padded(y as nat, 4)
    }
}

impl Timestamp {
    /// The fields name a possible calendar minute.
    pub open spec fn wf(&self) -> bool {
        &&& 1 <= self.month <= 12
        &&& 1 <= self.day <= 31
        &&& self.hour < 24
        &&& self.minute < 60
    }

    /// A timestamp from its fields, when they name a possible calendar minute.
    pub fn from_parts(year: i32, month: u32, day: u32, hour: u32, minute: u32) -> (r: Option<Timestamp>)
        ensures
            r is Some <==> (Timestamp { year, month, day, hour, minute }).wf(),
            r is Some ==> r->Some_0 == (Timestamp { year, month, day, hour, minute }),
    {
        if 1 <= month && month <= 12 && 1 <= day && day <= 31 && hour < 24 && minute < 60 {
            Some(Timestamp { year, month, day, hour, minute })
        } else {
            None
        }
    }

    /// `%Y-%m-%d`.
    pub open spec fn date_spec(&self) -> Seq<char> {
        year_text(self.year as int) + seq!['-'] + zero_padded(self.month as nat, 2) + seq!['-']
            + zero_padded(self.day as nat, 2)
    }

    /// `%Y-%m-%d %H:%M`.
    pub open spec fn date_time_spec(&self) -> Seq<char> {
        self.date_spec() + seq![' '] + zero_padded(self.hour as nat, 2) + seq![':']
            + zero_padded(self.minute as nat, 2)
    }

    /// The date, as `%Y-%m-%d`.
    pub fn date_text(&self) -> (r: String)
        ensures
            r@ == self.date_spec(),
    {
        proof {
            reveal_strlit("-");
            reveal_strlit("+");
        }
        let y = self.year;
        let mut out = if 0 <= y && y <= 9999 {
            zero_padded_text(y as u64, 4)
        } else if y < 0 {
            let mut s = String::from_str("-");
            let m: u64 = (-(y as i64)) as u64;
            let digits = zero_padded_text(m, 4);
            s.append(digits.as_str());
            s
        } else {
            let mut s = String::from_str("+");
            let digits = zero_padded_text(y as u64, 4);
            s.append(digits.as_str());
            s
        };
        assert(out@ =~= year_text(y as int));
        out.append("-");
        let month = zero_padded_text(self.month as u64, 2);
        out.append(month.as_str());
        out.append("-");
        let day = zero_padded_text(self.day as u64, 2);
        out.append(day.as_str());
        assert(out@ =~= self.date_spec());
        out
    }

    /// The date and time of day, as `%Y-%m-%d %H:%M`.
    pub fn date_time_text(&self) -> (r: String)
        ensures
            r@ == self.date_time_spec(),
    {
        proof {
            reveal_strlit(" ");
            reveal_strlit(":");
        }
        let mut out = self.date_text();
        out.append(" ");
        let hour = zero_padded_text(self.hour as u64, 2);
        out.append(hour.as_str());
        out.append(":");
        let minute = zero_padded_text(self.minute as u64, 2);
        out.append(minute.as_str());
        assert(out@ =~= self.date_time_spec());
        out
    }
}

} // verus!
