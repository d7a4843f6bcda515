//! Calendar timestamps for scheduled messages.
//!
//! A scheduling timestamp is held as its plain calendar fields and rendered
//! on the wire in the ISO-8601 form `YYYY-MM-DDTHH:MM:SS`.

use vstd::prelude::*;

use crate::text::{append_dec2, append_dec4, dec2, dec4, push_char};

verus! {

/// A calendar timestamp, second precision, no time zone.
#[derive(Clone, Copy)]
pub struct DateTime {
    pub year: u16,
    pub month: u8,
    pub day: u8,
    pub hour: u8,
    pub minute: u8,
    pub second: u8,
}

impl DateTime {
    /// Field ranges: a four-digit year and calendar-shaped time fields.
    pub open spec fn wf(self) -> bool {
        &&& self.year <= 9999
        &&& 1 <= self.month <= 12
        &&& 1 <= self.day <= 31
        &&& self.hour < 24
        &&& self.minute < 60
        &&& self.second < 60
    }

    /// Whether the fields are in range; mirrors [`DateTime::wf`].
    pub fn in_range(&self) -> (r: bool)
        ensures
            r == self.wf(),
    {
        self.year <= 9999 && 1 <= self.month && self.month <= 12 && 1 <= self.day && self.day <= 31
            && self.hour < 24 && self.minute < 60 && self.second < 60
    }
}

/// The ISO-8601 rendering `YYYY-MM-DDTHH:MM:SS` of a timestamp.
pub open spec fn datetime_text(d: DateTime) -> Seq<char> {
    dec4(d.year) + seq!['-'] + dec2(d.month) + seq!['-'] + dec2(d.day) + seq!['T'] + dec2(d.hour)
        + seq![':'] + dec2(d.minute) + seq![':'] + dec2(d.second)
}

/// Appends the ISO-8601 rendering of `d`.
pub fn append_datetime(out: &mut String, d: &DateTime)
    requires
        d.wf(),
    ensures
        final(out)@ == old(out)@ + datetime_text(*d),
{
    append_dec4(out, d.year);
    push_char(out, '-');
    append_dec2(out, d.month);
    push_char(out, '-');
    append_dec2(out, d.day);
    push_char(out, 'T');
    append_dec2(out, d.hour);
    push_char(out, ':');
    append_dec2(out, d.minute);
    push_char(out, ':');
    append_dec2(out, d.second);
    proof {
        assert(out@ =~= old(out)@ + datetime_text(*d));
    }
}

} // verus!
