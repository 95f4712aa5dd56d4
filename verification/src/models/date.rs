//! The calendar day that a reply speaks of.

use vstd::prelude::*;

verus! {

/// A day of the week.
#[derive(Clone, Copy, Debug, PartialEq, Eq, Structural)]
pub enum Weekday {
    Monday,
    Tuesday,
    Wednesday,
    Thursday,
    Friday,
    Saturday,
    Sunday,
}

/// A calendar day with the name of its weekday, as a reply words it.
#[derive(Clone, Debug, PartialEq, Eq)]
pub struct DateInfo {
    pub day: u32,
    pub month: u32,
    pub year: i32,
    pub weekday: String,
}

/// What a `DateInfo` stands for.
pub ghost struct DateInfoView {
    pub day: int,
    pub month: int,
    pub year: int,
    pub weekday: Seq<char>,
}

impl View for DateInfo {
    type V = DateInfoView;

    open spec fn view(&self) -> DateInfoView {
        DateInfoView {
            day: self.day as int,
            month: self.month as int,
            year: self.year as int,
            weekday: self.weekday@,
        }
    }
}

} // verus!
