//! Today's date in the words of a reply: the names of the months and of the
//! days of the week, in Portuguese.

use chrono::Datelike;
use vstd::prelude::*;
use vstd::string::*;
use crate::models::date::{DateInfo, DateInfoView, Weekday};

verus! {

/// The name of a month, counted from 1. A number that is no month gives the
/// words for "unknown month".
pub open spec fn month_name(month: int) -> Seq<char> {
    if month == 1 {
        "Janeiro"@
    } else if month == 2 {
        "Fevereiro"@
    } else if month == 3 {
        "Março"@
    } else if month == 4 {
        "Abril"@
    } else if month == 5 {
        "Maio"@
    } else if month == 6 {
        "Junho"@
    } else if month == 7 {
        "Julho"@
    } else if month == 8 {
        "Agosto"@
    } else if month == 9 {
        "Setembro"@
    } else if month == 10 {
        "Outubro"@
    } else if month == 11 {
        "Novembro"@
    } else if month == 12 {
        "Dezembro"@
    } else {
        "Mês desconhecido"@
    }
}

/// Whether a text is the name of one of the twelve months.
pub open spec fn is_month_name(text: Seq<char>) -> bool {
    exists|month: int| 1 <= month <= 12 && text == #[trigger] month_name(month)
}

/// The name of a day of the week.
pub open spec fn weekday_name(weekday: Weekday) -> Seq<char> {
    match weekday {
        Weekday::Monday => "Segunda-feira"@,
        Weekday::Tuesday => "Terça-feira"@,
        Weekday::Wednesday => "Quarta-feira"@,
        Weekday::Thursday => "Quinta-feira"@,
        Weekday::Friday => "Sexta-feira"@,
        Weekday::Saturday => "Sábado"@,
        Weekday::Sunday => "Domingo"@,
    }
}

/// Whether a text is the name of one of the seven days of the week.
pub open spec fn is_weekday_name(text: Seq<char>) -> bool {
    exists|weekday: Weekday| text == #[trigger] weekday_name(weekday)
}

impl DateInfoView {
    /// A day from 1 to 31, a month from 1 to 12, and the name of a day of
    /// the week.
    pub open spec fn wf(&self) -> bool {
        &&& 1 <= self.day <= 31
        &&& 1 <= self.month <= 12
        &&& is_weekday_name(self.weekday)
    }
}

/// Gives the name of a month, counted from 1.
pub fn get_month_name(month: u32) -> (name: String)
    ensures
        name@ == month_name(month as int),
        1 <= month <= 12 ==> is_month_name(name@),
{
    let name = match month {
        1 => "Janeiro",
        2 => "Fevereiro",
        3 => "Março",
        4 => "Abril",
        5 => "Maio",
        6 => "Junho",
        7 => "Julho",
        8 => "Agosto",
        9 => "Setembro",
        10 => "Outubro",
        11 => "Novembro",
        12 => "Dezembro",
        _ => "Mês desconhecido",
    };
    let name = String::from_str(name);
    assert(name@ == month_name(month as int));
    name
}

/// Gives the name of a day of the week.
pub fn get_weekday_name(weekday: Weekday) -> (name: String)
    ensures
        name@ == weekday_name(weekday),
        is_weekday_name(name@),
{
    let name = match weekday {
        Weekday::Monday => "Segunda-feira",
        Weekday::Tuesday => "Terça-feira",
        Weekday::Wednesday => "Quarta-feira",
        Weekday::Thursday => "Quinta-feira",
        Weekday::Friday => "Sexta-feira",
        Weekday::Saturday => "Sábado",
        Weekday::Sunday => "Domingo",
    };
    let name = String::from_str(name);
    assert(name@ == weekday_name(weekday));
    name
}

/// A calendar day as the clock gives it.
#[derive(Clone, Copy, Debug, PartialEq, Eq, Structural)]
pub struct Today {
    pub day: u32,
    pub month: u32,
    pub year: i32,
    pub weekday: Weekday,
}

/// The date that a reply speaks of, for a day given by the clock.
pub open spec fn date_info_for(today: Today) -> DateInfoView {
    DateInfoView {
        day: today.day as int,
        month: today.month as int,
        year: today.year as int,
        weekday: weekday_name(today.weekday),
    }
}

/// Calls `Local::now` of chrono and reads the result through `Datelike`:
/// `day`, `month`, `year` and `weekday`. Trusted: chrono documents that `day`
/// lies in 1 to 31 and `month` in 1 to 12. Which day it is depends on the
/// clock and the time zone of the machine, so nothing more is claimed.
/// `Local::now` fails only where the machine's clock stands before 1970.
#[verifier::external_body]
fn local_today() -> (today: Today)
    ensures
        1 <= today.day <= 31,
        1 <= today.month <= 12,
{
    let now = chrono::Local::now();
    let weekday = match now.weekday() {
        chrono::Weekday::Mon => Weekday::Monday,
        chrono::Weekday::Tue => Weekday::Tuesday,
        chrono::Weekday::Wed => Weekday::Wednesday,
        chrono::Weekday::Thu => Weekday::Thursday,
        chrono::Weekday::Fri => Weekday::Friday,
        chrono::Weekday::Sat => Weekday::Saturday,
        chrono::Weekday::Sun => Weekday::Sunday,
    };
    Today { day: now.day(), month: now.month(), year: now.year(), weekday }
}

/// Words a day given by the clock.
pub fn date_info_of(today: Today) -> (info: DateInfo)
    ensures
        info@ == date_info_for(today),
        (1 <= today.day <= 31 && 1 <= today.month <= 12) ==> info@.wf(),
{
    DateInfo {
        day: today.day,
        month: today.month,
        year: today.year,
        weekday: get_weekday_name(today.weekday),
    }
}

/// Today's date by the machine's clock, in local time. Which day comes back
/// is up to the clock; whichever it is, it is well formed.
pub fn get_current_date_info() -> (info: DateInfo)
    ensures
        info@.wf(),
{
    date_info_of(local_today())
}

} // verus!
