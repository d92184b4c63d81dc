//! The age of an object, as it is shown in listings: whole days where it is
//! at least a day old, else whole hours where it is at least an hour old,
//! else minutes.

use crate::text::{decimal, decimal_text};
use vstd::prelude::*;
use vstd::string::*;

verus! {

pub const SECONDS_PER_MINUTE: u64 = 60;

pub const SECONDS_PER_HOUR: u64 = 3600;

pub const SECONDS_PER_DAY: u64 = 86400;

/// `seconds` in whole units of `unit` seconds, rounded towards zero.
pub open spec fn whole_units(seconds: int, unit: int) -> int {
    if seconds >= 0 {
        seconds / unit
    } else {
        -((-seconds) / unit)
    }
}

/// The decimal numeral of `n`, with a minus sign where `n` is negative.
pub open spec fn signed_decimal(n: int) -> Seq<char> {
    if n < 0 {
        "-"@ + decimal((-n) as nat)
    } else {
        decimal(n as nat)
    }
}

/// The text of an age of `seconds` seconds: the days where there is at
/// least one, else the hours where there is at least one, else the minutes.
/// An age below zero, of an object whose creation time is ahead of the clock,
/// comes out in minutes.
pub open spec fn age_text(seconds: int) -> Seq<char> {
    let days = whole_units(seconds, SECONDS_PER_DAY as int);
    let hours = whole_units(seconds, SECONDS_PER_HOUR as int);
    let minutes = whole_units(seconds, SECONDS_PER_MINUTE as int);
    if days > 0 {
        decimal(days as nat) + "d"@
    } else if hours > 0 {
        decimal(hours as nat) + "h"@
    } else {
        signed_decimal(minutes) + "m"@
    }
}

/// Formats the age of an object created `seconds` seconds ago.
pub fn format_creation(seconds: i64) -> (text: String)
    ensures
        text@ == age_text(seconds as int),
{
    if seconds >= 0 {
        let age: u64 = seconds as u64;
        if age >= SECONDS_PER_DAY {
            decimal_text(age / SECONDS_PER_DAY).concat("d")
        } else if age >= SECONDS_PER_HOUR {
            decimal_text(age / SECONDS_PER_HOUR).concat("h")
        } else {
            decimal_text(age / SECONDS_PER_MINUTE).concat("m")
        }
    } else {
        let ahead: u64 = (-(seconds as i128)) as u64;
        if ahead < SECONDS_PER_MINUTE {
            decimal_text(0).concat("m")
        } else {
            let mut text = String::from_str("-");
            text.append(decimal_text(ahead / SECONDS_PER_MINUTE).as_str());
            text.append("m");
            text
        }
    }
}

} // verus!
