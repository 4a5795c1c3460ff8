//! The vocabulary of historical stock data.

pub mod bars;

use vstd::prelude::*;

verus! {

/// Supported Time frames for bars
#[derive(Clone, Copy, Debug, PartialEq, Eq, Structural)]
pub enum TimeFrame {
    /// A time frame of one minute.
    OneMinute,
    /// A time frame of five minutes.
    FiveMinute,
    /// A time frame of fifteen minutes.
    FifteenMinute,
    /// A time frame of thirty minutes.
    ThirtyMinute,
    /// A time frame of one hour.
    OneHour,
    /// A time frame of two hours.
    TwoHour,
    /// A time frame of four hours.
    FourHour,
    /// A time frame of one day.
    OneDay,
    /// A time frame of one week.
    OneWeek,
    /// A time frame of one month.
    OneMonth,
}

impl TimeFrame {
    /// The name that stands for this value on the wire.
    pub open spec fn wire_name(self) -> Seq<char> {
        match self {
            TimeFrame::OneMinute => "1Min"@,
            TimeFrame::FiveMinute => "5Min"@,
            TimeFrame::FifteenMinute => "15Min"@,
            TimeFrame::ThirtyMinute => "30Min"@,
            TimeFrame::OneHour => "1Hour"@,
            TimeFrame::TwoHour => "2Hour"@,
            TimeFrame::FourHour => "4Hour"@,
            TimeFrame::OneDay => "1Day"@,
            TimeFrame::OneWeek => "1Week"@,
            TimeFrame::OneMonth => "1Month"@,
        }
    }

    /// The name that stands for this value on the wire.
    pub fn as_str(&self) -> (name: &'static str)
        ensures
            name@ == self.wire_name(),
    {
        match self {
            TimeFrame::OneMinute => "1Min",
            TimeFrame::FiveMinute => "5Min",
            TimeFrame::FifteenMinute => "15Min",
            TimeFrame::ThirtyMinute => "30Min",
            TimeFrame::OneHour => "1Hour",
            TimeFrame::TwoHour => "2Hour",
            TimeFrame::FourHour => "4Hour",
            TimeFrame::OneDay => "1Day",
            TimeFrame::OneWeek => "1Week",
            TimeFrame::OneMonth => "1Month",
        }
    }
}

///  Data adjustment Options
#[derive(Clone, Copy, Debug, PartialEq, Eq, Structural)]
pub enum Adjustment {
    /// No adjustment, i.e., raw data.
    Raw,
    /// Adjustment for stock splits.
    Split,
    /// Adjustment for dividends.
    Dividend,
    /// All available corporate adjustments.
    All,
}

impl Adjustment {
    /// The name that stands for this value on the wire.
    pub open spec fn wire_name(self) -> Seq<char> {
        match self {
            Adjustment::Raw => "raw"@,
            Adjustment::Split => "split"@,
            Adjustment::Dividend => "dividend"@,
            Adjustment::All => "all"@,
        }
    }

    /// The name that stands for this value on the wire.
    pub fn as_str(&self) -> (name: &'static str)
        ensures
            name@ == self.wire_name(),
    {
        match self {
            Adjustment::Raw => "raw",
            Adjustment::Split => "split",
            Adjustment::Dividend => "dividend",
            Adjustment::All => "all",
        }
    }
}

} // verus!
