//! Requests for historical bars.

use vstd::prelude::*;
use crate::feed::Feed;
use crate::restful::market_data::stock::Adjustment;
use crate::restful::market_data::stock::TimeFrame;
use crate::restful::query::add_parameter;
use crate::restful::query::parameter_of;
use crate::restful::query::parameters_view;
use crate::restful::query::Parameter;
use crate::streaming::stock_data::Timestamp;
use crate::text::decimal;
use crate::text::decimal_of;

verus! {

/// The path of the endpoint that serves the bars of `symbol`.
pub open spec fn bars_path_of(symbol: Seq<char>) -> Seq<char> {
    "v2/stocks/"@ + symbol + "/bars"@
}

/// The text of an instant, where there is an instant and a date and time
/// can name it.
pub open spec fn instant_text(instant: Option<Timestamp>) -> Option<Seq<char>> {
    match instant {
        Some(instant) => instant.text(),
        None => None,
    }
}

/// The decimal text of a number, where there is one.
pub open spec fn count_text(count: Option<usize>) -> Option<Seq<char>> {
    match count {
        Some(count) => Some(decimal_of(count as nat)),
        None => None,
    }
}

/// The wire name of an adjustment, where there is one.
pub open spec fn adjustment_text(adjustment: Option<Adjustment>) -> Option<Seq<char>> {
    match adjustment {
        Some(adjustment) => Some(adjustment.wire_name()),
        None => None,
    }
}

/// The wire name of a feed, where there is one.
pub open spec fn feed_text(feed: Option<Feed>) -> Option<Seq<char>> {
    match feed {
        Some(feed) => Some(feed.wire_name()),
        None => None,
    }
}

/// A request for /v2/stocks/{symbol}/bars
#[derive(Clone, Debug, PartialEq, Eq)]
#[must_use]
pub struct Request {
    /// The symbol for which to retrieve market data.
    pub symbol: String,
    /// The time frame for the bars.
    pub time_frame: TimeFrame,
    /// The maximum number of bars to be returned for each symbol.
    ///
    /// It can be between 1 and 10000. Defaults to 1000 if the provided
    /// value is None.
    pub limit: Option<usize>,
    /// Filter bars equal to or after this time.
    pub start: Option<Timestamp>,
    /// Filter bars equal to or before this time.
    pub end: Option<Timestamp>,
    /// The adjustment to use (defaults to raw)
    pub adjustment: Option<Adjustment>,
    /// The data feed to use.
    pub feed: Option<Feed>,
    /// If provided we will pass a page token to continue where we left off.
    pub page_token: Option<String>,
}

/// Create a new request for market data bars
///
/// # Arguments
/// * `symbol` - The symbol for which to retrieve market data.
/// * `time_frame` - The time frame for the bars.
pub fn get(symbol: &str, time_frame: TimeFrame) -> (request: Request)
    ensures
        request.symbol@ == symbol@,
        request.time_frame == time_frame,
        request.limit is None,
        request.start is None,
        request.end is None,
        request.adjustment is None,
        request.feed is None,
        request.page_token is None,
{
    Request::new(symbol, time_frame)
}

impl Request {
    /// Create a new request for market data bars: nothing is set but the
    /// symbol and the time frame.
    pub fn new(symbol: &str, time_frame: TimeFrame) -> (request: Self)
        ensures
            request.symbol@ == symbol@,
            request.time_frame == time_frame,
            request.limit is None,
            request.start is None,
            request.end is None,
            request.adjustment is None,
            request.feed is None,
            request.page_token is None,
    {
        Request {
            symbol: symbol.to_owned(),
            time_frame,
            limit: None,
            start: None,
            end: None,
            adjustment: None,
            feed: None,
            page_token: None,
        }
    }

    /// Set the `limit` for the number of bars to be returned for each symbol.
    pub fn limit(self, limit: usize) -> (request: Self)
        ensures
            request == (Request { limit: Some(limit), ..self }),
    {
        Request { limit: Some(limit), ..self }
    }

    /// Set the `start` date for the bars request.
    pub fn start(self, start: Timestamp) -> (request: Self)
        ensures
            request == (Request { start: Some(start), ..self }),
    {
        Request { start: Some(start), ..self }
    }

    /// Set the `end` date for the bars request.
    pub fn end(self, end: Timestamp) -> (request: Self)
        ensures
            request == (Request { end: Some(end), ..self }),
    {
        Request { end: Some(end), ..self }
    }

    /// Set the `adjustment` for the bars request.
    pub fn adjustment(self, adjustment: Adjustment) -> (request: Self)
        ensures
            request == (Request { adjustment: Some(adjustment), ..self }),
    {
        Request { adjustment: Some(adjustment), ..self }
    }

    /// Set the `feed` for the bars request.
    pub fn feed(self, feed: Feed) -> (request: Self)
        ensures
            request == (Request { feed: Some(feed), ..self }),
    {
        Request { feed: Some(feed), ..self }
    }

    /// The path of the endpoint that answers this request.
    pub fn path(&self) -> (path: String)
        ensures
            path@ == bars_path_of(self.symbol@),
    {
        "v2/stocks/".to_owned().concat(self.symbol.as_str()).concat("/bars")
    }

    /// The parameters of the query of this request: the time frame
    /// always, then each of limit, start, end, adjustment, feed and page
    /// token that is set. A start or an end that no date and time can
    /// name is left out.
    pub open spec fn query_of(self) -> Seq<(Seq<char>, Seq<char>)> {
        parameter_of("timeframe"@, Some(self.time_frame.wire_name())) + parameter_of(
            "limit"@,
            count_text(self.limit),
        ) + parameter_of("start"@, instant_text(self.start)) + parameter_of(
            "end"@,
            instant_text(self.end),
        ) + parameter_of("adjustment"@, adjustment_text(self.adjustment)) + parameter_of(
            "feed"@,
            feed_text(self.feed),
        ) + parameter_of("page_token"@, self.page_token.deep_view())
    }

    /// The parameters of the query of this request.
    pub fn query(&self) -> (parameters: Vec<Parameter>)
        ensures
            parameters_view(parameters@) == self.query_of(),
    {
        let mut parameters: Vec<Parameter> = Vec::new();
        add_parameter(&mut parameters, "timeframe", Some(self.time_frame.as_str().to_owned()));
        let limit = match self.limit {
            Some(limit) => Some(decimal(limit)),
            None => None,
        };
        add_parameter(&mut parameters, "limit", limit);
        let start = match &self.start {
            Some(start) => start.format(),
            None => None,
        };
        add_parameter(&mut parameters, "start", start);
        let end = match &self.end {
            Some(end) => end.format(),
            None => None,
        };
        add_parameter(&mut parameters, "end", end);
        let adjustment = match &self.adjustment {
            Some(adjustment) => Some(adjustment.as_str().to_owned()),
            None => None,
        };
        add_parameter(&mut parameters, "adjustment", adjustment);
        let feed = match &self.feed {
            Some(feed) => Some(feed.as_str().to_owned()),
            None => None,
        };
        add_parameter(&mut parameters, "feed", feed);
        let page_token = match &self.page_token {
            Some(page_token) => Some(page_token.clone()),
            None => None,
        };
        add_parameter(&mut parameters, "page_token", page_token);
        parameters
    }

    /// Take in one page of the answer: its bars go behind those collected
    /// so far. Returns whether another page is to be asked for; the
    /// request then carries the token that continues where this page
    /// ended.
    pub fn take_page<T>(
        &mut self,
        results: &mut Vec<T>,
        bars: Vec<T>,
        next_page_token: Option<String>,
    ) -> (more: bool)
        ensures
            final(results)@ == old(results)@ + bars@,
            more == next_page_token is Some,
            more ==> *final(self) == (Request { page_token: next_page_token, ..*old(self) }),
            !more ==> *final(self) == *old(self),
    {
        let mut bars = bars;
        results.append(&mut bars);
        match next_page_token {
            Some(token) => {
                self.page_token = Some(token);
                true
            },
            None => false,
        }
    }
}

} // verus!
