//! Which symbols are subscribed on which channel.

use vstd::prelude::*;
use crate::text::str_eq;

verus! {

/// A category of streamed data that can be subscribed per symbol.
#[derive(Clone, Copy, Debug, PartialEq, Eq, Structural)]
pub enum Channel {
    /// Minute bars
    Bars,
    /// Daily bars
    DailyBars,
    /// Updated bars
    UpdatedBars,
    /// Quotes
    Quotes,
    /// Trades
    Trades,
    /// News
    News,
}

impl Channel {
    /// The name of the channel on the wire.
    pub open spec fn wire_name(self) -> Seq<char> {
        match self {
            Channel::Bars => "bars"@,
            Channel::DailyBars => "dailyBars"@,
            Channel::UpdatedBars => "updatedBars"@,
            Channel::Quotes => "quotes"@,
            Channel::Trades => "trades"@,
            Channel::News => "news"@,
        }
    }

    /// The name of the channel on the wire.
    pub fn as_str(&self) -> (name: &'static str)
        ensures
            name@ == self.wire_name(),
    {
        match self {
            Channel::Bars => "bars",
            Channel::DailyBars => "dailyBars",
            Channel::UpdatedBars => "updatedBars",
            Channel::Quotes => "quotes",
            Channel::Trades => "trades",
            Channel::News => "news",
        }
    }

    /// No two channels share a name.
    pub proof fn lemma_wire_names_differ(a: Channel, b: Channel)
        ensures
            a.wire_name() == b.wire_name() ==> a == b,
    {
        reveal_strlit("bars");
        reveal_strlit("dailyBars");
        reveal_strlit("updatedBars");
        reveal_strlit("quotes");
        reveal_strlit("trades");
        reveal_strlit("news");
        assert("bars"@.len() == 4);
        assert("dailyBars"@.len() == 9);
        assert("updatedBars"@.len() == 11);
        assert("quotes"@.len() == 6);
        assert("trades"@.len() == 6);
        assert("news"@.len() == 4);
        assert("bars"@[0] == 'b');
        assert("news"@[0] == 'n');
        assert("quotes"@[0] == 'q');
        assert("trades"@[0] == 't');
    }
}

/// The symbols of one channel, in the order in which they are listed.
/// A channel that is absent lists nothing.
pub open spec fn listed(channel: Option<Vec<String>>) -> Seq<Seq<char>> {
    match channel {
        Some(symbols) => symbols.deep_view(),
        None => Seq::empty(),
    }
}

/// What a channel lists once `symbol` has been added to it: the symbol
/// goes to the end, unless the channel lists it already. A channel lists
/// no symbol twice this way.
pub open spec fn listed_with(before: Seq<Seq<char>>, symbol: Seq<char>) -> Seq<Seq<char>> {
    if before.contains(symbol) {
        before
    } else {
        before.push(symbol)
    }
}

/// A subscription set: for each channel, the set of subscribed symbols.
/// Neither the order of the symbols nor a repetition is part of it.
pub ghost struct SubscriptionSet {
    pub bars: Set<Seq<char>>,
    pub daily_bars: Set<Seq<char>>,
    pub updated_bars: Set<Seq<char>>,
    pub quotes: Set<Seq<char>>,
    pub trades: Set<Seq<char>>,
    pub news: Set<Seq<char>>,
}

impl SubscriptionSet {
    /// The set with no symbol on any channel.
    pub open spec fn empty() -> SubscriptionSet {
        SubscriptionSet {
            bars: Set::empty(),
            daily_bars: Set::empty(),
            updated_bars: Set::empty(),
            quotes: Set::empty(),
            trades: Set::empty(),
            news: Set::empty(),
        }
    }

    /// The symbols subscribed on `channel`.
    pub open spec fn symbols(self, channel: Channel) -> Set<Seq<char>> {
        match channel {
            Channel::Bars => self.bars,
            Channel::DailyBars => self.daily_bars,
            Channel::UpdatedBars => self.updated_bars,
            Channel::Quotes => self.quotes,
            Channel::Trades => self.trades,
            Channel::News => self.news,
        }
    }

    /// This set with `symbol` subscribed on `channel` as well.
    pub open spec fn insert(self, channel: Channel, symbol: Seq<char>) -> SubscriptionSet {
        match channel {
            Channel::Bars => SubscriptionSet { bars: self.bars.insert(symbol), ..self },
            Channel::DailyBars => SubscriptionSet {
                daily_bars: self.daily_bars.insert(symbol),
                ..self
            },
            Channel::UpdatedBars => SubscriptionSet {
                updated_bars: self.updated_bars.insert(symbol),
                ..self
            },
            Channel::Quotes => SubscriptionSet { quotes: self.quotes.insert(symbol), ..self },
            Channel::Trades => SubscriptionSet { trades: self.trades.insert(symbol), ..self },
            Channel::News => SubscriptionSet { news: self.news.insert(symbol), ..self },
        }
    }
}

/// Subscribing a symbol on one channel adds it to the symbols of that
/// channel and leaves every other channel as it was.
pub proof fn lemma_insert_touches_one_channel(
    set: SubscriptionSet,
    channel: Channel,
    symbol: Seq<char>,
    other: Channel,
)
    ensures
        set.insert(channel, symbol).symbols(other) == if other == channel {
            set.symbols(other).insert(symbol)
        } else {
            set.symbols(other)
        },
{
}

/// List of subscriptions to market data types available for streaming clients.
///
/// It is both what a subscribe or unsubscribe request carries and what the
/// server sends back as the complete resulting state.
#[derive(Clone, Debug, PartialEq, Eq)]
pub struct SubscriptionList {
    /// List of symbols for minute bars subscriptions
    pub bars: Option<Vec<String>>,
    /// List of symbols for daily bars subscriptions
    pub daily_bars: Option<Vec<String>>,
    /// List of symbols for updated bars subscriptions
    pub updated_bars: Option<Vec<String>>,
    /// List of symbols for quotes subscriptions
    pub quotes: Option<Vec<String>>,
    /// List of symbols for trades subscriptions
    pub trades: Option<Vec<String>>,
    /// List of symbols for news subscriptions
    pub news: Option<Vec<String>>,
}

/// What a subscription list names, channel by channel: the symbols in the
/// order in which they are listed, or nothing where the channel is absent.
pub ghost struct SubscriptionListing {
    pub bars: Option<Seq<Seq<char>>>,
    pub daily_bars: Option<Seq<Seq<char>>>,
    pub updated_bars: Option<Seq<Seq<char>>>,
    pub quotes: Option<Seq<Seq<char>>>,
    pub trades: Option<Seq<Seq<char>>>,
    pub news: Option<Seq<Seq<char>>>,
}

/// The symbols that a channel lists, as a set.
pub open spec fn symbol_set(channel: Option<Seq<Seq<char>>>) -> Set<Seq<char>> {
    match channel {
        Some(symbols) => symbols.to_set(),
        None => Set::empty(),
    }
}

/// A channel as the wire carries it: one that lists nothing is absent.
pub open spec fn trimmed(channel: Option<Seq<Seq<char>>>) -> Option<Seq<Seq<char>>> {
    match channel {
        Some(symbols) => if symbols.len() > 0 {
            channel
        } else {
            None
        },
        None => None,
    }
}

impl SubscriptionListing {
    /// The subscription set that this listing stands for.
    pub open spec fn set(self) -> SubscriptionSet {
        SubscriptionSet {
            bars: symbol_set(self.bars),
            daily_bars: symbol_set(self.daily_bars),
            updated_bars: symbol_set(self.updated_bars),
            quotes: symbol_set(self.quotes),
            trades: symbol_set(self.trades),
            news: symbol_set(self.news),
        }
    }

    /// This listing as the wire carries it: without the channels that
    /// list nothing.
    pub open spec fn trimmed(self) -> SubscriptionListing {
        SubscriptionListing {
            bars: trimmed(self.bars),
            daily_bars: trimmed(self.daily_bars),
            updated_bars: trimmed(self.updated_bars),
            quotes: trimmed(self.quotes),
            trades: trimmed(self.trades),
            news: trimmed(self.news),
        }
    }

    /// Dropping the channels that list nothing changes nothing of what is
    /// subscribed.
    pub proof fn lemma_trimmed_is_same_set(self)
        ensures
            self.trimmed().set() == self.set(),
    {
        lemma_trimmed_channel(self.bars);
        lemma_trimmed_channel(self.daily_bars);
        lemma_trimmed_channel(self.updated_bars);
        lemma_trimmed_channel(self.quotes);
        lemma_trimmed_channel(self.trades);
        lemma_trimmed_channel(self.news);
    }
}

/// A channel that lists nothing subscribes nothing.
proof fn lemma_trimmed_channel(channel: Option<Seq<Seq<char>>>)
    ensures
        symbol_set(trimmed(channel)) == symbol_set(channel),
{
    if let Some(symbols) = channel {
        if symbols.len() == 0 {
            assert(symbols.to_set() =~= Set::<Seq<char>>::empty());
        }
    }
}

/// The subscription set of a list is that of its listing.
pub proof fn lemma_view_is_set_of_listing(list: SubscriptionList)
    ensures
        list@ == list.deep_view().set(),
{
    assert(Seq::<Seq<char>>::empty().to_set() =~= Set::<Seq<char>>::empty());
}

impl DeepView for SubscriptionList {
    type V = SubscriptionListing;

    open spec fn deep_view(&self) -> SubscriptionListing {
        SubscriptionListing {
            bars: self.bars.deep_view(),
            daily_bars: self.daily_bars.deep_view(),
            updated_bars: self.updated_bars.deep_view(),
            quotes: self.quotes.deep_view(),
            trades: self.trades.deep_view(),
            news: self.news.deep_view(),
        }
    }
}

impl View for SubscriptionList {
    type V = SubscriptionSet;

    open spec fn view(&self) -> SubscriptionSet {
        SubscriptionSet {
            bars: listed(self.bars).to_set(),
            daily_bars: listed(self.daily_bars).to_set(),
            updated_bars: listed(self.updated_bars).to_set(),
            quotes: listed(self.quotes).to_set(),
            trades: listed(self.trades).to_set(),
            news: listed(self.news).to_set(),
        }
    }
}

impl SubscriptionList {
    /// The list that names nothing: every channel is absent.
    pub open spec fn nothing() -> SubscriptionList {
        SubscriptionList {
            bars: None,
            daily_bars: None,
            updated_bars: None,
            quotes: None,
            trades: None,
            news: None,
        }
    }

    /// A copy of this list: the same symbols in the same order on every
    /// channel.
    pub fn duplicate(&self) -> (copy: Self)
        ensures
            copy.deep_view() == self.deep_view(),
    {
        SubscriptionList {
            bars: copy_channel(&self.bars),
            daily_bars: copy_channel(&self.daily_bars),
            updated_bars: copy_channel(&self.updated_bars),
            quotes: copy_channel(&self.quotes),
            trades: copy_channel(&self.trades),
            news: copy_channel(&self.news),
        }
    }

    /// Create a new SubscriptionList
    pub fn new() -> (list: Self)
        ensures
            list == SubscriptionList::nothing(),
            list@ == SubscriptionSet::empty(),
    {
        let list = SubscriptionList {
            bars: None,
            daily_bars: None,
            updated_bars: None,
            quotes: None,
            trades: None,
            news: None,
        };
        proof {
            assert(Seq::<Seq<char>>::empty().to_set() =~= Set::<Seq<char>>::empty());
        }
        list
    }

    /// Add a symbol to the minute bars subscription list, unless it is
    /// listed there already.
    pub fn add_minute_bars(self, symbol: &str) -> (list: Self)
        ensures
            list.bars is Some,
            listed(list.bars) == listed_with(listed(self.bars), symbol@),
            list.daily_bars == self.daily_bars,
            list.updated_bars == self.updated_bars,
            list.quotes == self.quotes,
            list.trades == self.trades,
            list.news == self.news,
            list@ == self@.insert(Channel::Bars, symbol@),
    {
        let SubscriptionList { bars, daily_bars, updated_bars, quotes, trades, news } = self;
        let bars = add_symbol(bars, symbol);
        SubscriptionList { bars: Some(bars), daily_bars, updated_bars, quotes, trades, news }
    }

    /// Add a symbol to the minute bars subscription list, unless it is
    /// listed there already: [`Self::add_minute_bars`] under its other name.
    pub fn add_bars(self, symbol: &str) -> (list: Self)
        ensures
            list.bars is Some,
            listed(list.bars) == listed_with(listed(self.bars), symbol@),
            list.daily_bars == self.daily_bars,
            list.updated_bars == self.updated_bars,
            list.quotes == self.quotes,
            list.trades == self.trades,
            list.news == self.news,
            list@ == self@.insert(Channel::Bars, symbol@),
    {
        let SubscriptionList { bars, daily_bars, updated_bars, quotes, trades, news } = self;
        let bars = add_symbol(bars, symbol);
        SubscriptionList { bars: Some(bars), daily_bars, updated_bars, quotes, trades, news }
    }

    /// Add a symbol to the daily bars subscription list, unless it is
    /// listed there already.
    pub fn add_daily_bars(self, symbol: &str) -> (list: Self)
        ensures
            list.daily_bars is Some,
            listed(list.daily_bars) == listed_with(listed(self.daily_bars), symbol@),
            list.bars == self.bars,
            list.updated_bars == self.updated_bars,
            list.quotes == self.quotes,
            list.trades == self.trades,
            list.news == self.news,
            list@ == self@.insert(Channel::DailyBars, symbol@),
    {
        let SubscriptionList { bars, daily_bars, updated_bars, quotes, trades, news } = self;
        let daily_bars = add_symbol(daily_bars, symbol);
        SubscriptionList { bars, daily_bars: Some(daily_bars), updated_bars, quotes, trades, news }
    }

    /// Add a symbol to the updated bars subscription list, unless it is
    /// listed there already.
    pub fn add_updated_bars(self, symbol: &str) -> (list: Self)
        ensures
            list.updated_bars is Some,
            listed(list.updated_bars) == listed_with(listed(self.updated_bars), symbol@),
            list.bars == self.bars,
            list.daily_bars == self.daily_bars,
            list.quotes == self.quotes,
            list.trades == self.trades,
            list.news == self.news,
            list@ == self@.insert(Channel::UpdatedBars, symbol@),
    {
        let SubscriptionList { bars, daily_bars, updated_bars, quotes, trades, news } = self;
        let updated_bars = add_symbol(updated_bars, symbol);
        SubscriptionList { bars, daily_bars, updated_bars: Some(updated_bars), quotes, trades, news }
    }

    /// Add a symbol to the quotes subscription list, unless it is listed
    /// there already.
    pub fn add_quotes(self, symbol: &str) -> (list: Self)
        ensures
            list.quotes is Some,
            listed(list.quotes) == listed_with(listed(self.quotes), symbol@),
            list.bars == self.bars,
            list.daily_bars == self.daily_bars,
            list.updated_bars == self.updated_bars,
            list.trades == self.trades,
            list.news == self.news,
            list@ == self@.insert(Channel::Quotes, symbol@),
    {
        let SubscriptionList { bars, daily_bars, updated_bars, quotes, trades, news } = self;
        let quotes = add_symbol(quotes, symbol);
        SubscriptionList { bars, daily_bars, updated_bars, quotes: Some(quotes), trades, news }
    }

    /// Add a symbol to the trades subscription list, unless it is listed
    /// there already.
    pub fn add_trades(self, symbol: &str) -> (list: Self)
        ensures
            list.trades is Some,
            listed(list.trades) == listed_with(listed(self.trades), symbol@),
            list.bars == self.bars,
            list.daily_bars == self.daily_bars,
            list.updated_bars == self.updated_bars,
            list.quotes == self.quotes,
            list.news == self.news,
            list@ == self@.insert(Channel::Trades, symbol@),
    {
        let SubscriptionList { bars, daily_bars, updated_bars, quotes, trades, news } = self;
        let trades = add_symbol(trades, symbol);
        SubscriptionList { bars, daily_bars, updated_bars, quotes, trades: Some(trades), news }
    }

    /// Add a symbol to the news subscription list, unless it is listed
    /// there already.
    pub fn add_news(self, symbol: &str) -> (list: Self)
        ensures
            list.news is Some,
            listed(list.news) == listed_with(listed(self.news), symbol@),
            list.bars == self.bars,
            list.daily_bars == self.daily_bars,
            list.updated_bars == self.updated_bars,
            list.quotes == self.quotes,
            list.trades == self.trades,
            list@ == self@.insert(Channel::News, symbol@),
    {
        let SubscriptionList { bars, daily_bars, updated_bars, quotes, trades, news } = self;
        let news = add_symbol(news, symbol);
        SubscriptionList { bars, daily_bars, updated_bars, quotes, trades, news: Some(news) }
    }
}

impl Default for SubscriptionList {
    fn default() -> (list: Self)
        ensures
            list == SubscriptionList::nothing(),
            list@ == SubscriptionSet::empty(),
    {
        SubscriptionList::new()
    }
}

/// A copy of the symbols of one channel.
fn copy_channel(channel: &Option<Vec<String>>) -> (copy: Option<Vec<String>>)
    ensures
        copy.deep_view() == channel.deep_view(),
{
    match channel {
        None => None,
        Some(symbols) => {
            let mut copy: Vec<String> = Vec::new();
            let mut i: usize = 0;
            while i < symbols.len()
                invariant
                    i <= symbols.len(),
                    copy.len() == i,
                    forall|k: int| 0 <= k < i ==> copy[k]@ == symbols[k]@,
                decreases symbols.len() - i,
            {
                copy.push(symbols[i].clone());
                i += 1;
            }
            assert(copy.deep_view() =~= symbols.deep_view());
            Some(copy)
        },
    }
}

/// Whether `symbol` is among `symbols`.
pub fn lists_symbol(symbols: &Vec<String>, symbol: &str) -> (found: bool)
    ensures
        found == symbols.deep_view().contains(symbol@),
{
    let mut i: usize = 0;
    while i < symbols.len()
        invariant
            i <= symbols.len(),
            forall|k: int| 0 <= k < i ==> symbols.deep_view()[k] != symbol@,
        decreases symbols.len() - i,
    {
        if str_eq(symbols[i].as_str(), symbol) {
            assert(symbols.deep_view()[i as int] == symbol@);
            return true;
        }
        i += 1;
    }
    false
}

/// The symbols of a channel with `symbol` added: at the end, or not at all
/// where the channel lists it already.
fn add_symbol(channel: Option<Vec<String>>, symbol: &str) -> (symbols: Vec<String>)
    ensures
        symbols.deep_view() == listed_with(listed(channel), symbol@),
        symbols.deep_view().to_set() == listed(channel).to_set().insert(symbol@),
{
    let mut symbols = match channel {
        Some(symbols) => symbols,
        None => Vec::new(),
    };
    let ghost before = symbols.deep_view();
    assert(before =~= listed(channel));
    if lists_symbol(&symbols, symbol) {
        assert(before.to_set() =~= before.to_set().insert(symbol@));
    } else {
        symbols.push(symbol.to_owned());
        assert(symbols.deep_view() =~= before.push(symbol@));
        proof {
            before.lemma_push_to_set_commute(symbol@);
        }
    }
    symbols
}

/// Adding symbols one by one never lists a symbol twice.
pub proof fn lemma_listed_with_keeps_unique(before: Seq<Seq<char>>, symbol: Seq<char>)
    requires
        before.no_duplicates(),
    ensures
        listed_with(before, symbol).no_duplicates(),
        listed_with(before, symbol).contains(symbol),
        listed_with(listed_with(before, symbol), symbol) == listed_with(before, symbol),
{
    let after = listed_with(before, symbol);
    if before.contains(symbol) {
    } else {
        assert(after[before.len() as int] == symbol);
        assert forall|i: int, j: int| 0 <= i < after.len() && 0 <= j < after.len() && i != j
            implies after[i] != after[j] by {
            if i < before.len() && j < before.len() {
            } else if i == before.len() {
                if after[j] == symbol {
                    assert(before[j] == symbol);
                    assert(before.contains(symbol));
                }
            } else {
                if after[i] == symbol {
                    assert(before[i] == symbol);
                    assert(before.contains(symbol));
                }
            }
        }
    }
}

} // verus!
