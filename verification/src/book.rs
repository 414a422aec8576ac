//! The level-one book of one instrument: the best bid and ask, and the size
//! resting at each.

use vstd::prelude::*;

use crate::ratio::{Fraction, Ratio};

verus! {

/// The mathematical model of an [`OrderBook`]: one quote snapshot together
/// with the instrument it belongs to.
///
/// Prices are IEEE 754 binary64 bit patterns and are never interpreted here.
/// Sizes are unbounded integers; nothing constrains their sign.
pub struct BookState {
    pub symbol: Seq<char>,
    pub bid: u64,
    pub ask: u64,
    pub bid_size: int,
    pub ask_size: int,
}

/// One quote event: the arguments of a single update.
pub struct Quote {
    pub bid: u64,
    pub ask: u64,
    pub bid_size: int,
    pub ask_size: int,
}

/// The size imbalance `(bid_size - ask_size) / (bid_size + ask_size)`.
///
/// When the two sizes sum to zero there is nothing to divide by, and the
/// imbalance is defined to be the canonical zero instead.
pub open spec fn imbalance_of(bid_size: int, ask_size: int) -> Fraction {
    if bid_size + ask_size == 0 {
        Fraction::zero()
    } else {
        Fraction { num: bid_size - ask_size, den: bid_size + ask_size }
    }
}

impl BookState {
    /// The state of a freshly constructed book: both prices are positive zero
    /// (the all-zero bit pattern) and both sizes are zero.
    pub open spec fn new(symbol: Seq<char>) -> BookState {
        BookState { symbol, bid: 0, ask: 0, bid_size: 0, ask_size: 0 }
    }

    /// The state after a quote: all four numeric fields are replaced, the
    /// symbol is kept.
    pub open spec fn update(self, bid: u64, ask: u64, bid_size: int, ask_size: int) -> BookState {
        BookState { symbol: self.symbol, bid, ask, bid_size, ask_size }
    }

    /// The size imbalance of this snapshot.
    pub open spec fn imbalance(self) -> Fraction {
        imbalance_of(self.bid_size, self.ask_size)
    }

    /// The state after the quote `q`.
    pub open spec fn apply(self, q: Quote) -> BookState {
        self.update(q.bid, q.ask, q.bid_size, q.ask_size)
    }

    /// The state after every quote of `quotes`, applied first to last.
    pub open spec fn apply_all(self, quotes: Seq<Quote>) -> BookState
        decreases quotes.len(),
    {
        if quotes.len() == 0 {
            self
        } else {
            self.apply_all(quotes.drop_last()).apply(quotes.last())
        }
    }
}

/// Best bid and ask of a single instrument.
///
/// The book records every quote exactly as given: crossed markets, negative
/// sizes and non-finite prices are all stored without complaint.
pub struct OrderBook {
    symbol: String,
    bid: u64,
    ask: u64,
    bid_size: i64,
    ask_size: i64,
}

impl View for OrderBook {
    type V = BookState;

    closed spec fn view(&self) -> BookState {
        BookState {
            symbol: self.symbol@,
            bid: self.bid,
            ask: self.ask,
            bid_size: self.bid_size as int,
            ask_size: self.ask_size as int,
        }
    }
}

impl OrderBook {
    /// An empty book for `symbol`. The symbol is stored verbatim; the empty
    /// string is a valid symbol.
    pub fn new(symbol: String) -> (book: Self)
        ensures
            book@ == BookState::new(symbol@),
    {
        OrderBook { symbol, bid: 0, ask: 0, bid_size: 0, ask_size: 0 }
    }

    /// Replaces the quote. `bid` and `ask` are binary64 bit patterns. Nothing
    /// is validated and nothing is rejected.
    pub fn update(&mut self, bid: u64, ask: u64, bid_size: i64, ask_size: i64)
        ensures
            final(self)@ == old(self)@.update(bid, ask, bid_size as int, ask_size as int),
    {
        self.bid = bid;
        self.ask = ask;
        self.bid_size = bid_size;
        self.ask_size = ask_size;
    }

    /// The size imbalance as an exact quotient, with a denominator that is
    /// never zero. A book whose sizes sum to zero is neutral: the result is
    /// `0 / 1`, and no division by that sum is ever set up.
    pub fn get_imbalance(&self) -> (r: Ratio)
        ensures
            r@ == self@.imbalance(),
            r@.wf(),
    {
        let total: i128 = self.bid_size as i128 + self.ask_size as i128;
        if total == 0 {
            return Ratio { num: 0, den: 1 };
        }
        Ratio { num: self.bid_size as i128 - self.ask_size as i128, den: total }
    }

    /// The instrument this book was constructed for.
    pub fn symbol(&self) -> (s: &str)
        ensures
            s@ == self@.symbol,
    {
        self.symbol.as_str()
    }

    /// The bit pattern of the best bid price.
    pub fn bid(&self) -> (bits: u64)
        ensures
            bits == self@.bid,
    {
        self.bid
    }

    /// The bit pattern of the best ask price.
    pub fn ask(&self) -> (bits: u64)
        ensures
            bits == self@.ask,
    {
        self.ask
    }

    /// The size resting at the best bid.
    pub fn bid_size(&self) -> (size: i64)
        ensures
            size == self@.bid_size,
    {
        self.bid_size
    }

    /// The size resting at the best ask.
    pub fn ask_size(&self) -> (size: i64)
        ensures
            size == self@.ask_size,
    {
        self.ask_size
    }
}

} // verus!
