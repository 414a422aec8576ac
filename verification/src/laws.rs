//! Laws of the book, stated over its mathematical model and proved once for
//! all inputs.

use vstd::prelude::*;

use crate::book::{imbalance_of, BookState, Quote};
use crate::ratio::Fraction;

verus! {

/// A book that is constructed and then updated once holds exactly the quote
/// it was given, under the symbol it was constructed with.
pub proof fn lemma_update_reads_back(symbol: Seq<char>, q: Quote)
    ensures
        BookState::new(symbol).apply(q).bid == q.bid,
        BookState::new(symbol).apply(q).ask == q.ask,
        BookState::new(symbol).apply(q).bid_size == q.bid_size,
        BookState::new(symbol).apply(q).ask_size == q.ask_size,
        BookState::new(symbol).apply(q).symbol == symbol,
{
}

/// An update overwrites the whole quote: what the book held before has no
/// influence on what it holds afterwards, apart from the symbol.
pub proof fn lemma_update_forgets(a: BookState, b: BookState, q: Quote)
    requires
        a.symbol == b.symbol,
    ensures
        a.apply(q) == b.apply(q),
{
}

/// Applying the same quote twice gives the same state as applying it once, so
/// every metric derived from the state is the same after each of the two
/// updates.
pub proof fn lemma_update_idempotent(book: BookState, q: Quote)
    ensures
        book.apply(q).apply(q) == book.apply(q),
        book.apply(q).apply(q).imbalance() == book.apply(q).imbalance(),
{
}

/// No sequence of updates, however long, changes the symbol.
pub proof fn lemma_symbol_is_kept(book: BookState, quotes: Seq<Quote>)
    ensures
        book.apply_all(quotes).symbol == book.symbol,
    decreases quotes.len(),
{
    if quotes.len() > 0 {
        lemma_symbol_is_kept(book, quotes.drop_last());
    }
}

/// The symbol read from a book is the one given at construction, whatever
/// updates came in between.
pub proof fn lemma_symbol_from_construction(symbol: Seq<char>, quotes: Seq<Quote>)
    ensures
        BookState::new(symbol).apply_all(quotes).symbol == symbol,
{
    lemma_symbol_is_kept(BookState::new(symbol), quotes);
}

/// Without liquidity the imbalance is exactly zero, whatever the prices are
/// and whatever the book held before. This covers two empty sides as well as
/// two sizes that cancel.
pub proof fn lemma_no_liquidity_is_neutral(book: BookState, q: Quote)
    requires
        q.bid_size + q.ask_size == 0,
    ensures
        book.apply(q).imbalance() == Fraction::zero(),
{
}

/// The imbalance never has a zero denominator.
pub proof fn lemma_imbalance_is_defined(bid_size: int, ask_size: int)
    ensures
        imbalance_of(bid_size, ask_size).wf(),
{
}

/// Swapping the two sides negates the imbalance.
pub proof fn lemma_imbalance_antisymmetric(bid_size: int, ask_size: int)
    ensures
        imbalance_of(bid_size, ask_size) == imbalance_of(ask_size, bid_size).neg(),
{
}

/// With sizes that are not negative the imbalance lies in `[-1, 1]`.
pub proof fn lemma_imbalance_within_unit(bid_size: int, ask_size: int)
    requires
        bid_size >= 0,
        ask_size >= 0,
    ensures
        imbalance_of(bid_size, ask_size).within_unit(),
{
}

/// The imbalance is `1` exactly when only the bid side has size, and `-1`
/// exactly when only the ask side has.
pub proof fn lemma_imbalance_extremes(bid_size: int, ask_size: int)
    requires
        bid_size + ask_size != 0,
    ensures
        imbalance_of(bid_size, ask_size).num == imbalance_of(bid_size, ask_size).den
            <==> ask_size == 0,
        imbalance_of(bid_size, ask_size).num == -imbalance_of(bid_size, ask_size).den
            <==> bid_size == 0,
{
}

} // verus!
