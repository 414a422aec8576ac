//! Level-one order book state for a single instrument, with the metrics
//! derived from it.
//!
//! Prices are carried as IEEE 754 binary64 bit patterns and sizes as signed
//! integers. Everything here is integer logic: the book stores what it is
//! given, verbatim, and derives the size imbalance as an exact [`Ratio`].

pub mod book;
pub mod laws;
pub mod ratio;

pub use book::{imbalance_of, BookState, OrderBook, Quote};
pub use ratio::{Fraction, Ratio};
