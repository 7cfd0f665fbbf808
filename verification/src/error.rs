use vstd::prelude::*;

verus! {

/// Why an update request was rejected. Every failing call returns exactly one
/// of these, named after the first check (in evaluation order) that failed.
#[derive(Clone, Copy, Debug, PartialEq, Eq, Structural)]
pub enum UpdateError {
    /// The market is not in the `Suspended` state.
    MarketInInvalidState,
    /// The market has an end date and the current time is past it.
    MarketIsEnded,
    /// The market's `mutable` flag is false.
    MarketIsImmutable,
    /// The requested name is longer than `NAME_MAX_LEN`.
    NameIsTooLong,
    /// The requested description is longer than `DESCRIPTION_MAX_LEN`.
    DescriptionIsTooLong,
    /// The requested price is zero.
    PriceIsZero,
}

} // verus!
