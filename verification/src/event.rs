//! The abstract event alphabet of the interactive loop: a decoded input, or a
//! periodic tick. The channel that produces these lives with the event
//! source, outside the library.

use vstd::prelude::*;

verus! {

/// One delivered event.
pub enum Event<I> {
    Input(I),
    Tick,
}

} // verus!
