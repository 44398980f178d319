//! The decision logic of a time-zone selector widget: the span of a base
//! day seen from another time zone, the clock labels shown for it, the
//! midday position of the daylight band, the text of the time picked on
//! the slider, and the widget's message handling as a state machine.

pub mod catalogue;
pub mod civil;
pub mod tzdb;
pub mod range;
pub mod clock;
pub mod search;
pub mod selector;
