//! Progress of an instant through a bounded time interval, as an exactly
//! rounded decimal fraction.

pub mod rounding;
pub mod time_point;
pub mod window;
pub mod day_left;
