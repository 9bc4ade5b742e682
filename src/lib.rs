//! Two small evaluation fixtures: projecting an element out of a filled
//! array, and taking the value out of a `Result` whose error type is
//! uninhabited.
pub mod mk_and_proj;
pub mod never;
