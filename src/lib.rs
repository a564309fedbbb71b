//! A toolbar for a canvas drawing application: which boxes it shows, in what
//! order, how each is styled, and what a click on each asks of the drawing.
//! The page itself is built by the host, which follows this plan.

pub mod layout;
pub mod style;
