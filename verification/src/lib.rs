//! A countdown timer for the terminal, as a verified state machine.
//!
//! The timer measures elapsed time on a monotonic clock, leaves out the time
//! spent paused, and maps its state to the text and geometry of one frame.
//!
//! - `model`: the state of a countdown and its queries, as mathematics.
//! - `countdown`: the same state machine in executable form, over explicit
//!   clock readings.
//! - `timer`: a countdown bound to the system's monotonic clock (`clock`).
//! - `progress`, `text`: the completed share as a fraction, and decimal text.
//! - `frame`, `session`: the layout of one frame and the decisions of the
//!   render loop.
//! - `startup`: validation of the command line.
//! - `lemmas`: what holds of every countdown.

pub mod clock;
pub mod countdown;
pub mod frame;
pub mod lemmas;
pub mod model;
pub mod progress;
pub mod session;
pub mod startup;
pub mod text;
pub mod timer;
