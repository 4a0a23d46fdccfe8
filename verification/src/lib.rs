//! The lifecycle and validation layer of an animated-GIF encoding session.
//!
//! An encoding engine turns RGBA frames into a GIF file. It trusts its caller
//! completely: a call out of order, a frame buffer of the wrong size or a
//! reused frame index corrupts memory or silently loses data. This crate holds
//! the rules that keep a caller inside the engine's contract, and proves them.
//!
//! The crate performs no engine call itself. A [`session::Session`] decides;
//! a driver around it acts. For every operation the session first says what
//! is to be handed to the engine (`request_output`, `request_frame`,
//! `request_finish`), or refuses. The driver makes that one call and reports
//! the engine's status code back (`set_output`, `add_frame`, `finish`), and the
//! session moves on or surfaces the failure.
//!
//! Every operation of a session is specified against [`model::SessionView`],
//! the mathematical state of a session: its settings, its phase, the
//! destination the engine was given and the frames the engine has accepted so
//! far. What holds of all sessions is proved in [`laws`].

pub mod destination;
pub mod error;
pub mod laws;
pub mod model;
pub mod session;
pub mod settings;
pub mod timestamp;
