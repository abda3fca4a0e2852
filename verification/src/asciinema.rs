//! Terminal session recording in the asciicast format: recorded events, the
//! terminal they came from, and the timing rules applied when they are recorded
//! and played back.
pub mod tty;
pub mod asciicast;
pub mod session;
