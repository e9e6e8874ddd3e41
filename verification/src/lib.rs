//! The part of an input method that keeps committed text, picks the latest
//! sentence out of it, and has the translation of that sentence read out.
//!
//! - [`text`] and [`sentence`]: characters and sentences of running text;
//! - [`history`]: the committed text of a session;
//! - [`key`]: key combinations and the keys the system reserves for them;
//! - [`frame`]: what the candidate window shows;
//! - [`speech`]: what the router and the speech thread say to each other;
//! - [`router`]: the course of a reading, from the key press to the last receipt;
//! - [`tts`] and [`voice`]: the steps of the speech thread and its search for a voice.

pub mod frame;
pub mod history;
pub mod key;
pub mod router;
pub mod sentence;
pub mod speech;
pub mod text;
pub mod tts;
pub mod voice;

pub use history::InputHistory;
pub use key::{KeyCombo, KeyEvent};
pub use router::{Router, RouterConfig};
pub use sentence::last_sentence;
pub use speech::{Language, SpeechCommand, SpeechNotice};
