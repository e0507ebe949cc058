//! The core of a small desktop status bar: a poller that, tick after tick, turns
//! clock readings and answers of the media session service into snapshots, and the
//! texts a presenter shows for each snapshot.

pub mod background;
pub mod channel;
pub mod clock;
pub mod history;
pub mod media;
pub mod presenter;
pub mod types;
