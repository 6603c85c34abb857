//! Decision core of a cooperative, single-threaded event loop that keeps a
//! clickable control responsive while long-running work executes.
//!
//! The modules model the parts that carry coordination semantics: a
//! cooperative timer, a one-directional notification channel, and a session
//! that ties a control to one of four activation strategies.
pub mod channel;
pub mod session;
pub mod timer;

pub use channel::{ChannelClosed, NotificationChannel};
pub use session::{Activation, Session, Strategy, DEMO_WORK_SECONDS};
pub use timer::{CooperativeTimer, TimerState};
