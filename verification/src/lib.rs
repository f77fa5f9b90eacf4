//! Client-side protocol engine for a persistent, message-oriented connection
//! to a Screeps game server.
//!
//! The crate frames and unframes the SockJS-style text transport, manages
//! authentication and its automatic recovery, and exposes a typed
//! channel-subscription addressing scheme.  The underlying transport and the
//! HTTP request plumbing are consumed by callers, not reimplemented here.

pub mod channels;
pub mod error;
pub mod login;
pub mod parsing;
pub mod recent_pvp;
pub mod retry;
pub mod sender;
pub mod session;
pub mod template;
pub mod token;

pub use channels::Channel;
pub use error::{ApiError, Error};
pub use login::{LoggedIn, LoginArgs};
pub use parsing::{ParsedMessage, ParsedResult};
pub use recent_pvp::{RecentPvp, RecentPvpArgs, ShardRecentPvp};
pub use retry::{FailState, RetryScheduler};
pub use sender::{Sender, TimerRequest};
pub use session::{FnHandler, Handler, Session};
pub use template::CallInfo;
pub use token::{Token, TokenStorage};
