//! The text frames sent to a connected client.

use vstd::prelude::*;
use vstd::string::StringExecFns;

verus! {

/// One push message.
pub enum Message {
    /// Acknowledges a new connection.
    Connected,
    /// A keepalive probe.
    Ping,
    /// Asks the client to reload after the file at this path changed.
    Reload(String),
}

pub open spec fn message_text(m: Message) -> Seq<char> {
    match m {
        Message::Connected => "connected"@,
        Message::Ping => "ping"@,
        Message::Reload(path) => "reload:"@ + path@,
    }
}

impl Message {
    /// The frame's text: `connected`, `ping` or `reload:` followed by the path.
    pub fn text(&self) -> (r: String)
        ensures
            r@ == message_text(*self),
    {
        match self {
            Message::Connected => String::from_str("connected"),
            Message::Ping => String::from_str("ping"),
            Message::Reload(path) => {
                let mut s = String::from_str("reload:");
                s.append(path.as_str());
                s
            },
        }
    }
}

/// Relies on rand::random, which draws a value from the thread-local
/// generator; nothing is known of the value drawn.
pub assume_specification<T>[ rand::random::<T> ]() -> (r: T)
    where
        rand::distributions::Standard: rand::distributions::Distribution<T>,
;

/// Draws the random byte that decides whether a poll sends a keepalive ping.
pub fn draw_keepalive_roll() -> (r: u8) {
    rand::random::<u8>()
}

} // verus!
