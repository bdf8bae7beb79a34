//! Reporting of build outcomes to the configured destinations.

pub mod status;
pub mod telegram;

pub use self::status::Status;

use vstd::prelude::*;

use self::telegram::{addressed, endpoint, rendered, SendMessage, Telegram};
use crate::runner::Task;

verus! {

/// The outcome of one task, to be reported.
#[derive(Debug, PartialEq, Eq)]
pub struct Notification {
    pub task: Task,
    pub status: Status,
}

/// Where outcomes are reported to. Both the token and the chats are needed
/// for any report to be sent.
pub struct Config {
    pub telegram_token: Option<String>,
    pub telegram_groups: Option<Vec<i64>>,
}

/// Reports outcomes to the destinations it was configured with, if any.
pub struct Notifier {
    telegram: Option<Telegram>,
}

impl Notifier {
    /// The chats that reports go to; `None` if reporting is switched off.
    pub closed spec fn chats(&self) -> Option<Seq<i64>> {
        match self.telegram {
            Some(telegram) => Some(telegram.destinations()),
            None => None,
        }
    }

    /// The address that reports are posted to; `None` if reporting is
    /// switched off.
    pub closed spec fn address(&self) -> Option<Seq<char>> {
        match self.telegram {
            Some(telegram) => Some(telegram.address()),
            None => None,
        }
    }

    /// A notifier for `config`: it reports to the configured chats if both a
    /// token and chats are configured, and nowhere otherwise.
    pub fn new(config: Config) -> (notifier: Notifier)
        ensures
            match (config.telegram_token, config.telegram_groups) {
                (Some(token), Some(groups)) => notifier.chats() == Some(groups@)
                    && notifier.address() == Some(endpoint(token@)),
                _ => notifier.chats() is None && notifier.address() is None,
            },
    {
        let Config { telegram_token, telegram_groups } = config;
        let telegram = match telegram_token {
            Some(token) => match telegram_groups {
                Some(groups) => Some(Telegram::new(token.as_str(), groups)),
                None => None,
            },
            None => None,
        };
        Notifier { telegram }
    }

    /// The destinations, as they may be shown: the chats, without the
    /// address that holds the token.
    pub fn destinations(&self) -> (chats: Option<&Vec<i64>>)
        ensures
            match chats {
                Some(chats) => self.chats() == Some(chats@),
                None => self.chats() is None,
            },
    {
        match &self.telegram {
            Some(telegram) => Some(telegram.chats()),
            None => None,
        }
    }

    /// The address to post reports to, if reporting is switched on.
    pub fn url(&self) -> (url: Option<&str>)
        ensures
            match url {
                Some(url) => self.address() == Some(url@),
                None => self.address() is None,
            },
    {
        match &self.telegram {
            Some(telegram) => Some(telegram.url()),
            None => None,
        }
    }

    /// The messages that report `msg`: one to each configured chat, and
    /// none if reporting is switched off.
    pub fn handle(&self, msg: &Notification) -> (messages: Vec<SendMessage>)
        ensures
            match self.chats() {
                Some(chats) => addressed(messages@, chats, rendered(msg.task@, msg.status.detail_text())),
                None => messages@.len() == 0,
            },
    {
        match &self.telegram {
            Some(telegram) => telegram.notify(&msg.task, &msg.status),
            None => Vec::new(),
        }
    }
}

} // verus!
