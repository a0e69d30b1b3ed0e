//! The settings of a run, as the command line or the environment gave
//! them.

use vstd::prelude::*;
use vstd::string::StringExecFns;

verus! {

/// The settings of a run. A setting that was not given is `None`.
#[derive(Debug, Clone)]
pub struct Args {
    /// The id of the API key.
    pub secret_id: Option<String>,
    /// The secret of the API key.
    pub secret_key: Option<String>,
    /// Where the certificate is read from.
    pub public_key_file_path: Option<String>,
    /// Where the private key of the certificate is read from.
    pub private_key_file_path: Option<String>,
    /// The instances that the certificate is deployed to.
    pub instance_id_list: Option<Vec<String>>,
    /// Whether the international site is called.
    pub intl: Option<bool>,
    /// The token of the Telegram bot that reports the outcome.
    pub tg_bot_token: Option<String>,
    /// The Telegram chat that the report goes to.
    pub tg_chat_id: Option<i64>,
    /// The topic of that chat.
    pub tg_topic_id: Option<i64>,
}

/// Where the outcome of a run is reported: a Telegram bot, a chat, and a
/// topic of that chat.
#[derive(Debug, Clone, PartialEq, Eq)]
pub struct NotificationTarget {
    pub bot_token: String,
    pub chat_id: i64,
    pub topic_id: i64,
}

/// The first of two values that is given.
pub open spec fn first_given<T>(first: Option<T>, second: Option<T>) -> Option<T> {
    if first is Some {
        first
    } else {
        second
    }
}

fn first_of<T>(first: Option<T>, second: Option<T>) -> (r: Option<T>)
    ensures
        r == first_given(first, second),
{
    match first {
        Some(value) => Some(value),
        None => second,
    }
}

/// The host of the certificate service: the international site or the
/// domestic one.
pub open spec fn api_host(intl: bool) -> Seq<char> {
    if intl {
        "ssl.intl.tencentcloudapi.com"@
    } else {
        "ssl.tencentcloudapi.com"@
    }
}

impl Args {
    /// These settings, and for each one that is missing here the one of
    /// `fallback`: what the command line gives comes before what the
    /// environment gives.
    pub fn or(self, fallback: Args) -> (merged: Args)
        ensures
            merged.secret_id == first_given(self.secret_id, fallback.secret_id),
            merged.secret_key == first_given(self.secret_key, fallback.secret_key),
            merged.public_key_file_path == first_given(
                self.public_key_file_path,
                fallback.public_key_file_path,
            ),
            merged.private_key_file_path == first_given(
                self.private_key_file_path,
                fallback.private_key_file_path,
            ),
            merged.instance_id_list == first_given(
                self.instance_id_list,
                fallback.instance_id_list,
            ),
            merged.intl == first_given(self.intl, fallback.intl),
            merged.tg_bot_token == first_given(self.tg_bot_token, fallback.tg_bot_token),
            merged.tg_chat_id == first_given(self.tg_chat_id, fallback.tg_chat_id),
            merged.tg_topic_id == first_given(self.tg_topic_id, fallback.tg_topic_id),
    {
        Args {
            secret_id: first_of(self.secret_id, fallback.secret_id),
            secret_key: first_of(self.secret_key, fallback.secret_key),
            public_key_file_path: first_of(
                self.public_key_file_path,
                fallback.public_key_file_path,
            ),
            private_key_file_path: first_of(
                self.private_key_file_path,
                fallback.private_key_file_path,
            ),
            instance_id_list: first_of(self.instance_id_list, fallback.instance_id_list),
            intl: first_of(self.intl, fallback.intl),
            tg_bot_token: first_of(self.tg_bot_token, fallback.tg_bot_token),
            tg_chat_id: first_of(self.tg_chat_id, fallback.tg_chat_id),
            tg_topic_id: first_of(self.tg_topic_id, fallback.tg_topic_id),
        }
    }

    /// Where the outcome is reported: nowhere unless both the bot and the
    /// chat are given; the topic is 0 unless one is given.
    pub fn notification_target(&self) -> (target: Option<NotificationTarget>)
        ensures
            target is Some <==> self.tg_bot_token is Some && self.tg_chat_id is Some,
            target matches Some(to) ==> {
                &&& to.bot_token@ == self.tg_bot_token->0@
                &&& to.chat_id == self.tg_chat_id->0
                &&& to.topic_id == (match self.tg_topic_id {
                    Some(topic_id) => topic_id,
                    None => 0,
                })
            },
    {
        match (&self.tg_bot_token, self.tg_chat_id) {
            (Some(bot_token), Some(chat_id)) => Some(
                NotificationTarget {
                    bot_token: bot_token.clone(),
                    chat_id,
                    topic_id: match self.tg_topic_id {
                        Some(topic_id) => topic_id,
                        None => 0,
                    },
                },
            ),
            _ => None,
        }
    }

    /// The host that this run calls: the domestic site unless the
    /// international one was asked for.
    pub fn host(&self) -> (host: String)
        ensures
            host@ == api_host(self.intl == Some(true)),
    {
        match self.intl {
            Some(true) => String::from_str("ssl.intl.tencentcloudapi.com"),
            _ => String::from_str("ssl.tencentcloudapi.com"),
        }
    }
}

} // verus!
