//! Notifications over the Telegram bot interface: where they go and what is
//! sent.

use vstd::prelude::*;
use vstd::string::*;

use crate::notifier::Status;
use crate::runner::{Task, TaskView};

verus! {

/// What stands for the character `c` in text that is read as HTML: the five
/// characters that HTML gives a meaning to are written as entities.
pub open spec fn escape_char(c: char) -> Seq<char> {
    if c == '<' {
        "&lt;"@
    } else if c == '>' {
        "&gt;"@
    } else if c == '&' {
        "&amp;"@
    } else if c == '"' {
        "&quot;"@
    } else if c == '\'' {
        "&#x27;"@
    } else {
        seq![c]
    }
}

/// `text` with every character written as it stands in HTML.
pub open spec fn escape(text: Seq<char>) -> Seq<char>
    decreases text.len(),
{
    if text.len() == 0 {
        Seq::empty()
    } else {
        escape(text.drop_last()) + escape_char(text.last())
    }
}

/// Escapes `text` for HTML with `askama_escape::escape` and its `Html`
/// escaper.
///
/// Trusted: the result is `text` with each of `<`, `>`, `&`, `"` and `'`
/// replaced by its entity and every other character kept.
#[verifier::external_body]
pub(crate) fn escape_html(text: &str) -> (escaped: String)
    ensures
        escaped@ == escape(text@),
{
    askama_escape::escape(text, askama_escape::Html).to_string()
}

/// The report of a task that ended with the text `status`: repository,
/// branch, commit, and the outcome with its cause, marked up as HTML.
pub open spec fn rendered(task: TaskView, status: Seq<char>) -> Seq<char> {
    "<b>"@ + escape(task.key.owner) + "/"@ + escape(task.key.repo) + "</b> ("@ + escape(
        task.key.branch,
    ) + ") at <code>"@ + escape(task.commit_hash) + "</code>: "@ + escape(status)
}

/// Renders the report of `task`, which ended in `status`.
pub fn render(task: &Task, status: &Status) -> (text: String)
    ensures
        text@ == rendered(task@, status.detail_text()),
{
    let mut text = String::from_str("<b>");
    text.append(escape_html(task.branch_spec.owner.as_str()).as_str());
    text.append("/");
    text.append(escape_html(task.branch_spec.repo.as_str()).as_str());
    text.append("</b> (");
    text.append(escape_html(task.branch_spec.branch.as_str()).as_str());
    text.append(") at <code>");
    text.append(escape_html(task.commit_hash.as_str()).as_str());
    text.append("</code>: ");
    text.append(escape_html(status.detail().as_str()).as_str());
    text
}

/// How the receiving side is to read the text of a message.
#[derive(Debug, Clone, Copy, PartialEq, Eq, Structural)]
pub enum ParseMode {
    HTML,
    Markdown,
    MarkdownV2,
}

/// One message to one chat.
#[derive(Debug, PartialEq, Eq)]
pub struct SendMessage {
    pub chat_id: i64,
    pub text: String,
    pub parse_mode: ParseMode,
}

/// The address that messages of the bot with `token` are posted to.
pub open spec fn endpoint(token: Seq<char>) -> Seq<char> {
    "https://api.telegram.org/bot"@ + token + "/sendMessage"@
}

/// Whether `messages` carry `text` to `chats`, one message for each chat in
/// their order, to be read as HTML.
pub open spec fn addressed(messages: Seq<SendMessage>, chats: Seq<i64>, text: Seq<char>) -> bool {
    &&& messages.len() == chats.len()
    &&& forall|i: int|
        0 <= i < chats.len() ==> (#[trigger] messages[i]).chat_id == chats[i] && messages[i].text@
            == text && messages[i].parse_mode == ParseMode::HTML
}

/// Whether a delivery that ended in `outcome` succeeded: the message was
/// posted and answered with a status below 400.
pub open spec fn accepted(outcome: Result<u16, String>) -> bool {
    outcome matches Ok(status) && status < 400
}

/// The chats that notifications go to, and the address they are posted to.
pub struct Telegram {
    url: String,
    pub chats: Vec<i64>,
}

impl Telegram {
    /// The address that messages are posted to. It holds the bot's token.
    pub closed spec fn address(&self) -> Seq<char> {
        self.url@
    }

    /// The chats that messages go to, in their order.
    pub closed spec fn destinations(&self) -> Seq<i64> {
        self.chats@
    }

    /// Notifications of the bot with `token` to `chats`.
    pub fn new(token: &str, chats: Vec<i64>) -> (telegram: Telegram)
        ensures
            telegram.address() == endpoint(token@),
            telegram.destinations() == chats@,
    {
        let mut url = String::from_str("https://api.telegram.org/bot");
        url.append(token);
        url.append("/sendMessage");
        Telegram { url, chats }
    }

    /// The address that messages are posted to.
    pub fn url(&self) -> (url: &str)
        ensures
            url@ == self.address(),
    {
        self.url.as_str()
    }

    /// The chats that messages go to.
    pub fn chats(&self) -> (chats: &Vec<i64>)
        ensures
            chats@ == self.destinations(),
    {
        &self.chats
    }

    /// The messages that report to every chat that `task` ended in
    /// `status`.
    pub fn notify(&self, task: &Task, status: &Status) -> (messages: Vec<SendMessage>)
        ensures
            addressed(messages@, self.destinations(), rendered(task@, status.detail_text())),
    {
        let text = render(task, status);
        self.try_notify(text.as_str())
    }

    /// The messages that carry `text` to every chat.
    pub fn try_notify(&self, text: &str) -> (messages: Vec<SendMessage>)
        ensures
            addressed(messages@, self.destinations(), text@),
    {
        let mut messages: Vec<SendMessage> = Vec::new();
        let mut index: usize = 0;
        while index < self.chats.len()
            invariant
                0 <= index <= self.chats@.len(),
                addressed(messages@, self.chats@.subrange(0, index as int), text@),
            decreases self.chats@.len() - index,
        {
            messages.push(
                SendMessage {
                    chat_id: self.chats[index],
                    text: String::from_str(text),
                    parse_mode: ParseMode::HTML,
                },
            );
            index += 1;
        }
        assert(self.chats@.subrange(0, index as int) =~= self.chats@);
        messages
    }

    /// Whether a delivery that ended in `outcome`, the status of the answer
    /// or the reason why none came, succeeded.
    pub fn delivered(outcome: &Result<u16, String>) -> (success: bool)
        ensures
            success == accepted(*outcome),
    {
        match outcome {
            Ok(status) => *status < 400,
            Err(_) => false,
        }
    }
}

} // verus!
