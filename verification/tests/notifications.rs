use adm::config::{default_host, default_port};
use adm::http::WebhookError;
use adm::notifier::telegram::{render, ParseMode, SendMessage, Telegram};
use adm::notifier::{Config, Notification, Notifier, Status};
use adm::runner::git::{GitError, SyncError};
use adm::runner::{BranchSpec, Failure, Task};
use adm::signature::Error;

fn deployed(owner: &str, repo: &str, branch: &str) -> Task {
    Task {
        branch_spec: BranchSpec {
            owner: owner.to_string(),
            repo: repo.to_string(),
            branch: branch.to_string(),
        },
        commit_hash: "8f3b6a1c".to_string(),
        url: "https://example.org/acme/site".to_string(),
    }
}

fn success() -> Notification {
    Notification { task: deployed("acme", "site", "master"), status: Status::Success }
}

const SUCCESS_TEXT: &str = "<b>acme/site</b> (master) at <code>8f3b6a1c</code>: completed";

#[test]
fn defaults_of_the_listener() {
    assert_eq!(default_host(), "127.0.0.1");
    assert_eq!(default_port(), 4677);
}

#[test]
fn telegram_address_holds_the_token() {
    let telegram = Telegram::new("123:abc", vec![-100, 42]);
    assert_eq!(telegram.url(), "https://api.telegram.org/bot123:abc/sendMessage");
    assert_eq!(telegram.chats, vec![-100, 42]);
    assert_eq!(telegram.chats(), &vec![-100, 42]);
}

#[test]
fn one_message_goes_to_each_chat() {
    let telegram = Telegram::new("123:abc", vec![-100, 42, 7]);
    let messages = telegram.notify(&deployed("acme", "site", "master"), &Status::Success);
    let expected: Vec<SendMessage> = [-100i64, 42, 7]
        .iter()
        .map(|chat| SendMessage {
            chat_id: *chat,
            text: SUCCESS_TEXT.to_string(),
            parse_mode: ParseMode::HTML,
        })
        .collect();
    assert_eq!(messages, expected);
    assert_eq!(telegram.try_notify("plain")[2].text, "plain");
    assert!(Telegram::new("123:abc", vec![]).try_notify("text").is_empty());
}

#[test]
fn report_names_branch_commit_and_outcome() {
    assert_eq!(render(&deployed("acme", "site", "master"), &Status::Success), SUCCESS_TEXT);
    let failed = Status::Fail(Failure::Sync(SyncError::Fetch(GitError {
        code: -1,
        class: 12,
        message: "timeout".to_string(),
    })));
    assert_eq!(
        render(&deployed("acme", "site", "master"), &failed),
        "<b>acme/site</b> (master) at <code>8f3b6a1c</code>: Failed to pull repo: timeout"
    );
}

#[test]
fn report_escapes_what_html_gives_a_meaning_to() {
    let task = deployed("<acme>", "a&b", "\"it's\"");
    assert_eq!(
        render(&task, &Status::Success),
        "<b>&lt;acme&gt;/a&amp;b</b> (&quot;it&#x27;s&quot;) at <code>8f3b6a1c</code>: completed"
    );
    let failed = Status::Fail(Failure::CreateDir {
        path: "/srv/x".to_string(),
        cause: "denied".to_string(),
    });
    assert_eq!(
        render(&deployed("\u{e9}", "/", "="), &failed),
        "<b>\u{e9}//</b> (=) at <code>8f3b6a1c</code>: Failed to create build directory &quot;/srv/x&quot;: denied"
    );
}

#[test]
fn delivery_fails_on_error_status_or_no_answer() {
    assert!(Telegram::delivered(&Ok(200)));
    assert!(Telegram::delivered(&Ok(399)));
    assert!(!Telegram::delivered(&Ok(400)));
    assert!(!Telegram::delivered(&Ok(502)));
    assert!(!Telegram::delivered(&Err("connection refused".to_string())));
}

#[test]
fn notifier_needs_token_and_chats() {
    let both = Notifier::new(Config {
        telegram_token: Some("123:abc".to_string()),
        telegram_groups: Some(vec![1, 2]),
    });
    assert_eq!(both.destinations(), Some(&vec![1, 2]));
    assert_eq!(both.url(), Some("https://api.telegram.org/bot123:abc/sendMessage"));
    assert_eq!(both.handle(&success()).len(), 2);
    assert_eq!(both.handle(&success())[1].chat_id, 2);
    assert_eq!(both.handle(&success())[0].text, SUCCESS_TEXT);

    let no_token = Notifier::new(Config { telegram_token: None, telegram_groups: Some(vec![1]) });
    assert_eq!(no_token.destinations(), None);
    assert!(no_token.handle(&success()).is_empty());

    let no_chats =
        Notifier::new(Config { telegram_token: Some("123:abc".to_string()), telegram_groups: None });
    assert_eq!(no_chats.url(), None);
    assert!(no_chats.handle(&success()).is_empty());

    let neither = Notifier::new(Config { telegram_token: None, telegram_groups: None });
    assert!(neither.handle(&success()).is_empty());
}

#[test]
fn webhook_error_messages_and_statuses() {
    let cases = [
        (
            WebhookError::SignatureParseError(Error::NotHex),
            "failed parsing signature: signature must be 64 hex digits",
            400,
        ),
        (WebhookError::InvalidSignature, "signature doesn't match", 403),
        (WebhookError::NoHmacKey, "HMAC key is not specified", 500),
        (WebhookError::HmacInvalidLength, "HMAC key has invalid length", 500),
        (
            WebhookError::ActixError { status: 408, message: "timed out".to_string() },
            "failed reading request data: timed out",
            408,
        ),
        (WebhookError::JsonError("missing field `ref`".to_string()), "invalid JSON: missing field `ref`", 400),
    ];
    for (error, message, status) in cases {
        assert_eq!(error.message(), message);
        assert_eq!(error.status_code(), status);
    }
}

#[test]
fn failure_details_name_the_causes() {
    let git = |message: &str| GitError { code: -1, class: 2, message: message.to_string() };
    let cases = [
        (
            Failure::CreateDir { path: "/srv/x".to_string(), cause: "denied".to_string() },
            "Failed to create build directory \"/srv/x\": denied",
        ),
        (
            Failure::Sync(SyncError::OpenOrClone { open: git("not found"), clone: git("no route") }),
            "Failed to open or clone repo: no route: not found",
        ),
        (Failure::Sync(SyncError::RemoteNotFound(git("no origin"))), "Failed to pull repo: no origin"),
        (Failure::Sync(SyncError::Fetch(git("timeout"))), "Failed to pull repo: timeout"),
        (
            Failure::Sync(SyncError::InvalidCommitId { commit_id: "HEAD".to_string() }),
            "Failed to checkout repo: malformed commit identifier HEAD",
        ),
        (
            Failure::Sync(SyncError::CommitNotFound(git("odb: no match"))),
            "Failed to checkout repo: odb: no match",
        ),
        (Failure::Sync(SyncError::Reset(git("locked"))), "Failed to checkout repo: locked"),
        (
            Failure::Launch { cause: "No such file or directory".to_string() },
            "Failed to run `docker-compose`: No such file or directory",
        ),
        (
            Failure::Deploy { stderr: "no such service: web".to_string() },
            "Failed to deploy: no such service: web",
        ),
    ];
    for (failure, detail) in cases {
        assert_eq!(failure.detail(), detail);
        assert_eq!(Status::Fail(failure).detail(), detail);
    }
    assert_eq!(Status::Success.detail(), "completed");
}
