use keymaker::config::Config;
use keymaker::dispatch::{handle_incoming, IncomingMessage};
use keymaker::errors::Error;
use keymaker::messages::notice_plain;
use keymaker::notifier::Notifier;
use keymaker::register::{BodyOutcome, FetchOutcome, PipelineEnv};
use keymaker::well_known::{ServerRegistrationStatus, WellKnown};

const SENDER: &str = "@alice:example.org";

fn sample_config() -> Config {
    Config {
        homeserver_url: "https://matrix.example.org".to_string(),
        mxid: "@keymaker:example.org".to_string(),
        password: "SECRET-REDACTED".to_string(),
        store_path: "/var/lib/keymaker/store".to_string(),
        admins: vec!["@root:example.org".to_string()],
        admin_room_id: "!admins:example.org".to_string(),
        session_path: "/var/lib/keymaker/session".to_string(),
        database_url: "postgres://keymaker@localhost/keymaker".to_string(),
    }
}

fn incoming(body: &str) -> IncomingMessage {
    IncomingMessage {
        sender_id: SENDER.to_string(),
        sender_display_name: "Alice".to_string(),
        room_id: "!general:example.org".to_string(),
        event_id: "$event42".to_string(),
        body: body.to_string(),
    }
}

fn sample_doc() -> WellKnown {
    WellKnown {
        name: "Example".to_string(),
        url: "matrix.example.org".to_string(),
        server_name: "example.org".to_string(),
        logo_url: None,
        admins: vec![SENDER.to_string()],
        categories: vec!["general".to_string()],
        rules: "be kind".to_string(),
        description: "an example server".to_string(),
        registration_status: ServerRegistrationStatus::Invite,
    }
}

fn passing_env() -> PipelineEnv {
    PipelineEnv {
        fetch: FetchOutcome::Connected { status: 200 },
        body: BodyOutcome::Parsed { doc: sample_doc() },
        server_name_reachable: true,
        url_reachable: true,
        logo_reachable: true,
        insert_ok: true,
        broadcast_ok: true,
    }
}

#[test]
fn ordinary_conversation_is_silent() {
    let r = handle_incoming(&sample_config(), &incoming("good morning all"), passing_env());
    assert!(r.delivered.is_empty());
    assert!(r.insert.is_none());
    assert!(r.broadcast.is_none());
    assert!(r.direct_error.is_none());
}

#[test]
fn empty_body_is_ignored() {
    let r = handle_incoming(&sample_config(), &incoming(""), passing_env());
    assert!(r.delivered.is_empty());
    assert!(r.direct_error.is_none());
}

#[test]
fn help_produces_exactly_one_reply() {
    let r = handle_incoming(&sample_config(), &incoming("!help"), passing_env());
    assert_eq!(r.delivered.len(), 1);
    let m = &r.delivered[0];
    assert!(m.text.contains("`!help` - This output"));
    assert!(m.html.as_ref().unwrap().contains("<code>!help</code>"));
    assert_eq!(m.reply_to, Some("$event42".to_string()));
    assert!(r.insert.is_none());
}

#[test]
fn unknown_command_yields_direct_error() {
    let r = handle_incoming(&sample_config(), &incoming("!frobnicate"), passing_env());
    assert!(r.delivered.is_empty());
    assert_eq!(r.direct_error, Some("Error happened: unknown command".to_string()));
}

#[test]
fn register_delivers_stamped_messages_in_order() {
    let r = handle_incoming(&sample_config(), &incoming("!register"), passing_env());
    assert!(r.delivered.len() >= 8);
    assert_eq!(r.delivered[0].text, "Starting verification process...");
    for (i, m) in r.delivered.iter().enumerate() {
        assert_eq!(m.reply_to, Some("$event42".to_string()), "message {} unstamped", i);
    }
    let step_indices: Vec<usize> = (1..=8)
        .map(|s| {
            let tag = format!("[Step {}/8]", s);
            r.delivered
                .iter()
                .position(|m| m.text.starts_with(&tag))
                .expect("every step must report progress")
        })
        .collect();
    for w in step_indices.windows(2) {
        assert!(w[0] < w[1], "progress notices must keep pipeline order");
    }
    assert!(r.insert.is_some());
    assert_eq!(
        r.broadcast,
        Some("@room New Server needs verification: example.org".to_string())
    );
    assert!(r.direct_error.is_none());
}

#[test]
fn store_failure_becomes_direct_error() {
    let env = PipelineEnv { insert_ok: false, ..passing_env() };
    let r = handle_incoming(&sample_config(), &incoming("!register"), env);
    assert_eq!(
        r.direct_error,
        Some("Error happened: the registration store rejected the write".to_string())
    );
    assert!(r.broadcast.is_none());
}

#[test]
fn register_with_bad_json_keeps_diagnostic() {
    let env = PipelineEnv {
        body: BodyOutcome::Invalid { detail: "trailing comma".to_string() },
        ..passing_env()
    };
    let r = handle_incoming(&sample_config(), &incoming("!register"), env);
    assert_eq!(r.diagnostic, Some("trailing comma".to_string()));
    assert!(r.delivered.iter().all(|m| !m.text.contains("trailing comma")));
    assert!(r.insert.is_none());
}

#[test]
fn notifier_is_fifo() {
    let mut n = Notifier::new();
    n.send(notice_plain("first")).unwrap();
    n.send(notice_plain("second")).unwrap();
    n.send(notice_plain("third")).unwrap();
    assert_eq!(n.len(), 3);
    assert_eq!(n.recv().unwrap().text, "first");
    assert_eq!(n.recv().unwrap().text, "second");
    assert_eq!(n.recv().unwrap().text, "third");
    assert!(n.recv().is_none());
}

#[test]
fn closed_notifier_rejects_sends() {
    let mut n = Notifier::new();
    n.send(notice_plain("queued")).unwrap();
    n.close();
    let e = n.send(notice_plain("late")).unwrap_err();
    assert_eq!(e, Error::ChannelClosed);
    assert_eq!(e.message(), "the notifier channel was closed");
    assert_eq!(n.len(), 1);
}

#[test]
fn store_error_message_text() {
    assert_eq!(Error::StoreFailure.message(), "the registration store rejected the write");
}
