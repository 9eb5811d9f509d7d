use keymaker::database::Registration;
use keymaker::notifier::Notifier;
use keymaker::register::{register, BodyOutcome, FetchOutcome, PipelineEnv};
use keymaker::well_known::{ServerRegistrationStatus, WellKnown};

const SENDER: &str = "@alice:example.org";
const ADMIN_ROOM: &str = "!admins:example.org";
const WK_URL: &str = "https://example.org/.well-known/matrix/mx.homeservers.metadata";

fn sample_doc(logo_url: Option<&str>, admins: Vec<&str>) -> WellKnown {
    WellKnown {
        name: "Example".to_string(),
        url: "matrix.example.org".to_string(),
        server_name: "example.org".to_string(),
        logo_url: logo_url.map(|s| s.to_string()),
        admins: admins.into_iter().map(|s| s.to_string()).collect(),
        categories: vec!["general".to_string(), "tech".to_string()],
        rules: "be kind".to_string(),
        description: "an example server".to_string(),
        registration_status: ServerRegistrationStatus::Open,
    }
}

fn passing_env(doc: WellKnown) -> PipelineEnv {
    PipelineEnv {
        fetch: FetchOutcome::Connected { status: 200 },
        body: BodyOutcome::Parsed { doc },
        server_name_reachable: true,
        url_reachable: true,
        logo_reachable: true,
        insert_ok: true,
        broadcast_ok: true,
    }
}

fn drain_texts(n: &mut Notifier) -> Vec<String> {
    let mut out = Vec::new();
    while let Some(m) = n.recv() {
        out.push(m.text);
    }
    out
}

#[test]
fn fetch_failure_reports_connectivity() {
    let env = PipelineEnv { fetch: FetchOutcome::Failed, ..passing_env(sample_doc(None, vec![])) };
    let mut n = Notifier::new();
    let run = register(SENDER, ADMIN_ROOM, env, &mut n);
    let texts = drain_texts(&mut n);
    assert_eq!(
        texts,
        vec![
            "Starting verification process...".to_string(),
            "[Step 1/8] Getting well-known file...".to_string(),
            format!(
                "[ERROR] Unable to find well_known file at: '{}'. This is most likely due to a connectivity issue.",
                WK_URL
            ),
        ]
    );
    assert!(run.insert.is_none());
    assert!(run.broadcast.is_none());
    assert!(!run.failed);
}

#[test]
fn bad_status_stops_after_step_two() {
    let env = PipelineEnv {
        fetch: FetchOutcome::Connected { status: 404 },
        ..passing_env(sample_doc(None, vec![]))
    };
    let mut n = Notifier::new();
    let run = register(SENDER, ADMIN_ROOM, env, &mut n);
    let texts = drain_texts(&mut n);
    assert_eq!(
        texts,
        vec![
            "Starting verification process...".to_string(),
            "[Step 1/8] Getting well-known file...".to_string(),
            "[Step 2/8] Ensuring .well-known file is reachable...".to_string(),
            format!(
                "[ERROR] .well-known file at: '{}' returned incorrect status code 404. We expect Status Code 200.",
                WK_URL
            ),
        ]
    );
    assert!(run.insert.is_none());
    assert!(run.broadcast.is_none());
}

#[test]
fn invalid_body_reports_format_and_keeps_raw_error_private() {
    let env = PipelineEnv {
        body: BodyOutcome::Invalid { detail: "expected value at line 1".to_string() },
        ..passing_env(sample_doc(None, vec![]))
    };
    let mut n = Notifier::new();
    let run = register(SENDER, ADMIN_ROOM, env, &mut n);
    let texts = drain_texts(&mut n);
    assert_eq!(texts.len(), 5);
    assert_eq!(
        texts[4],
        format!("[ERROR] .well-known file at: '{}' has invalid format.", WK_URL)
    );
    for t in &texts {
        assert!(!t.contains("expected value at line 1"));
    }
    assert_eq!(run.diagnostic, Some("expected value at line 1".to_string()));
    assert!(run.insert.is_none());
}

#[test]
fn passing_run_inserts_once_with_verified_false() {
    let env = passing_env(sample_doc(Some("https://example.org/logo.png"), vec![SENDER]));
    let mut n = Notifier::new();
    let run = register(SENDER, ADMIN_ROOM, env, &mut n);
    let texts = drain_texts(&mut n);
    let req = run.insert.expect("the store must receive exactly one insert");
    assert_eq!(req.server.name, "Example");
    assert_eq!(req.server.url, "matrix.example.org");
    assert_eq!(req.server.server_name, "example.org");
    assert_eq!(req.server.logo_url, Some("https://example.org/logo.png".to_string()));
    assert_eq!(req.server.admins, vec![SENDER.to_string()]);
    assert_eq!(req.server.rules, "be kind");
    assert_eq!(req.server.description, "an example server");
    assert!(matches!(req.server.registration_status, Registration::Open));
    assert!(!req.server.verified);
    assert_eq!(req.categories.len(), 2);
    assert_eq!(req.categories[0].server_url, "matrix.example.org");
    assert_eq!(req.categories[0].category_name, "general");
    assert_eq!(req.categories[1].server_url, "matrix.example.org");
    assert_eq!(req.categories[1].category_name, "tech");
    assert_eq!(
        run.broadcast,
        Some("@room New Server needs verification: example.org".to_string())
    );
    assert_eq!(
        texts.last().unwrap().as_str(),
        "[Step 8/8] Server fulfilled automated tests. The server was sent to manual verification. This can take up to some days. The bot will notify you about any update."
    );
    assert!(!run.failed);
}

#[test]
fn broadcast_failure_degrades_but_record_stays() {
    let env = PipelineEnv {
        broadcast_ok: false,
        ..passing_env(sample_doc(None, vec![SENDER]))
    };
    let mut n = Notifier::new();
    let run = register(SENDER, ADMIN_ROOM, env, &mut n);
    let texts = drain_texts(&mut n);
    assert!(run.insert.is_some());
    assert!(run.broadcast.is_some());
    assert_eq!(
        texts.last().unwrap().as_str(),
        "[ERROR][Step 8/8] Server fulfilled automated tests. But the bot wasn't able to inform the project admins. Please try again another day."
    );
    assert!(!run.failed);
}

#[test]
fn unusable_admin_room_degrades_without_broadcast() {
    let env = passing_env(sample_doc(None, vec![SENDER]));
    let mut n = Notifier::new();
    let run = register(SENDER, "not-a-room-id", env, &mut n);
    let texts = drain_texts(&mut n);
    assert!(run.insert.is_some());
    assert!(run.broadcast.is_none());
    assert_eq!(
        texts.last().unwrap().as_str(),
        "[ERROR][Step 8/8] Server fulfilled automated tests. But the bot wasn't able to inform the project admins. Please try again another day."
    );
}

#[test]
fn missing_logo_skips_with_notice() {
    let env = passing_env(sample_doc(None, vec![SENDER]));
    let mut n = Notifier::new();
    let run = register(SENDER, ADMIN_ROOM, env, &mut n);
    let texts = drain_texts(&mut n);
    assert!(texts.contains(&"[Step 7/8] Skipping check as no logo_url was defined.".to_string()));
    assert!(run.insert.is_some());
}

#[test]
fn store_failure_is_a_hard_failure() {
    let env = PipelineEnv { insert_ok: false, ..passing_env(sample_doc(None, vec![SENDER])) };
    let mut n = Notifier::new();
    let run = register(SENDER, ADMIN_ROOM, env, &mut n);
    assert!(run.failed);
    assert!(run.insert.is_some());
    assert!(run.broadcast.is_none());
    let texts = drain_texts(&mut n);
    assert!(!texts.iter().any(|t| t.contains("[Step 8/8]")));
}

#[test]
fn register_twice_inserts_twice() {
    let mut inserts = 0;
    for _ in 0..2 {
        let env = passing_env(sample_doc(None, vec![SENDER]));
        let mut n = Notifier::new();
        let run = register(SENDER, ADMIN_ROOM, env, &mut n);
        if run.insert.is_some() {
            inserts += 1;
        }
    }
    assert_eq!(inserts, 2);
}

#[test]
fn s5_failure_emits_exact_ordered_sequence() {
    let env = PipelineEnv {
        server_name_reachable: false,
        ..passing_env(sample_doc(None, vec!["@bob:example.org", "@carol:example.org"]))
    };
    let mut n = Notifier::new();
    let run = register(SENDER, ADMIN_ROOM, env, &mut n);
    let texts = drain_texts(&mut n);
    assert_eq!(
        texts,
        vec![
            "Starting verification process...".to_string(),
            "[Step 1/8] Getting well-known file...".to_string(),
            "[Step 2/8] Ensuring .well-known file is reachable...".to_string(),
            "[Step 3/8] Ensuring .well-known file is valid...".to_string(),
            "[Step 4/8] Ensuring .well-known file has you listed as an admin of the server..."
                .to_string(),
            format!(
                "[ERROR] According to the .well-known file at: '{}' you are not any of the admins of this homeserver. Your mxid: {}, Admins in the .well-known config: @bob:example.org, @carol:example.org",
                WK_URL, SENDER
            ),
            "[Step 5/8] Ensuring .well-known file server_name field is reachable...".to_string(),
            "[ERROR] The server_name field from the .well-known file ('https://example.org') cannot be reached."
                .to_string(),
        ]
    );
    assert!(run.insert.is_none());
}

#[test]
fn admin_mismatch_alone_does_not_abort() {
    let env = passing_env(sample_doc(None, vec!["@bob:example.org"]));
    let mut n = Notifier::new();
    let run = register(SENDER, ADMIN_ROOM, env, &mut n);
    let texts = drain_texts(&mut n);
    assert!(texts.iter().any(|t| t.contains("you are not any of the admins")));
    assert!(run.insert.is_some(), "the mismatch is reported but the run continues");
}

#[test]
fn unreachable_url_field_aborts() {
    let env = PipelineEnv {
        url_reachable: false,
        ..passing_env(sample_doc(None, vec![SENDER]))
    };
    let mut n = Notifier::new();
    let run = register(SENDER, ADMIN_ROOM, env, &mut n);
    let texts = drain_texts(&mut n);
    assert_eq!(
        texts.last().unwrap().as_str(),
        "[ERROR] The url field from the .well-known file ('https://matrix.example.org') cannot be reached."
    );
    assert!(run.insert.is_none());
}

#[test]
fn unreachable_logo_aborts() {
    let env = PipelineEnv {
        logo_reachable: false,
        ..passing_env(sample_doc(Some("https://cdn.example.org/logo.png"), vec![SENDER]))
    };
    let mut n = Notifier::new();
    let run = register(SENDER, ADMIN_ROOM, env, &mut n);
    let texts = drain_texts(&mut n);
    assert_eq!(
        texts.last().unwrap().as_str(),
        "[ERROR] The logo_url field from the .well-known file ('https://cdn.example.org/logo.png') cannot be reached."
    );
    assert!(run.insert.is_none());
}
