//! One whole run of the registration command, as a function of the
//! outcomes of its outside actions.
//!
//! The caller performs the HTTP calls, the store insert and the admin
//! broadcast, and summarizes their outcomes in a [`PipelineEnv`]; `register`
//! drives the pipeline machine through them and pins, for every
//! environment, exactly which notices are enqueued, in which order, and
//! what the store and the admin room receive.

use vstd::prelude::*;
use crate::database::{rows_match, server_matches, InsertRequest};
use crate::ids::{mxid_has_server, server_of_mxid, spec_room_id_valid, spec_server_of};
use crate::messages::{msg_views, plain, OutboundMessage, OutboundMessageView};
use crate::notices::{
    https_of, text_broadcast, text_err_admin, text_err_fetch, text_err_invalid, text_err_logo,
    text_err_server_name, text_err_status, text_err_url, text_start, text_step1, text_step2,
    text_step3, text_step4, text_step5, text_step6, text_step7, text_step7_skip,
    text_step8_degraded, text_step8_ok, well_known_url_of,
};
use crate::notifier::Notifier;
use crate::pipeline::{step, Effect, PipelineCtx, PipelineEvent, PipelineState};
use crate::text::{contains_text, seq_views};
use crate::well_known::WellKnown;

verus! {

/// How the well-known GET went.
pub enum FetchOutcome {
    /// The transport failed; no response arrived.
    Failed,
    /// A response arrived with this status code.
    Connected { status: u16 },
}

/// How decoding the fetched body went (consulted only after a 200).
pub enum BodyOutcome {
    /// The body was not a well-known document; the raw decoder error is
    /// kept for diagnostics and never shown to the requester.
    Invalid { detail: String },
    /// The decoded document.
    Parsed { doc: WellKnown },
}

/// The outcomes of every outside action one run can perform.  Fields for
/// actions the run never reaches are simply not consulted.
pub struct PipelineEnv {
    pub fetch: FetchOutcome,
    pub body: BodyOutcome,
    pub server_name_reachable: bool,
    pub url_reachable: bool,
    pub logo_reachable: bool,
    pub insert_ok: bool,
    pub broadcast_ok: bool,
}

/// What one run did beside enqueueing notices.
pub struct RegisterRun {
    /// The one insert handed to the registration store, when the checks
    /// passed; what the store answered is `env.insert_ok`.
    pub insert: Option<InsertRequest>,
    /// The one broadcast handed to the admin room, when one was sent.
    pub broadcast: Option<String>,
    /// The raw decoder error on an invalid body, for diagnostics only.
    pub diagnostic: Option<String>,
    /// A hard failure: the store rejected the insert.
    pub failed: bool,
}

/// Whether every check up to and including the reachability probes passes,
/// so that the run reaches the store.
pub open spec fn spec_checks_pass(env: PipelineEnv) -> bool {
    match (env.fetch, env.body) {
        (FetchOutcome::Connected { status }, BodyOutcome::Parsed { doc }) => {
            &&& status == 200
            &&& env.server_name_reachable
            &&& env.url_reachable
            &&& (doc.logo_url is Some ==> env.logo_reachable)
        },
        _ => false,
    }
}

/// Whether the record ends up persisted.
pub open spec fn spec_persisted(env: PipelineEnv) -> bool {
    spec_checks_pass(env) && env.insert_ok
}

/// Whether the run fails hard (the store rejected the insert).
pub open spec fn spec_run_failed(env: PipelineEnv) -> bool {
    spec_checks_pass(env) && !env.insert_ok
}

/// Whether the admin broadcast is attempted: the record is persisted and
/// the configured admin room id has a usable shape.
pub open spec fn spec_broadcast_requested(env: PipelineEnv, admin_room: Seq<char>) -> bool {
    spec_persisted(env) && spec_room_id_valid(admin_room)
}

/// The notices a run emits after the store insert succeeded.
pub open spec fn spec_tail(
    h: Seq<OutboundMessageView>,
    admin_room: Seq<char>,
    env: PipelineEnv,
) -> Seq<OutboundMessageView> {
    if !env.insert_ok {
        h
    } else if spec_room_id_valid(admin_room) && env.broadcast_ok {
        h.push(plain(text_step8_ok()))
    } else {
        h.push(plain(text_step8_degraded()))
    }
}

/// Every notice one run emits, in emission order, for every environment.
pub open spec fn spec_run_messages(
    sender: Seq<char>,
    admin_room: Seq<char>,
    env: PipelineEnv,
) -> Seq<OutboundMessageView> {
    let server = spec_server_of(sender);
    let url = well_known_url_of(server);
    let head = seq![plain(text_start()), plain(text_step1())];
    match env.fetch {
        FetchOutcome::Failed => head.push(plain(text_err_fetch(url))),
        FetchOutcome::Connected { status } => {
            if status != 200 {
                head + seq![plain(text_step2()), plain(text_err_status(url, status))]
            } else {
                let h3 = head + seq![plain(text_step2()), plain(text_step3())];
                match env.body {
                    BodyOutcome::Invalid { .. } => h3.push(plain(text_err_invalid(url))),
                    BodyOutcome::Parsed { doc } => {
                        let h5 = h3 + seq![plain(text_step4())] + (if contains_text(
                            doc.admins@,
                            sender,
                        ) {
                            Seq::<OutboundMessageView>::empty()
                        } else {
                            seq![plain(text_err_admin(url, sender, seq_views(doc.admins@)))]
                        }) + seq![plain(text_step5())];
                        if !env.server_name_reachable {
                            h5.push(plain(text_err_server_name(https_of(doc.server_name@))))
                        } else {
                            let h6 = h5.push(plain(text_step6()));
                            if !env.url_reachable {
                                h6.push(plain(text_err_url(https_of(doc.url@))))
                            } else {
                                let h7 = h6.push(plain(text_step7()));
                                match doc.logo_url {
                                    Some(logo) => {
                                        if !env.logo_reachable {
                                            h7.push(plain(text_err_logo(logo@)))
                                        } else {
                                            spec_tail(h7, admin_room, env)
                                        }
                                    },
                                    None => spec_tail(
                                        h7.push(plain(text_step7_skip())),
                                        admin_room,
                                        env,
                                    ),
                                }
                            }
                        }
                    },
                }
            }
        },
    }
}

/// A fetch that connects but returns a status other than 200 ends the run
/// at the second check: the notices are exactly the start notice, the
/// progress notices of the first two steps, and one terminal error naming
/// the returned status code; the store receives nothing.
pub proof fn lemma_bad_status_run(sender: Seq<char>, admin_room: Seq<char>, env: PipelineEnv)
    requires
        env.fetch matches FetchOutcome::Connected { status } && status != 200,
    ensures
        !spec_checks_pass(env),
        spec_run_messages(sender, admin_room, env) =~= seq![
            plain(text_start()),
            plain(text_step1()),
            plain(text_step2()),
            plain(
                text_err_status(
                    well_known_url_of(spec_server_of(sender)),
                    env.fetch->Connected_status,
                ),
            ),
        ],
{
}

/// A body that does not decode ends the run at the third check with
/// exactly one terminal invalid-format error, whose text does not depend
/// on the raw decoder error; the store receives nothing.
pub proof fn lemma_invalid_body_run(sender: Seq<char>, admin_room: Seq<char>, env: PipelineEnv)
    requires
        env.fetch matches FetchOutcome::Connected { status } && status == 200,
        env.body is Invalid,
    ensures
        !spec_checks_pass(env),
        spec_run_messages(sender, admin_room, env) =~= seq![
            plain(text_start()),
            plain(text_step1()),
            plain(text_step2()),
            plain(text_step3()),
            plain(text_err_invalid(well_known_url_of(spec_server_of(sender)))),
        ],
{
}

/// When every check passes and the store accepts the insert, the record is
/// persisted and stays persisted; the broadcast is attempted exactly when
/// the configured room id is usable; and the requester's final notice is
/// the success notice exactly when the broadcast went through, the
/// degraded-success notice otherwise.
pub proof fn lemma_passing_run(sender: Seq<char>, admin_room: Seq<char>, env: PipelineEnv)
    requires
        spec_checks_pass(env),
        env.insert_ok,
    ensures
        spec_persisted(env),
        !spec_run_failed(env),
        spec_broadcast_requested(env, admin_room) == spec_room_id_valid(admin_room),
        spec_run_messages(sender, admin_room, env).last() == plain(
            if spec_room_id_valid(admin_room) && env.broadcast_ok {
                text_step8_ok()
            } else {
                text_step8_degraded()
            },
        ),
{
}

/// The order of one run's notices is fixed by the environment alone; for a
/// document failing at the fifth check the sequence is exactly: the start
/// notice, the progress notices of steps one to four, the admin-mismatch
/// error when the requester is not among the declared admins, the progress
/// notice of step five, then the step-five error.
pub proof fn lemma_s5_failure_order(sender: Seq<char>, admin_room: Seq<char>, env: PipelineEnv)
    requires
        env.fetch matches FetchOutcome::Connected { status } && status == 200,
        env.body is Parsed,
        !env.server_name_reachable,
    ensures
        !spec_checks_pass(env),
        spec_run_messages(sender, admin_room, env) =~= seq![
            plain(text_start()),
            plain(text_step1()),
            plain(text_step2()),
            plain(text_step3()),
            plain(text_step4()),
        ] + (if contains_text(env.body->Parsed_doc.admins@, sender) {
            Seq::<OutboundMessageView>::empty()
        } else {
            seq![
                plain(
                    text_err_admin(
                        well_known_url_of(spec_server_of(sender)),
                        sender,
                        seq_views(env.body->Parsed_doc.admins@),
                    ),
                ),
            ]
        }) + seq![
            plain(text_step5()),
            plain(text_err_server_name(https_of(env.body->Parsed_doc.server_name@))),
        ],
{
}

fn send_all(n: &mut Notifier, msgs: Vec<OutboundMessage>)
    requires
        !old(n).is_closed(),
    ensures
        !final(n).is_closed(),
        final(n).contents() == old(n).contents() + msg_views(msgs@),
{
    let ghost orig = msgs@;
    let ghost base = old(n).contents();
    let mut msgs = msgs;
    while msgs.len() > 0
        invariant
            !n.is_closed(),
            n.contents() + msg_views(msgs@) == base + msg_views(orig),
        decreases msgs.len(),
    {
        let ghost pre = msgs@;
        let ghost before = n.contents();
        let m = msgs.remove(0);
        proof {
            assert(m@ == msg_views(pre)[0]);
            assert(msg_views(msgs@) =~= msg_views(pre).drop_first());
        }
        match n.send(m) {
            Ok(()) => (),
            Err(_) => (),
        }
        proof {
            assert(n.contents() + msg_views(msgs@) =~= before + msg_views(pre));
        }
    }
    proof {
        assert(n.contents() =~= base + msg_views(orig));
    }
}

/// Runs the registration pipeline for one `!register` command: emits every
/// progress and error notice into the notifier in order, hands the store
/// exactly one insert when every check passes, and broadcasts to the admin
/// room exactly when the record was persisted and the configured room id is
/// usable.
#[verifier::rlimit(100)]
pub fn register(
    sender: &str,
    admin_room_id: &str,
    env: PipelineEnv,
    notifier: &mut Notifier,
) -> (r: RegisterRun)
    requires
        mxid_has_server(sender@),
        !old(notifier).is_closed(),
    ensures
        !final(notifier).is_closed(),
        final(notifier).contents() == old(notifier).contents() + spec_run_messages(
            sender@,
            admin_room_id@,
            env,
        ),
        r.failed == spec_run_failed(env),
        r.insert is Some <==> spec_checks_pass(env),
        spec_checks_pass(env) ==> ({
            &&& env.body is Parsed
            &&& r.insert matches Some(req) && server_matches(req.server, env.body->Parsed_doc)
                && rows_match(req.categories@, env.body->Parsed_doc)
        }),
        r.broadcast is Some <==> spec_broadcast_requested(env, admin_room_id@),
        r.broadcast matches Some(t) ==> t@ == text_broadcast(spec_server_of(sender@)),
        r.diagnostic is Some <==> (env.fetch matches FetchOutcome::Connected { status } && status
            == 200 && env.body is Invalid),
        env.fetch matches FetchOutcome::Connected { status } && status == 200 && env.body is
            Invalid ==> ({
            &&& r.diagnostic matches Some(d) && d@ == env.body->Invalid_detail@
        }),
{
    let server = match server_of_mxid(sender) {
        Some(s) => s,
        None => unreached(),
    };
    let ctx = PipelineCtx {
        sender: sender.to_owned(),
        server,
        admin_room_id: admin_room_id.to_owned(),
    };
    let s0 = step(&ctx, PipelineState::Start, PipelineEvent::Begin);
    send_all(notifier, s0.messages);
    let status = match env.fetch {
        FetchOutcome::Failed => {
            let s1 = step(&ctx, s0.next, PipelineEvent::FetchFailed);
            send_all(notifier, s1.messages);
            proof {
                assert(notifier.contents() =~= old(notifier).contents() + spec_run_messages(
                    sender@,
                    admin_room_id@,
                    env,
                ));
            }
            return RegisterRun { insert: None, broadcast: None, diagnostic: None, failed: false };
        },
        FetchOutcome::Connected { status } => status,
    };
    let s1 = step(&ctx, s0.next, PipelineEvent::FetchConnected { status });
    send_all(notifier, s1.messages);
    if status != 200 {
        proof {
            assert(notifier.contents() =~= old(notifier).contents() + spec_run_messages(
                sender@,
                admin_room_id@,
                env,
            ));
        }
        return RegisterRun { insert: None, broadcast: None, diagnostic: None, failed: false };
    }
    let doc = match env.body {
        BodyOutcome::Invalid { detail } => {
            let s2 = step(&ctx, s1.next, PipelineEvent::BodyInvalid { detail });
            send_all(notifier, s2.messages);
            proof {
                assert(notifier.contents() =~= old(notifier).contents() + spec_run_messages(
                    sender@,
                    admin_room_id@,
                    env,
                ));
            }
            return RegisterRun {
                insert: None,
                broadcast: None,
                diagnostic: s2.diagnostic,
                failed: false,
            };
        },
        BodyOutcome::Parsed { doc } => doc,
    };
    let ghost gdoc = doc;
    let s2 = step(&ctx, s1.next, PipelineEvent::BodyParsed { doc });
    send_all(notifier, s2.messages);
    let ev_sn = if env.server_name_reachable {
        PipelineEvent::HeadOk
    } else {
        PipelineEvent::HeadFailed
    };
    let s3 = step(&ctx, s2.next, ev_sn);
    send_all(notifier, s3.messages);
    if !env.server_name_reachable {
        proof {
            assert(notifier.contents() =~= old(notifier).contents() + spec_run_messages(
                sender@,
                admin_room_id@,
                env,
            ));
        }
        return RegisterRun { insert: None, broadcast: None, diagnostic: None, failed: false };
    }
    let ev_url = if env.url_reachable {
        PipelineEvent::HeadOk
    } else {
        PipelineEvent::HeadFailed
    };
    let s4 = step(&ctx, s3.next, ev_url);
    send_all(notifier, s4.messages);
    if !env.url_reachable {
        proof {
            assert(notifier.contents() =~= old(notifier).contents() + spec_run_messages(
                sender@,
                admin_room_id@,
                env,
            ));
        }
        return RegisterRun { insert: None, broadcast: None, diagnostic: None, failed: false };
    }
    let (req, st_ins) = match s4.effect {
        Effect::Head { url: _ } => {
            let ev_logo = if env.logo_reachable {
                PipelineEvent::HeadOk
            } else {
                PipelineEvent::HeadFailed
            };
            let s5 = step(&ctx, s4.next, ev_logo);
            send_all(notifier, s5.messages);
            if !env.logo_reachable {
                proof {
                    assert(notifier.contents() =~= old(notifier).contents() + spec_run_messages(
                        sender@,
                        admin_room_id@,
                        env,
                    ));
                }
                return RegisterRun {
                    insert: None,
                    broadcast: None,
                    diagnostic: None,
                    failed: false,
                };
            }
            match s5.effect {
                Effect::Insert { request } => (request, s5.next),
                _ => unreached(),
            }
        },
        Effect::Insert { request } => (request, s4.next),
        _ => unreached(),
    };
    let ev_ins = if env.insert_ok {
        PipelineEvent::InsertDone
    } else {
        PipelineEvent::InsertFailed
    };
    let s6 = step(&ctx, st_ins, ev_ins);
    send_all(notifier, s6.messages);
    if !env.insert_ok {
        proof {
            assert(notifier.contents() =~= old(notifier).contents() + spec_run_messages(
                sender@,
                admin_room_id@,
                env,
            ));
        }
        return RegisterRun { insert: Some(req), broadcast: None, diagnostic: None, failed: true };
    }
    match s6.effect {
        Effect::Broadcast { text } => {
            let ev_b = if env.broadcast_ok {
                PipelineEvent::BroadcastDone
            } else {
                PipelineEvent::BroadcastFailed
            };
            let s7 = step(&ctx, s6.next, ev_b);
            send_all(notifier, s7.messages);
            proof {
                assert(notifier.contents() =~= old(notifier).contents() + spec_run_messages(
                    sender@,
                    admin_room_id@,
                    env,
                ));
            }
            RegisterRun { insert: Some(req), broadcast: Some(text), diagnostic: None, failed: false }
        },
        _ => {
            proof {
                assert(notifier.contents() =~= old(notifier).contents() + spec_run_messages(
                    sender@,
                    admin_room_id@,
                    env,
                ));
            }
            RegisterRun { insert: Some(req), broadcast: None, diagnostic: None, failed: false }
        },
    }
}

} // verus!
