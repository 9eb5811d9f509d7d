//! The registration verification pipeline: a sequential state machine with
//! eight ordered checks, fail-fast error reporting, and one progress notice
//! emitted before every check.
//!
//! The machine itself performs no I/O.  Each step hands back the messages
//! to enqueue and the next outside action to perform (an HTTP GET or HEAD,
//! the store insert, the admin broadcast); the caller performs the action
//! and feeds its outcome back in as the next event.

use vstd::prelude::*;
use crate::database::{insert_request, rows_match, server_matches, InsertRequest};
use crate::ids::spec_room_id_valid;
use crate::messages::{msg_views, notice_plain, plain, OutboundMessage, OutboundMessageView};
use crate::notices::{
    broadcast_text, err_admin_notice, err_fetch_notice, err_invalid_notice, err_logo_notice,
    err_server_name_notice, err_status_notice, err_url_notice, https_addr, https_of, text_broadcast,
    text_err_admin, text_err_fetch, text_err_invalid, text_err_logo, text_err_server_name,
    text_err_status, text_err_url, text_start, text_step1, text_step2, text_step3, text_step4,
    text_step5, text_step6, text_step7, text_step7_skip, text_step8_degraded, text_step8_ok,
    well_known_url, well_known_url_of,
};
use crate::text::{contains_str, contains_text, seq_views};
use crate::well_known::WellKnown;

verus! {

/// What the requester and configuration contribute to one pipeline run.
pub struct PipelineCtx {
    /// The requester's full user id.
    pub sender: String,
    /// The server part of the requester's user id.
    pub server: String,
    /// The configured admin room for the final broadcast.
    pub admin_room_id: String,
}

/// The outcome of one outside action, fed back into the machine.
pub enum PipelineEvent {
    /// Kicks the machine off.
    Begin,
    /// The well-known GET connected and returned this status code.
    FetchConnected { status: u16 },
    /// The well-known GET failed at the transport level.
    FetchFailed,
    /// The response body decoded into a well-known document.
    BodyParsed { doc: WellKnown },
    /// The response body did not decode; the raw decoder error is kept for
    /// diagnostics only and never shown to the requester.
    BodyInvalid { detail: String },
    /// The requested HEAD probe got a response.
    HeadOk,
    /// The requested HEAD probe failed at the transport level.
    HeadFailed,
    /// The store accepted the insert.
    InsertDone,
    /// The store rejected the insert.
    InsertFailed,
    /// The admin broadcast was delivered.
    BroadcastDone,
    /// The admin broadcast could not be delivered.
    BroadcastFailed,
}

/// The next outside action the caller must perform for the machine.
pub enum Effect {
    /// Issue an HTTP GET against this URL.
    Get { url: String },
    /// Read and decode the body of the response just fetched.
    ReadBody,
    /// Issue an HTTP HEAD probe against this URL.
    Head { url: String },
    /// Hand this request to the registration store.
    Insert { request: InsertRequest },
    /// Send this text to the configured admin room.
    Broadcast { text: String },
    /// The run is over; nothing more to do.
    Stop,
}

/// Where one run stands between two outside actions.
pub enum PipelineState {
    Start,
    AwaitFetch,
    AwaitBody,
    AwaitServerName { doc: WellKnown },
    AwaitUrl { doc: WellKnown },
    AwaitLogo { doc: WellKnown },
    AwaitInsert,
    AwaitBroadcast,
    /// The run ended; `failed` marks a hard failure (a store error), as
    /// opposed to a check failure already reported to the requester.
    Done { failed: bool },
}

/// What one step hands back to the caller.
pub struct StepResult {
    pub next: PipelineState,
    /// Progress and error notices to enqueue, in order.
    pub messages: Vec<OutboundMessage>,
    pub effect: Effect,
    /// The raw decoder error on an invalid body, for diagnostics only.
    pub diagnostic: Option<String>,
}

/// Which events a state can answer: exactly the outcomes of the action the
/// machine asked for in that state.
pub open spec fn expects(st: PipelineState, ev: PipelineEvent) -> bool {
    match st {
        PipelineState::Start => ev is Begin,
        PipelineState::AwaitFetch => ev is FetchConnected || ev is FetchFailed,
        PipelineState::AwaitBody => ev is BodyParsed || ev is BodyInvalid,
        PipelineState::AwaitServerName { .. } => ev is HeadOk || ev is HeadFailed,
        PipelineState::AwaitUrl { .. } => ev is HeadOk || ev is HeadFailed,
        PipelineState::AwaitLogo { doc } => (ev is HeadOk || ev is HeadFailed)
            && doc.logo_url is Some,
        PipelineState::AwaitInsert => ev is InsertDone || ev is InsertFailed,
        PipelineState::AwaitBroadcast => ev is BroadcastDone || ev is BroadcastFailed,
        PipelineState::Done { .. } => false,
    }
}

/// The full transition relation of the machine: for every state and event
/// it can answer, exactly which notices come out, which outside action is
/// requested next, and where the run stands afterwards.
pub open spec fn step_spec(
    sender: Seq<char>,
    server: Seq<char>,
    admin_room: Seq<char>,
    st: PipelineState,
    ev: PipelineEvent,
    r: StepResult,
) -> bool {
    match (st, ev) {
        (PipelineState::Start, PipelineEvent::Begin) => {
            &&& r.next is AwaitFetch
            &&& msg_views(r.messages@) == seq![plain(text_start()), plain(text_step1())]
            &&& r.effect matches Effect::Get { url } && url@ == well_known_url_of(server)
            &&& r.diagnostic is None
        },
        (PipelineState::AwaitFetch, PipelineEvent::FetchFailed) => {
            &&& r.next == (PipelineState::Done { failed: false })
            &&& msg_views(r.messages@) == seq![plain(text_err_fetch(well_known_url_of(server)))]
            &&& r.effect is Stop
            &&& r.diagnostic is None
        },
        (PipelineState::AwaitFetch, PipelineEvent::FetchConnected { status }) => {
            if status != 200 {
                &&& r.next == (PipelineState::Done { failed: false })
                &&& msg_views(r.messages@) == seq![
                    plain(text_step2()),
                    plain(text_err_status(well_known_url_of(server), status)),
                ]
                &&& r.effect is Stop
                &&& r.diagnostic is None
            } else {
                &&& r.next is AwaitBody
                &&& msg_views(r.messages@) == seq![plain(text_step2()), plain(text_step3())]
                &&& r.effect is ReadBody
                &&& r.diagnostic is None
            }
        },
        (PipelineState::AwaitBody, PipelineEvent::BodyInvalid { detail }) => {
            &&& r.next == (PipelineState::Done { failed: false })
            &&& msg_views(r.messages@) == seq![plain(text_err_invalid(well_known_url_of(server)))]
            &&& r.effect is Stop
            &&& r.diagnostic matches Some(d) && d@ == detail@
        },
        (PipelineState::AwaitBody, PipelineEvent::BodyParsed { doc }) => {
            &&& r.next == (PipelineState::AwaitServerName { doc })
            &&& msg_views(r.messages@) == seq![plain(text_step4())] + (if contains_text(
                doc.admins@,
                sender,
            ) {
                Seq::<OutboundMessageView>::empty()
            } else {
                seq![
                    plain(text_err_admin(well_known_url_of(server), sender, seq_views(doc.admins@))),
                ]
            }) + seq![plain(text_step5())]
            &&& r.effect matches Effect::Head { url } && url@ == https_of(doc.server_name@)
            &&& r.diagnostic is None
        },
        (PipelineState::AwaitServerName { doc }, PipelineEvent::HeadFailed) => {
            &&& r.next == (PipelineState::Done { failed: false })
            &&& msg_views(r.messages@) == seq![
                plain(text_err_server_name(https_of(doc.server_name@))),
            ]
            &&& r.effect is Stop
            &&& r.diagnostic is None
        },
        (PipelineState::AwaitServerName { doc }, PipelineEvent::HeadOk) => {
            &&& r.next == (PipelineState::AwaitUrl { doc })
            &&& msg_views(r.messages@) == seq![plain(text_step6())]
            &&& r.effect matches Effect::Head { url } && url@ == https_of(doc.url@)
            &&& r.diagnostic is None
        },
        (PipelineState::AwaitUrl { doc }, PipelineEvent::HeadFailed) => {
            &&& r.next == (PipelineState::Done { failed: false })
            &&& msg_views(r.messages@) == seq![plain(text_err_url(https_of(doc.url@)))]
            &&& r.effect is Stop
            &&& r.diagnostic is None
        },
        (PipelineState::AwaitUrl { doc }, PipelineEvent::HeadOk) => {
            match doc.logo_url {
                Some(logo) => {
                    &&& r.next == (PipelineState::AwaitLogo { doc })
                    &&& msg_views(r.messages@) == seq![plain(text_step7())]
                    &&& r.effect matches Effect::Head { url } && url@ == logo@
                    &&& r.diagnostic is None
                },
                None => {
                    &&& r.next is AwaitInsert
                    &&& msg_views(r.messages@) == seq![
                        plain(text_step7()),
                        plain(text_step7_skip()),
                    ]
                    &&& r.effect matches Effect::Insert { request } && server_matches(
                        request.server,
                        doc,
                    ) && rows_match(request.categories@, doc)
                    &&& r.diagnostic is None
                },
            }
        },
        (PipelineState::AwaitLogo { doc }, PipelineEvent::HeadFailed) => {
            &&& r.next == (PipelineState::Done { failed: false })
            &&& doc.logo_url matches Some(logo) ==> msg_views(r.messages@) == seq![
                plain(text_err_logo(logo@)),
            ]
            &&& r.effect is Stop
            &&& r.diagnostic is None
        },
        (PipelineState::AwaitLogo { doc }, PipelineEvent::HeadOk) => {
            &&& r.next is AwaitInsert
            &&& msg_views(r.messages@) == Seq::<OutboundMessageView>::empty()
            &&& r.effect matches Effect::Insert { request } && server_matches(request.server, doc)
                && rows_match(request.categories@, doc)
            &&& r.diagnostic is None
        },
        (PipelineState::AwaitInsert, PipelineEvent::InsertFailed) => {
            &&& r.next == (PipelineState::Done { failed: true })
            &&& msg_views(r.messages@) == Seq::<OutboundMessageView>::empty()
            &&& r.effect is Stop
            &&& r.diagnostic is None
        },
        (PipelineState::AwaitInsert, PipelineEvent::InsertDone) => {
            if spec_room_id_valid(admin_room) {
                &&& r.next is AwaitBroadcast
                &&& msg_views(r.messages@) == Seq::<OutboundMessageView>::empty()
                &&& r.effect matches Effect::Broadcast { text } && text@ == text_broadcast(server)
                &&& r.diagnostic is None
            } else {
                &&& r.next == (PipelineState::Done { failed: false })
                &&& msg_views(r.messages@) == seq![plain(text_step8_degraded())]
                &&& r.effect is Stop
                &&& r.diagnostic is None
            }
        },
        (PipelineState::AwaitBroadcast, PipelineEvent::BroadcastDone) => {
            &&& r.next == (PipelineState::Done { failed: false })
            &&& msg_views(r.messages@) == seq![plain(text_step8_ok())]
            &&& r.effect is Stop
            &&& r.diagnostic is None
        },
        (PipelineState::AwaitBroadcast, PipelineEvent::BroadcastFailed) => {
            &&& r.next == (PipelineState::Done { failed: false })
            &&& msg_views(r.messages@) == seq![plain(text_step8_degraded())]
            &&& r.effect is Stop
            &&& r.diagnostic is None
        },
        _ => true,
    }
}

/// Drives the machine by one event.
pub fn step(ctx: &PipelineCtx, st: PipelineState, ev: PipelineEvent) -> (r: StepResult)
    requires
        expects(st, ev),
    ensures
        step_spec(ctx.sender@, ctx.server@, ctx.admin_room_id@, st, ev, r),
{
    match (st, ev) {
        (PipelineState::Start, PipelineEvent::Begin) => {
            let mut messages: Vec<OutboundMessage> = Vec::new();
            messages.push(notice_plain("Starting verification process..."));
            messages.push(notice_plain("[Step 1/8] Getting well-known file..."));
            proof {
                assert(msg_views(messages@) =~= seq![plain(text_start()), plain(text_step1())]);
            }
            let url = well_known_url(ctx.server.as_str());
            StepResult {
                next: PipelineState::AwaitFetch,
                messages,
                effect: Effect::Get { url },
                diagnostic: None,
            }
        },
        (PipelineState::AwaitFetch, PipelineEvent::FetchFailed) => {
            let url = well_known_url(ctx.server.as_str());
            let mut messages: Vec<OutboundMessage> = Vec::new();
            messages.push(err_fetch_notice(url.as_str()));
            proof {
                assert(msg_views(messages@) =~= seq![
                    plain(text_err_fetch(well_known_url_of(ctx.server@))),
                ]);
            }
            StepResult {
                next: PipelineState::Done { failed: false },
                messages,
                effect: Effect::Stop,
                diagnostic: None,
            }
        },
        (PipelineState::AwaitFetch, PipelineEvent::FetchConnected { status }) => {
            let mut messages: Vec<OutboundMessage> = Vec::new();
            messages.push(notice_plain("[Step 2/8] Ensuring .well-known file is reachable..."));
            if status != 200 {
                let url = well_known_url(ctx.server.as_str());
                messages.push(err_status_notice(url.as_str(), status));
                proof {
                    assert(msg_views(messages@) =~= seq![
                        plain(text_step2()),
                        plain(text_err_status(well_known_url_of(ctx.server@), status)),
                    ]);
                }
                StepResult {
                    next: PipelineState::Done { failed: false },
                    messages,
                    effect: Effect::Stop,
                    diagnostic: None,
                }
            } else {
                messages.push(notice_plain("[Step 3/8] Ensuring .well-known file is valid..."));
                proof {
                    assert(msg_views(messages@) =~= seq![plain(text_step2()), plain(text_step3())]);
                }
                StepResult {
                    next: PipelineState::AwaitBody,
                    messages,
                    effect: Effect::ReadBody,
                    diagnostic: None,
                }
            }
        },
        (PipelineState::AwaitBody, PipelineEvent::BodyInvalid { detail }) => {
            let url = well_known_url(ctx.server.as_str());
            let mut messages: Vec<OutboundMessage> = Vec::new();
            messages.push(err_invalid_notice(url.as_str()));
            proof {
                assert(msg_views(messages@) =~= seq![
                    plain(text_err_invalid(well_known_url_of(ctx.server@))),
                ]);
            }
            StepResult {
                next: PipelineState::Done { failed: false },
                messages,
                effect: Effect::Stop,
                diagnostic: Some(detail),
            }
        },
        (PipelineState::AwaitBody, PipelineEvent::BodyParsed { doc }) => {
            let mut messages: Vec<OutboundMessage> = Vec::new();
            messages.push(
                notice_plain(
                    "[Step 4/8] Ensuring .well-known file has you listed as an admin of the server...",
                ),
            );
            if !contains_str(&doc.admins, ctx.sender.as_str()) {
                let url = well_known_url(ctx.server.as_str());
                messages.push(err_admin_notice(url.as_str(), ctx.sender.as_str(), &doc.admins));
            }
            messages.push(
                notice_plain("[Step 5/8] Ensuring .well-known file server_name field is reachable..."),
            );
            proof {
                if contains_text(doc.admins@, ctx.sender@) {
                    assert(msg_views(messages@) =~= seq![plain(text_step4())] + Seq::<
                        crate::messages::OutboundMessageView,
                    >::empty() + seq![plain(text_step5())]);
                } else {
                    assert(msg_views(messages@) =~= seq![plain(text_step4())] + seq![
                        plain(
                            text_err_admin(
                                well_known_url_of(ctx.server@),
                                ctx.sender@,
                                seq_views(doc.admins@),
                            ),
                        ),
                    ] + seq![plain(text_step5())]);
                }
            }
            let addr = https_addr(doc.server_name.as_str());
            StepResult {
                next: PipelineState::AwaitServerName { doc },
                messages,
                effect: Effect::Head { url: addr },
                diagnostic: None,
            }
        },
        (PipelineState::AwaitServerName { doc }, PipelineEvent::HeadFailed) => {
            let addr = https_addr(doc.server_name.as_str());
            let mut messages: Vec<OutboundMessage> = Vec::new();
            messages.push(err_server_name_notice(addr.as_str()));
            proof {
                assert(msg_views(messages@) =~= seq![
                    plain(text_err_server_name(https_of(doc.server_name@))),
                ]);
            }
            StepResult {
                next: PipelineState::Done { failed: false },
                messages,
                effect: Effect::Stop,
                diagnostic: None,
            }
        },
        (PipelineState::AwaitServerName { doc }, PipelineEvent::HeadOk) => {
            let mut messages: Vec<OutboundMessage> = Vec::new();
            messages.push(
                notice_plain("[Step 6/8] Ensuring .well-known file url field is reachable..."),
            );
            proof {
                assert(msg_views(messages@) =~= seq![plain(text_step6())]);
            }
            let addr = https_addr(doc.url.as_str());
            StepResult {
                next: PipelineState::AwaitUrl { doc },
                messages,
                effect: Effect::Head { url: addr },
                diagnostic: None,
            }
        },
        (PipelineState::AwaitUrl { doc }, PipelineEvent::HeadFailed) => {
            let addr = https_addr(doc.url.as_str());
            let mut messages: Vec<OutboundMessage> = Vec::new();
            messages.push(err_url_notice(addr.as_str()));
            proof {
                assert(msg_views(messages@) =~= seq![plain(text_err_url(https_of(doc.url@)))]);
            }
            StepResult {
                next: PipelineState::Done { failed: false },
                messages,
                effect: Effect::Stop,
                diagnostic: None,
            }
        },
        (PipelineState::AwaitUrl { doc }, PipelineEvent::HeadOk) => {
            let mut messages: Vec<OutboundMessage> = Vec::new();
            messages.push(
                notice_plain("[Step 7/8] Ensuring .well-known file logo_url field is reachable..."),
            );
            let has_logo = match &doc.logo_url {
                Some(_) => true,
                None => false,
            };
            if has_logo {
                let logo = match &doc.logo_url {
                    Some(l) => l.clone(),
                    None => String::new(),
                };
                proof {
                    assert(msg_views(messages@) =~= seq![plain(text_step7())]);
                }
                StepResult {
                    next: PipelineState::AwaitLogo { doc },
                    messages,
                    effect: Effect::Head { url: logo },
                    diagnostic: None,
                }
            } else {
                messages.push(notice_plain("[Step 7/8] Skipping check as no logo_url was defined."));
                proof {
                    assert(msg_views(messages@) =~= seq![
                        plain(text_step7()),
                        plain(text_step7_skip()),
                    ]);
                }
                let request = insert_request(&doc);
                StepResult {
                    next: PipelineState::AwaitInsert,
                    messages,
                    effect: Effect::Insert { request },
                    diagnostic: None,
                }
            }
        },
        (PipelineState::AwaitLogo { doc }, PipelineEvent::HeadFailed) => {
            let logo = match &doc.logo_url {
                Some(l) => l.clone(),
                None => String::new(),
            };
            let mut messages: Vec<OutboundMessage> = Vec::new();
            messages.push(err_logo_notice(logo.as_str()));
            proof {
                assert(msg_views(messages@) =~= seq![
                    plain(text_err_logo(doc.logo_url->Some_0@)),
                ]);
            }
            StepResult {
                next: PipelineState::Done { failed: false },
                messages,
                effect: Effect::Stop,
                diagnostic: None,
            }
        },
        (PipelineState::AwaitLogo { doc }, PipelineEvent::HeadOk) => {
            let messages: Vec<OutboundMessage> = Vec::new();
            proof {
                assert(msg_views(messages@) =~= Seq::<
                    crate::messages::OutboundMessageView,
                >::empty());
            }
            let request = insert_request(&doc);
            StepResult {
                next: PipelineState::AwaitInsert,
                messages,
                effect: Effect::Insert { request },
                diagnostic: None,
            }
        },
        (PipelineState::AwaitInsert, PipelineEvent::InsertFailed) => {
            let messages: Vec<OutboundMessage> = Vec::new();
            proof {
                assert(msg_views(messages@) =~= Seq::<
                    crate::messages::OutboundMessageView,
                >::empty());
            }
            StepResult {
                next: PipelineState::Done { failed: true },
                messages,
                effect: Effect::Stop,
                diagnostic: None,
            }
        },
        (PipelineState::AwaitInsert, PipelineEvent::InsertDone) => {
            if crate::ids::room_id_valid(ctx.admin_room_id.as_str()) {
                let messages: Vec<OutboundMessage> = Vec::new();
                proof {
                    assert(msg_views(messages@) =~= Seq::<
                        crate::messages::OutboundMessageView,
                    >::empty());
                }
                let text = broadcast_text(ctx.server.as_str());
                StepResult {
                    next: PipelineState::AwaitBroadcast,
                    messages,
                    effect: Effect::Broadcast { text },
                    diagnostic: None,
                }
            } else {
                let mut messages: Vec<OutboundMessage> = Vec::new();
                messages.push(step8_degraded_notice());
                proof {
                    assert(msg_views(messages@) =~= seq![plain(text_step8_degraded())]);
                }
                StepResult {
                    next: PipelineState::Done { failed: false },
                    messages,
                    effect: Effect::Stop,
                    diagnostic: None,
                }
            }
        },
        (PipelineState::AwaitBroadcast, PipelineEvent::BroadcastDone) => {
            let mut messages: Vec<OutboundMessage> = Vec::new();
            messages.push(
                notice_plain(
                    "[Step 8/8] Server fulfilled automated tests. The server was sent to manual verification. This can take up to some days. The bot will notify you about any update.",
                ),
            );
            proof {
                assert(msg_views(messages@) =~= seq![plain(text_step8_ok())]);
            }
            StepResult {
                next: PipelineState::Done { failed: false },
                messages,
                effect: Effect::Stop,
                diagnostic: None,
            }
        },
        (PipelineState::AwaitBroadcast, PipelineEvent::BroadcastFailed) => {
            let mut messages: Vec<OutboundMessage> = Vec::new();
            messages.push(step8_degraded_notice());
            proof {
                assert(msg_views(messages@) =~= seq![plain(text_step8_degraded())]);
            }
            StepResult {
                next: PipelineState::Done { failed: false },
                messages,
                effect: Effect::Stop,
                diagnostic: None,
            }
        },
        _ => unreached(),
    }
}

fn step8_degraded_notice() -> (m: OutboundMessage)
    ensures
        m@ == plain(text_step8_degraded()),
{
    notice_plain(
        "[ERROR][Step 8/8] Server fulfilled automated tests. But the bot wasn't able to inform the project admins. Please try again another day.",
    )
}

} // verus!
