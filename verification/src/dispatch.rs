//! The dispatch loop's verified core: for one incoming chat message, route
//! the body, run the matched handler against a fresh notifier channel, then
//! relay everything the handler enqueued back to the originating room, in
//! emission order, each message stamped as a reply to the triggering event.

use vstd::prelude::*;
use crate::command_parser::{help_message, help_notice, route, spec_route, Command};
use crate::config::Config;
use crate::database::{rows_match, server_matches, InsertRequest};
use crate::errors::Error;
use crate::ids::{mxid_has_server, spec_server_of};
use crate::messages::{msg_views, stamped_all, OutboundMessage, OutboundMessageView};
use crate::notices::text_broadcast;
use crate::notifier::Notifier;
use crate::register::{
    register, spec_broadcast_requested, spec_checks_pass, spec_run_failed, spec_run_messages,
    BodyOutcome, FetchOutcome, PipelineEnv,
};

verus! {

/// One received chat event, as the transport hands it in.
#[derive(Debug)]
pub struct IncomingMessage {
    pub sender_id: String,
    pub sender_display_name: String,
    pub room_id: String,
    pub event_id: String,
    pub body: String,
}

/// Everything handling one incoming message produced.
pub struct DispatchResult {
    /// The messages to deliver to the originating room, in emission order,
    /// each stamped as a reply to the triggering event.
    pub delivered: Vec<OutboundMessage>,
    /// The one insert handed to the registration store, if any.
    pub insert: Option<InsertRequest>,
    /// The one broadcast handed to the admin room, if any.
    pub broadcast: Option<String>,
    /// The raw decoder error kept for diagnostics, if any.
    pub diagnostic: Option<String>,
    /// A single best-effort error notice sent directly to the room when
    /// the handler failed in a way it could not report itself.
    pub direct_error: Option<String>,
}

/// The shape of every best-effort direct error notice.
pub open spec fn text_error_happened(detail: Seq<char>) -> Seq<char> {
    "Error happened: "@ + detail
}

/// The best-effort direct error for an unknown command.
pub open spec fn text_unknown_command_error() -> Seq<char> {
    text_error_happened("unknown command"@)
}

/// The best-effort direct error for a store failure.
pub open spec fn text_store_error() -> Seq<char> {
    text_error_happened("the registration store rejected the write"@)
}

/// What the handler for `body` enqueues on the notifier, before stamping.
pub open spec fn spec_handle_messages(
    body: Seq<char>,
    sender: Seq<char>,
    admin_room: Seq<char>,
    env: PipelineEnv,
) -> Seq<OutboundMessageView> {
    match spec_route(body) {
        Command::Help => seq![help_message()],
        Command::Register => spec_run_messages(sender, admin_room, env),
        Command::Unknown => Seq::empty(),
        Command::NotACommand => Seq::empty(),
    }
}

/// The display name to show for a sender: the profile name when the room
/// knows one, the raw user id otherwise.
pub fn display_name_or_id(display_name: Option<String>, sender_id: &str) -> (r: String)
    ensures
        display_name matches Some(d) ==> r@ == d@,
        display_name is None ==> r@ == sender_id@,
{
    match display_name {
        Some(d) => d,
        None => sender_id.to_owned(),
    }
}

/// Builds one best-effort direct error notice.
fn error_happened(detail: &str) -> (r: String)
    ensures
        r@ == text_error_happened(detail@),
{
    let mut t = "Error happened: ".to_owned();
    t.append(detail);
    t
}

/// Drains the channel and stamps every message as a reply to `event_id`,
/// keeping emission order.
pub fn relay(n: &mut Notifier, event_id: &str) -> (out: Vec<OutboundMessage>)
    ensures
        msg_views(out@) == stamped_all(old(n).contents(), event_id@),
        final(n).contents().len() == 0,
        final(n).is_closed() == old(n).is_closed(),
{
    let ghost base = n.contents();
    let total = n.len();
    let mut out: Vec<OutboundMessage> = Vec::new();
    let mut k: usize = 0;
    while k < total
        invariant
            k <= total,
            base.len() == total,
            n.contents() == base.skip(k as int),
            n.is_closed() == old(n).is_closed(),
            out@.len() == k,
            msg_views(out@) == stamped_all(base, event_id@).take(k as int),
        decreases total - k,
    {
        match n.recv() {
            Some(m) => {
                let mut m = m;
                m.add_relates_to(event_id);
                out.push(m);
                proof {
                    assert(n.contents() =~= base.skip(k + 1));
                    assert(msg_views(out@) =~= stamped_all(base, event_id@).take(k + 1));
                }
            },
            None => {
                proof {
                    assert(false);
                }
            },
        }
        k = k + 1;
    }
    proof {
        assert(msg_views(out@) =~= stamped_all(base, event_id@));
        assert(n.contents() =~= base.skip(total as int));
    }
    out
}

/// Handles one incoming chat message end to end: empty or non-command
/// bodies are ignored silently; `!help` answers with the one help notice;
/// an unknown `!` command yields a single direct error; `!register` runs
/// the pipeline against the given outside outcomes.  Everything delivered
/// to the room keeps emission order and is stamped as a reply to the
/// triggering event.
#[verifier::rlimit(60)]
pub fn handle_incoming(config: &Config, msg: &IncomingMessage, env: PipelineEnv) -> (r:
    DispatchResult)
    requires
        spec_route(msg.body@) is Register ==> mxid_has_server(msg.sender_id@),
    ensures
        msg_views(r.delivered@) == stamped_all(
            spec_handle_messages(msg.body@, msg.sender_id@, config.admin_room_id@, env),
            msg.event_id@,
        ),
        spec_route(msg.body@) is NotACommand ==> r.delivered@.len() == 0 && r.insert is None
            && r.broadcast is None && r.diagnostic is None && r.direct_error is None,
        spec_route(msg.body@) is Unknown ==> r.delivered@.len() == 0 && r.insert is None
            && r.broadcast is None && r.diagnostic is None && (r.direct_error matches Some(t)
            && t@ == text_unknown_command_error()),
        spec_route(msg.body@) is Help ==> r.delivered@.len() == 1 && r.insert is None
            && r.broadcast is None && r.diagnostic is None && r.direct_error is None,
        spec_route(msg.body@) is Register ==> ({
            &&& r.insert is Some <==> spec_checks_pass(env)
            &&& spec_checks_pass(env) ==> env.body is Parsed && (r.insert matches Some(req)
                && server_matches(req.server, env.body->Parsed_doc) && rows_match(
                req.categories@,
                env.body->Parsed_doc,
            ))
            &&& r.broadcast is Some <==> spec_broadcast_requested(env, config.admin_room_id@)
            &&& r.broadcast matches Some(t) ==> t@ == text_broadcast(spec_server_of(msg.sender_id@))
            &&& r.direct_error is Some <==> spec_run_failed(env)
            &&& r.direct_error matches Some(t) ==> t@ == text_store_error()
            &&& r.diagnostic is Some <==> (env.fetch matches FetchOutcome::Connected { status }
                && status == 200 && env.body is Invalid)
            &&& r.diagnostic matches Some(d) ==> env.body is Invalid && d@ == env.body->Invalid_detail@
        }),
        !(spec_route(msg.body@) is Register) ==> r.insert is None && r.broadcast is None,
{
    let cmd = route(msg.body.as_str());
    match cmd {
        Command::NotACommand => {
            let delivered: Vec<OutboundMessage> = Vec::new();
            proof {
                assert(msg_views(delivered@) =~= stamped_all(
                    spec_handle_messages(msg.body@, msg.sender_id@, config.admin_room_id@, env),
                    msg.event_id@,
                ));
            }
            DispatchResult {
                delivered,
                insert: None,
                broadcast: None,
                diagnostic: None,
                direct_error: None,
            }
        },
        Command::Unknown => {
            let delivered: Vec<OutboundMessage> = Vec::new();
            proof {
                assert(msg_views(delivered@) =~= stamped_all(
                    spec_handle_messages(msg.body@, msg.sender_id@, config.admin_room_id@, env),
                    msg.event_id@,
                ));
            }
            DispatchResult {
                delivered,
                insert: None,
                broadcast: None,
                diagnostic: None,
                direct_error: Some(error_happened("unknown command")),
            }
        },
        Command::Help => {
            let mut notifier = Notifier::new();
            match notifier.send(help_notice()) {
                Ok(()) => (),
                Err(_) => (),
            }
            let delivered = relay(&mut notifier, msg.event_id.as_str());
            proof {
                assert(msg_views(delivered@) =~= stamped_all(
                    spec_handle_messages(msg.body@, msg.sender_id@, config.admin_room_id@, env),
                    msg.event_id@,
                ));
            }
            DispatchResult {
                delivered,
                insert: None,
                broadcast: None,
                diagnostic: None,
                direct_error: None,
            }
        },
        Command::Register => {
            let mut notifier = Notifier::new();
            let run = register(
                msg.sender_id.as_str(),
                config.admin_room_id.as_str(),
                env,
                &mut notifier,
            );
            let delivered = relay(&mut notifier, msg.event_id.as_str());
            let direct_error = if run.failed {
                Some(error_happened(Error::StoreFailure.message()))
            } else {
                None
            };
            DispatchResult {
                delivered,
                insert: run.insert,
                broadcast: run.broadcast,
                diagnostic: run.diagnostic,
                direct_error,
            }
        },
    }
}

} // verus!
