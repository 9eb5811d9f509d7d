//! Outbound chat messages: the one value type that every component of the
//! bot produces, queues, stamps and finally delivers.

use vstd::prelude::*;

verus! {

/// How an outbound message is rendered by the chat transport.
#[derive(Debug, Clone, Copy, PartialEq, Eq, Structural)]
pub enum MessageKind {
    /// A plain-text notice.
    PlainNotice,
    /// A notice that carries an HTML rendering beside the plain text.
    HtmlNotice,
}

/// One message on its way to a chat room.
#[derive(Debug)]
pub struct OutboundMessage {
    pub kind: MessageKind,
    pub text: String,
    /// The HTML rendering; present exactly on `HtmlNotice` messages.
    pub html: Option<String>,
    /// The event id this message replies to; stamped by the relay loop
    /// just before delivery.
    pub reply_to: Option<String>,
}

/// The mathematical value of an [`OutboundMessage`].
pub struct OutboundMessageView {
    pub kind: MessageKind,
    pub text: Seq<char>,
    pub html: Option<Seq<char>>,
    pub reply_to: Option<Seq<char>>,
}

impl View for OutboundMessage {
    type V = OutboundMessageView;

    open spec fn view(&self) -> OutboundMessageView {
        OutboundMessageView {
            kind: self.kind,
            text: self.text@,
            html: match self.html {
                Some(h) => Some(h@),
                None => None,
            },
            reply_to: match self.reply_to {
                Some(r) => Some(r@),
                None => None,
            },
        }
    }
}

/// The views of every message in a sequence of messages.
pub open spec fn msg_views(v: Seq<OutboundMessage>) -> Seq<OutboundMessageView> {
    Seq::new(v.len(), |i: int| v[i]@)
}

/// A plain notice with the given text and nothing else.
pub open spec fn plain(text: Seq<char>) -> OutboundMessageView {
    (OutboundMessageView { kind: MessageKind::PlainNotice, text: text, html: None, reply_to: None })
}

/// `m` with its reply-to field stamped to `event_id`.
pub open spec fn stamped(m: OutboundMessageView, event_id: Seq<char>) -> OutboundMessageView {
    (OutboundMessageView { reply_to: Some(event_id), ..m })
}

/// `ms` with every message stamped to `event_id`, order kept.
pub open spec fn stamped_all(ms: Seq<OutboundMessageView>, event_id: Seq<char>) -> Seq<
    OutboundMessageView,
> {
    Seq::new(ms.len(), |i: int| stamped(ms[i], event_id))
}

/// Builds a plain notice.
pub fn notice_plain(text: &str) -> (m: OutboundMessage)
    ensures
        m@ == plain(text@),
{
    OutboundMessage { kind: MessageKind::PlainNotice, text: text.to_owned(), html: None, reply_to: None }
}

/// Builds a plain notice from an already-built string.
pub fn notice_plain_string(text: String) -> (m: OutboundMessage)
    ensures
        m@ == plain(text@),
{
    OutboundMessage { kind: MessageKind::PlainNotice, text: text, html: None, reply_to: None }
}

/// Builds a notice that carries both a plain and an HTML rendering.
pub fn notice_html(text: &str, html: &str) -> (m: OutboundMessage)
    ensures
        m@ == (OutboundMessageView {
            kind: MessageKind::HtmlNotice,
            text: text@,
            html: Some(html@),
            reply_to: None,
        }),
{
    OutboundMessage {
        kind: MessageKind::HtmlNotice,
        text: text.to_owned(),
        html: Some(html.to_owned()),
        reply_to: None,
    }
}

impl OutboundMessage {
    /// Marks this message as a threaded reply to the given event.
    pub fn add_relates_to(&mut self, event_id: &str)
        ensures
            final(self)@ == stamped(old(self)@, event_id@),
    {
        self.reply_to = Some(event_id.to_owned());
    }
}

} // verus!
