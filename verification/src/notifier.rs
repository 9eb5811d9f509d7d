//! The notifier channel: an ordered, unbounded, single-consumer queue of
//! outbound messages.  A command handler enqueues progress messages while it
//! runs; the dispatch loop's relay routine drains the queue and delivers
//! every message, in emission order, to the originating room.

use vstd::prelude::*;
use crate::errors::Error;
use crate::messages::{msg_views, OutboundMessage, OutboundMessageView};

verus! {

/// An ordered, unbounded queue of outbound messages with a closable
/// consumer end.
#[derive(Debug)]
pub struct Notifier {
    queue: Vec<OutboundMessage>,
    closed: bool,
}

impl Notifier {
    /// The queued messages, oldest first.
    pub closed spec fn contents(&self) -> Seq<OutboundMessageView> {
        msg_views(self.queue@)
    }

    /// Whether the consumer end was torn down; sending then fails.
    pub closed spec fn is_closed(&self) -> bool {
        self.closed
    }

    /// A fresh, open, empty channel.
    pub fn new() -> (n: Notifier)
        ensures
            n.contents() == Seq::<OutboundMessageView>::empty(),
            !n.is_closed(),
    {
        let n = Notifier { queue: Vec::new(), closed: false };
        proof {
            assert(n.contents() =~= Seq::<OutboundMessageView>::empty());
        }
        n
    }

    /// Enqueues one message.  Never blocks; fails only when the consumer
    /// end has been torn down, and then leaves the queue unchanged.
    pub fn send(&mut self, m: OutboundMessage) -> (r: Result<(), Error>)
        ensures
            old(self).is_closed() ==> ({
                &&& r matches Err(e) && e == Error::ChannelClosed
                &&& final(self).contents() == old(self).contents()
                &&& final(self).is_closed()
            }),
            !old(self).is_closed() ==> ({
                &&& r is Ok
                &&& final(self).contents() == old(self).contents().push(m@)
                &&& !final(self).is_closed()
            }),
    {
        if self.closed {
            Err(Error::ChannelClosed)
        } else {
            self.queue.push(m);
            proof {
                assert(self.contents() =~= old(self).contents().push(m@));
            }
            Ok(())
        }
    }

    /// Dequeues the oldest message, or nothing when the queue is empty.
    pub fn recv(&mut self) -> (r: Option<OutboundMessage>)
        ensures
            old(self).contents().len() == 0 ==> ({
                &&& r is None
                &&& final(self).contents() == old(self).contents()
            }),
            old(self).contents().len() > 0 ==> ({
                &&& r matches Some(m) && m@ == old(self).contents()[0]
                &&& final(self).contents() == old(self).contents().drop_first()
            }),
            final(self).is_closed() == old(self).is_closed(),
    {
        if self.queue.len() == 0 {
            None
        } else {
            let m = self.queue.remove(0);
            proof {
                assert(self.contents() =~= old(self).contents().drop_first());
            }
            Some(m)
        }
    }

    /// Tears the consumer end down; later sends fail.
    pub fn close(&mut self)
        ensures
            final(self).contents() == old(self).contents(),
            final(self).is_closed(),
    {
        self.closed = true;
    }

    /// How many messages are queued.
    pub fn len(&self) -> (l: usize)
        ensures
            l == self.contents().len(),
    {
        self.queue.len()
    }
}

} // verus!
