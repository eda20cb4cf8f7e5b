//! The transport's state: the session flag, the subscriber fan-out and the
//! closed flag. Reading lines and writing them out is left to the caller,
//! which hands each input line to `handle_line` and writes what `send`
//! returns as one line, flushed.
use vstd::prelude::*;
use crate::broadcast::{BroadcastModel, Broadcaster, Received, ReceivedModel, Subscription};
use crate::classify::{classified, classify, ClassifyError};
use crate::codec::{encode, encoding};
use crate::message::{Message, MessageModel};

verus! {

/// How many messages the fan-out buffer keeps for a slow subscriber.
pub const CHANNEL_CAPACITY: u64 = 100;

/// Why a transport operation failed.
#[derive(Debug, PartialEq, Eq, Structural)]
pub enum StdioError {
    /// The transport was closed.
    Closed,
    /// A response that carries both a result and an error.
    InvalidResponse,
}

pub struct TransportModel {
    pub initialized: bool,
    pub closed: bool,
    pub channel: BroadcastModel,
}

/// What `send` yields for a message in a given state: the line to write, or
/// why there is none.
pub open spec fn send_outcome(t: TransportModel, m: MessageModel) -> Result<Seq<char>, StdioError> {
    if t.closed {
        Err(StdioError::Closed)
    } else if !m.well_formed() {
        Err(StdioError::InvalidResponse)
    } else {
        Ok(encoding(m))
    }
}

/// Once a transport is closed, sending any message fails with the closed
/// error, and keeps failing: closing again, or any further input, leaves
/// it closed.
pub proof fn lemma_send_after_close_fails(t: TransportModel, m: MessageModel, line: Seq<char>)
    ensures
        send_outcome(TransportModel { closed: true, ..t }, m) == Err::<Seq<char>, StdioError>(
            StdioError::Closed,
        ),
        send_outcome(
            TransportModel {
                closed: true,
                initialized: t.initialized || (classified(line) matches Some(c) && c.is_initialize()),
                channel: match classified(line) {
                    Some(c) => t.channel.publish(c),
                    None => t.channel,
                },
            },
            m,
        ) == Err::<Seq<char>, StdioError>(StdioError::Closed),
{
}

/// A transport that has seen no input, is not initialized and is open.
pub open spec fn fresh() -> TransportModel {
    TransportModel {
        initialized: false,
        closed: false,
        channel: BroadcastModel {
            log: Seq::empty(),
            start: 0,
            capacity: CHANNEL_CAPACITY as nat,
            cursors: Seq::empty(),
            open: true,
        },
    }
}

/// A transport over standard input and output.
pub struct StdioTransport {
    initialized: bool,
    closed: bool,
    channel: Broadcaster,
}

impl View for StdioTransport {
    type V = TransportModel;

    closed spec fn view(&self) -> TransportModel {
        TransportModel { initialized: self.initialized, closed: self.closed, channel: self.channel@ }
    }
}

impl StdioTransport {
    pub closed spec fn wf(&self) -> bool {
        self.channel.wf()
    }

    /// A transport that has seen no input, is not initialized and is open.
    pub fn new() -> (r: Result<StdioTransport, StdioError>)
        ensures
            r matches Ok(t) && t.wf() && t@ == fresh(),
    {
        Ok(StdioTransport { initialized: false, closed: false, channel: Broadcaster::new(CHANNEL_CAPACITY) })
    }

    pub proof fn lemma_wf(&self)
        requires
            self.wf(),
        ensures
            self@.channel.wf(),
            self@.channel.log.len() <= u64::MAX,
    {
        self.channel.lemma_wf();
    }

    /// Whether the `initialize` request has been seen.
    pub fn is_initialized(&self) -> (r: bool)
        ensures
            r == self@.initialized,
    {
        self.initialized
    }

    /// Whether the transport was closed.
    pub fn is_closed(&self) -> (r: bool)
        ensures
            r == self@.closed,
    {
        self.closed
    }

    /// How many messages were published so far.
    pub fn published_count(&self) -> (r: u64)
        requires
            self.wf(),
        ensures
            r == self@.channel.log.len(),
    {
        self.channel.published_count()
    }

    /// Handles one line of input: a line that stands for a message is
    /// published to every subscriber, after the session is marked initialized
    /// if it is the `initialize` request; any other line changes nothing.
    /// Returns how many subscribers the message went to.
    pub fn handle_line(&mut self, line: &str) -> (r: Result<usize, ClassifyError>)
        requires
            old(self).wf(),
            old(self)@.channel.log.len() < u64::MAX,
        ensures
            final(self).wf(),
            match classified(line@) {
                None => r == Err::<usize, ClassifyError>(ClassifyError::Malformed) && final(self)@
                    == old(self)@,
                Some(m) => r == Ok::<usize, ClassifyError>(old(self)@.channel.cursors.len() as usize)
                    && final(self)@ == (TransportModel {
                    initialized: old(self)@.initialized || m.is_initialize(),
                    closed: old(self)@.closed,
                    channel: old(self)@.channel.publish(m),
                }),
            },
    {
        match classify(line) {
            Ok(msg) => {
                if let Message::Request(q) = &msg {
                    let init = String::from_str("initialize");
                    if q.method == init {
                        self.initialized = true;
                    }
                }
                Ok(self.channel.publish(msg))
            },
            Err(e) => Err(e),
        }
    }

    /// The input has ended: once subscribers have read what is left they
    /// receive `Closed`.
    pub fn end_of_input(&mut self)
        requires
            old(self).wf(),
        ensures
            final(self).wf(),
            final(self)@ == (TransportModel { channel: old(self)@.channel.close(), ..old(self)@ }),
    {
        self.channel.close();
    }

    /// A new subscription to the messages that arrive from now on.
    pub fn receive(&mut self) -> (r: Result<Subscription, StdioError>)
        requires
            old(self).wf(),
        ensures
            final(self).wf(),
            old(self)@.closed ==> r == Err::<Subscription, StdioError>(StdioError::Closed)
                && final(self)@ == old(self)@,
            !old(self)@.closed ==> r == Ok::<Subscription, StdioError>(
                Subscription { index: old(self)@.channel.cursors.len() as usize },
            ) && final(self)@ == (TransportModel {
                channel: old(self)@.channel.subscribe(),
                ..old(self)@
            }),
    {
        if self.closed {
            return Err(StdioError::Closed);
        }
        Ok(self.channel.subscribe())
    }

    /// The next thing that a subscription receives.
    pub fn next_message(&mut self, sub: Subscription) -> (r: Result<Received, StdioError>)
        requires
            old(self).wf(),
            sub.index < old(self)@.channel.cursors.len(),
        ensures
            final(self).wf(),
            old(self)@.closed ==> r is Err && r->Err_0 == StdioError::Closed && final(self)@
                == old(self)@,
            !old(self)@.closed ==> r is Ok && (final(self)@.channel, r->Ok_0@) == old(
                self,
            )@.channel.recv(sub.index as int) && final(self)@.initialized == old(self)@.initialized
                && final(self)@.closed == old(self)@.closed,
    {
        if self.closed {
            return Err(StdioError::Closed);
        }
        Ok(self.channel.recv(sub))
    }

    /// The line to write for a message, without its newline; fails once the
    /// transport is closed, and for a response with both a result and an
    /// error.
    pub fn send(&self, message: &Message) -> (r: Result<String, StdioError>)
        ensures
            (match r {
                Ok(line) => Ok(line@),
                Err(e) => Err(e),
            }) == send_outcome(self@, message@),
    {
        if self.closed {
            return Err(StdioError::Closed);
        }
        if let Message::Response(p) = message {
            if p.result.is_some() && p.error.is_some() {
                return Err(StdioError::InvalidResponse);
            }
        }
        Ok(encode(message))
    }

    /// Closes the transport; closing again changes nothing.
    pub fn close(&mut self) -> (r: Result<(), StdioError>)
        requires
            old(self).wf(),
        ensures
            final(self).wf(),
            r is Ok,
            final(self)@ == (TransportModel { closed: true, ..old(self)@ }),
    {
        self.closed = true;
        Ok(())
    }
}

impl Default for StdioTransport {
    /// The same transport as `new` makes.
    fn default() -> (r: StdioTransport)
        ensures
            r.wf(),
            r@ == fresh(),
    {
        StdioTransport { initialized: false, closed: false, channel: Broadcaster::new(CHANNEL_CAPACITY) }
    }
}

} // verus!
