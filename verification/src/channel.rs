//! Data channels: how many a connection may have, and what is sent back on them.

use std::sync::{Arc, Mutex};

use vstd::prelude::*;

verus! {

/// The longest message that is answered, in bytes.
pub const MAX_MESSAGE_SIZE: usize = 64 * 1024;

/// The most data channels that one connection may have open.
pub const MAX_DATA_CHANNELS_PER_PC: usize = 10;

/// What becomes of a data channel that a client has opened.
#[derive(Debug, Clone, Copy, PartialEq, Eq, Structural)]
pub enum ChannelAdmission {
    /// It is served, as the channel with this number among those now open.
    Accepted { total: usize },
    /// It is not served, and no longer counted.
    Refused,
}

/// What becomes of a new data channel, where `previous` channels of its connection were
/// counted just before it.
pub open spec fn admission(previous: nat) -> ChannelAdmission {
    if previous < MAX_DATA_CHANNELS_PER_PC {
        ChannelAdmission::Accepted { total: (previous + 1) as usize }
    } else {
        ChannelAdmission::Refused
    }
}

/// How many channels of a connection are served after a client has opened one more, where
/// `previous` were before: one more, but never more than the limit.
pub open spec fn count_opened(previous: nat) -> nat {
    if previous < MAX_DATA_CHANNELS_PER_PC {
        previous + 1
    } else {
        previous
    }
}

/// The data channels of one connection that are served.
#[derive(Debug)]
pub struct ChannelCounter {
    served: usize,
}

impl View for ChannelCounter {
    type V = nat;

    closed spec fn view(&self) -> nat {
        self.served as nat
    }
}

impl ChannelCounter {
    #[verifier::type_invariant]
    spec fn within_limit(self) -> bool {
        self.served <= MAX_DATA_CHANNELS_PER_PC
    }

    /// The counter of a new connection.
    pub fn new() -> (counter: ChannelCounter)
        ensures
            counter@ == 0,
    {
        ChannelCounter { served: 0 }
    }

    /// How many channels are served.
    pub fn served(&self) -> (n: usize)
        ensures
            n == self@,
            n <= MAX_DATA_CHANNELS_PER_PC,
            n <= 10,
    {
        proof {
            use_type_invariant(self);
        }
        self.served
    }

    /// Takes note of a channel that a client has opened, and decides about it.
    pub fn opened(&mut self) -> (res: ChannelAdmission)
        ensures
            res == admission(old(self)@),
            final(self)@ == count_opened(old(self)@),
            final(self)@ <= MAX_DATA_CHANNELS_PER_PC,
            old(self)@ < 10 ==> final(self)@ == old(self)@ + 1 && (res matches
                ChannelAdmission::Accepted { total } && total == final(self)@),
            old(self)@ == 10 ==> final(self)@ == 10 && res is Refused,
    {
        proof {
            use_type_invariant(&*self);
        }
        if self.served >= MAX_DATA_CHANNELS_PER_PC {
            ChannelAdmission::Refused
        } else {
            self.served = self.served + 1;
            ChannelAdmission::Accepted { total: self.served }
        }
    }

    /// Takes note that a channel which was served has closed.
    pub fn closed(&mut self)
        requires
            old(self)@ > 0,
        ensures
            final(self)@ == old(self)@ - 1,
            final(self)@ < MAX_DATA_CHANNELS_PER_PC,
    {
        proof {
            use_type_invariant(&*self);
        }
        self.served = self.served - 1;
    }
}

/// Declares `std::sync::Mutex`, of which nothing is claimed.
#[verifier::external_type_specification]
#[verifier::external_body]
#[verifier::reject_recursive_types(T)]
pub struct ExMutex<T: ?Sized>(Mutex<T>);

/// A counter that the handlers of a connection share.
pub type SharedCounter = Arc<Mutex<ChannelCounter>>;

/// `shared` is what `share` may make of the counter of a new connection.
pub open spec fn is_fresh<F: FnOnce(ChannelCounter) -> SharedCounter>(
    share: F,
    shared: SharedCounter,
) -> bool {
    exists|counter: ChannelCounter| counter@ == 0 && #[trigger] call_ensures(
        share,
        (counter,),
        shared,
    )
}

/// What happens to the data channels of a connection.
pub enum ChannelEvent {
    /// A client opens one.
    Opened,
    /// One that is served closes.
    Closed,
}

/// Where the counter of a new connection stands after a number of events, or `None` where
/// a channel is said to close and none is served.
pub open spec fn channels_served(events: Seq<ChannelEvent>) -> Option<nat>
    decreases events.len(),
{
    if events.len() == 0 {
        Some(0)
    } else {
        match (channels_served(events.drop_last()), events.last()) {
            (None, _) => None,
            (Some(n), ChannelEvent::Opened) => Some(count_opened(n)),
            (Some(n), ChannelEvent::Closed) => if n > 0 {
                Some((n - 1) as nat)
            } else {
                None
            },
        }
    }
}

/// However a client opens and closes channels, its connection never has more of them
/// served than the limit. A channel is refused only when the limit is reached, which does
/// not change the count, and once one of the others has closed, the next is served.
pub proof fn law_channel_limit(events: Seq<ChannelEvent>)
    ensures
        channels_served(events) matches Some(n) ==> {
            &&& n <= MAX_DATA_CHANNELS_PER_PC
            &&& admission(n) is Refused <==> n == MAX_DATA_CHANNELS_PER_PC
            &&& admission(n) is Refused <==> count_opened(n) == n
            &&& n > 0 ==> admission((n - 1) as nat) == (ChannelAdmission::Accepted {
                total: n as usize,
            })
        },
    decreases events.len(),
{
    if events.len() > 0 {
        law_channel_limit(events.drop_last());
    }
}

/// A numbered packet of a test, as a client sends it and gets it back.
#[derive(Debug, Clone)]
pub struct PingMessage {
    /// The client's number for the packet.
    pub seq: usize,
    /// When the client sent it.
    pub timestamp: u64,
    /// How many packets the server had received on the channel, this one included.
    pub s_rx: usize,
    /// Whatever else the client put in.
    pub data: Option<String>,
}

/// A [`PingMessage`] with its text as a character sequence.
pub struct PingView {
    pub seq: nat,
    pub timestamp: nat,
    pub s_rx: nat,
    pub data: Option<Seq<char>>,
}

impl View for PingMessage {
    type V = PingView;

    open spec fn view(&self) -> PingView {
        PingView {
            seq: self.seq as nat,
            timestamp: self.timestamp as nat,
            s_rx: self.s_rx as nat,
            data: self.data.deep_view(),
        }
    }
}

/// What a message is answered with.
#[derive(Debug, Clone)]
pub enum MessageReply {
    /// Nothing: the message is dropped.
    Dropped,
    /// The packet, with the server's count.
    Ping(PingMessage),
    /// The same bytes.
    Raw(Vec<u8>),
}

/// A [`MessageReply`] by view.
pub enum ReplyView {
    Dropped,
    Ping(PingView),
    Raw(Seq<u8>),
}

impl View for MessageReply {
    type V = ReplyView;

    open spec fn view(&self) -> ReplyView {
        match self {
            MessageReply::Dropped => ReplyView::Dropped,
            MessageReply::Ping(ping) => ReplyView::Ping(ping@),
            MessageReply::Raw(bytes) => ReplyView::Raw(bytes@),
        }
    }
}

/// A message's bytes, and the packet that they spell out, if they do.
pub type Incoming = (Seq<u8>, Option<PingView>);

/// The message counts as a received packet: it is not too long, and is a packet.
pub open spec fn is_counted(message: Incoming) -> bool {
    message.0.len() <= MAX_MESSAGE_SIZE && message.1 is Some
}

/// The answer to a message, where `received` packets have been counted before it.
pub open spec fn reply_to(message: Incoming, received: nat) -> ReplyView {
    if message.0.len() > MAX_MESSAGE_SIZE {
        ReplyView::Dropped
    } else {
        match message.1 {
            Some(ping) => ReplyView::Ping(PingView { s_rx: received + 1, ..ping }),
            None => ReplyView::Raw(message.0),
        }
    }
}

/// The packets received on one data channel.
#[derive(Debug)]
pub struct PacketCounter {
    pub received: usize,
}

impl PacketCounter {
    /// The counter of a new channel.
    pub fn new() -> (counter: PacketCounter)
        ensures
            counter.received == 0,
    {
        PacketCounter { received: 0 }
    }

    /// Tells whether a message is short enough to be answered at all.
    pub fn fits(len: usize) -> (yes: bool)
        ensures
            yes == (len <= MAX_MESSAGE_SIZE),
            yes == (len <= 65536),
    {
        len <= MAX_MESSAGE_SIZE
    }

    /// Answers a message. `ping` is the packet that its bytes spell out, if they do.
    pub fn on_message(&mut self, data: &[u8], ping: Option<PingMessage>) -> (reply: MessageReply)
        requires
            is_counted((data@, ping_view(ping))) ==> old(self).received < usize::MAX,
        ensures
            reply@ == reply_to((data@, ping_view(ping)), old(self).received as nat),
            final(self).received == old(self).received + if is_counted((data@, ping_view(ping))) {
                1int
            } else {
                0int
            },
            data@.len() > 65536 ==> reply is Dropped && final(self).received == old(self).received,
            data@.len() <= 65536 && ping is None ==> {
                &&& reply matches MessageReply::Raw(bytes) && bytes@ == data@
                &&& final(self).received == old(self).received
            },
            data@.len() <= 65536 && ping is Some ==> {
                &&& final(self).received == old(self).received + 1
                &&& reply matches MessageReply::Ping(back) && {
                    &&& back.s_rx == final(self).received
                    &&& back.seq == ping->0.seq
                    &&& back.timestamp == ping->0.timestamp
                    &&& back.data == ping->0.data
                }
            },
    {
        if !Self::fits(data.len()) {
            return MessageReply::Dropped;
        }
        match ping {
            Some(ping) => {
                self.received = self.received + 1;
                MessageReply::Ping(
                    PingMessage {
                        seq: ping.seq,
                        timestamp: ping.timestamp,
                        s_rx: self.received,
                        data: ping.data,
                    },
                )
            },
            None => {
                let bytes: Vec<u8> = vstd::slice::slice_to_vec(data);
                MessageReply::Raw(bytes)
            },
        }
    }
}

/// The packet by view, where there is one.
pub open spec fn ping_view(ping: Option<PingMessage>) -> Option<PingView> {
    match ping {
        Some(ping) => Some(ping@),
        None => None,
    }
}

/// How many packets a new channel's counter stands at after a number of messages.
pub open spec fn received_after(messages: Seq<Incoming>) -> nat {
    messages.filter(|m: Incoming| is_counted(m)).len()
}

/// The answers to a number of messages on a new channel.
pub open spec fn replies(messages: Seq<Incoming>) -> Seq<ReplyView> {
    Seq::new(
        messages.len(),
        |i: int| reply_to(messages[i], received_after(messages.take(i))),
    )
}

/// After one more message the count is one higher if it is a packet that fits, and the
/// same if not: answering messages one by one keeps the count of all of them.
pub proof fn law_received_step(messages: Seq<Incoming>, message: Incoming)
    ensures
        received_after(messages.push(message)) == received_after(messages) + if is_counted(
            message,
        ) {
            1nat
        } else {
            0nat
        },
        message.0.len() <= 65536 && message.1 is Some ==> received_after(messages.push(message))
            == received_after(messages) + 1,
        message.0.len() > 65536 || message.1 is None ==> received_after(messages.push(message))
            == received_after(messages),
        received_after(Seq::empty()) == 0,
{
    reveal(Seq::filter);
    assert(messages.push(message).drop_last() =~= messages);
}

/// Of the messages on a channel, each packet that fits comes back unchanged but for the
/// server's count, which is the number of such packets up to it; every other message
/// that fits comes back byte for byte; and one that is too long is not answered.
pub proof fn law_replies(messages: Seq<Incoming>, i: int)
    requires
        0 <= i < messages.len(),
    ensures
        is_counted(messages[i]) ==> replies(messages)[i] == ReplyView::Ping(
            PingView { s_rx: received_after(messages.take(i + 1)), ..messages[i].1->0 },
        ),
        messages[i].0.len() <= MAX_MESSAGE_SIZE && messages[i].1 is None ==> replies(messages)[i]
            == ReplyView::Raw(messages[i].0),
        messages[i].0.len() > MAX_MESSAGE_SIZE ==> replies(messages)[i] == ReplyView::Dropped,
        messages[i].0.len() <= 65536 && messages[i].1 is Some ==> {
            &&& received_after(messages.take(i + 1)) == received_after(messages.take(i)) + 1
            &&& replies(messages)[i] matches ReplyView::Ping(back) && {
                &&& back.s_rx == received_after(messages.take(i + 1))
                &&& back.seq == messages[i].1->0.seq
                &&& back.timestamp == messages[i].1->0.timestamp
                &&& back.data == messages[i].1->0.data
            }
        },
        messages[i].0.len() <= 65536 && messages[i].1 is None ==> replies(messages)[i]
            == ReplyView::Raw(messages[i].0),
        messages[i].0.len() > 65536 ==> replies(messages)[i] is Dropped,
{
    law_received_step(messages.take(i), messages[i]);
    assert(messages.take(i).push(messages[i]) =~= messages.take(i + 1));
}

/// The answer to any one message. A packet of up to 65536 bytes, whatever its fields, comes
/// back as it is but for the server's count, which is one more than before; anything else
/// of that length comes back byte for byte; and nothing longer is answered.
pub proof fn law_reply(bytes: Seq<u8>, packet: Option<PingView>, received: nat)
    ensures
        bytes.len() > 65536 ==> reply_to((bytes, packet), received) is Dropped,
        bytes.len() <= 65536 && packet is None ==> reply_to((bytes, packet), received)
            == ReplyView::Raw(bytes),
        bytes.len() <= 65536 && packet is Some ==> {
            &&& reply_to((bytes, packet), received) matches ReplyView::Ping(back) && {
                &&& back.s_rx == received + 1
                &&& back.seq == packet->0.seq
                &&& back.timestamp == packet->0.timestamp
                &&& back.data == packet->0.data
            }
        },
        is_counted((bytes, packet)) <==> bytes.len() <= 65536 && packet is Some,
{
}

/// Packets and replies are told by all of their fields.
pub proof fn law_packet_view(ping: PingMessage, bytes: Vec<u8>)
    ensures
        ping@.seq == ping.seq,
        ping@.timestamp == ping.timestamp,
        ping@.s_rx == ping.s_rx,
        ping.data matches Some(text) ==> ping@.data == Some(text@),
        ping.data is None ==> ping@.data is None,
        ping_view(Some(ping)) == Some(ping@),
        ping_view(None) is None,
        MessageReply::Ping(ping)@ == ReplyView::Ping(ping@),
        MessageReply::Raw(bytes)@ == ReplyView::Raw(bytes@),
        MessageReply::Dropped@ == ReplyView::Dropped,
{
}

/// A channel is served where fewer than ten are, and counted as one more; where ten are
/// already, it is refused and the count stays. What closes is counted off.
pub proof fn law_channel_step(events: Seq<ChannelEvent>, previous: nat)
    ensures
        previous < 10 ==> admission(previous) == (ChannelAdmission::Accepted {
            total: (previous + 1) as usize,
        }) && count_opened(previous) == previous + 1,
        previous >= 10 ==> admission(previous) is Refused && count_opened(previous) == previous,
        channels_served(Seq::empty()) == Some(0nat),
        channels_served(events) matches Some(n) ==> {
            &&& n < 10 ==> channels_served(events.push(ChannelEvent::Opened)) == Some(n + 1)
            &&& n == 10 ==> channels_served(events.push(ChannelEvent::Opened)) == Some(n)
            &&& n > 0 ==> channels_served(events.push(ChannelEvent::Closed)) == Some(
                (n - 1) as nat,
            )
        },
{
    assert(events.push(ChannelEvent::Opened).drop_last() =~= events);
    assert(events.push(ChannelEvent::Closed).drop_last() =~= events);
}

/// The counter of a new connection is shared as it is made, with nothing counted.
pub proof fn law_fresh_counter<F: FnOnce(ChannelCounter) -> SharedCounter>(
    share: F,
    shared: SharedCounter,
)
    requires
        is_fresh(share, shared),
    ensures
        exists|counter: ChannelCounter| counter@ == 0 && #[trigger] call_ensures(
            share,
            (counter,),
            shared,
        ),
{
}

} // verus!
