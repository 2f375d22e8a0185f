//! The offer handler: which offers are taken up, and what a client is told.

use uuid::Uuid;
use vstd::prelude::*;
use vstd::utf8::encode_utf8;

use crate::channel::{ChannelCounter, SharedCounter};
use crate::config::ConfigView;
use crate::connections::Table;
use crate::negotiation::{OfferSession, OfferStage};
use crate::rejection::{rejection, Rejection, RejectionView, StatusCode};
use crate::state::{holds_place, law_limits, law_place, limit_reached, AppState};

verus! {

/// The longest session description that is taken, in bytes.
pub const MAX_SDP_SIZE: usize = 64 * 1024;

/// What a session description is.
#[derive(Debug, Clone, Copy, PartialEq, Eq, Structural)]
pub enum SdpType {
    Unspecified,
    Offer,
    Pranswer,
    Answer,
    Rollback,
}

/// A session description.
#[derive(Debug, Clone)]
pub struct SessionDescription {
    pub sdp_type: SdpType,
    pub sdp: String,
}

/// A [`SessionDescription`] with its text as a character sequence.
pub struct SessionView {
    pub sdp_type: SdpType,
    pub sdp: Seq<char>,
}

impl View for SessionDescription {
    type V = SessionView;

    open spec fn view(&self) -> SessionView {
        SessionView { sdp_type: self.sdp_type, sdp: self.sdp@ }
    }
}

/// What a client asks with.
#[derive(Debug, Clone)]
pub struct OfferRequest {
    pub sdp: SessionDescription,
}

/// What the server answers with.
#[derive(Debug, Clone)]
pub struct AnswerResponse {
    pub sdp: SessionDescription,
    pub pc_id: String,
}

/// Why a client's description is turned down, if it is: it is too long, or is no offer.
pub open spec fn offer_refusal(offer: SessionView) -> Option<RejectionView> {
    if encode_utf8(offer.sdp).len() > MAX_SDP_SIZE {
        Some(rejection(StatusCode::BadRequest, "SDP exceeds maximum size"@))
    } else if offer.sdp_type != SdpType::Offer {
        Some(rejection(StatusCode::BadRequest, "Invalid SDP type, expected 'offer'"@))
    } else {
        None
    }
}

/// Why a client's offer is turned down at once, if it is: for what it says, or because a
/// limit is reached.
pub open spec fn request_refusal<P>(
    offer: SessionView,
    table: Table<P>,
    config: ConfigView,
    ip: Seq<char>,
) -> Option<RejectionView> {
    match offer_refusal(offer) {
        Some(reason) => Some(reason),
        None => limit_reached(table, config, ip),
    }
}

/// The character is a lower case hexadecimal digit.
pub open spec fn is_lower_hex(c: char) -> bool {
    ('0' <= c && c <= '9') || ('a' <= c && c <= 'f')
}

/// The text is a random UUID in its hyphenated form.
pub open spec fn is_uuid_v4(s: Seq<char>) -> bool {
    &&& s.len() == 36
    &&& forall|i: int|
        0 <= i < 36 ==> if i == 8 || i == 13 || i == 18 || i == 23 {
            #[trigger] s[i] == '-'
        } else {
            is_lower_hex(s[i])
        }
    &&& s[14] == '4'
    &&& s[19] == '8' || s[19] == '9' || s[19] == 'a' || s[19] == 'b'
}

/// Calls `uuid::Uuid::new_v4` and writes the result as text. Claimed of it: the text is
/// a UUID of the fourth version in lower case, with hyphens. Which one it is, is left to
/// chance.
#[verifier::external_body]
fn new_pc_id() -> (id: String)
    ensures
        is_uuid_v4(id@),
{
    Uuid::new_v4().to_string()
}

/// How an offer is taken up: it is turned down and nothing changes, or a place is held
/// under the identifier and the connection is waited for.
pub open spec fn begun<P, F: FnOnce(ChannelCounter) -> SharedCounter>(
    offer: SessionView,
    table: Table<P>,
    config: ConfigView,
    ip: Seq<char>,
    pc_id: Seq<char>,
    now: nat,
    share: F,
    table_after: Table<P>,
    res: Result<OfferSession, Rejection>,
) -> bool {
    match request_refusal(offer, table, config, ip) {
        Some(reason) => {
            &&& res matches Err(e) && e@ == reason
            &&& table_after == table
        },
        None => {
            &&& res matches Ok(session) && session.id() == pc_id && session.awaits()
                == OfferStage::Creating
            &&& holds_place(table, table_after, pc_id, ip, now, share)
        },
    }
}

/// Takes up a client's offer under a given identifier: holds a place for the
/// connection, which is then to be made, or turns the client down. `share`
/// puts the counter of the connection's data channels where its handlers will share it.
pub fn begin_offer<P, F: FnOnce(ChannelCounter) -> SharedCounter>(
    state: &mut AppState<P>,
    offer: &OfferRequest,
    client_ip: &str,
    pc_id: String,
    now: u128,
    share: F,
) -> (res: Result<OfferSession, Rejection>)
    requires
        old(state).wf(),
        forall|counter: ChannelCounter| counter@ == 0 ==> call_requires(share, (counter,)),
    ensures
        final(state).wf(),
        final(state)@.config == old(state)@.config,
        final(state)@.start_time == old(state)@.start_time,
        begun(
            offer.sdp@,
            old(state)@.peer_connections,
            old(state)@.config,
            client_ip@,
            pc_id@,
            now as nat,
            share,
            final(state)@.peer_connections,
            res,
        ),
{
    if offer.sdp.sdp.as_str().as_bytes().len() > MAX_SDP_SIZE {
        return Err(Rejection::new(StatusCode::BadRequest, "SDP exceeds maximum size"));
    }
    if offer.sdp.sdp_type != SdpType::Offer {
        return Err(
            Rejection::new(StatusCode::BadRequest, "Invalid SDP type, expected 'offer'"),
        );
    }
    match state.reserve(pc_id.clone(), client_ip, now, share) {
        Ok(()) => Ok(OfferSession::new(pc_id)),
        Err(rejection) => Err(rejection),
    }
}

/// Takes up a client's offer under an identifier of its own: holds a place for the
/// connection, which is then to be made, or turns the client down. `share`
/// puts the counter of the connection's data channels where its handlers will share it.
pub fn handle_offer_internal<P, F: FnOnce(ChannelCounter) -> SharedCounter>(
    state: &mut AppState<P>,
    offer: &OfferRequest,
    client_ip: &str,
    now: u128,
    share: F,
) -> (res: Result<OfferSession, Rejection>)
    requires
        old(state).wf(),
        forall|counter: ChannelCounter| counter@ == 0 ==> call_requires(share, (counter,)),
    ensures
        final(state).wf(),
        final(state)@.config == old(state)@.config,
        final(state)@.start_time == old(state)@.start_time,
        exists|pc_id: Seq<char>|
            is_uuid_v4(pc_id) && #[trigger] begun(
                offer.sdp@,
                old(state)@.peer_connections,
                old(state)@.config,
                client_ip@,
                pc_id,
                now as nat,
                share,
                final(state)@.peer_connections,
                res,
            ),
{
    begin_offer(state, offer, client_ip, new_pc_id(), now, share)
}

/// The answer to a request, by view.
pub open spec fn answer_view(res: Result<AnswerResponse, Rejection>) -> Result<
    (SessionView, Seq<char>),
    RejectionView,
> {
    match res {
        Ok(answer) => Ok((answer.sdp@, answer.pc_id@)),
        Err(e) => Err(e@),
    }
}

/// What the client is told: what the negotiation has come to, or that it took too long
/// where it has come to nothing in the time for a whole request.
pub fn handle_offer(outcome: Option<Result<AnswerResponse, Rejection>>) -> (res: Result<
    AnswerResponse,
    Rejection,
>)
    ensures
        match outcome {
            Some(finished) => res == finished,
            None => answer_view(res) == Err::<(SessionView, Seq<char>), RejectionView>(
                rejection(StatusCode::RequestTimeout, "Request processing timed out"@),
            ),
        },
{
    match outcome {
        Some(finished) => finished,
        None => Err(Rejection::new(StatusCode::RequestTimeout, "Request processing timed out")),
    }
}

/// An offer is taken up exactly where it is of the type offer, takes up at most 65536 bytes
/// in UTF-8, whatever it says, and neither limit is reached. What is wrong with the
/// description itself is told first, its length before its type.
pub proof fn law_offer_is_taken_up<P>(
    offer: SessionView,
    table: Table<P>,
    config: ConfigView,
    ip: Seq<char>,
)
    ensures
        ({
            let bytes = encode_utf8(offer.sdp).len();
            let total = table.dom().len();
            let own = table.dom().filter(|id: Seq<char>| table[id].client_ip == ip).len();
            let refusal = request_refusal(offer, table, config, ip);
            &&& refusal is None <==> bytes <= 65536 && offer.sdp_type == SdpType::Offer && total
                < config.max_connections && own < config.max_connections_per_ip
            &&& bytes > 65536 ==> {
                refusal matches Some(r) && r.status == StatusCode::BadRequest && r.message
                    == "SDP exceeds maximum size"@
            }
            &&& bytes <= 65536 && offer.sdp_type != SdpType::Offer ==> {
                refusal matches Some(r) && r.status == StatusCode::BadRequest && r.message
                    == "Invalid SDP type, expected 'offer'"@
            }
            &&& bytes <= 65536 && offer.sdp_type == SdpType::Offer && total
                >= config.max_connections ==> {
                refusal matches Some(r) && r.status == StatusCode::ServiceUnavailable && r.message
                    == "Server at capacity, try again later"@
            }
            &&& bytes <= 65536 && offer.sdp_type == SdpType::Offer && total
                < config.max_connections && own >= config.max_connections_per_ip ==> {
                refusal matches Some(r) && r.status == StatusCode::TooManyRequests && r.message
                    == "Too many connections from your IP"@
            }
        }),
{
    law_limits(table, config, ip);
}

/// What comes of an offer. One that is right and within the limits has a place in the
/// table and a negotiation that waits for its connection; any other leaves the table alone
/// and is told why.
pub proof fn law_offer_outcome<P, F: FnOnce(ChannelCounter) -> SharedCounter>(
    offer: SessionView,
    table: Table<P>,
    config: ConfigView,
    ip: Seq<char>,
    pc_id: Seq<char>,
    now: nat,
    share: F,
    table_after: Table<P>,
    res: Result<OfferSession, Rejection>,
    other: Seq<char>,
)
    requires
        begun(offer, table, config, ip, pc_id, now, share, table_after, res),
    ensures
        ({
            let taken_up = encode_utf8(offer.sdp).len() <= 65536 && offer.sdp_type
                == SdpType::Offer && table.dom().len() < config.max_connections
                && table.dom().filter(|id: Seq<char>| table[id].client_ip == ip).len()
                < config.max_connections_per_ip;
            &&& res is Ok <==> taken_up
            &&& res matches Ok(session) ==> {
                &&& session.id() == pc_id
                &&& session.awaits() == OfferStage::Creating
                &&& table_after.dom().contains(pc_id)
                &&& table_after[pc_id].peer_connection is None
                &&& table_after[pc_id].created_at == now
                &&& table_after[pc_id].client_ip == ip
                &&& other != pc_id ==> (table_after.dom().contains(other)
                    <==> table.dom().contains(other))
                &&& other != pc_id && table.dom().contains(other) ==> table_after[other]
                    == table[other]
            }
            &&& res matches Err(e) ==> {
                &&& table_after == table
                &&& request_refusal(offer, table, config, ip) == Some(
                    (RejectionView { status: e.status, message: e.message@ }),
                )
            }
        }),
{
    law_offer_is_taken_up(offer, table, config, ip);
    if res is Ok {
        law_place(table, table_after, pc_id, ip, now, share, other);
    }
}

/// Descriptions and answers are told by all of their fields.
pub proof fn law_description_view(sdp: SessionDescription, answer: AnswerResponse, e: Rejection)
    ensures
        sdp@.sdp_type == sdp.sdp_type,
        sdp@.sdp == sdp.sdp@,
        answer_view(Ok(answer)) == Ok::<(SessionView, Seq<char>), RejectionView>(
            (answer.sdp@, answer.pc_id@),
        ),
        answer_view(Err(e)) == Err::<(SessionView, Seq<char>), RejectionView>(
            (RejectionView { status: e.status, message: e.message@ }),
        ),
{
}

/// A random UUID is written in thirty-six characters: five groups of lower case hexadecimal
/// digits with hyphens between them, the third of which begins with 4, and the fourth with
/// 8, 9, a or b.
pub proof fn law_uuid(s: Seq<char>, i: int)
    requires
        is_uuid_v4(s),
        0 <= i < 36,
    ensures
        s.len() == 36,
        i == 8 || i == 13 || i == 18 || i == 23 ==> s[i] == '-',
        i != 8 && i != 13 && i != 18 && i != 23 ==> '0' <= s[i] <= '9' || 'a' <= s[i] <= 'f',
        s[14] == '4',
        s[19] == '8' || s[19] == '9' || s[19] == 'a' || s[19] == 'b',
{
}

} // verus!
