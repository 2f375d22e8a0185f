//! The built-in STUN server: which datagrams are answered, and with which bytes.

use vstd::prelude::*;

verus! {

/// The most bytes that are taken of one datagram.
pub const STUN_BUFFER_SIZE: usize = 1500;

/// How long the server rests after its socket has failed, in milliseconds.
pub const STUN_ERROR_PAUSE_MILLIS: u64 = 100;

/// The address that a datagram comes from.
#[derive(Debug, Clone, Copy, PartialEq, Eq)]
pub enum StunPeer {
    V4 { octets: [u8; 4], port: u16 },
    V6,
}

/// What the server's socket has come back with.
pub enum StunEvent<'a> {
    Received { data: &'a [u8], from: StunPeer },
    SocketError,
}

/// What the server does next, before it listens again.
#[derive(Debug, Clone, PartialEq, Eq)]
pub enum StunAction {
    /// Nothing.
    Ignore,
    /// Send these bytes to the address that the datagram came from.
    Reply(Vec<u8>),
    /// Rest for a while.
    Pause { millis: u64 },
}

/// The four bytes that mark a message as STUN.
pub open spec fn magic_cookie() -> Seq<u8> {
    seq![0x21u8, 0x12u8, 0xa4u8, 0x42u8]
}

/// The datagram is a STUN binding request: it holds a whole header, with the magic
/// cookie in its place and the message type of a binding request.
pub open spec fn is_binding_request(data: Seq<u8>) -> bool {
    &&& data.len() >= 20
    &&& data.subrange(4, 8) == magic_cookie()
    &&& data.subrange(0, 2) == seq![0x00u8, 0x01u8]
}

/// The twelve bytes by which a client knows the answer to its request.
pub open spec fn transaction_id(message: Seq<u8>) -> Seq<u8> {
    message.subrange(8, 20)
}

/// The success response to a binding request: a header that announces twelve bytes,
/// with the request's transaction, then one attribute, the client's IPv4 address, its
/// port and octets masked by the magic cookie.
pub open spec fn binding_response(transaction: Seq<u8>, octets: Seq<u8>, port: u16) -> Seq<u8> {
    let masked = port ^ 0x2112u16;
    seq![0x01u8, 0x01u8, 0x00u8, 0x0cu8] + magic_cookie() + transaction + seq![
        0x00u8,
        0x20u8,
        0x00u8,
        0x08u8,
        0x00u8,
        0x01u8,
        (masked / 256) as u8,
        (masked % 256) as u8,
        octets[0] ^ 0x21u8,
        octets[1] ^ 0x12u8,
        octets[2] ^ 0xa4u8,
        octets[3] ^ 0x42u8,
    ]
}

/// The port that a client reads out of a binding response.
pub open spec fn response_port(response: Seq<u8>) -> u16 {
    ((response[26] * 256 + response[27]) as u16) ^ 0x2112u16
}

/// The address octets that a client reads out of a binding response.
pub open spec fn response_octets(response: Seq<u8>) -> Seq<u8> {
    seq![
        response[28] ^ 0x21u8,
        response[29] ^ 0x12u8,
        response[30] ^ 0xa4u8,
        response[31] ^ 0x42u8,
    ]
}

/// The bytes that an event is answered with, if it is: a binding request that comes over
/// IPv4 is, and nothing else.
pub open spec fn stun_reply(event: StunEvent) -> Option<Seq<u8>> {
    match event {
        StunEvent::Received { data, from: StunPeer::V4 { octets, port } } => if is_binding_request(
            data@,
        ) {
            Some(binding_response(transaction_id(data@), octets@, port))
        } else {
            None
        },
        _ => None,
    }
}

/// One round of the STUN server: it answers binding requests that come over IPv4, ignores
/// every other datagram, and rests after a failure of its socket.
pub fn run_stun_server(event: StunEvent<'_>) -> (action: StunAction)
    ensures
        match action {
            StunAction::Reply(bytes) => stun_reply(event) == Some(bytes@),
            StunAction::Ignore => event is Received && stun_reply(event) is None,
            StunAction::Pause { millis } => event is SocketError && millis
                == STUN_ERROR_PAUSE_MILLIS && millis == 100,
        },
{
    match event {
        StunEvent::SocketError => StunAction::Pause { millis: STUN_ERROR_PAUSE_MILLIS },
        StunEvent::Received { data, from } => {
            if data.len() < 20 {
                return StunAction::Ignore;
            }
            if data[4] != 0x21 || data[5] != 0x12 || data[6] != 0xa4 || data[7] != 0x42 {
                assert(data@.subrange(4, 8)[0] == data@[4]);
                assert(data@.subrange(4, 8)[1] == data@[5]);
                assert(data@.subrange(4, 8)[2] == data@[6]);
                assert(data@.subrange(4, 8)[3] == data@[7]);
                return StunAction::Ignore;
            }
            if data[0] != 0x00 || data[1] != 0x01 {
                assert(data@.subrange(0, 2)[0] == data@[0]);
                assert(data@.subrange(0, 2)[1] == data@[1]);
                return StunAction::Ignore;
            }
            assert(data@.subrange(4, 8) =~= magic_cookie());
            assert(data@.subrange(0, 2) =~= seq![0x00u8, 0x01u8]);
            match from {
                StunPeer::V6 => StunAction::Ignore,
                StunPeer::V4 { octets, port } => {
                    let response: Vec<u8> = encode_response(data, octets, port);
                    StunAction::Reply(response)
                },
            }
        },
    }
}

fn encode_response(request: &[u8], octets: [u8; 4], port: u16) -> (response: Vec<u8>)
    requires
        request@.len() >= 20,
    ensures
        response@ == binding_response(transaction_id(request@), octets@, port),
{
    let masked: u16 = port ^ 0x2112;
    let mut response: Vec<u8> = vec![0x01, 0x01, 0x00, 0x0c, 0x21, 0x12, 0xa4, 0x42];
    let mut i: usize = 8;
    while i < 20
        invariant
            8 <= i <= 20,
            request@.len() >= 20,
            response@ =~= seq![0x01u8, 0x01u8, 0x00u8, 0x0cu8] + magic_cookie()
                + request@.subrange(8, i as int),
        decreases 20 - i,
    {
        response.push(request[i]);
        i = i + 1;
    }
    let mut attribute: Vec<u8> = vec![
        0x00,
        0x20,
        0x00,
        0x08,
        0x00,
        0x01,
        (masked / 256) as u8,
        (masked % 256) as u8,
        octets[0] ^ 0x21,
        octets[1] ^ 0x12,
        octets[2] ^ 0xa4,
        octets[3] ^ 0x42,
    ];
    response.append(&mut attribute);
    response
}

/// A client finds its own transaction, port and address in the response to its request.
pub proof fn law_response_tells_address(transaction: Seq<u8>, octets: Seq<u8>, port: u16)
    requires
        transaction.len() == 12,
        octets.len() == 4,
    ensures
        ({
            let response = binding_response(transaction, octets, port);
            &&& transaction_id(response) == transaction
            &&& response_port(response) == port
            &&& response_octets(response) == octets
        }),
{
    let response = binding_response(transaction, octets, port);
    assert(transaction_id(response) =~= transaction);
    let masked = port ^ 0x2112u16;
    assert(response[26] * 256 + response[27] == masked);
    assert(masked ^ 0x2112u16 == port) by (bit_vector)
        requires
            masked == port ^ 0x2112u16,
    ;
    assert forall|a: u8, k: u8| #[trigger] ((a ^ k) ^ k) == a by {
        assert((a ^ k) ^ k == a) by (bit_vector);
    }
    assert(response_octets(response) =~= octets);
}

/// A response is a STUN message of thirty-two bytes, twelve of them after the header,
/// as the header says, and is itself no request: two servers never answer each other.
pub proof fn law_response_is_no_request(transaction: Seq<u8>, octets: Seq<u8>, port: u16)
    requires
        transaction.len() == 12,
        octets.len() == 4,
    ensures
        ({
            let response = binding_response(transaction, octets, port);
            &&& response.len() == 32
            &&& response[2] * 256 + response[3] == response.len() - 20
            &&& response.subrange(4, 8) == magic_cookie()
            &&& !is_binding_request(response)
        }),
{
    let response = binding_response(transaction, octets, port);
    assert(response.subrange(4, 8) =~= magic_cookie());
    assert(response.subrange(0, 2)[0] == 0x01);
}

/// A datagram is answered exactly where it comes over IPv4, is at least twenty bytes long,
/// has the type 0x0001 and the magic cookie 0x2112a442.
pub proof fn law_requests_are_answered(event: StunEvent)
    ensures
        STUN_BUFFER_SIZE == 1500,
        event is SocketError ==> stun_reply(event) is None,
        event matches StunEvent::Received { data, from } ==> {
            stun_reply(event) is Some <==> {
                &&& from is V4
                &&& data@.len() >= 20
                &&& data@[0] == 0x00
                &&& data@[1] == 0x01
                &&& data@[4] == 0x21
                &&& data@[5] == 0x12
                &&& data@[6] == 0xa4
                &&& data@[7] == 0x42
            }
        },
{
    if let StunEvent::Received { data, .. } = event {
        if data@.len() >= 20 {
            assert(data@.subrange(0, 2)[0] == data@[0]);
            assert(data@.subrange(0, 2)[1] == data@[1]);
            assert(data@.subrange(4, 8)[0] == data@[4]);
            assert(data@.subrange(4, 8)[1] == data@[5]);
            assert(data@.subrange(4, 8)[2] == data@[6]);
            assert(data@.subrange(4, 8)[3] == data@[7]);
            if data@[0] == 0x00 && data@[1] == 0x01 {
                assert(data@.subrange(0, 2) =~= seq![0x00u8, 0x01u8]);
            }
            if data@[4] == 0x21 && data@[5] == 0x12 && data@[6] == 0xa4 && data@[7] == 0x42 {
                assert(data@.subrange(4, 8) =~= magic_cookie());
            }
        }
    }
}

/// The answer to whatever is answered is a binding success response (type 0x0101) of
/// twenty bytes of header and twelve of contents, with the cookie and the transaction of
/// the request, and one attribute: an XOR-MAPPED-ADDRESS (type 0x0020) of eight bytes,
/// of the family IPv4, whose port and octets are the client's once the cookie is taken
/// off them again.
pub proof fn law_answer_is_a_mapped_address(data: &[u8], octets: [u8; 4], port: u16)
    ensures
        stun_reply(
            (StunEvent::Received { data, from: StunPeer::V4 { octets, port } }),
        ) matches Some(answer) ==> {
            &&& answer.len() == 32
            &&& answer[0] == 0x01
            &&& answer[1] == 0x01
            &&& answer[2] == 0x00
            &&& answer[3] == 0x0c
            &&& forall|i: int| 4 <= i < 20 ==> #[trigger] answer[i] == data@[i]
            &&& answer[20] == 0x00
            &&& answer[21] == 0x20
            &&& answer[22] == 0x00
            &&& answer[23] == 0x08
            &&& answer[24] == 0x00
            &&& answer[25] == 0x01
            &&& ((answer[26] * 256 + answer[27]) as u16) ^ 0x2112u16 == port
            &&& answer[28] ^ 0x21u8 == octets@[0]
            &&& answer[29] ^ 0x12u8 == octets@[1]
            &&& answer[30] ^ 0xa4u8 == octets@[2]
            &&& answer[31] ^ 0x42u8 == octets@[3]
        },
{
    let event = StunEvent::Received { data, from: StunPeer::V4 { octets, port } };
    if stun_reply(event) is Some {
        let answer = stun_reply(event)->0;
        let transaction = transaction_id(data@);
        assert(answer == binding_response(transaction, octets@, port));
        assert forall|i: int| 4 <= i < 20 implies #[trigger] answer[i] == data@[i] by {
            if i < 8 {
                assert(answer[i] == magic_cookie()[i - 4]);
                assert(data@.subrange(4, 8)[i - 4] == data@[i]);
            } else {
                assert(answer[i] == transaction[i - 8]);
            }
        }
        let masked = port ^ 0x2112u16;
        assert(answer[26] * 256 + answer[27] == masked);
        assert(masked ^ 0x2112u16 == port) by (bit_vector)
            requires
                masked == port ^ 0x2112u16,
        ;
        assert forall|a: u8, k: u8| #[trigger] ((a ^ k) ^ k) == a by {
            assert((a ^ k) ^ k == a) by (bit_vector);
        }
    }
}

} // verus!
