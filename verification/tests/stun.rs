use openpacketloss_server::{run_stun_server, StunAction, StunEvent, StunPeer};

fn request() -> Vec<u8> {
    let mut data = vec![0x00, 0x01, 0x00, 0x00, 0x21, 0x12, 0xa4, 0x42];
    data.extend(1..=12u8);
    data
}

const PEER: StunPeer = StunPeer::V4 { octets: [192, 0, 2, 1], port: 32853 };

fn answer(data: &[u8], from: StunPeer) -> StunAction {
    run_stun_server(StunEvent::Received { data, from })
}

#[test]
fn binding_request_is_answered_byte_for_byte() {
    let StunAction::Reply(response) = answer(&request(), PEER) else {
        panic!("no reply");
    };
    let expected: Vec<u8> = vec![
        0x01, 0x01, 0x00, 0x0c, 0x21, 0x12, 0xa4, 0x42, 1, 2, 3, 4, 5, 6, 7, 8, 9, 10, 11, 12, 0x00,
        0x20, 0x00, 0x08, 0x00, 0x01, 0xa1, 0x47, 0xe1, 0x12, 0xa6, 0x43,
    ];
    assert_eq!(response, expected);
}

#[test]
fn client_reads_its_address_out_of_the_response() {
    for (octets, port) in [([0, 0, 0, 0], 0), ([255, 254, 253, 252], 65535), ([10, 0, 0, 7], 3478)] {
        let StunAction::Reply(r) = answer(&request(), StunPeer::V4 { octets, port }) else {
            panic!("no reply");
        };
        assert_eq!(u16::from_be_bytes([r[26], r[27]]) ^ 0x2112, port);
        assert_eq!([r[28] ^ 0x21, r[29] ^ 0x12, r[30] ^ 0xa4, r[31] ^ 0x42], octets);
        assert_eq!(r[8..20], request()[8..20]);
    }
}

#[test]
fn longer_requests_are_answered_too() {
    let mut data = request();
    data.extend([0x80, 0x28, 0x00, 0x00]);
    assert_eq!(answer(&data, PEER), answer(&request(), PEER));
}

#[test]
fn other_datagrams_are_ignored() {
    assert_eq!(answer(&request()[..19], PEER), StunAction::Ignore);
    assert_eq!(answer(&[], PEER), StunAction::Ignore);
    for i in [0, 1, 4, 5, 6, 7] {
        let mut data = request();
        data[i] ^= 1;
        assert_eq!(answer(&data, PEER), StunAction::Ignore);
    }
    assert_eq!(answer(&request(), StunPeer::V6), StunAction::Ignore);
}

#[test]
fn responses_are_not_answered() {
    let StunAction::Reply(response) = answer(&request(), PEER) else {
        panic!("no reply");
    };
    assert_eq!(answer(&response, PEER), StunAction::Ignore);
}

#[test]
fn socket_failure_is_followed_by_a_rest() {
    assert_eq!(run_stun_server(StunEvent::SocketError), StunAction::Pause { millis: 100 });
}
