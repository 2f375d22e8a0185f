use std::sync::{Arc, Mutex};

use openpacketloss_server::{ChannelCounter, SharedCounter};
use openpacketloss_server::{begin_offer, handle_offer, handle_offer_internal, AnswerResponse};
use openpacketloss_server::{AppState, GatheringGate, GatheringOutcome, OfferAction, OfferEvent};
use openpacketloss_server::{OfferRequest, OfferSession, OfferStage, PlatformMode, Rejection};
use openpacketloss_server::{SdpType, ServerConfig, SessionDescription, StatusCode, MAX_SDP_SIZE};

fn server(per_ip: usize) -> AppState<u8> {
    let config = ServerConfig {
        port: "8080".to_string(),
        stun_port: "3478".to_string(),
        stun_url: "stun:127.0.0.1:3478".to_string(),
        stun_enabled: true,
        platform_mode: PlatformMode::SelfHosted,
        max_connections: 3,
        max_connections_per_ip: per_ip,
        ice_gathering_timeout: 17,
        overall_request_timeout: 30,
        periodic_cleanup_interval: 5,
        stale_connection_age: 120,
        nat_1to1_ip: None,
        ice_port_range: None,
    };
    AppState::new(config, 0)
}

fn share(counter: ChannelCounter) -> SharedCounter {
    Arc::new(Mutex::new(counter))
}

fn description(sdp_type: SdpType, sdp: &str) -> SessionDescription {
    SessionDescription { sdp_type, sdp: sdp.to_string() }
}

fn offer() -> OfferRequest {
    OfferRequest { sdp: description(SdpType::Offer, "v=0") }
}

fn total(state: &AppState<u8>) -> usize {
    state.health_check(0).total_connections
}

fn begun(state: &mut AppState<u8>) -> OfferSession {
    begin_offer(state, &offer(), "1.1.1.1", "the id".to_string(), 5, share).unwrap()
}

/// The events that lead to a stage, one by one.
fn session_at(state: &mut AppState<u8>, stage: OfferStage) -> OfferSession {
    let mut session = begun(state);
    while session.stage() != stage {
        let event = match session.stage() {
            OfferStage::Creating => OfferEvent::ConnectionCreated(Some(1)),
            OfferStage::ApplyingOffer => OfferEvent::OfferApplied { ok: true },
            OfferStage::CreatingAnswer => OfferEvent::AnswerCreated { ok: true },
            OfferStage::ApplyingAnswer => OfferEvent::AnswerApplied { ok: true },
            OfferStage::Gathering => OfferEvent::Gathered(GatheringOutcome::Complete),
            other => panic!("stage {:?} is not on the way", other),
        };
        session.advance(state, event);
    }
    session
}

fn assert_given_up(stage: OfferStage, event: OfferEvent<u8>, status: StatusCode, text: &str) {
    let mut state = server(3);
    let mut session = session_at(&mut state, stage);
    assert_eq!(total(&state), 1);
    let OfferAction::Reject { rejection, close } = session.advance(&mut state, event) else {
        panic!("not rejected");
    };
    assert_eq!(rejection.status, status);
    assert_eq!(rejection.message, text);
    assert!(close);
    assert_eq!(session.stage(), OfferStage::Done);
    assert_eq!(total(&state), 0);
}

#[test]
fn long_descriptions_are_refused_by_their_bytes() {
    let mut state = server(3);
    let text = "é".repeat(MAX_SDP_SIZE / 2);
    assert_eq!(text.len(), 65536);
    let mut request = OfferRequest { sdp: description(SdpType::Offer, &text) };
    assert!(begin_offer(&mut state, &request, "1.1.1.1", "a".to_string(), 0, share).is_ok());
    request.sdp.sdp.push('x');
    request.sdp.sdp_type = SdpType::Answer;
    let refused = begin_offer(&mut state, &request, "1.1.1.1", "b".to_string(), 0, share);
    let refused = refused.unwrap_err();
    assert_eq!(refused.status, StatusCode::BadRequest);
    assert_eq!(refused.message, "SDP exceeds maximum size");
    assert_eq!(total(&state), 1);
}

#[test]
fn only_offers_are_taken_up() {
    for sdp_type in [SdpType::Unspecified, SdpType::Pranswer, SdpType::Answer, SdpType::Rollback] {
        let mut state = server(3);
        let request = OfferRequest { sdp: description(sdp_type, "v=0") };
        let refused =
            handle_offer_internal(&mut state, &request, "1.1.1.1", 0, share).unwrap_err();
        assert_eq!(refused.status, StatusCode::BadRequest);
        assert_eq!(refused.message, "Invalid SDP type, expected 'offer'");
        assert_eq!(total(&state), 0);
    }
}

#[test]
fn limits_turn_offers_down() {
    let mut state = server(1);
    begun(&mut state);
    let refused = handle_offer_internal(&mut state, &offer(), "1.1.1.1", 0, share).unwrap_err();
    assert_eq!(refused.status.as_u16(), 429);
    for ip in ["2.2.2.2", "3.3.3.3"] {
        assert!(handle_offer_internal(&mut state, &offer(), ip, 0, share).is_ok());
    }
    let refused = handle_offer_internal(&mut state, &offer(), "4.4.4.4", 0, share).unwrap_err();
    assert_eq!(refused.status.as_u16(), 503);
    assert_eq!(total(&state), 3);
}

#[test]
fn identifiers_are_random_uuids() {
    let mut state = server(3);
    let a = handle_offer_internal(&mut state, &offer(), "1.1.1.1", 0, share).unwrap();
    let b = handle_offer_internal(&mut state, &offer(), "1.1.1.1", 0, share).unwrap();
    assert_ne!(a.pc_id(), b.pc_id());
    for id in [a.pc_id(), b.pc_id()] {
        assert_eq!(id.len(), 36);
        for (i, c) in id.chars().enumerate() {
            match i {
                8 | 13 | 18 | 23 => assert_eq!(c, '-'),
                14 => assert_eq!(c, '4'),
                19 => assert!("89ab".contains(c)),
                _ => assert!(c.is_ascii_digit() || ('a'..='f').contains(&c)),
            }
        }
        assert_eq!(uuid::Uuid::parse_str(id).unwrap().get_version_num(), 4);
    }
    assert!(state.cleanup_connection(a.pc_id()).is_some());
}

#[test]
fn smooth_negotiation_ends_with_the_answer() {
    for outcome in [GatheringOutcome::Complete, GatheringOutcome::TimedOut] {
        let mut state = server(3);
        let mut session = begun(&mut state);
        assert_eq!(session.stage(), OfferStage::Creating);
        let action = session.advance(&mut state, OfferEvent::ConnectionCreated(Some(9)));
        assert!(matches!(action, OfferAction::ApplyOffer { .. }));
        let action = session.advance(&mut state, OfferEvent::OfferApplied { ok: true });
        assert!(matches!(action, OfferAction::CreateAnswer));
        let action = session.advance(&mut state, OfferEvent::AnswerCreated { ok: true });
        assert!(matches!(action, OfferAction::ApplyAnswer));
        let action = session.advance(&mut state, OfferEvent::AnswerApplied { ok: true });
        assert!(matches!(action, OfferAction::Gather { timeout: 17 }));
        let action = session.advance(&mut state, OfferEvent::Gathered(outcome));
        assert!(matches!(action, OfferAction::ReadAnswer));
        let answer = description(SdpType::Answer, "a=candidate");
        let action = session.advance(&mut state, OfferEvent::AnswerRead(Some(answer)));
        let OfferAction::Answer(answer) = action else {
            panic!("no answer");
        };
        assert_eq!(answer.pc_id, "the id");
        assert_eq!(answer.sdp.sdp, "a=candidate");
        assert_eq!(answer.sdp.sdp_type, SdpType::Answer);
        assert_eq!(session.stage(), OfferStage::Done);
        assert_eq!(state.cleanup_connection("the id").unwrap().peer_connection, Some(9));
    }
}

#[test]
fn connection_that_cannot_be_made_is_forgotten() {
    let mut state = server(3);
    let mut session = begun(&mut state);
    let action = session.advance(&mut state, OfferEvent::ConnectionCreated(None));
    let OfferAction::Reject { rejection, close } = action else {
        panic!("not rejected");
    };
    assert_eq!(rejection.status, StatusCode::InternalServerError);
    assert_eq!(rejection.message, "Failed to create connection");
    assert!(!close);
    assert_eq!(total(&state), 0);
}

#[test]
fn place_that_is_gone_is_an_internal_error() {
    let mut state = server(3);
    let mut session = begun(&mut state);
    state.cleanup_connection("the id");
    let action = session.advance(&mut state, OfferEvent::ConnectionCreated(Some(9)));
    let OfferAction::Reject { rejection, close } = action else {
        panic!("not rejected");
    };
    assert_eq!(rejection.status.as_u16(), 500);
    assert_eq!(rejection.message, "Internal state error");
    assert!(!close);
}

#[test]
fn each_failed_step_gives_up() {
    assert_given_up(
        OfferStage::ApplyingOffer,
        OfferEvent::OfferApplied { ok: false },
        StatusCode::BadRequest,
        "Invalid offer SDP",
    );
    assert_given_up(
        OfferStage::CreatingAnswer,
        OfferEvent::AnswerCreated { ok: false },
        StatusCode::InternalServerError,
        "Failed to create answer",
    );
    assert_given_up(
        OfferStage::ApplyingAnswer,
        OfferEvent::AnswerApplied { ok: false },
        StatusCode::InternalServerError,
        "Failed to set local description",
    );
    assert_given_up(
        OfferStage::Gathering,
        OfferEvent::Gathered(GatheringOutcome::Abandoned),
        StatusCode::InternalServerError,
        "ICE gathering failed",
    );
    assert_given_up(
        OfferStage::ReadingAnswer,
        OfferEvent::AnswerRead(None),
        StatusCode::InternalServerError,
        "Failed to get local description",
    );
}

#[test]
fn rejected_client_leaves_the_table_as_it_was() {
    let stages = [
        OfferStage::ApplyingOffer,
        OfferStage::CreatingAnswer,
        OfferStage::ApplyingAnswer,
        OfferStage::Gathering,
        OfferStage::ReadingAnswer,
    ];
    for stage in stages {
        let mut state = server(1);
        state.reserve("other".to_string(), "2.2.2.2", 1, share).unwrap();
        let mut session = session_at(&mut state, stage);
        assert!(begin_offer(&mut state, &offer(), "1.1.1.1", "x".to_string(), 5, share).is_err());
        let failure = match stage {
            OfferStage::ApplyingOffer => OfferEvent::OfferApplied { ok: false },
            OfferStage::CreatingAnswer => OfferEvent::AnswerCreated { ok: false },
            OfferStage::ApplyingAnswer => OfferEvent::AnswerApplied { ok: false },
            OfferStage::Gathering => OfferEvent::Gathered(GatheringOutcome::Abandoned),
            _ => OfferEvent::AnswerRead(None),
        };
        assert!(matches!(session.advance(&mut state, failure), OfferAction::Reject { .. }));
        assert_eq!(total(&state), 1);
        assert!(state.cleanup_connection("the id").is_none());
        assert!(begin_offer(&mut state, &offer(), "1.1.1.1", "x".to_string(), 5, share).is_ok());
        assert_eq!(state.cleanup_connection("other").unwrap().client_ip, "2.2.2.2");
    }
}

#[test]
fn other_connections_are_left_alone() {
    let mut state = server(3);
    state.reserve("other".to_string(), "2.2.2.2", 1, share).unwrap();
    state.attach("other", 77);
    let mut session = session_at(&mut state, OfferStage::ApplyingOffer);
    session.advance(&mut state, OfferEvent::OfferApplied { ok: false });
    let other = state.cleanup_connection("other").unwrap();
    assert_eq!(other.peer_connection, Some(77));
    assert_eq!(other.client_ip, "2.2.2.2");
    assert_eq!(total(&state), 0);
}

#[test]
fn requests_that_take_too_long_are_told_so() {
    let late = handle_offer(None).unwrap_err();
    assert_eq!(late.status.as_u16(), 408);
    assert_eq!(late.message, "Request processing timed out");
}

#[test]
fn finished_requests_are_told_what_they_came_to() {
    let answer =
        AnswerResponse { sdp: description(SdpType::Answer, "x"), pc_id: "id".to_string() };
    assert_eq!(handle_offer(Some(Ok(answer))).unwrap().pc_id, "id");
    let rejection =
        Rejection { status: StatusCode::ServiceUnavailable, message: "full".to_string() };
    let res = handle_offer(Some(Err(rejection))).unwrap_err();
    assert_eq!(res.message, "full");
    assert_eq!(res.status.as_u16(), 503);
}

#[test]
fn statuses_have_their_numbers() {
    assert_eq!(StatusCode::BadRequest.as_u16(), axum::http::StatusCode::BAD_REQUEST.as_u16());
    assert_eq!(
        StatusCode::RequestTimeout.as_u16(),
        axum::http::StatusCode::REQUEST_TIMEOUT.as_u16()
    );
    assert_eq!(
        StatusCode::TooManyRequests.as_u16(),
        axum::http::StatusCode::TOO_MANY_REQUESTS.as_u16()
    );
    assert_eq!(
        StatusCode::InternalServerError.as_u16(),
        axum::http::StatusCode::INTERNAL_SERVER_ERROR.as_u16()
    );
    assert_eq!(
        StatusCode::ServiceUnavailable.as_u16(),
        axum::http::StatusCode::SERVICE_UNAVAILABLE.as_u16()
    );
}

#[test]
fn gathering_is_announced_once() {
    let mut gate = GatheringGate::new("sender");
    assert_eq!(gate.observe(false), None);
    assert_eq!(gate.observe(true), Some("sender"));
    assert_eq!(gate.observe(true), None);
    assert_eq!(gate.observe(false), None);
}
