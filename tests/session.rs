use pwmp_server::error::Error;
use pwmp_server::mac::Mac;
use pwmp_server::message::{Decimal, Message, NodeSettings, Payload, Request, Response, Version};
use pwmp_server::ratelimit::RateLimiter;
use pwmp_server::session::{
    Action, Authenticated, Authorization, BackendCall, BackendReply, Client, Step,
};

fn mac() -> Mac {
    Mac::parse("aa:bb:cc:dd:ee:ff").unwrap()
}

fn response(id: u64, res: Response) -> Message {
    Message { id, payload: Payload::Response(res) }
}

fn authenticated(node: i32) -> Client<Authenticated> {
    let mut client = Client::new("10.0.0.2:40000".to_string());
    let handshake = Message::new_request(Request::Handshake { mac: mac() }, 17);
    let mac = client.receive_handshake(Some(handshake)).unwrap();
    match client.authorize(mac, Ok(Some(node))) {
        Authorization::Accepted(c, _) => c,
        Authorization::Rejected(..) => panic!("known node was rejected"),
    }
}

fn version(a: u8, b: u8, c: u8) -> Version {
    Version::new(a, b, c).unwrap()
}

#[test]
fn handshake_success() {
    let mut client = Client::new("10.0.0.2:40000".to_string());
    let handshake = Message::new_request(Request::Handshake { mac: mac() }, 17);
    let got = client.receive_handshake(Some(handshake)).unwrap();
    assert_eq!(got, mac());
    match client.authorize(got, Ok(Some(42))) {
        Authorization::Accepted(c, m) => {
            assert_eq!(m, response(2, Response::Success));
            assert_eq!(c.id(), 42);
            assert_eq!(c.mac().to_canonical_string(), "aa:bb:cc:dd:ee:ff");
            assert_eq!(c.last_submit(), None);
        },
        Authorization::Rejected(..) => panic!("known node was rejected"),
    }
}

#[test]
fn handshake_reject() {
    let mut client = Client::new("10.0.0.2:40000".to_string());
    let handshake = Message::new_request(Request::Handshake { mac: mac() }, 17);
    let got = client.receive_handshake(Some(handshake)).unwrap();
    match client.authorize(got, Ok(None)) {
        Authorization::Rejected(m, e) => {
            assert_eq!(m, response(2, Response::Reject));
            assert_eq!(e, Error::Auth);
        },
        Authorization::Accepted(..) => panic!("unknown node was accepted"),
    }
}

#[test]
fn handshake_lookup_failure_rejects() {
    let client = Client::new("10.0.0.2:40000".to_string());
    match client.authorize(mac(), Err(Error::Database("down".to_string()))) {
        Authorization::Rejected(m, e) => {
            assert_eq!(m, response(2, Response::Reject));
            assert_eq!(e, Error::Database("down".to_string()));
        },
        Authorization::Accepted(..) => panic!("failed lookup was accepted"),
    }
}

#[test]
fn first_request_must_be_a_handshake() {
    let mut client = Client::new("10.0.0.2:40000".to_string());
    let ping = Message::new_request(Request::Ping, 5);
    assert_eq!(client.receive_handshake(Some(ping)), Err(Error::NotHandshake));
}

#[test]
fn receiving_refuses_bad_frames() {
    let mut client = Client::new("10.0.0.2:40000".to_string());
    assert_eq!(client.receive_request(None), Err(Error::MessageParse));
    let ping = Message::new_request(Request::Ping, 5);
    assert_eq!(client.receive_request(Some(ping.clone())), Ok(Request::Ping));
    assert_eq!(client.receive_request(Some(ping)), Err(Error::DuplicateMessage));
    let pong = Message::new_response(Response::Pong, 6);
    assert_eq!(client.receive_request(Some(pong)), Err(Error::NotRequest));
    let pong_again = Message::new_response(Response::Pong, 6);
    assert_eq!(client.receive_request(Some(pong_again)), Err(Error::DuplicateMessage));
}

#[test]
fn results_then_stats() {
    let mut c = authenticated(42);
    let temperature = Decimal { mantissa: 215, scale: 1 };
    let post = Request::PostResults { temperature, humidity: 47, air_pressure: Some(1013) };
    let call = match c.handle_request(post) {
        Step::Query(call) => call,
        Step::Reply(r) => panic!("unexpected reply {r:?}"),
    };
    assert_eq!(
        call,
        BackendCall::PostResults { node: 42, temperature, humidity: 47, air_pressure: Some(1013) }
    );
    assert_eq!(c.finish_request(call, BackendReply::Measurement(7)), Response::Success);
    assert_eq!(c.last_submit(), Some(7));
    let battery = Decimal { mantissa: 370, scale: 2 };
    let stats = Request::PostStats { battery, wifi_ssid: "home".to_string(), wifi_rssi: -63 };
    let call = match c.handle_request(stats) {
        Step::Query(call) => call,
        Step::Reply(r) => panic!("unexpected reply {r:?}"),
    };
    assert_eq!(
        call,
        BackendCall::PostStats {
            measurement: 7,
            battery,
            wifi_ssid: "home".to_string(),
            wifi_rssi: -63,
        }
    );
    assert_eq!(c.finish_request(call, BackendReply::Done), Response::Success);
}

#[test]
fn second_post_results_is_invalid() {
    let mut c = authenticated(42);
    let post = Request::PostResults {
        temperature: Decimal { mantissa: 215, scale: 1 },
        humidity: 47,
        air_pressure: None,
    };
    let call = match c.handle_request(post.clone()) {
        Step::Query(call) => call,
        Step::Reply(r) => panic!("unexpected reply {r:?}"),
    };
    assert_eq!(c.finish_request(call, BackendReply::Measurement(3)), Response::Success);
    assert_eq!(c.handle_request(post), Step::Reply(Response::InvalidRequest));
    assert_eq!(c.last_submit(), Some(3));
}

#[test]
fn stats_without_results_are_invalid() {
    let mut c = authenticated(42);
    let stats = Request::PostStats {
        battery: Decimal { mantissa: 370, scale: 2 },
        wifi_ssid: "home".to_string(),
        wifi_rssi: -63,
    };
    assert_eq!(c.handle_request(stats), Step::Reply(Response::InvalidRequest));
}

#[test]
fn update_stream() {
    let mut c = authenticated(42);
    let current = version(0, 0, 0);
    let call = match c.handle_request(Request::UpdateCheck(current)) {
        Step::Query(call) => call,
        Step::Reply(r) => panic!("unexpected reply {r:?}"),
    };
    assert_eq!(call, BackendCall::CheckOsUpdate { node: 42, current });
    let blob: Vec<u8> = (0..16384u32).map(|i| (i % 251) as u8).collect();
    let new = version(1, 2, 3);
    let res = c.finish_request(call, BackendReply::Update(Some((new, blob.clone()))));
    assert_eq!(res, Response::UpdateAvailable(new));
    assert_eq!(c.current_version(), Some(current));
    assert_eq!(c.update_version(), Some(new));
    assert_eq!(
        c.handle_request(Request::NextUpdateChunk(8192)),
        Step::Reply(Response::UpdatePart(blob[..8192].to_vec()))
    );
    assert_eq!(
        c.handle_request(Request::NextUpdateChunk(8192)),
        Step::Reply(Response::UpdatePart(blob[8192..].to_vec()))
    );
    let call = match c.handle_request(Request::NextUpdateChunk(8192)) {
        Step::Query(call) => call,
        Step::Reply(r) => panic!("unexpected reply {r:?}"),
    };
    assert_eq!(call, BackendCall::SendOsUpdateStat { node: 42, old: current, new });
    assert_eq!(c.finish_request(call, BackendReply::UpdateStat(9)), Response::UpdateEnd);
}

#[test]
fn short_final_chunk_holds_the_remaining_bytes() {
    let mut c = authenticated(42);
    let call = BackendCall::CheckOsUpdate { node: 42, current: version(0, 0, 0) };
    let blob = vec![1u8, 2, 3, 4, 5];
    c.finish_request(call, BackendReply::Update(Some((version(0, 1, 0), blob))));
    assert_eq!(c.update_chunk(3), Some(vec![1, 2, 3]));
    assert_eq!(c.update_chunk(3), Some(vec![4, 5]));
    assert_eq!(c.update_chunk(3), Some(vec![]));
}

#[test]
fn up_to_date_firmware() {
    let mut c = authenticated(42);
    let call = BackendCall::CheckOsUpdate { node: 42, current: version(1, 0, 0) };
    assert_eq!(c.finish_request(call, BackendReply::Update(None)), Response::FirmwareUpToDate);
    assert_eq!(c.handle_request(Request::NextUpdateChunk(64)), Step::Reply(Response::InvalidRequest));
}

#[test]
fn chunk_before_update_check_is_invalid() {
    let mut c = authenticated(42);
    assert_eq!(c.handle_request(Request::NextUpdateChunk(64)), Step::Reply(Response::InvalidRequest));
    assert_eq!(c.update_chunk(64), None);
}

#[test]
fn simple_requests() {
    let mut c = authenticated(42);
    assert_eq!(c.handle_request(Request::Ping), Step::Reply(Response::Pong));
    assert_eq!(
        c.handle_request(Request::Handshake { mac: mac() }),
        Step::Reply(Response::InvalidRequest)
    );
    assert_eq!(
        c.handle_request(Request::GetSettings),
        Step::Query(BackendCall::GetSettings { node: 42 })
    );
    let settings = NodeSettings {
        battery_ignore: false,
        ota: true,
        sleep_time: 60,
        sbop: false,
        mute_notifications: true,
    };
    assert_eq!(
        c.finish_request(BackendCall::GetSettings { node: 42 }, BackendReply::Settings(Some(settings))),
        Response::Settings(Some(settings))
    );
    assert_eq!(
        c.handle_request(Request::SendNotification("hello".to_string())),
        Step::Query(BackendCall::CreateNotification { node: 42, content: "hello".to_string() })
    );
    assert_eq!(
        c.handle_request(Request::ReportFirmwareUpdate(true)),
        Step::Query(BackendCall::MarkOsUpdateStat { node: 42, success: true })
    );
    assert_eq!(
        c.finish_request(BackendCall::GetSettings { node: 42 }, BackendReply::Done),
        Response::InternalServerError
    );
}

#[test]
fn rate_limit_kick() {
    let mut c = authenticated(42);
    let mut limiter = RateLimiter::new(1000, 4);
    for (i, now) in [0u64, 100, 200, 300].into_iter().enumerate() {
        let action = c.on_request(&mut limiter, now, Request::Ping);
        assert_eq!(action, Action::Send(response(3 + i as u64, Response::Pong)));
    }
    let action = c.on_request(&mut limiter, 400, Request::Ping);
    assert_eq!(
        action,
        Action::Close(Some(response(7, Response::RateLimitExceeded)), Err(Error::TooManyRequests))
    );
}

#[test]
fn stall_kick() {
    let mut c = authenticated(42);
    assert_eq!(
        c.on_stall(),
        Action::Close(Some(response(3, Response::Stalling)), Err(Error::StallTimeExceeded))
    );
}

#[test]
fn bye_closes_without_response() {
    let mut c = authenticated(42);
    let mut limiter = RateLimiter::new(1000, 4);
    assert_eq!(c.on_request(&mut limiter, 0, Request::Bye), Action::Close(None, Ok(())));
    assert_eq!(c.on_stall(), Action::Close(Some(response(3, Response::Stalling)), Err(Error::StallTimeExceeded)));
}

#[test]
fn backend_failure_ends_session() {
    let mut c = authenticated(42);
    let mut limiter = RateLimiter::new(1000, 4);
    let call = match c.on_request(&mut limiter, 0, Request::GetSettings) {
        Action::Query(call) => call,
        other => panic!("unexpected action {other:?}"),
    };
    let failure = Error::Database("gone".to_string());
    assert_eq!(
        c.on_reply(call, Err(failure.clone())),
        Action::Close(Some(response(3, Response::InternalServerError)), Err(failure))
    );
}

#[test]
fn response_ids_are_consecutive() {
    let mut c = authenticated(42);
    let mut limiter = RateLimiter::new(1000, 100);
    let mut ids = vec![2u64];
    for now in 0..5u64 {
        match c.on_request(&mut limiter, now, Request::Ping) {
            Action::Send(m) => ids.push(m.id),
            other => panic!("unexpected action {other:?}"),
        }
        let call = match c.on_request(&mut limiter, now, Request::GetSettings) {
            Action::Query(call) => call,
            other => panic!("unexpected action {other:?}"),
        };
        match c.on_reply(call, Ok(BackendReply::Settings(None))) {
            Action::Send(m) => {
                assert_eq!(m.payload, Payload::Response(Response::Settings(None)));
                ids.push(m.id);
            },
            other => panic!("unexpected action {other:?}"),
        }
    }
    for pair in ids.windows(2) {
        assert_eq!(pair[1], pair[0] + 1);
    }
    assert_eq!(c.shutdown(None), None);
    assert_eq!(c.shutdown(Some(Response::Pong)), Some(response(13, Response::Pong)));
}

#[test]
fn receive_failures_end_the_session() {
    let mut client = Client::new("10.0.0.2:40000".to_string());
    assert_eq!(
        client.on_receive_error(Error::NotHandshake),
        Action::Close(Some(response(2, Response::Reject)), Err(Error::NotHandshake))
    );
    let mut c = authenticated(42);
    assert_eq!(
        c.on_receive_error(Error::MessageParse),
        Action::Close(Some(response(3, Response::InternalServerError)), Err(Error::MessageParse))
    );
    assert_eq!(
        c.on_receive_error(Error::DuplicateMessage),
        Action::Close(None, Err(Error::DuplicateMessage))
    );
    assert_eq!(
        c.on_receive_error(Error::IllegalMessageLength),
        Action::Close(None, Err(Error::IllegalMessageLength))
    );
}
