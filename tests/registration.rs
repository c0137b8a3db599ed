use tokio::sync::oneshot;
use tunnel_events::{
    ClientEventResponse, Code, HttpAddressing, ListenerAction, ListenerState, Payload,
    Registration, Status,
};

fn http(subdomain: &[u8], domain: &[u8], random_subdomain: bool) -> Payload {
    Payload::RegisterHttp {
        port: 80,
        subdomain: subdomain.to_vec(),
        domain: domain.to_vec(),
        random_subdomain,
    }
}

fn code_of(r: Result<Registration, Status>) -> Option<Code> {
    match r {
        Ok(_) => None,
        Err(s) => Some(s.code()),
    }
}

#[test]
fn tcp_port_zero_registers_with_allocated_port() {
    let reg = Payload::RegisterTcp { port: 0 }.validate();
    assert!(matches!(reg, Ok(Registration::Tcp { port: 0 })));
    let r = ClientEventResponse::from_allocation(Ok(vec!["tunnel.example:40123".to_string()]));
    assert!(r.status().is_none());
    let e = r.entrypoint().unwrap();
    assert_eq!(e.len(), 1);
    assert!(e[0].contains("40123"));
}

#[test]
fn udp_port_in_use_fails_with_resource_exhausted() {
    let reg = Payload::RegisterUdp { port: 9999 }.validate();
    assert!(matches!(reg, Ok(Registration::Udp { port: 9999 })));
    let r = ClientEventResponse::from_allocation(Err(Status::new(
        Code::ResourceExhausted,
        "port 9999 is in use".to_string(),
    )));
    assert_eq!(r.status().unwrap().code(), Code::ResourceExhausted);
    assert_eq!(r.status().unwrap().message(), "port 9999 is in use");
    assert!(r.entrypoint().unwrap().is_empty());
}

#[test]
fn http_random_subdomain_registers() {
    let reg = http(b"", b"", true).validate();
    assert!(matches!(
        reg,
        Ok(Registration::Http { port: 80, addressing: HttpAddressing::Random })
    ));
    let r = ClientEventResponse::from_allocation(Ok(vec!["http://x7k2.tunnel.example".to_string()]));
    assert!(r.status().is_none());
    assert_eq!(r.entrypoint().unwrap().len(), 1);
}

#[test]
fn http_subdomain_and_domain_is_invalid() {
    assert_eq!(code_of(http(b"app", b"app.example.com", false).validate()), Some(Code::InvalidArgument));
}

#[test]
fn http_without_addressing_is_invalid() {
    assert_eq!(code_of(http(b"", b"", false).validate()), Some(Code::InvalidArgument));
}

#[test]
fn http_all_three_modes_is_invalid() {
    assert_eq!(code_of(http(b"a", b"b.example", true).validate()), Some(Code::InvalidArgument));
    assert_eq!(code_of(http(b"a", b"", true).validate()), Some(Code::InvalidArgument));
    assert_eq!(code_of(http(b"", b"b.example", true).validate()), Some(Code::InvalidArgument));
}

#[test]
fn http_single_mode_keeps_its_address() {
    match http(b"app", b"", false).validate() {
        Ok(Registration::Http { addressing: HttpAddressing::Subdomain(s), .. }) => assert_eq!(s, b"app".to_vec()),
        _ => panic!("subdomain registration refused"),
    }
    match http(b"", b"app.example.com", false).validate() {
        Ok(Registration::Http { addressing: HttpAddressing::Domain(d), .. }) => {
            assert_eq!(d, b"app.example.com".to_vec())
        }
        _ => panic!("domain registration refused"),
    }
}

#[test]
fn empty_allocation_is_an_internal_failure() {
    let r = ClientEventResponse::from_allocation(Ok(vec![]));
    assert_eq!(r.status().unwrap().code(), Code::Internal);
    assert!(r.entrypoint().unwrap().is_empty());
}

#[test]
fn responses_have_exactly_one_shape() {
    let ok = ClientEventResponse::registered(vec!["a:1".to_string(), "b:2".to_string()]);
    assert!(ok.is_registered());
    assert!(ok.status().is_none());
    assert_eq!(ok.entrypoint().unwrap(), &vec!["a:1".to_string(), "b:2".to_string()]);
    let failed = ClientEventResponse::registered_failed(Status::new(Code::AlreadyExists, "taken".to_string()));
    assert!(failed.is_registered());
    assert_eq!(failed.status().unwrap().code(), Code::AlreadyExists);
    assert!(failed.entrypoint().unwrap().is_empty());
}

#[test]
fn dropped_receiver_releases_the_listener() {
    let (tx, rx) = oneshot::channel::<ClientEventResponse>();
    drop(rx);
    let (s, a) = ListenerState::new().step(tunnel_events::ListenerEvent::Committed);
    assert_eq!(s, ListenerState::Pending { committed: true });
    assert_eq!(a, ListenerAction::Nothing);
    let r = ClientEventResponse::registered(vec!["tunnel.example:40123".to_string()]);
    assert_eq!(s.respond(tx, r), (ListenerState::Closed, ListenerAction::Release));
}

#[test]
fn delivered_response_starts_accepting() {
    let (tx, mut rx) = oneshot::channel::<ClientEventResponse>();
    let s = ListenerState::Pending { committed: true };
    let r = ClientEventResponse::registered(vec!["tunnel.example:40123".to_string()]);
    assert_eq!(s.respond(tx, r), (ListenerState::Active, ListenerAction::StartAccepting));
    let got = rx.try_recv().unwrap();
    assert_eq!(got.entrypoint().unwrap(), &vec!["tunnel.example:40123".to_string()]);
}

#[test]
fn failed_response_closes_without_release() {
    let (tx, mut rx) = oneshot::channel::<ClientEventResponse>();
    let s = ListenerState::new();
    let r = ClientEventResponse::registered_failed(Status::new(Code::InvalidArgument, "bad".to_string()));
    assert_eq!(s.respond(tx, r), (ListenerState::Closed, ListenerAction::Nothing));
    assert_eq!(rx.try_recv().unwrap().status().unwrap().code(), Code::InvalidArgument);
}

#[test]
fn answer_delivers_success_and_starts_accepting() {
    let (tx, mut rx) = oneshot::channel::<ClientEventResponse>();
    let r = ListenerState::answer(tx, Ok(vec!["tunnel.example:40123".to_string()]));
    assert_eq!(r, (ListenerState::Active, ListenerAction::StartAccepting));
    let got = rx.try_recv().unwrap();
    assert!(got.status().is_none());
    assert_eq!(got.entrypoint().unwrap(), &vec!["tunnel.example:40123".to_string()]);
}

#[test]
fn answer_to_abandoned_request_releases() {
    let (tx, rx) = oneshot::channel::<ClientEventResponse>();
    drop(rx);
    let r = ListenerState::answer(tx, Ok(vec!["tunnel.example:40123".to_string()]));
    assert_eq!(r, (ListenerState::Closed, ListenerAction::Release));
}

#[test]
fn answer_to_invalid_payload_sends_the_failure() {
    let (tx, mut rx) = oneshot::channel::<ClientEventResponse>();
    let outcome = match http(b"app", b"app.example.com", false).validate() {
        Ok(_) => panic!("ambiguous addressing accepted"),
        Err(s) => Err(s),
    };
    assert_eq!(ListenerState::answer(tx, outcome), (ListenerState::Closed, ListenerAction::Nothing));
    let got = rx.try_recv().unwrap();
    assert_eq!(got.status().unwrap().code(), Code::InvalidArgument);
    assert!(got.entrypoint().unwrap().is_empty());
}

#[test]
fn answer_to_empty_allocation_releases_and_fails() {
    let (tx, mut rx) = oneshot::channel::<ClientEventResponse>();
    assert_eq!(ListenerState::answer(tx, Ok(vec![])), (ListenerState::Closed, ListenerAction::Release));
    assert_eq!(rx.try_recv().unwrap().status().unwrap().code(), Code::Internal);
}
