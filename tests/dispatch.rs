use rpc_dispatch::dispatch::{Action, Dispatcher, Event, Outcome, Phase};
use rpc_dispatch::fake::{DReq, DResp};
use rpc_dispatch::key::{Key, WireHeader};
use rpc_dispatch::registry::{DuplicateKey, Endpoint, Mode, Registry};
use rpc_dispatch::wire::{error_key, reply_frame, report_error, WireError};

fn key(a: u8, b: u8) -> Key {
    Key::from_bytes([a, b, 0, 0, 0, 0, 0, 0])
}

fn endpoint(req: Key, resp: Key, mode: Mode) -> Endpoint {
    Endpoint { req_key: req, resp_key: resp, mode }
}

fn dispatcher(endpoints: Vec<Endpoint>) -> Dispatcher {
    Dispatcher::new(Registry::new(endpoints).unwrap())
}

fn three_endpoints() -> Dispatcher {
    dispatcher(vec![
        endpoint(key(0x10, 0x01), key(0x90, 0x01), Mode::Async),
        endpoint(key(0x20, 0x02), key(0xA0, 0x02), Mode::Blocking),
        endpoint(key(0x30, 0x03), key(0xB0, 0x03), Mode::Spawn),
    ])
}

#[test]
fn fixed_reply_is_sent_under_response_key() {
    let req = key(0xAA, 0xAA);
    let resp = key(0xAA, 0xAB);
    let mut d = dispatcher(vec![endpoint(req, resp, Mode::Blocking)]);
    let h = WireHeader { key: req, seq_no: 7 };
    assert_eq!(d.step(Event::Frame(h)), Action::Decode { index: 0 });
    assert_eq!(
        d.step(Event::Decoded(true)),
        Action::Run { index: 0, mode: Mode::Blocking, header: h }
    );
    let encoded = postcard::to_allocvec(&1234u32).unwrap();
    assert_eq!(d.step(Event::Finished(Outcome::Reply(true))), Action::Reply { seq_no: 7, key: resp });
    assert_eq!(d.phase(), Phase::Idle);
    let frame = reply_frame(7, resp, encoded.clone());
    assert_eq!(frame.seq_no, 7);
    assert_eq!(frame.key, resp);
    assert_eq!(frame.payload, vec![0xD2, 0x09]);
}

#[test]
fn unknown_key_gets_one_error_frame() {
    let mut d = three_endpoints();
    let h = WireHeader { key: key(0xFF, 0xFF), seq_no: 3 };
    let a = d.step(Event::Frame(h));
    let err = WireError::UnknownKey([0xFF, 0xFF, 0, 0, 0, 0, 0, 0]);
    assert_eq!(a, Action::Error { seq_no: 3, error: err });
    assert_eq!(d.phase(), Phase::Idle);
    let frame = report_error(3, &err);
    assert_eq!(frame.seq_no, 3);
    assert_eq!(frame.key, error_key());
    assert_eq!(frame.payload, vec![2, 0xFF, 0xFF, 0, 0, 0, 0, 0, 0]);
}

#[test]
fn registered_key_runs_only_its_handler() {
    let mut d = three_endpoints();
    let h = WireHeader { key: key(0x20, 0x02), seq_no: 11 };
    assert_eq!(d.step(Event::Frame(h)), Action::Decode { index: 1 });
    assert_eq!(
        d.step(Event::Decoded(true)),
        Action::Run { index: 1, mode: Mode::Blocking, header: h }
    );
    assert_eq!(d.phase(), Phase::Running { header: h, index: 1 });
}

#[test]
fn malformed_payload_gets_deser_failed() {
    let mut d = three_endpoints();
    let h = WireHeader { key: key(0x10, 0x01), seq_no: 5 };
    assert_eq!(d.step(Event::Frame(h)), Action::Decode { index: 0 });
    assert_eq!(
        d.step(Event::Decoded(false)),
        Action::Error { seq_no: 5, error: WireError::DeserFailed }
    );
    assert_eq!(d.phase(), Phase::Idle);
    assert_eq!(report_error(5, &WireError::DeserFailed).payload, vec![0]);
}

#[test]
fn encode_failure_gets_ser_failed_and_no_reply() {
    let mut d = three_endpoints();
    let h = WireHeader { key: key(0x10, 0x01), seq_no: 6 };
    d.step(Event::Frame(h));
    d.step(Event::Decoded(true));
    assert_eq!(
        d.step(Event::Finished(Outcome::Reply(false))),
        Action::Error { seq_no: 6, error: WireError::SerFailed }
    );
    assert_eq!(d.phase(), Phase::Idle);
    assert_eq!(report_error(6, &WireError::SerFailed).payload, vec![1]);
}

#[test]
fn spawn_success_asks_for_nothing() {
    let mut d = three_endpoints();
    let h = WireHeader { key: key(0x30, 0x03), seq_no: 8 };
    d.step(Event::Frame(h));
    assert_eq!(
        d.step(Event::Decoded(true)),
        Action::Run { index: 2, mode: Mode::Spawn, header: h }
    );
    assert_eq!(d.step(Event::Finished(Outcome::SpawnSuccess)), Action::Nothing);
    assert_eq!(d.phase(), Phase::Idle);
}

#[test]
fn spawn_failure_gets_failed_to_spawn() {
    let mut d = three_endpoints();
    let h = WireHeader { key: key(0x30, 0x03), seq_no: 9 };
    d.step(Event::Frame(h));
    d.step(Event::Decoded(true));
    assert_eq!(
        d.step(Event::Finished(Outcome::SpawnFailure)),
        Action::Error { seq_no: 9, error: WireError::FailedToSpawn }
    );
    assert_eq!(report_error(9, &WireError::FailedToSpawn).payload, vec![3]);
}

#[test]
fn second_request_waits_for_first_handler() {
    let mut d = three_endpoints();
    let a = WireHeader { key: key(0x10, 0x01), seq_no: 1 };
    let b = WireHeader { key: key(0x20, 0x02), seq_no: 2 };
    d.step(Event::Frame(a));
    d.step(Event::Decoded(true));
    assert_eq!(d.step(Event::Frame(b)), Action::Nothing);
    assert_eq!(d.step(Event::Decoded(true)), Action::Nothing);
    assert_eq!(d.phase(), Phase::Running { header: a, index: 0 });
    assert_eq!(
        d.step(Event::Finished(Outcome::Reply(true))),
        Action::Reply { seq_no: 1, key: key(0x90, 0x01) }
    );
    assert_eq!(d.step(Event::Frame(b)), Action::Decode { index: 1 });
    assert_eq!(
        d.step(Event::Decoded(true)),
        Action::Run { index: 1, mode: Mode::Blocking, header: b }
    );
}

#[test]
fn duplicate_keys_are_refused() {
    let r = Registry::new(vec![
        endpoint(key(1, 1), key(2, 1), Mode::Async),
        endpoint(key(1, 2), key(2, 2), Mode::Async),
        endpoint(key(1, 1), key(2, 3), Mode::Spawn),
    ]);
    assert_eq!(r.err(), Some(DuplicateKey { first: 0, second: 2 }));
}

#[test]
fn empty_registry_knows_no_key() {
    let mut d = dispatcher(vec![]);
    let h = WireHeader { key: key(0, 0), seq_no: 0 };
    assert_eq!(
        d.step(Event::Frame(h)),
        Action::Error { seq_no: 0, error: WireError::UnknownKey([0; 8]) }
    );
}

#[test]
fn lookup_and_keys() {
    let reg = Registry::new(vec![
        endpoint(key(1, 1), key(2, 1), Mode::Async),
        endpoint(key(1, 2), key(2, 2), Mode::Blocking),
    ])
    .unwrap();
    assert_eq!(reg.len(), 2);
    assert_eq!(reg.lookup(&key(1, 2)), Some(1));
    assert_eq!(reg.lookup(&key(2, 2)), None);
    assert_eq!(reg.endpoint(1).mode, Mode::Blocking);
    assert!(key(3, 4).same_as(&key(3, 4)));
    assert!(!key(3, 4).same_as(&key(3, 5)));
    assert_eq!(key(3, 4).to_bytes(), [3, 4, 0, 0, 0, 0, 0, 0]);
}

#[test]
fn error_encodings() {
    assert_eq!(WireError::DeserFailed.encode(), vec![0]);
    assert_eq!(WireError::SerFailed.encode(), vec![1]);
    assert_eq!(WireError::FailedToSpawn.encode(), vec![3]);
    assert_eq!(
        WireError::UnknownKey([1, 2, 3, 4, 5, 6, 7, 8]).encode(),
        vec![2, 1, 2, 3, 4, 5, 6, 7, 8]
    );
    assert_eq!(WireError::FailedToSpawn.wire_tag(), 3);
    assert_eq!(error_key().to_bytes(), [0; 8]);
}

#[test]
fn delta_handler_answers() {
    let h = WireHeader { key: key(0x44, 0x44), seq_no: 4 };
    assert_eq!(rpc_dispatch::fake::test_delta_handler(h, DReq), DResp);
}
