use greeter_l2::address::{alias_of, Address};
use greeter_l2::calldata::{encode_call, function_selector, payload_from_digest};
use greeter_l2::gateway::{
    GreeterError, GreeterL2, L2ToL1TxCreated, MessageId, TransportError, SET_GREETING_SIGNATURE,
};

fn counterpart() -> Address {
    Address::new(0x0000_00ab, 0x1234_5678_9abc_def0, 0x0fed_cba9_8765_4321)
}

fn counterpart_alias() -> Address {
    Address::new(0x1111_00ab, 0x1234_5678_9abc_def0, 0x0fed_cba9_8765_5432)
}

fn id(n: u8) -> MessageId {
    let mut bytes = [0u8; 32];
    bytes[31] = n;
    MessageId { bytes }
}

#[test]
fn alias_adds_offset() {
    assert_eq!(alias_of(Address::new(0, 0, 1)), Address::new(0x1111_0000, 0, 0x1112));
    assert_eq!(alias_of(Address::zero()), Address::new(0x1111_0000, 0, 0x1111));
    assert_eq!(alias_of(counterpart()), counterpart_alias());
}

#[test]
fn alias_carries_between_limbs() {
    assert_eq!(alias_of(Address::new(0, 0, u64::MAX)), Address::new(0x1111_0000, 1, 0x1110));
    assert_eq!(
        alias_of(Address::new(0, u64::MAX, u64::MAX)),
        Address::new(0x1111_0001, 0, 0x1110)
    );
}

#[test]
fn alias_wraps_around() {
    assert_eq!(
        alias_of(Address::new(u32::MAX, u64::MAX, u64::MAX)),
        Address::new(0x1111_0000, 0, 0x1110)
    );
    assert_eq!(alias_of(Address::new(0xeeef_0000, 0, 0)), Address::new(0, 0, 0x1111));
}

#[test]
fn alias_is_not_an_involution() {
    for a in [Address::zero(), counterpart(), Address::new(u32::MAX, u64::MAX, u64::MAX)] {
        assert_ne!(alias_of(alias_of(a)), a);
        assert_ne!(alias_of(a), a);
    }
    assert_eq!(alias_of(alias_of(Address::zero())), Address::new(0x2222_0000, 0, 0x2222));
}

#[test]
fn authorize_only_the_alias() {
    let mut g = GreeterL2::new();
    g.update_l1_target(counterpart()).unwrap();
    assert!(g.authorize_inbound(counterpart_alias()));
    assert!(!g.authorize_inbound(counterpart()));
    assert!(!g.authorize_inbound(Address::zero()));
    assert!(!g.authorize_inbound(alias_of(counterpart_alias())));
}

#[test]
fn unset_counterpart_authorizes_alias_of_zero() {
    let g = GreeterL2::new();
    assert!(g.authorize_inbound(Address::new(0x1111_0000, 0, 0x1111)));
    assert!(!g.authorize_inbound(Address::zero()));
}

#[test]
fn set_greeting_from_raw_counterpart_is_unauthorized() {
    let mut g = GreeterL2::new();
    g.update_l1_target(counterpart()).unwrap();
    g.set_greeting(counterpart_alias(), String::from("before")).unwrap();
    let r = g.set_greeting(counterpart(), String::from("after"));
    assert_eq!(r, Err(GreeterError::Unauthorized));
    assert_eq!(g.greet().unwrap(), "before");
}

#[test]
fn set_greeting_from_alias_succeeds() {
    let mut g = GreeterL2::new();
    g.update_l1_target(counterpart()).unwrap();
    assert_eq!(g.set_greeting(counterpart_alias(), String::from("hi there")), Ok(()));
    assert_eq!(g.greet().unwrap(), "hi there");
    assert_eq!(g.get_l1_target(), Ok(counterpart()));
}

#[test]
fn new_greeter_is_empty() {
    let g = GreeterL2::new();
    assert_eq!(g.greet().unwrap(), "");
    assert_eq!(g.get_l1_target(), Ok(Address::zero()));
}

#[test]
fn l1_target_round_trip() {
    let mut g = GreeterL2::new();
    assert_eq!(g.update_l1_target(counterpart()), Ok(()));
    assert_eq!(g.get_l1_target(), Ok(counterpart()));
    assert_eq!(g.update_l1_target(Address::zero()), Ok(()));
    assert_eq!(g.get_l1_target(), Ok(Address::zero()));
}

#[test]
fn selector_of_set_greeting() {
    assert_eq!(function_selector("setGreeting(string)"), [0xa4, 0x13, 0x68, 0x62]);
    assert_eq!(SET_GREETING_SIGNATURE, "setGreeting(string)");
}

#[test]
fn call_payload_is_selector_then_args() {
    let payload = encode_call("setGreeting(string)", b"hello");
    assert_eq!(payload, vec![0xa4, 0x13, 0x68, 0x62, b'h', b'e', b'l', b'l', b'o']);
    assert_eq!(encode_call("setGreeting(string)", b""), vec![0xa4, 0x13, 0x68, 0x62]);
}

#[test]
fn payload_from_digest_takes_four_bytes() {
    let digest: Vec<u8> = (1..=32).collect();
    assert_eq!(payload_from_digest(&digest, &[9, 8]), vec![1, 2, 3, 4, 9, 8]);
}

#[test]
fn build_and_dispatch_hands_payload_to_counterpart() {
    let mut g = GreeterL2::new();
    g.update_l1_target(counterpart()).unwrap();
    let mut log: Vec<L2ToL1TxCreated> = Vec::new();
    let mut seen: Option<(Address, Vec<u8>)> = None;
    let r = g.build_and_dispatch(
        "setGreeting(string)",
        b"hello",
        |d, p| {
            seen = Some((d, p));
            Ok(id(5))
        },
        &mut log,
    );
    assert_eq!(r, Ok(id(5)));
    assert_eq!(log, vec![L2ToL1TxCreated { withdrawal_id: id(5) }]);
    let (d, p) = seen.unwrap();
    assert_eq!(d, counterpart());
    assert_eq!(p, vec![0xa4, 0x13, 0x68, 0x62, b'h', b'e', b'l', b'l', b'o']);
}

#[test]
fn set_greeting_in_l1_transport_failure() {
    let mut g = GreeterL2::new();
    g.update_l1_target(counterpart()).unwrap();
    let mut log: Vec<L2ToL1TxCreated> = Vec::new();
    let r = g.set_greeting_in_l1(String::from("hello"), |_, _| Err(TransportError), &mut log);
    assert_eq!(r, Err(GreeterError::OutboundDispatchFailed));
    assert!(log.is_empty());
}

#[test]
fn set_greeting_in_l1_success_logs_once() {
    let g = GreeterL2::new();
    let mut log: Vec<L2ToL1TxCreated> = vec![L2ToL1TxCreated { withdrawal_id: id(1) }];
    let mut seen: Option<(Address, Vec<u8>)> = None;
    let r = g.set_greeting_in_l1(
        String::from("yo"),
        |d, p| {
            seen = Some((d, p));
            Ok(id(2))
        },
        &mut log,
    );
    assert_eq!(r, Ok(id(2)));
    assert_eq!(
        log,
        vec![
            L2ToL1TxCreated { withdrawal_id: id(1) },
            L2ToL1TxCreated { withdrawal_id: id(2) }
        ]
    );
    let (d, p) = seen.unwrap();
    assert_eq!(d, Address::zero());
    assert_eq!(p, vec![0xa4, 0x13, 0x68, 0x62, b'y', b'o']);
}

#[test]
fn error_messages() {
    assert_eq!(GreeterError::Unauthorized.message(), "Greeting only updateable by L1");
    assert_eq!(GreeterError::OutboundDispatchFailed.message(), "External call failed");
}
