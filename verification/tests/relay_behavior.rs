use relay_core::acceptor::AcceptOutcome;
use relay_core::acceptor::Acceptor;
use relay_core::acceptor::AcceptorState;
use relay_core::chunk::Chunk;
use relay_core::chunk::ReadEvent;
use relay_core::pump::Phase;
use relay_core::pump::Pump;
use relay_core::relay::Endpoint;
use relay_core::relay::Pair;
use relay_core::relay::RelayAction;
use relay_core::relay::ShutdownSignal;

fn chunk(bytes: &[u8]) -> Chunk {
    Chunk::new(bytes.to_vec()).expect("chunk bytes must be non-empty")
}

fn fresh_pair() -> Pair {
    let acceptor = Acceptor::new();
    match acceptor.handle_inbound(Endpoint::new_open(), true) {
        AcceptOutcome::Started(pair) => pair,
        AcceptOutcome::Discarded(_) => panic!("successful dial must start a relay"),
    }
}

#[test]
fn empty_read_yields_no_chunk() {
    assert!(Chunk::new(Vec::new()).is_none());
}

#[test]
fn chunk_keeps_its_bytes() {
    let c = chunk(b"PING");
    assert_eq!(c.len(), 4);
    assert_eq!(c.bytes().as_slice(), b"PING");
    assert_eq!(c.into_bytes(), b"PING".to_vec());
}

#[test]
fn signal_takes_effect_only_once() {
    let mut signal = ShutdownSignal::new();
    assert!(!signal.raised);
    assert!(signal.raise());
    assert!(!signal.raise());
    assert!(!signal.raise());
    assert!(signal.raised);
}

#[test]
fn pump_hands_each_chunk_on() {
    let mut pump = Pump::new();
    assert_eq!(pump.phase, Phase::Reading);
    let out = pump.on_read(ReadEvent::Data(chunk(b"abc")));
    let delivered = out.expect("a data event must yield the chunk to write");
    assert_eq!(delivered.bytes().as_slice(), b"abc");
    assert_eq!(pump.phase, Phase::Writing);
    pump.on_write(true);
    assert_eq!(pump.phase, Phase::Reading);
    assert!(!pump.is_done());
}

#[test]
fn pump_finishes_cleanly_at_end_of_stream() {
    let mut pump = Pump::new();
    assert!(pump.on_read(ReadEvent::Closed).is_none());
    assert_eq!(pump.phase, Phase::Done);
    assert!(pump.clean);
    assert!(pump.is_done());
}

#[test]
fn pump_finishes_on_read_error() {
    let mut pump = Pump::new();
    assert!(pump.on_read(ReadEvent::Failed).is_none());
    assert_eq!(pump.phase, Phase::Done);
    assert!(!pump.clean);
}

#[test]
fn pump_finishes_on_write_error() {
    let mut pump = Pump::new();
    pump.on_read(ReadEvent::Data(chunk(b"x")));
    pump.on_write(false);
    assert_eq!(pump.phase, Phase::Done);
    assert!(!pump.clean);
}

#[test]
fn ping_pong_passes_through_unmodified() {
    let mut pair = fresh_pair();

    let act = pair.on_source_read(ReadEvent::Data(chunk(b"PING")));
    match act {
        RelayAction::Deliver(c) => assert_eq!(c.into_bytes(), b"PING".to_vec()),
        _ => panic!("a chunk from the client must be delivered to the destination"),
    }
    assert!(matches!(pair.on_dest_write(true), RelayAction::Resume));

    let act = pair.on_dest_read(ReadEvent::Data(chunk(b"PONG")));
    match act {
        RelayAction::Deliver(c) => assert_eq!(c.into_bytes(), b"PONG".to_vec()),
        _ => panic!("a chunk from the destination must be delivered to the client"),
    }
    assert!(matches!(pair.on_source_write(true), RelayAction::Resume));

    let act = pair.on_source_read(ReadEvent::Closed);
    assert!(matches!(act, RelayAction::Teardown));
    assert!(!pair.source.open);
    assert!(!pair.dest.open);
    assert!(pair.inbound.clean);
}

#[test]
fn source_close_tears_the_pair_down_at_once() {
    let mut pair = fresh_pair();
    assert!(matches!(pair.on_source_read(ReadEvent::Closed), RelayAction::Teardown));
    assert!(!pair.source.open);
    assert!(!pair.dest.open);
    assert!(pair.signal.raised);
}

#[test]
fn dest_close_tears_the_pair_down_at_once() {
    let mut pair = fresh_pair();
    assert!(matches!(pair.on_dest_read(ReadEvent::Closed), RelayAction::Teardown));
    assert!(!pair.source.open);
    assert!(!pair.dest.open);
    assert!(pair.signal.raised);
}

#[test]
fn read_error_tears_the_pair_down() {
    let mut pair = fresh_pair();
    assert!(matches!(pair.on_source_read(ReadEvent::Failed), RelayAction::Teardown));
    assert!(!pair.source.open);
    assert!(!pair.dest.open);
}

#[test]
fn write_error_is_ordinary_teardown() {
    let mut pair = fresh_pair();
    assert!(matches!(
        pair.on_source_read(ReadEvent::Data(chunk(b"late"))),
        RelayAction::Deliver(_)
    ));
    assert!(matches!(pair.on_dest_write(false), RelayAction::Teardown));
    assert!(!pair.source.open);
    assert!(!pair.dest.open);
}

#[test]
fn second_shutdown_delivery_is_a_no_op() {
    let mut pair = fresh_pair();
    assert!(matches!(pair.on_source_read(ReadEvent::Closed), RelayAction::Teardown));
    assert!(matches!(pair.on_dest_read(ReadEvent::Failed), RelayAction::Stop));
    assert!(!pair.source.open);
    assert!(!pair.dest.open);
    assert!(pair.signal.raised);
}

#[test]
fn pairs_do_not_share_state() {
    let mut pair_a = fresh_pair();
    let mut pair_b = fresh_pair();

    assert!(matches!(
        pair_a.on_source_read(ReadEvent::Data(chunk(b"only for A"))),
        RelayAction::Deliver(_)
    ));
    assert!(matches!(pair_a.on_dest_write(true), RelayAction::Resume));
    assert!(matches!(pair_a.on_source_read(ReadEvent::Closed), RelayAction::Teardown));

    assert!(pair_b.source.open);
    assert!(pair_b.dest.open);
    assert!(!pair_b.signal.raised);
    let act = pair_b.on_source_read(ReadEvent::Data(chunk(b"B")));
    match act {
        RelayAction::Deliver(c) => assert_eq!(c.into_bytes(), b"B".to_vec()),
        _ => panic!("pair B must keep relaying after pair A closed"),
    }
}

#[test]
fn failed_dial_discards_the_source_closed() {
    let acceptor = Acceptor::new();
    match acceptor.handle_inbound(Endpoint::new_open(), false) {
        AcceptOutcome::Started(_) => panic!("a failed dial must not start a relay"),
        AcceptOutcome::Discarded(e) => assert!(!e.open),
    }
}

#[test]
fn acceptor_goes_on_after_a_failed_dial() {
    let acceptor = Acceptor::new();
    match acceptor.handle_inbound(Endpoint::new_open(), false) {
        AcceptOutcome::Started(_) => panic!("a failed dial must not start a relay"),
        AcceptOutcome::Discarded(e) => assert!(!e.open),
    }
    let mut pair = match acceptor.handle_inbound(Endpoint::new_open(), true) {
        AcceptOutcome::Started(pair) => pair,
        AcceptOutcome::Discarded(_) => panic!("the next dial must start its own relay"),
    };
    let act = pair.on_source_read(ReadEvent::Data(chunk(b"hello")));
    match act {
        RelayAction::Deliver(c) => assert_eq!(c.into_bytes(), b"hello".to_vec()),
        _ => panic!("the later pair must relay independently"),
    }
}

#[test]
fn listener_error_stops_the_acceptor() {
    let mut acceptor = Acceptor::new();
    assert_eq!(acceptor.state, AcceptorState::Listening);
    acceptor.on_listener_error();
    assert_eq!(acceptor.state, AcceptorState::Stopped);
}
