use rt_bench::network::{echo_step, packet, EchoAction, EchoEvent, EchoState, PingPong};
use rt_bench::PACKET_SIZE;

#[test]
fn packets_are_filled() {
    let p = packet(69);
    assert_eq!(p.len(), PACKET_SIZE);
    assert!(p.iter().all(|b| *b == 69));
}

#[test]
fn echo_serves_one_connection() {
    let (s, a) = echo_step(EchoState::Accepting, EchoEvent::Started);
    assert_eq!((s, a), (EchoState::Accepting, EchoAction::Accept));
    let (s, a) = echo_step(s, EchoEvent::Accepted);
    assert_eq!((s, a), (EchoState::Reading, EchoAction::ReadPacket));
    let (s, a) = echo_step(s, EchoEvent::PacketRead { ok: true });
    assert_eq!((s, a), (EchoState::Writing, EchoAction::WritePacket));
    let (s, a) = echo_step(s, EchoEvent::PacketWritten);
    assert_eq!((s, a), (EchoState::Reading, EchoAction::ReadPacket));
    let (s, a) = echo_step(s, EchoEvent::PacketRead { ok: false });
    assert_eq!((s, a), (EchoState::Stopped, EchoAction::Stop));
    let (s, a) = echo_step(s, EchoEvent::Accepted);
    assert_eq!((s, a), (EchoState::Stopped, EchoAction::Stop));
}

#[test]
fn echo_ignores_unexpected_events() {
    assert_eq!(
        echo_step(EchoState::Writing, EchoEvent::Accepted),
        (EchoState::Writing, EchoAction::WritePacket)
    );
    assert_eq!(
        echo_step(EchoState::Reading, EchoEvent::PacketWritten),
        (EchoState::Reading, EchoAction::ReadPacket)
    );
}

#[test]
fn ping_pong_records_round_trips() {
    let mut c = PingPong::new(3);
    let mut t = 10;
    while c.has_next_request() {
        let p = c.request();
        assert_eq!(p, vec![0u8; PACKET_SIZE]);
        c.record_round_trip(t);
        t += 10;
    }
    let (lat, total) = c.finish(99);
    assert_eq!(lat, vec![10, 20, 30]);
    assert_eq!(total, 99);
}

#[test]
fn ping_pong_without_requests() {
    let c = PingPong::new(0);
    assert!(!c.has_next_request());
    let (lat, total) = c.finish(0);
    assert!(lat.is_empty());
    assert_eq!(total, 0);
}
