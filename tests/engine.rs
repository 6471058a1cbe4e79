use worker_engine::controller::{EngineMain, MainPhase};
use worker_engine::envelope::{decode_signal_envelope, ControlSignal, Delivery, Envelope, ProtocolError};
use worker_engine::frame::FrameTimer;
use worker_engine::pacer::{period_for_rate, FramePacer};
use worker_engine::queue::EventQueue;
use worker_engine::worker::EngineWorker;

#[test]
fn rate_sixty_gives_period_seventeen() {
    assert_eq!(period_for_rate(60), Some(17));
    assert_eq!(FramePacer::new(60, 0).period(), 17);
}

#[test]
fn rate_thousand_gives_period_one() {
    assert_eq!(period_for_rate(1000), Some(1));
}

#[test]
fn rate_two_thousand_rounds_half_up() {
    assert_eq!(period_for_rate(2000), Some(1));
    assert_eq!(FramePacer::new(2000, 0).period(), 1);
}

#[test]
fn rates_with_zero_period_are_rejected() {
    assert_eq!(period_for_rate(2001), None);
    assert_eq!(period_for_rate(0), None);
    assert_eq!(period_for_rate(usize::MAX), None);
}

#[test]
fn slow_rates_round_to_nearest() {
    assert_eq!(period_for_rate(1), Some(1000));
    assert_eq!(period_for_rate(3), Some(333));
    assert_eq!(period_for_rate(30), Some(33));
    assert_eq!(period_for_rate(400), Some(3));
    assert_eq!(period_for_rate(144), Some(7));
}

#[test]
fn pacer_delay_covers_rest_of_period() {
    let p = FramePacer::new(60, 1_000_000);
    assert_eq!(p.last_tick(), 1_000_000);
    assert_eq!(p.delay_ms(1_000_000), 17);
    assert_eq!(p.delay_ms(1_005_000), 12);
    assert_eq!(p.delay_ms(1_005_400), 11);
    assert_eq!(p.delay_ms(1_016_500), 0);
    assert_eq!(p.delay_ms(1_017_000), 0);
    assert_eq!(p.delay_ms(1_030_000), 0);
    assert_eq!(p.delay_ms(999_000), 18);
}

#[test]
fn pacer_cycles_stay_a_period_apart() {
    let mut p = FramePacer::new(60, 0);
    let mut end: u64 = 0;
    for work in [0u64, 3_000, 9_999, 16_999, 999] {
        let call = end + work;
        let d = p.delay_ms(call);
        let new_end = call + d * 1000;
        p.complete(new_end);
        assert!(new_end - end + 999 >= 17_000);
        end = new_end;
    }
}

#[test]
fn pacer_remainder_does_not_accumulate() {
    let mut p = FramePacer::new(60, 0);
    let mut end: u64 = 0;
    for n in 1..=5_000u64 {
        let call = end + 999;
        let new_end = call + p.delay_ms(call) * 1000;
        p.complete(new_end);
        assert!(new_end + 999 >= n * 17_000);
        assert_eq!(p.last_tick(), n * 17_000);
        end = new_end;
    }
}

#[test]
fn pacer_on_time_cycle_counts_from_its_boundary() {
    let mut p = FramePacer::new(60, 0);
    p.complete(16_400);
    assert_eq!(p.last_tick(), 17_000);
    p.complete(34_000);
    assert_eq!(p.last_tick(), 34_000);
    assert_eq!(p.delay_ms(34_500), 16);
}

#[test]
fn pacer_late_frame_is_not_followed_by_a_short_one() {
    let mut p = FramePacer::new(60, 0);
    p.complete(33_000);
    assert_eq!(p.last_tick(), 33_000);
    assert_eq!(p.delay_ms(33_000), 17);
    p.complete(17_100 + 33_000);
    assert_eq!(p.last_tick(), 50_100);
    assert_eq!(p.delay_ms(50_100), 17);
}

#[test]
fn pacer_late_cycle_restarts_count() {
    let mut p = FramePacer::new(60, 0);
    p.complete(40_000);
    assert_eq!(p.last_tick(), 40_000);
    p.complete(50_000);
    assert_eq!(p.last_tick(), 50_000);
    p.restart(70_000);
    assert_eq!(p.last_tick(), 70_000);
    assert_eq!(p.delay_ms(70_000), 17);
}

#[test]
fn queue_drains_in_push_order() {
    let mut q = EventQueue::new();
    q.push(1u32);
    q.push(2);
    q.push(3);
    assert_eq!(q.len(), 3);
    assert_eq!(q.drain(), &[1, 2, 3]);
    assert_eq!(q.len(), 0);
    assert_eq!(q.drain(), &[] as &[u32]);
}

#[test]
fn queue_push_after_drain_waits_for_next_drain() {
    let mut q = EventQueue::new();
    q.push('a');
    q.push('b');
    let first: Vec<char> = q.drain().to_vec();
    q.push('c');
    assert_eq!(first, vec!['a', 'b']);
    assert_eq!(q.drain(), &['c']);
    assert_eq!(q.drain(), &[] as &[char]);
}

#[test]
fn frame_timer_batches_events_per_frame() {
    let mut f: FrameTimer<u8> = FrameTimer::new(50, 0);
    assert_eq!(f.period(), 20);
    f.push(7);
    f.push(8);
    assert_eq!(f.delay_ms(4_000), 16);
    assert_eq!(f.next(20_000), &[7, 8]);
    assert_eq!(f.delay_ms(25_000), 15);
    assert_eq!(f.next(40_000), &[] as &[u8]);
}

#[test]
fn control_tags_round_trip() {
    assert_eq!(ControlSignal::Ready.tag(), "ready");
    assert_eq!(ControlSignal::Close.tag(), "close");
    assert_eq!(ControlSignal::from_tag("ready"), Some(ControlSignal::Ready));
    assert_eq!(ControlSignal::from_tag("close"), Some(ControlSignal::Close));
    assert_eq!(ControlSignal::from_tag("Ready"), None);
    assert_eq!(ControlSignal::from_tag("read"), None);
    assert_eq!(ControlSignal::from_tag(""), None);
}

#[test]
fn envelope_slots_round_trip() {
    let e: Envelope<ControlSignal, u8> = Envelope::Both(ControlSignal::Close, 4);
    assert_eq!(e.into_slots(), (Some(ControlSignal::Close), Some(4)));
    let e = Envelope::<ControlSignal, u8>::from_slots(None, Some(5)).unwrap();
    assert!(matches!(e, Envelope::Payload(5)));
    let e = Envelope::<ControlSignal, u8>::from_slots(Some(ControlSignal::Ready), None).unwrap();
    assert!(matches!(e, Envelope::Control(ControlSignal::Ready)));
    assert!(Envelope::<ControlSignal, u8>::from_slots(None, None).is_none());
}

#[test]
fn decode_rejects_malformed_messages() {
    let r = decode_signal_envelope::<u8>(None, None);
    assert!(matches!(r, Err(ProtocolError::EmptyEnvelope)));
    let r = decode_signal_envelope::<u8>(Some("start"), Some(1));
    assert!(matches!(r, Err(ProtocolError::UnknownTag)));
    let r = decode_signal_envelope::<u8>(Some("ready"), None);
    assert!(matches!(r, Ok(Envelope::Control(ControlSignal::Ready))));
    let r = decode_signal_envelope::<u8>(Some("close"), Some(9));
    assert!(matches!(r, Ok(Envelope::Both(ControlSignal::Close, 9))));
    let r = decode_signal_envelope::<u8>(None, Some(2));
    assert!(matches!(r, Ok(Envelope::Payload(2))));
}

#[test]
fn handover_only_after_ready() {
    let mut m: EngineMain<String, u8> = EngineMain::new("surface".to_string());
    assert!(m.holds_surface());
    let r = m.receive::<u8>(Envelope::Payload(1)).unwrap();
    assert!(r.transfer.is_none());
    assert_eq!(r.payload, Some(1));
    assert!(m.holds_surface());
    assert_eq!(m.phase(), MainPhase::AwaitingReady);
    let r = m.receive::<u8>(Envelope::Control(ControlSignal::Ready)).unwrap();
    assert!(matches!(
        r.transfer,
        Some(Envelope::Payload(Delivery::Surface(ref s))) if s == "surface"
    ));
    assert!(!m.holds_surface());
    assert_eq!(m.phase(), MainPhase::Running);
}

#[test]
fn second_ready_is_a_breach() {
    let mut m: EngineMain<u32, u8> = EngineMain::new(11);
    assert!(m.receive::<u8>(Envelope::Control(ControlSignal::Ready)).is_ok());
    let r = m.receive::<u8>(Envelope::Control(ControlSignal::Ready));
    assert!(matches!(r, Err(ProtocolError::DuplicateReady)));
    assert_eq!(m.phase(), MainPhase::Running);
    assert!(!m.holds_surface());
}

#[test]
fn close_before_ready_is_a_breach() {
    let mut m: EngineMain<u32, u8> = EngineMain::new(11);
    let r = m.receive::<u8>(Envelope::Control(ControlSignal::Close));
    assert!(matches!(r, Err(ProtocolError::CloseBeforeReady)));
    assert!(m.holds_surface());
    assert_eq!(m.phase(), MainPhase::AwaitingReady);
}

#[test]
fn second_close_is_a_breach() {
    let mut m: EngineMain<u32, u8> = EngineMain::new(11);
    m.receive::<u8>(Envelope::Control(ControlSignal::Ready)).unwrap();
    m.receive::<u8>(Envelope::Control(ControlSignal::Close)).unwrap();
    let r = m.receive::<u8>(Envelope::Control(ControlSignal::Close));
    assert!(matches!(r, Err(ProtocolError::DuplicateClose)));
    assert_eq!(m.phase(), MainPhase::Closed);
}

#[test]
fn join_waits_for_close() {
    let mut m: EngineMain<u32, u8> = EngineMain::new(11);
    m.receive::<u8>(Envelope::Control(ControlSignal::Ready)).unwrap();
    let mut m = match m.join() {
        Ok(()) => panic!("joined before Close"),
        Err(m) => m,
    };
    let r = m.receive::<u8>(Envelope::Both(ControlSignal::Close, 3)).unwrap();
    assert_eq!(r.payload, Some(3));
    assert!(m.join().is_ok());
}

#[test]
fn send_after_close_does_not_panic() {
    let mut m: EngineMain<u32, u64> = EngineMain::new(11);
    m.receive::<u8>(Envelope::Control(ControlSignal::Ready)).unwrap();
    m.receive::<u8>(Envelope::Control(ControlSignal::Close)).unwrap();
    let e = m.send_event(42u64);
    assert!(matches!(e, Envelope::Payload(Delivery::Event(42))));
    assert_eq!(m.phase(), MainPhase::Closed);
    assert!(m.join().is_ok());
}

#[test]
fn worker_announces_ready_and_takes_surface() {
    let (mut w, ready) = EngineWorker::<String, u8>::new::<u8>(60, 0);
    assert!(matches!(ready, Envelope::Control(ControlSignal::Ready)));
    assert!(!w.is_ready());
    assert_eq!(w.canvas(), None);
    w.receive(Envelope::Payload(Delivery::Surface("surface".to_string()))).unwrap();
    assert!(w.is_ready());
    assert_eq!(w.canvas(), Some(&"surface".to_string()));
    let r = w.receive(Envelope::Payload(Delivery::Surface("other".to_string())));
    assert!(matches!(r, Err(ProtocolError::DuplicateSurface)));
    assert_eq!(w.canvas(), Some(&"surface".to_string()));
}

#[test]
fn worker_refuses_control_signals() {
    let (mut w, _ready) = EngineWorker::<u32, u8>::new::<u8>(60, 0);
    let r = w.receive(Envelope::Control(ControlSignal::Ready));
    assert!(matches!(r, Err(ProtocolError::UnexpectedSignal)));
    let r = w.receive(Envelope::Both(ControlSignal::Close, Delivery::Event(1)));
    assert!(matches!(r, Err(ProtocolError::UnexpectedSignal)));
    assert!(!w.is_ready());
    assert_eq!(w.next(17_000), &[] as &[u8]);
}

#[test]
fn three_events_before_one_frame() {
    let (mut w, _ready) = EngineWorker::<u32, char>::new::<u8>(60, 0);
    w.receive(Envelope::Payload(Delivery::Surface(1))).unwrap();
    w.receive(Envelope::Payload(Delivery::Event('A'))).unwrap();
    w.receive(Envelope::Payload(Delivery::Event('B'))).unwrap();
    w.receive(Envelope::Payload(Delivery::Event('C'))).unwrap();
    let d = w.frame_delay(2_000);
    assert_eq!(d, 15);
    assert_eq!(w.next(17_000), &['A', 'B', 'C']);
    assert_eq!(w.frame_delay(17_000), 17);
    assert_eq!(w.next(34_000), &[] as &[char]);
}

#[test]
fn worker_pacing_starts_when_restarted() {
    let (mut w, _ready) = EngineWorker::<u32, char>::new::<u8>(60, 0);
    w.receive(Envelope::Payload(Delivery::Surface(1))).unwrap();
    w.restart_pacing(100_000);
    assert_eq!(w.frame_delay(100_000), 17);
    assert_eq!(w.frame_delay(110_000), 7);
}

#[test]
fn shutdown_emits_close_once() {
    let mut m: EngineMain<u32, u8> = EngineMain::new(8);
    let (mut w, ready) = EngineWorker::<u32, u8>::new::<u8>(60, 0);
    let inbound = m.receive(ready).unwrap();
    w.receive(inbound.transfer.unwrap()).unwrap();
    assert_eq!(w.canvas(), Some(&8));
    assert!(!m.holds_surface());
    let first = w.close::<u8>();
    let second = w.close::<u8>();
    assert!(second.is_none());
    let close = first.unwrap();
    assert!(matches!(close, Envelope::Control(ControlSignal::Close)));
    m.receive(close).unwrap();
    assert!(m.join().is_ok());
}

#[test]
fn worker_posts_payloads() {
    let (mut w, _ready) = EngineWorker::<u32, u8>::new::<u8>(30, 0);
    let e = w.post_message(String::from("hi"));
    assert!(matches!(e, Envelope::Payload(ref s) if s == "hi"));
}
