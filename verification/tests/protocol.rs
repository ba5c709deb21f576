use noise_transport::{
    FaultClass, InboundState, NoiseTransport, OutboundState, Poll, Step, TransportError,
};

#[derive(Debug, Clone, PartialEq, Eq)]
struct Ping {
    seq: u64,
}

#[derive(Debug, Clone, PartialEq, Eq)]
struct Pong {
    seq: u64,
    payload: Vec<u8>,
}

type Transport = NoiseTransport<(), (), Ping, Pong>;

fn fresh() -> Transport {
    NoiseTransport::new(())
}

fn ping(seq: u64) -> Ping {
    Ping { seq }
}

fn pong(seq: u64, payload: &[u8]) -> Pong {
    Pong { seq, payload: payload.to_vec() }
}

/// A ready-check that the combinator answers with success.
fn grant(transport: &mut Transport) {
    assert_eq!(transport.poll_ready(), Step::Forward(()));
    assert_eq!(transport.on_ready(Poll::Ready(Ok(()))), Poll::Ready(Ok(())));
}

/// A close that the combinator completes.
fn close(transport: &mut Transport) {
    assert_eq!(transport.poll_close(), Step::Forward(()));
    assert_eq!(transport.on_closed(Poll::Ready(Ok(()))), Poll::Ready(Ok(())));
}

/// A poll for the next message that the combinator answers with a fault.
fn fault_stream(transport: &mut Transport, class: FaultClass) {
    assert_eq!(transport.poll_next(), Step::Forward(()));
    assert_eq!(
        transport.on_next(Poll::Ready(Some(Err(class)))),
        Poll::Ready(Some(Err(TransportError::Fault(class))))
    );
}

#[test]
fn new_transport_is_at_rest_in_both_directions() {
    let transport = fresh();
    assert_eq!(transport.outbound_state(), OutboundState::Idle);
    assert_eq!(transport.inbound_state(), InboundState::AwaitingBytes);
}

#[test]
fn ready_check_is_forwarded_and_leaves_the_state() {
    let transport = fresh();
    assert_eq!(transport.poll_ready(), Step::Forward(()));
    assert_eq!(transport.outbound_state(), OutboundState::Idle);
}

#[test]
fn successful_ready_check_grants_one_message() {
    let mut transport = fresh();
    grant(&mut transport);
    assert_eq!(transport.outbound_state(), OutboundState::AcceptingOne);
    assert_eq!(transport.start_send(ping(1)), Step::Forward(ping(1)));
    assert_eq!(transport.outbound_state(), OutboundState::Idle);
    assert_eq!(transport.on_sent(Ok(())), Ok(()));
    assert_eq!(transport.outbound_state(), OutboundState::Idle);
}

#[test]
fn enqueue_without_ready_check_is_refused() {
    let mut transport = fresh();
    assert_eq!(transport.start_send(ping(1)), Step::Done(Err(TransportError::NotReady)));
    assert_eq!(transport.outbound_state(), OutboundState::Idle);
}

#[test]
fn one_grant_takes_one_message_only() {
    let mut transport = fresh();
    grant(&mut transport);
    assert_eq!(transport.start_send(ping(1)), Step::Forward(ping(1)));
    assert_eq!(transport.start_send(ping(2)), Step::Done(Err(TransportError::NotReady)));
}

#[test]
fn pending_ready_check_is_no_grant() {
    let mut transport = fresh();
    assert_eq!(transport.poll_ready(), Step::Forward(()));
    assert_eq!(transport.on_ready(Poll::Pending), Poll::Pending);
    assert_eq!(transport.outbound_state(), OutboundState::Idle);
    assert_eq!(transport.start_send(ping(1)), Step::Done(Err(TransportError::NotReady)));
}

#[test]
fn pending_ready_check_withdraws_an_open_grant() {
    let mut transport = fresh();
    grant(&mut transport);
    assert_eq!(transport.poll_ready(), Step::Forward(()));
    assert_eq!(transport.on_ready(Poll::Pending), Poll::Pending);
    assert_eq!(transport.outbound_state(), OutboundState::Idle);
    assert_eq!(transport.start_send(ping(1)), Step::Done(Err(TransportError::NotReady)));
    grant(&mut transport);
    assert_eq!(transport.start_send(ping(1)), Step::Forward(ping(1)));
}

#[test]
fn failed_ready_check_withdraws_an_open_grant() {
    let mut transport = fresh();
    grant(&mut transport);
    assert_eq!(
        transport.on_ready(Poll::Ready(Err(FaultClass::Serialization))),
        Poll::Ready(Err(TransportError::Fault(FaultClass::Serialization)))
    );
    assert_eq!(transport.outbound_state(), OutboundState::Idle);
    assert_eq!(transport.start_send(ping(1)), Step::Done(Err(TransportError::NotReady)));
}

#[test]
fn polls_of_the_stream_do_not_touch_a_grant() {
    let mut transport = fresh();
    grant(&mut transport);
    assert_eq!(transport.poll_next(), Step::Forward(()));
    assert_eq!(transport.on_next(Poll::Pending), Poll::Pending);
    assert_eq!(transport.start_send(ping(9)), Step::Forward(ping(9)));
}

#[test]
fn messages_are_handed_on_in_the_order_of_enqueue() {
    let mut transport = fresh();
    let mut handed_on = Vec::new();
    for seq in [3u64, 1, 2, 1] {
        grant(&mut transport);
        match transport.start_send(ping(seq)) {
            Step::Forward(message) => handed_on.push(message),
            Step::Done(answer) => panic!("refused: {:?}", answer),
        }
        assert_eq!(transport.on_sent(Ok(())), Ok(()));
    }
    assert_eq!(transport.poll_flush(), Step::Forward(()));
    assert_eq!(transport.on_flushed(Poll::Ready(Ok(()))), Poll::Ready(Ok(())));
    assert_eq!(handed_on, vec![ping(3), ping(1), ping(2), ping(1)]);
    assert_eq!(transport.outbound_state(), OutboundState::Idle);
    assert_eq!(transport.inbound_state(), InboundState::AwaitingBytes);
}

#[test]
fn refused_messages_leave_the_order_of_the_rest() {
    let mut transport = fresh();
    let mut handed_on = Vec::new();
    for (seq, granted) in [(1u64, true), (2, false), (3, true), (4, false), (5, true)] {
        if granted {
            grant(&mut transport);
        }
        match transport.start_send(ping(seq)) {
            Step::Forward(message) => {
                handed_on.push(message);
                assert_eq!(transport.on_sent(Ok(())), Ok(()));
            }
            Step::Done(answer) => assert_eq!(answer, Err(TransportError::NotReady)),
        }
    }
    assert_eq!(handed_on, vec![ping(1), ping(3), ping(5)]);
}

#[test]
fn messages_are_handed_over_in_the_order_of_arrival() {
    let mut transport = fresh();
    let mut handed_over = Vec::new();
    for seq in [7u64, 5, 6] {
        assert_eq!(transport.poll_next(), Step::Forward(()));
        match transport.on_next(Poll::Ready(Some(Ok(pong(seq, b"x"))))) {
            Poll::Ready(Some(Ok(message))) => handed_over.push(message),
            other => panic!("no message: {:?}", other),
        }
        assert_eq!(transport.inbound_state(), InboundState::AwaitingBytes);
    }
    assert_eq!(handed_over, vec![pong(7, b"x"), pong(5, b"x"), pong(6, b"x")]);
    assert_eq!(transport.outbound_state(), OutboundState::Idle);
}

#[test]
fn transport_sends_ping_and_receives_pong() {
    let mut transport: NoiseTransport<(), (), Ping, Pong> = NoiseTransport::new(());
    grant(&mut transport);
    let outbound: Step<Ping, Result<(), TransportError>> = transport.start_send(Ping { seq: 41 });
    assert_eq!(outbound, Step::Forward(Ping { seq: 41 }));
    assert_eq!(transport.on_sent(Ok(())), Ok(()));
    assert_eq!(transport.poll_next(), Step::Forward(()));
    let inbound: Poll<Option<Result<Pong, TransportError>>> =
        transport.on_next(Poll::Ready(Some(Ok(Pong { seq: 41, payload: vec![1, 2, 3] }))));
    assert_eq!(inbound, Poll::Ready(Some(Ok(Pong { seq: 41, payload: vec![1, 2, 3] }))));
}

#[test]
fn pending_flush_marks_the_sink_flushing() {
    let mut transport = fresh();
    assert_eq!(transport.poll_flush(), Step::Forward(()));
    assert_eq!(transport.outbound_state(), OutboundState::Idle);
    assert_eq!(transport.on_flushed(Poll::Pending), Poll::Pending);
    assert_eq!(transport.outbound_state(), OutboundState::Flushing);
    assert_eq!(transport.on_flushed(Poll::Ready(Ok(()))), Poll::Ready(Ok(())));
    assert_eq!(transport.outbound_state(), OutboundState::Idle);
}

#[test]
fn flush_uses_up_an_open_grant() {
    let mut transport = fresh();
    grant(&mut transport);
    assert_eq!(transport.poll_flush(), Step::Forward(()));
    assert_eq!(transport.on_flushed(Poll::Ready(Ok(()))), Poll::Ready(Ok(())));
    assert_eq!(transport.outbound_state(), OutboundState::Idle);
    assert_eq!(transport.start_send(ping(1)), Step::Done(Err(TransportError::NotReady)));
}

#[test]
fn pending_flush_uses_up_an_open_grant() {
    let mut transport = fresh();
    grant(&mut transport);
    assert_eq!(transport.poll_flush(), Step::Forward(()));
    assert_eq!(transport.on_flushed(Poll::Pending), Poll::Pending);
    assert_eq!(transport.outbound_state(), OutboundState::Flushing);
    assert_eq!(transport.start_send(ping(1)), Step::Done(Err(TransportError::NotReady)));
}

#[test]
fn ready_check_is_possible_while_a_flush_is_pending() {
    let mut transport = fresh();
    assert_eq!(transport.poll_flush(), Step::Forward(()));
    assert_eq!(transport.on_flushed(Poll::Pending), Poll::Pending);
    assert_eq!(transport.poll_ready(), Step::Forward(()));
    assert_eq!(transport.on_ready(Poll::Pending), Poll::Pending);
    assert_eq!(transport.outbound_state(), OutboundState::Flushing);
    grant(&mut transport);
    assert_eq!(transport.outbound_state(), OutboundState::AcceptingOne);
}

#[test]
fn close_is_forwarded_and_closes_on_success() {
    let mut transport = fresh();
    assert_eq!(transport.poll_close(), Step::Forward(()));
    assert_eq!(transport.outbound_state(), OutboundState::Idle);
    assert_eq!(transport.on_closed(Poll::Pending), Poll::Pending);
    assert_eq!(transport.outbound_state(), OutboundState::Flushing);
    assert_eq!(transport.on_closed(Poll::Ready(Ok(()))), Poll::Ready(Ok(())));
    assert_eq!(transport.outbound_state(), OutboundState::Closed { cause: None });
    assert_eq!(transport.inbound_state(), InboundState::AwaitingBytes);
}

#[test]
fn close_twice_succeeds_twice() {
    let mut transport = fresh();
    close(&mut transport);
    assert_eq!(transport.poll_close(), Step::Done(Poll::Ready(Ok(()))));
    assert_eq!(transport.poll_close(), Step::Done(Poll::Ready(Ok(()))));
    assert_eq!(transport.outbound_state(), OutboundState::Closed { cause: None });
}

#[test]
fn closed_sink_takes_no_message() {
    let mut transport = fresh();
    grant(&mut transport);
    close(&mut transport);
    assert_eq!(transport.poll_ready(), Step::Done(Poll::Ready(Err(TransportError::AlreadyClosed))));
    assert_eq!(transport.start_send(ping(1)), Step::Done(Err(TransportError::AlreadyClosed)));
    assert_eq!(transport.poll_flush(), Step::Done(Poll::Ready(Ok(()))));
}

#[test]
fn closed_sink_ignores_late_answers() {
    let mut transport = fresh();
    close(&mut transport);
    assert_eq!(
        transport.on_ready(Poll::Ready(Ok(()))),
        Poll::Ready(Err(TransportError::AlreadyClosed))
    );
    assert_eq!(transport.on_sent(Ok(())), Err(TransportError::AlreadyClosed));
    assert_eq!(transport.on_flushed(Poll::Ready(Err(FaultClass::ChannelIo))), Poll::Ready(Ok(())));
    assert_eq!(transport.on_closed(Poll::Pending), Poll::Ready(Ok(())));
    assert_eq!(transport.outbound_state(), OutboundState::Closed { cause: None });
    assert_eq!(transport.inbound_state(), InboundState::AwaitingBytes);
}

#[test]
fn closed_sink_leaves_the_stream_running() {
    let mut transport = fresh();
    close(&mut transport);
    assert_eq!(transport.poll_next(), Step::Forward(()));
    assert_eq!(
        transport.on_next(Poll::Ready(Some(Ok(pong(1, b"late"))))),
        Poll::Ready(Some(Ok(pong(1, b"late"))))
    );
}

#[test]
fn close_that_fails_without_a_fatal_fault_can_be_tried_again() {
    let mut transport = fresh();
    assert_eq!(transport.poll_close(), Step::Forward(()));
    assert_eq!(
        transport.on_closed(Poll::Ready(Err(FaultClass::Serialization))),
        Poll::Ready(Err(TransportError::Fault(FaultClass::Serialization)))
    );
    assert_eq!(transport.outbound_state(), OutboundState::Idle);
    close(&mut transport);
}

#[test]
fn pending_poll_marks_the_stream_decoding() {
    let mut transport = fresh();
    assert_eq!(transport.poll_next(), Step::Forward(()));
    assert_eq!(transport.inbound_state(), InboundState::AwaitingBytes);
    assert_eq!(transport.on_next(Poll::Pending), Poll::Pending);
    assert_eq!(transport.inbound_state(), InboundState::Decoding);
    assert_eq!(
        transport.on_next(Poll::Ready(Some(Ok(pong(1, b"abc"))))),
        Poll::Ready(Some(Ok(pong(1, b"abc"))))
    );
    assert_eq!(transport.inbound_state(), InboundState::AwaitingBytes);
}

#[test]
fn clean_closure_ends_a_stream_that_awaits_bytes() {
    let mut transport = fresh();
    assert_eq!(transport.inbound_state(), InboundState::AwaitingBytes);
    assert_eq!(transport.poll_next(), Step::Forward(()));
    assert_eq!(transport.on_next(Poll::Ready(None)), Poll::Ready(None));
    assert_eq!(transport.inbound_state(), InboundState::Ended);
}

#[test]
fn end_of_stream_is_repeated_on_every_poll() {
    let mut transport = fresh();
    assert_eq!(transport.poll_next(), Step::Forward(()));
    assert_eq!(transport.on_next(Poll::Ready(None)), Poll::Ready(None));
    assert_eq!(transport.inbound_state(), InboundState::Ended);
    for _ in 0..3 {
        assert_eq!(transport.poll_next(), Step::Done(Poll::Ready(None)));
    }
    assert_eq!(transport.on_next(Poll::Ready(Some(Ok(pong(1, b"ghost"))))), Poll::Ready(None));
    assert_eq!(transport.inbound_state(), InboundState::Ended);
}

#[test]
fn end_of_stream_leaves_the_sink_running() {
    let mut transport = fresh();
    assert_eq!(transport.poll_next(), Step::Forward(()));
    assert_eq!(transport.on_next(Poll::Ready(None)), Poll::Ready(None));
    grant(&mut transport);
    assert_eq!(transport.start_send(ping(1)), Step::Forward(ping(1)));
}

#[test]
fn frame_fault_is_repeated_on_every_poll() {
    let mut transport = fresh();
    fault_stream(&mut transport, FaultClass::Frame);
    assert_eq!(transport.inbound_state(), InboundState::Faulted { class: FaultClass::Frame });
    for _ in 0..3 {
        assert_eq!(
            transport.poll_next(),
            Step::Done(Poll::Ready(Some(Err(TransportError::Fault(FaultClass::Frame)))))
        );
    }
    assert_eq!(
        transport.on_next(Poll::Ready(None)),
        Poll::Ready(Some(Err(TransportError::Fault(FaultClass::Frame))))
    );
}

#[test]
fn frame_fault_leaves_the_sink_running() {
    let mut transport = fresh();
    fault_stream(&mut transport, FaultClass::Frame);
    assert_eq!(transport.outbound_state(), OutboundState::Idle);
    grant(&mut transport);
    assert_eq!(transport.start_send(ping(1)), Step::Forward(ping(1)));
    assert_eq!(transport.on_sent(Ok(())), Ok(()));
    close(&mut transport);
}

#[test]
fn channel_fault_on_the_stream_ends_both_directions() {
    let mut transport = fresh();
    grant(&mut transport);
    fault_stream(&mut transport, FaultClass::ChannelIo);
    assert_eq!(transport.inbound_state(), InboundState::Faulted { class: FaultClass::ChannelIo });
    assert_eq!(
        transport.outbound_state(),
        OutboundState::Closed { cause: Some(FaultClass::ChannelIo) }
    );
    let fault = TransportError::Fault(FaultClass::ChannelIo);
    assert_eq!(transport.poll_ready(), Step::Done(Poll::Ready(Err(fault))));
    assert_eq!(transport.start_send(ping(1)), Step::Done(Err(fault)));
    assert_eq!(transport.poll_flush(), Step::Done(Poll::Ready(Err(fault))));
    assert_eq!(transport.poll_close(), Step::Done(Poll::Ready(Err(fault))));
    assert_eq!(transport.poll_close(), Step::Done(Poll::Ready(Err(fault))));
    assert_eq!(transport.poll_next(), Step::Done(Poll::Ready(Some(Err(fault)))));
}

#[test]
fn integrity_fault_ends_both_directions_under_its_own_class() {
    let mut transport = fresh();
    fault_stream(&mut transport, FaultClass::Integrity);
    let fault = TransportError::Fault(FaultClass::Integrity);
    assert_ne!(fault, TransportError::Fault(FaultClass::ChannelIo));
    assert_eq!(transport.poll_next(), Step::Done(Poll::Ready(Some(Err(fault)))));
    assert_eq!(transport.poll_ready(), Step::Done(Poll::Ready(Err(fault))));
    assert_eq!(transport.poll_close(), Step::Done(Poll::Ready(Err(fault))));
}

#[test]
fn channel_fault_on_the_sink_ends_both_directions() {
    let mut transport = fresh();
    assert_eq!(transport.poll_flush(), Step::Forward(()));
    assert_eq!(
        transport.on_flushed(Poll::Ready(Err(FaultClass::ChannelIo))),
        Poll::Ready(Err(TransportError::Fault(FaultClass::ChannelIo)))
    );
    assert_eq!(
        transport.outbound_state(),
        OutboundState::Closed { cause: Some(FaultClass::ChannelIo) }
    );
    assert_eq!(
        transport.poll_next(),
        Step::Done(Poll::Ready(Some(Err(TransportError::Fault(FaultClass::ChannelIo)))))
    );
}

#[test]
fn integrity_fault_on_a_ready_check_ends_both_directions() {
    let mut transport = fresh();
    assert_eq!(transport.poll_ready(), Step::Forward(()));
    assert_eq!(
        transport.on_ready(Poll::Ready(Err(FaultClass::Integrity))),
        Poll::Ready(Err(TransportError::Fault(FaultClass::Integrity)))
    );
    assert_eq!(
        transport.outbound_state(),
        OutboundState::Closed { cause: Some(FaultClass::Integrity) }
    );
    assert_eq!(transport.inbound_state(), InboundState::Faulted { class: FaultClass::Integrity });
}

#[test]
fn serialization_fault_at_enqueue_is_not_fatal() {
    let mut transport = fresh();
    grant(&mut transport);
    assert_eq!(transport.start_send(ping(1)), Step::Forward(ping(1)));
    assert_eq!(
        transport.on_sent(Err(FaultClass::Serialization)),
        Err(TransportError::Fault(FaultClass::Serialization))
    );
    assert_eq!(transport.outbound_state(), OutboundState::Idle);
    assert_eq!(transport.inbound_state(), InboundState::AwaitingBytes);
    grant(&mut transport);
    assert_eq!(transport.start_send(ping(2)), Step::Forward(ping(2)));
    assert_eq!(transport.on_sent(Ok(())), Ok(()));
}

#[test]
fn serialization_fault_on_the_stream_is_not_fatal() {
    let mut transport = fresh();
    fault_stream(&mut transport, FaultClass::Serialization);
    assert_eq!(transport.inbound_state(), InboundState::AwaitingBytes);
    assert_eq!(transport.poll_next(), Step::Forward(()));
}

#[test]
fn frame_fault_on_the_sink_ends_the_stream_only() {
    let mut transport = fresh();
    grant(&mut transport);
    assert_eq!(transport.start_send(ping(1)), Step::Forward(ping(1)));
    assert_eq!(
        transport.on_sent(Err(FaultClass::Frame)),
        Err(TransportError::Fault(FaultClass::Frame))
    );
    assert_eq!(transport.outbound_state(), OutboundState::Idle);
    assert_eq!(transport.inbound_state(), InboundState::Faulted { class: FaultClass::Frame });
}

#[test]
fn ended_stream_keeps_its_end_when_the_channel_fails_later() {
    let mut transport = fresh();
    assert_eq!(transport.poll_next(), Step::Forward(()));
    assert_eq!(transport.on_next(Poll::Ready(None)), Poll::Ready(None));
    assert_eq!(transport.poll_flush(), Step::Forward(()));
    assert_eq!(
        transport.on_flushed(Poll::Ready(Err(FaultClass::ChannelIo))),
        Poll::Ready(Err(TransportError::Fault(FaultClass::ChannelIo)))
    );
    assert_eq!(transport.poll_next(), Step::Done(Poll::Ready(None)));
    assert_eq!(transport.inbound_state(), InboundState::Ended);
}

#[test]
fn closed_sink_keeps_its_close_when_the_channel_fails_later() {
    let mut transport = fresh();
    close(&mut transport);
    fault_stream(&mut transport, FaultClass::ChannelIo);
    assert_eq!(transport.outbound_state(), OutboundState::Closed { cause: None });
    assert_eq!(transport.poll_close(), Step::Done(Poll::Ready(Ok(()))));
    assert_eq!(transport.poll_ready(), Step::Done(Poll::Ready(Err(TransportError::AlreadyClosed))));
}

#[test]
fn first_fatal_fault_stands() {
    let mut transport = fresh();
    fault_stream(&mut transport, FaultClass::Frame);
    assert_eq!(transport.poll_flush(), Step::Forward(()));
    assert_eq!(
        transport.on_flushed(Poll::Ready(Err(FaultClass::Integrity))),
        Poll::Ready(Err(TransportError::Fault(FaultClass::Integrity)))
    );
    assert_eq!(transport.inbound_state(), InboundState::Faulted { class: FaultClass::Frame });
    assert_eq!(
        transport.outbound_state(),
        OutboundState::Closed { cause: Some(FaultClass::Integrity) }
    );
}

#[test]
fn abandoned_poll_leaves_the_next_message_whole() {
    let mut transport = fresh();
    assert_eq!(transport.poll_next(), Step::Forward(()));
    assert_eq!(transport.on_next(Poll::Pending), Poll::Pending);
    // The caller gives the pending poll up and starts a fresh one.
    assert_eq!(transport.poll_next(), Step::Forward(()));
    assert_eq!(
        transport.on_next(Poll::Ready(Some(Ok(pong(5, b"whole"))))),
        Poll::Ready(Some(Ok(pong(5, b"whole"))))
    );
    assert_eq!(transport.inbound_state(), InboundState::AwaitingBytes);
    assert_eq!(transport.poll_next(), Step::Forward(()));
    assert_eq!(transport.on_next(Poll::Pending), Poll::Pending);
}

#[test]
fn abandoned_ready_check_leaves_the_sink_usable() {
    let mut transport = fresh();
    assert_eq!(transport.poll_ready(), Step::Forward(()));
    // The caller gives the ready-check up before the combinator answers.
    assert_eq!(transport.outbound_state(), OutboundState::Idle);
    grant(&mut transport);
    assert_eq!(transport.start_send(ping(1)), Step::Forward(ping(1)));
}
