//! The dispatcher, the retry engine, the supervisor decisions, the broker
//! topology and the connection model, driven on concrete histories.

use payments_notifications::conn::{
    check_channel, has_broken, is_broken_conn, on_heartbeat_failure, ChannelFault, ConnState,
};
use payments_notifications::dispatch::{
    dispatch_message, drive_retry, retry_decide, retry_delays, route_queue, transient,
    DispatchCommand, Disposition, RetryDecision, Route,
};
use payments_notifications::errors::{
    CallbackClientErrorKind, EmailClientErrorKind, Error, ErrorContext, ErrorKind,
    IosClientErrorKind,
};
use payments_notifications::http::{
    classify_egress_status, classify_status, ingress_response, route_ingress, HttpErrorKind,
    IngressError,
};
use payments_notifications::models::Callback;
use payments_notifications::supervisor::{
    ack_action, resubscribe_plan, settle_delay_ms, AckAction, BrokerOp, ConsumerHandle, Counters,
    DeliveryLife, DeliveryPhase,
};
use payments_notifications::topology::{init_ops, subscribe_plan, Topology, TopologyOp};
use payments_notifications::codec::DecodeError;
use payments_notifications::{CONSUMER_PREFETCH_COUNT, DELAY_BEFORE_NACK, DELAY_BEFORE_RECONNECT};

fn transient_failures(n: usize) -> Vec<Option<ErrorKind>> {
    let mut v: Vec<Option<ErrorKind>> = Vec::new();
    let mut i = 0;
    while i < n {
        v.push(Some(ErrorKind::Internal));
        i += 1;
    }
    v
}

#[test]
fn constants_match_the_design() {
    assert_eq!(DELAY_BEFORE_NACK, 1000);
    assert_eq!(DELAY_BEFORE_RECONNECT, 1000);
    assert_eq!(CONSUMER_PREFETCH_COUNT, 10);
    assert_eq!(
        retry_delays(),
        vec![2, 4, 8, 16, 32, 64, 128, 256, 512, 1024, 2048]
    );
}

#[test]
fn routing_table() {
    assert_eq!(route_queue("callbacks"), Route::Callbacks);
    assert_eq!(route_queue("emails"), Route::Emails);
    assert_eq!(route_queue("pushes"), Route::Pushes);
    assert_eq!(route_queue("foo"), Route::Unknown);
    assert_eq!(route_queue(""), Route::Unknown);
}

#[test]
fn happy_callback_is_delivered_and_acked() {
    // One publish to `callbacks`, the egress accepts at once: no delays, no
    // dead-letter publish, and the delivery is acked.
    let body =
        b"{\"url\":\"https://h/x\",\"amountCaptured\":\"100\",\"currency\":\"eth\",\"address\":\"0xabc\",\"accountId\":\"id-1\"}"
            .to_vec();
    let cmd = dispatch_message("callbacks", &body, false);
    let cb = match cmd {
        DispatchCommand::DeliverCallback(cb) => cb,
        other => panic!("expected a callback delivery, got {:?}", other),
    };
    assert_eq!(cb.url, "https://h/x");
    let mut outcomes = transient_failures(0);
    outcomes.push(None);
    let run = drive_retry(&outcomes, true);
    assert_eq!(run.delays, Vec::<u64>::new());
    assert_eq!(run.publishes, 0);
    assert_eq!(run.disposition, Disposition::Delivered);
    assert_eq!(ack_action(run.disposition), AckAction::Ack);
}

#[test]
fn two_failures_then_success_consume_two_delays() {
    // The egress answers 500 twice, then 200: delays of 2 s and 4 s, final
    // ack, no dead-letter publish.
    let mut outcomes = transient_failures(2);
    outcomes.push(None);
    let run = drive_retry(&outcomes, true);
    assert_eq!(run.delays, vec![2, 4]);
    assert_eq!(run.publishes, 0);
    assert_eq!(run.disposition, Disposition::Delivered);
    assert_eq!(ack_action(run.disposition), AckAction::Ack);
}

#[test]
fn always_failing_consumes_the_whole_schedule_and_dead_letters_once() {
    // The egress answers 500 on all eleven attempts: the full schedule is
    // consumed, exactly one dead-letter publish follows, then an ack.
    let outcomes = transient_failures(11);
    let run = drive_retry(&outcomes, true);
    assert_eq!(run.delays, vec![2, 4, 8, 16, 32, 64, 128, 256, 512, 1024, 2048]);
    assert_eq!(run.publishes, 1);
    assert_eq!(run.disposition, Disposition::Exhausted);
    assert_eq!(ack_action(run.disposition), AckAction::Ack);
}

#[test]
fn failed_dead_letter_publish_requeues() {
    // If the broker refuses the dead-letter publish, the delivery is not
    // acked: it goes back with a requeueing nack.
    let outcomes = transient_failures(11);
    let run = drive_retry(&outcomes, false);
    assert_eq!(run.publishes, 1);
    assert_eq!(run.disposition, Disposition::Failed);
    assert_eq!(ack_action(run.disposition), AckAction::NackRequeue);
}

#[test]
fn terminal_egress_error_stops_retrying() {
    let mut outcomes = transient_failures(1);
    outcomes.push(Some(ErrorKind::Unauthorized));
    outcomes.push(None);
    let run = drive_retry(&outcomes, true);
    assert_eq!(run.delays, vec![2]);
    assert_eq!(run.publishes, 0);
    assert_eq!(run.disposition, Disposition::Terminal);
    assert_eq!(ack_action(run.disposition), AckAction::Ack);
}

#[test]
fn retry_decide_steps() {
    assert_eq!(retry_decide(0, None), RetryDecision::Delivered);
    assert_eq!(
        retry_decide(3, Some(ErrorKind::MalformedInput)),
        RetryDecision::Terminal(ErrorKind::MalformedInput)
    );
    assert_eq!(retry_decide(0, Some(ErrorKind::Internal)), RetryDecision::Retry(2));
    assert_eq!(retry_decide(9, Some(ErrorKind::Internal)), RetryDecision::Retry(1024));
    assert_eq!(
        retry_decide(10, Some(ErrorKind::Internal)),
        RetryDecision::Exhausted(2048)
    );
    assert!(transient(ErrorKind::Internal));
    assert!(!transient(ErrorKind::Unauthorized));
    assert!(!transient(ErrorKind::MalformedInput));
}

#[test]
fn malformed_email_payload_is_terminal() {
    // Malformed JSON on `emails`: no egress call, no dead-letter publish;
    // the dispatcher completes and the supervisor acks.
    let cmd = dispatch_message("emails", &b"{oops".to_vec(), false);
    assert_eq!(cmd, DispatchCommand::CompleteMalformed(DecodeError::Json));
    assert_eq!(ack_action(Disposition::Terminal), AckAction::Ack);
}

#[test]
fn invalid_utf8_payload_is_terminal() {
    let cmd = dispatch_message("emails", &vec![0xff, 0x00], false);
    assert_eq!(cmd, DispatchCommand::CompleteMalformed(DecodeError::Utf8));
}

#[test]
fn unknown_queue_is_rejected_and_nacked_after_delay() {
    // A delivery from an unsupported queue fails the dispatcher; the
    // supervisor nacks with requeue after the fixed 1000 ms delay.
    let cmd = dispatch_message("foo", &b"{}".to_vec(), false);
    assert_eq!(cmd, DispatchCommand::RejectUnknownQueue);
    let e = payments_notifications::dispatch::unknown_queue_error();
    assert_eq!(e.kind, ErrorKind::Internal);
    assert_eq!(e.context, vec![ErrorContext::NotSupported]);
    let a = ack_action(Disposition::Failed);
    assert_eq!(a, AckAction::NackRequeue);
    assert_eq!(settle_delay_ms(a), 1000);
}

#[test]
fn disabled_pushes_complete_without_an_egress_call() {
    let cmd = dispatch_message("pushes", &b"anything".to_vec(), false);
    assert_eq!(cmd, DispatchCommand::CompleteNoop);
}

#[test]
fn enabled_pushes_decode() {
    let cmd = dispatch_message("pushes", &b"{broken".to_vec(), true);
    assert_eq!(cmd, DispatchCommand::CompleteMalformed(DecodeError::Json));
}

#[test]
fn delivery_life_settles_exactly_once() {
    let mut life = DeliveryLife::accept(7);
    assert_eq!(life.tag, 7);
    assert_eq!(life.phase, DeliveryPhase::Received);
    life.start_dispatch();
    assert_eq!(life.phase, DeliveryPhase::Dispatching);
    let a = life.settle(Disposition::Delivered);
    assert_eq!(a, AckAction::Ack);
    assert_eq!(life.phase, DeliveryPhase::Settled(AckAction::Ack));
}

#[test]
fn timed_out_delivery_is_nacked_with_requeue() {
    // A dispatcher run past the resubscribe deadline counts as timed out:
    // requeueing nack after the fixed delay, and the broker redelivers.
    let mut life = DeliveryLife::accept(1);
    life.start_dispatch();
    let a = life.settle(Disposition::TimedOut);
    assert_eq!(a, AckAction::NackRequeue);
    assert_eq!(settle_delay_ms(a), DELAY_BEFORE_NACK);
}

#[test]
fn resubscribe_cancels_and_requeues_every_consumer() {
    // The resubscribe boundary: one in-flight delivery on the first
    // consumer; the teardown nacks its tag with requeue, cancels both
    // consumers and recovers each channel.
    let consumers = vec![
        ConsumerHandle { consumer_tag: "ctag-1".to_string(), outstanding: Some(42) },
        ConsumerHandle { consumer_tag: "ctag-2".to_string(), outstanding: None },
    ];
    let plan = resubscribe_plan(&consumers);
    assert_eq!(
        plan,
        vec![
            BrokerOp::NackRequeue(42),
            BrokerOp::Cancel("ctag-1".to_string()),
            BrokerOp::Recover,
            BrokerOp::Cancel("ctag-2".to_string()),
            BrokerOp::Recover,
        ]
    );
}

#[test]
fn init_ops_declare_the_whole_dead_letter_topology() {
    let ops = init_ops();
    assert_eq!(ops.len(), 7);
    match &ops[0] {
        TopologyOp::DeclareExchange(e) => {
            assert_eq!(e.name, "notifications");
            assert_eq!(e.kind, "direct");
            assert!(e.durable);
        },
        other => panic!("expected the exchange first, got {:?}", other),
    }
    let names = ["error_callbacks", "error_emails", "error_pushes"];
    for (i, name) in names.iter().enumerate() {
        match &ops[1 + 2 * i] {
            TopologyOp::DeclareQueue(q) => {
                assert_eq!(&q.name, name);
                assert!(q.durable);
            },
            other => panic!("expected a queue declaration, got {:?}", other),
        }
        match &ops[2 + 2 * i] {
            TopologyOp::Bind(b) => {
                assert_eq!(&b.queue, name);
                assert_eq!(b.exchange, "notifications");
                assert_eq!(&b.routing_key, name);
            },
            other => panic!("expected a binding, got {:?}", other),
        }
    }
}

#[test]
fn subscribe_plan_names_the_fixed_queues() {
    let plan = subscribe_plan();
    assert_eq!(plan.len(), 3);
    let names: Vec<&str> = plan.iter().map(|e| e.queue.as_str()).collect();
    assert_eq!(names, vec!["pushes", "callbacks", "emails"]);
    for entry in &plan {
        assert!(entry.durable);
        assert_eq!(entry.consumer_tag, "");
    }
}

#[test]
fn init_is_idempotent_on_the_topology() {
    let ops = init_ops();
    let mut once = Topology::new();
    once.apply_all(&ops);
    let mut twice = Topology::new();
    twice.apply_all(&ops);
    twice.apply_all(&ops);
    assert_eq!(once, twice);
}

#[test]
fn counters_track_each_kind_of_event() {
    let mut c = Counters::new();
    c.on_received();
    c.on_received();
    c.on_attempted(AckAction::Ack);
    c.on_confirmed(AckAction::Ack);
    c.on_attempted(AckAction::NackRequeue);
    assert_eq!(c.received, 2);
    assert_eq!(c.ack_attempted, 1);
    assert_eq!(c.ack_confirmed, 1);
    assert_eq!(c.nack_attempted, 1);
    assert_eq!(c.nack_confirmed, 0);
}

#[test]
fn connection_state_decisions() {
    assert!(is_broken_conn(ConnState::Closing));
    assert!(is_broken_conn(ConnState::Closed));
    assert!(is_broken_conn(ConnState::Errored));
    assert!(!is_broken_conn(ConnState::Connected));
    assert_eq!(
        check_channel(ConnState::Errored, true),
        Some(ChannelFault::ConnectionBroken)
    );
    assert_eq!(
        check_channel(ConnState::Connecting, true),
        Some(ChannelFault::ConnectionConnecting)
    );
    assert_eq!(
        check_channel(ConnState::Connected, false),
        Some(ChannelFault::ChannelNotConnected)
    );
    assert_eq!(check_channel(ConnState::Connected, true), None);
    assert!(!has_broken(ConnState::Connected, true));
    assert!(has_broken(ConnState::Closed, true));
}

#[test]
fn heartbeat_failure_marks_the_connection_errored() {
    let s = on_heartbeat_failure(ConnState::Connected);
    assert_eq!(s, ConnState::Errored);
    assert!(is_broken_conn(s));
    assert!(has_broken(s, true));
}

#[test]
fn http_status_classification() {
    assert_eq!(classify_status(200), None);
    assert_eq!(classify_status(204), None);
    assert_eq!(classify_status(301), None);
    assert_eq!(classify_status(400), Some(HttpErrorKind::BadRequest));
    assert_eq!(classify_status(401), Some(HttpErrorKind::Unauthorized));
    assert_eq!(classify_status(404), Some(HttpErrorKind::NotFound));
    assert_eq!(classify_status(500), Some(HttpErrorKind::Internal));
    assert_eq!(classify_status(502), Some(HttpErrorKind::BadGateway));
    assert_eq!(classify_status(504), Some(HttpErrorKind::GatewayTimeout));
    assert_eq!(classify_status(418), Some(HttpErrorKind::UnknownServerError));
    assert_eq!(classify_status(599), Some(HttpErrorKind::UnknownServerError));
}

#[test]
fn egress_status_classification() {
    assert_eq!(classify_egress_status(200), None);
    assert_eq!(classify_egress_status(299), None);
    assert_eq!(classify_egress_status(401), Some(ErrorKind::Unauthorized));
    assert_eq!(classify_egress_status(403), Some(ErrorKind::Unauthorized));
    assert_eq!(classify_egress_status(400), Some(ErrorKind::MalformedInput));
    assert_eq!(classify_egress_status(422), Some(ErrorKind::MalformedInput));
    assert_eq!(classify_egress_status(500), Some(ErrorKind::Internal));
    assert_eq!(classify_egress_status(302), Some(ErrorKind::Internal));
}

#[test]
fn ingress_responses() {
    assert_eq!(route_ingress("GET", "/anything"), IngressError::NotFound);
    assert_eq!(
        ingress_response(&IngressError::NotFound),
        (404, "{\"description\": \"Not found\"}".to_string())
    );
    assert_eq!(
        ingress_response(&IngressError::BadRequest),
        (400, "{\"description\": \"Bad request\"}".to_string())
    );
    assert_eq!(
        ingress_response(&IngressError::Unauthorized),
        (401, "{\"description\": \"Unauthorized\"}".to_string())
    );
    assert_eq!(
        ingress_response(&IngressError::Internal),
        (500, "{\"description\": \"Internal server error\"}".to_string())
    );
    assert_eq!(
        ingress_response(&IngressError::UnprocessableEntity("[{\"f\":\"x\"}]".to_string())),
        (422, "[{\"f\":\"x\"}]".to_string())
    );
}

#[test]
fn error_values_carry_kind_source_and_context() {
    let e = Error::new(ErrorKind::Internal)
        .context(ErrorContext::Lapin)
        .context(ErrorContext::NotSupported);
    assert_eq!(e.kind(), ErrorKind::Internal);
    assert_eq!(e.source, None);
    assert_eq!(e.context, vec![ErrorContext::Lapin, ErrorContext::NotSupported]);
    assert_eq!(
        ErrorKind::Internal.message(),
        "service error - internal error"
    );
    assert_eq!(ErrorKind::Unauthorized.message(), "service error - unauthorized");
}

#[test]
fn client_error_kinds_map_into_the_service_kind() {
    assert_eq!(ErrorKind::from(CallbackClientErrorKind::Internal), ErrorKind::Internal);
    assert_eq!(
        ErrorKind::from(CallbackClientErrorKind::Unauthorized),
        ErrorKind::Unauthorized
    );
    assert_eq!(
        ErrorKind::from(EmailClientErrorKind::MalformedInput),
        ErrorKind::MalformedInput
    );
    assert_eq!(ErrorKind::from(IosClientErrorKind::Internal), ErrorKind::Internal);
}

#[test]
fn dispatch_delivers_a_spaced_reordered_callback() {
    // A payload from another producer: whitespace, reordered keys, an
    // escaped capital A. It is delivered, not dropped as malformed.
    let body = b" {\n \"accountId\": \"id-1\", \"currency\": \"eth\", \"url\": \"https://h/\\u0041\",\n \"amountCaptured\": \"100\", \"address\": \"0xabc\" } ".to_vec();
    match dispatch_message("callbacks", &body, false) {
        DispatchCommand::DeliverCallback(cb) => {
            assert_eq!(cb.url, "https://h/A");
            assert_eq!(cb.amount_captured, "100");
            assert_eq!(cb.account_id, "id-1");
        },
        other => panic!("expected a callback delivery, got {:?}", other),
    }
}

#[test]
fn dispatch_decodes_the_happy_callback_exactly() {
    let cb = Callback {
        url: "https://h/x".to_string(),
        amount_captured: "100".to_string(),
        currency: "eth".to_string(),
        address: "0xabc".to_string(),
        account_id: "id-1".to_string(),
    };
    let body = payments_notifications::codec::encode_callback(&cb).into_bytes();
    match dispatch_message("callbacks", &body, false) {
        DispatchCommand::DeliverCallback(got) => assert_eq!(got, cb),
        other => panic!("expected a callback delivery, got {:?}", other),
    }
}
