use orange::{
    DaemonInput, DaemonState, LogLine, WalletEvent, daemon_run, daemon_step, event_tag_string,
    serialize_event,
};

fn sample_event(id: &str) -> WalletEvent {
    WalletEvent::PaymentReceived {
        payment_id: String::from(id),
        payment_hash: String::from("hash"),
        amount_msat: 5000,
        custom_records_count: 0,
        lsp_fee_msats: 0,
    }
}

#[test]
fn event_with_three_targets_gets_three_deliveries() {
    let targets = vec![
        String::from("http://a.example/hook"),
        String::from("http://b.example/hook"),
        String::from("http://c.example/hook"),
    ];
    let input = DaemonInput::Event { event: sample_event("pay-1"), timestamp: 99 };
    let outcome = daemon_step(&targets, &input);
    assert_eq!(outcome.next, DaemonState::Running);
    assert!(!outcome.stop_wallet);
    assert_eq!(outcome.deliveries.len(), 3);
    let expected_payload = serialize_event(&sample_event("pay-1"), 99);
    for (delivery, target) in outcome.deliveries.iter().zip(targets.iter()) {
        assert_eq!(&delivery.url, target);
        assert_eq!(delivery.payload, expected_payload);
    }
    assert!(outcome.acknowledge);
    assert_eq!(
        outcome.log,
        LogLine::EventSeen { event_tag: String::from("payment_received"), timestamp: 99 }
    );
}

#[test]
fn event_with_no_targets_is_logged_not_acknowledged() {
    let targets: Vec<String> = Vec::new();
    let input = DaemonInput::Event { event: sample_event("pay-2"), timestamp: 7 };
    let outcome = daemon_step(&targets, &input);
    assert_eq!(outcome.next, DaemonState::Running);
    assert_eq!(outcome.deliveries.len(), 0);
    assert!(!outcome.acknowledge);
    assert!(!outcome.stop_wallet);
    assert_eq!(
        outcome.log,
        LogLine::EventSeen { event_tag: String::from("payment_received"), timestamp: 7 }
    );
}

#[test]
fn one_target_acknowledges_before_any_outcome_is_known() {
    let targets = vec![String::from("http://a.example/hook")];
    let input = DaemonInput::Event { event: sample_event("pay-3"), timestamp: 8 };
    let outcome = daemon_step(&targets, &input);
    assert_eq!(outcome.deliveries.len(), 1);
    assert!(outcome.acknowledge);
}

#[test]
fn interrupt_stops_the_wallet_and_delivers_nothing() {
    let targets = vec![String::from("http://a.example/hook")];
    let outcome = daemon_step(&targets, &DaemonInput::Interrupt);
    assert_eq!(outcome.next, DaemonState::Shutdown);
    assert!(outcome.stop_wallet);
    assert_eq!(outcome.deliveries.len(), 0);
    assert!(!outcome.acknowledge);
    assert_eq!(outcome.log, LogLine::ShutdownNotice);
}

#[test]
fn run_stops_at_first_interrupt_and_stops_exactly_once() {
    let targets = vec![String::from("http://a.example/hook")];
    let inputs = vec![
        DaemonInput::Event { event: sample_event("pay-1"), timestamp: 1 },
        DaemonInput::Event { event: sample_event("pay-2"), timestamp: 2 },
        DaemonInput::Interrupt,
        DaemonInput::Event { event: sample_event("pay-3"), timestamp: 3 },
    ];
    let trace = daemon_run(&targets, &inputs);
    assert_eq!(trace.len(), 3);
    let stops = trace.iter().filter(|o| o.stop_wallet).count();
    assert_eq!(stops, 1);
    assert!(trace[2].stop_wallet);
    assert_eq!(trace[2].next, DaemonState::Shutdown);
    assert_eq!(trace[0].next, DaemonState::Running);
    assert_eq!(trace[1].next, DaemonState::Running);
}

#[test]
fn run_with_immediate_interrupt_processes_no_event() {
    let targets: Vec<String> = Vec::new();
    let inputs = vec![
        DaemonInput::Interrupt,
        DaemonInput::Event { event: sample_event("pay-1"), timestamp: 1 },
    ];
    let trace = daemon_run(&targets, &inputs);
    assert_eq!(trace.len(), 1);
    assert!(trace[0].stop_wallet);
    assert_eq!(trace[0].next, DaemonState::Shutdown);
    assert_eq!(trace[0].log, LogLine::ShutdownNotice);
}

#[test]
fn run_without_interrupt_never_stops() {
    let targets = vec![String::from("http://a.example/hook"), String::from("http://b.example/hook")];
    let inputs = vec![
        DaemonInput::Event { event: sample_event("pay-1"), timestamp: 1 },
        DaemonInput::Event { event: sample_event("pay-2"), timestamp: 2 },
    ];
    let trace = daemon_run(&targets, &inputs);
    assert_eq!(trace.len(), 2);
    assert!(trace.iter().all(|o| !o.stop_wallet));
    assert!(trace.iter().all(|o| o.next == DaemonState::Running));
    assert!(trace.iter().all(|o| o.deliveries.len() == 2));
    assert!(trace.iter().all(|o| o.acknowledge));
}

#[test]
fn run_with_no_inputs_does_nothing() {
    let targets = vec![String::from("http://a.example/hook")];
    let inputs: Vec<DaemonInput> = Vec::new();
    let trace = daemon_run(&targets, &inputs);
    assert!(trace.is_empty());
}

#[test]
fn event_tags_match_discriminators() {
    assert_eq!(event_tag_string(&sample_event("x")), "payment_received");
    assert_eq!(
        event_tag_string(&WalletEvent::ChannelOpened {
            channel_id: String::new(),
            user_channel_id: String::new(),
            counterparty_node_id: String::new(),
            funding_txo: String::new(),
        }),
        "channel_opened"
    );
    assert_eq!(
        event_tag_string(&WalletEvent::RebalanceSuccessful {
            trigger_payment_id: String::new(),
            trusted_rebalance_payment_id: String::new(),
            ln_rebalance_payment_id: String::new(),
            amount_msat: 0,
            fee_msat: 0,
        }),
        "rebalance_successful"
    );
}
