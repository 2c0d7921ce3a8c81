use orange::{FlatDoc, Prim, WalletEvent, serialize_event};

fn lookup<'a>(doc: &'a FlatDoc, key: &str) -> &'a Prim {
    &doc.entries.iter().find(|(k, _)| k == key).expect("key present").1
}

fn keys(doc: &FlatDoc) -> Vec<&str> {
    doc.entries.iter().map(|(k, _)| k.as_str()).collect()
}

#[test]
fn payment_received_amounts_are_integer_sats() {
    let event = WalletEvent::PaymentReceived {
        payment_id: String::from("pay-1"),
        payment_hash: String::from("hash-1"),
        amount_msat: 5000,
        custom_records_count: 0,
        lsp_fee_msats: 250,
    };
    let doc = serialize_event(&event, 1700000000);
    assert_eq!(lookup(&doc, "type"), &Prim::Str(String::from("payment_received")));
    assert_eq!(lookup(&doc, "timestamp"), &Prim::UInt(1700000000));
    assert_eq!(lookup(&doc, "amount_msat"), &Prim::UInt(5000));
    assert_eq!(lookup(&doc, "amount_sats"), &Prim::UInt(5));
    assert_eq!(lookup(&doc, "custom_records_count"), &Prim::UInt(0));
    assert_eq!(lookup(&doc, "lsp_fee_msats"), &Prim::UInt(250));
    assert_eq!(
        keys(&doc),
        vec![
            "type",
            "timestamp",
            "payment_id",
            "payment_hash",
            "amount_msat",
            "amount_sats",
            "custom_records_count",
            "lsp_fee_msats",
        ]
    );
}

#[test]
fn amount_sats_rounds_down() {
    let event = WalletEvent::PaymentReceived {
        payment_id: String::from("p"),
        payment_hash: String::from("h"),
        amount_msat: 1999,
        custom_records_count: 2,
        lsp_fee_msats: 0,
    };
    let doc = serialize_event(&event, 7);
    assert_eq!(lookup(&doc, "amount_sats"), &Prim::UInt(1));
}

#[test]
fn payment_successful_document() {
    let event = WalletEvent::PaymentSuccessful {
        payment_id: String::from("pay-9"),
        payment_hash: String::from("abcd"),
        payment_preimage: String::from("ef01"),
        fee_paid_msat: 1200,
    };
    let doc = serialize_event(&event, 42);
    assert_eq!(lookup(&doc, "type"), &Prim::Str(String::from("payment_successful")));
    assert_eq!(lookup(&doc, "timestamp"), &Prim::UInt(42));
    assert_eq!(lookup(&doc, "payment_id"), &Prim::Str(String::from("pay-9")));
    assert_eq!(lookup(&doc, "payment_hash"), &Prim::Str(String::from("abcd")));
    assert_eq!(lookup(&doc, "payment_preimage"), &Prim::Str(String::from("ef01")));
    assert_eq!(lookup(&doc, "fee_paid_msat"), &Prim::UInt(1200));
    assert_eq!(doc.entries.len(), 6);
}

#[test]
fn payment_failed_absent_fields_are_explicit_nulls() {
    let event = WalletEvent::PaymentFailed {
        payment_id: String::from("pay-2"),
        payment_hash: None,
        reason: None,
    };
    let doc = serialize_event(&event, 9);
    assert_eq!(lookup(&doc, "type"), &Prim::Str(String::from("payment_failed")));
    assert_eq!(lookup(&doc, "payment_hash"), &Prim::Null);
    assert_eq!(lookup(&doc, "reason"), &Prim::Null);
    assert_eq!(doc.entries.len(), 5);
}

#[test]
fn payment_failed_present_fields_are_strings() {
    let event = WalletEvent::PaymentFailed {
        payment_id: String::from("pay-3"),
        payment_hash: Some(String::from("beef")),
        reason: Some(String::from("RouteNotFound")),
    };
    let doc = serialize_event(&event, 9);
    assert_eq!(lookup(&doc, "payment_hash"), &Prim::Str(String::from("beef")));
    assert_eq!(lookup(&doc, "reason"), &Prim::Str(String::from("RouteNotFound")));
}

#[test]
fn onchain_payment_received_document() {
    let event = WalletEvent::OnchainPaymentReceived {
        payment_id: String::from("pay-4"),
        txid: String::from("txid-4"),
        amount_sat: 100_000,
        status: String::from("Confirmed"),
    };
    let doc = serialize_event(&event, 10);
    assert_eq!(lookup(&doc, "type"), &Prim::Str(String::from("onchain_payment_received")));
    assert_eq!(lookup(&doc, "amount_sat"), &Prim::UInt(100_000));
    assert_eq!(lookup(&doc, "status"), &Prim::Str(String::from("Confirmed")));
}

#[test]
fn channel_opened_and_closed_documents() {
    let opened = WalletEvent::ChannelOpened {
        channel_id: String::from("chan-1"),
        user_channel_id: String::from("user-1"),
        counterparty_node_id: String::from("node-1"),
        funding_txo: String::from("txo-1"),
    };
    let doc = serialize_event(&opened, 11);
    assert_eq!(lookup(&doc, "type"), &Prim::Str(String::from("channel_opened")));
    assert_eq!(lookup(&doc, "funding_txo"), &Prim::Str(String::from("txo-1")));

    let closed = WalletEvent::ChannelClosed {
        channel_id: String::from("chan-1"),
        user_channel_id: String::from("user-1"),
        counterparty_node_id: String::from("node-1"),
        reason: Some(String::from("CooperativeClosure")),
    };
    let doc = serialize_event(&closed, 12);
    assert_eq!(lookup(&doc, "type"), &Prim::Str(String::from("channel_closed")));
    assert_eq!(lookup(&doc, "reason"), &Prim::Str(String::from("CooperativeClosure")));

    let closed_unexplained = WalletEvent::ChannelClosed {
        channel_id: String::from("chan-2"),
        user_channel_id: String::from("user-2"),
        counterparty_node_id: String::from("node-2"),
        reason: None,
    };
    let doc = serialize_event(&closed_unexplained, 13);
    assert_eq!(lookup(&doc, "reason"), &Prim::Null);
}

#[test]
fn rebalance_documents() {
    let initiated = WalletEvent::RebalanceInitiated {
        trigger_payment_id: String::from("trig-1"),
        trusted_rebalance_payment_id: String::from("aa55"),
        amount_msat: 7000,
    };
    let doc = serialize_event(&initiated, 14);
    assert_eq!(lookup(&doc, "type"), &Prim::Str(String::from("rebalance_initiated")));
    assert_eq!(lookup(&doc, "amount_msat"), &Prim::UInt(7000));

    let successful = WalletEvent::RebalanceSuccessful {
        trigger_payment_id: String::from("trig-1"),
        trusted_rebalance_payment_id: String::from("aa55"),
        ln_rebalance_payment_id: String::from("bb66"),
        amount_msat: 7000,
        fee_msat: 21,
    };
    let doc = serialize_event(&successful, 15);
    assert_eq!(lookup(&doc, "type"), &Prim::Str(String::from("rebalance_successful")));
    assert_eq!(lookup(&doc, "ln_rebalance_payment_id"), &Prim::Str(String::from("bb66")));
    assert_eq!(lookup(&doc, "fee_msat"), &Prim::UInt(21));
}

#[test]
fn splice_pending_document() {
    let event = WalletEvent::SplicePending {
        channel_id: String::from("chan-3"),
        user_channel_id: String::from("user-3"),
        counterparty_node_id: String::from("node-3"),
        new_funding_txo: String::from("txo-3"),
    };
    let doc = serialize_event(&event, 16);
    assert_eq!(lookup(&doc, "type"), &Prim::Str(String::from("splice_pending")));
    assert_eq!(lookup(&doc, "new_funding_txo"), &Prim::Str(String::from("txo-3")));
}

#[test]
fn round_trip_recovers_every_field() {
    let event = WalletEvent::PaymentReceived {
        payment_id: String::from("pay-7"),
        payment_hash: String::from("77aa"),
        amount_msat: 123_456,
        custom_records_count: 3,
        lsp_fee_msats: 789,
    };
    let doc = serialize_event(&event, 1234);
    let rebuilt = WalletEvent::PaymentReceived {
        payment_id: match lookup(&doc, "payment_id") {
            Prim::Str(s) => s.clone(),
            other => panic!("expected string, got {other:?}"),
        },
        payment_hash: match lookup(&doc, "payment_hash") {
            Prim::Str(s) => s.clone(),
            other => panic!("expected string, got {other:?}"),
        },
        amount_msat: match lookup(&doc, "amount_msat") {
            Prim::UInt(n) => *n,
            other => panic!("expected integer, got {other:?}"),
        },
        custom_records_count: match lookup(&doc, "custom_records_count") {
            Prim::UInt(n) => *n,
            other => panic!("expected integer, got {other:?}"),
        },
        lsp_fee_msats: match lookup(&doc, "lsp_fee_msats") {
            Prim::UInt(n) => *n,
            other => panic!("expected integer, got {other:?}"),
        },
    };
    assert_eq!(rebuilt, event);
    assert_eq!(lookup(&doc, "timestamp"), &Prim::UInt(1234));
}
