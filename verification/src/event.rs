use vstd::prelude::*;
use crate::doc::{FlatDoc, Prim, PrimV, doc_lookup};

verus! {

/// A wallet event, as handed out by the wallet engine's event queue:
/// a closed, tagged set of variants, each carrying variant-specific
/// identifiers (held here as plain strings) and amounts (integers in
/// the smallest currency unit).
#[allow(inconsistent_fields)]
#[derive(Debug, PartialEq, Eq)]
pub enum WalletEvent {
    PaymentSuccessful {
        payment_id: String,
        payment_hash: String,
        payment_preimage: String,
        fee_paid_msat: u64,
    },
    PaymentFailed {
        payment_id: String,
        payment_hash: Option<String>,
        reason: Option<String>,
    },
    PaymentReceived {
        payment_id: String,
        payment_hash: String,
        amount_msat: u64,
        custom_records_count: u64,
        lsp_fee_msats: u64,
    },
    OnchainPaymentReceived {
        payment_id: String,
        txid: String,
        amount_sat: u64,
        status: String,
    },
    ChannelOpened {
        channel_id: String,
        user_channel_id: String,
        counterparty_node_id: String,
        funding_txo: String,
    },
    ChannelClosed {
        channel_id: String,
        user_channel_id: String,
        counterparty_node_id: String,
        reason: Option<String>,
    },
    RebalanceInitiated {
        trigger_payment_id: String,
        trusted_rebalance_payment_id: String,
        amount_msat: u64,
    },
    RebalanceSuccessful {
        trigger_payment_id: String,
        trusted_rebalance_payment_id: String,
        ln_rebalance_payment_id: String,
        amount_msat: u64,
        fee_msat: u64,
    },
    SplicePending {
        channel_id: String,
        user_channel_id: String,
        counterparty_node_id: String,
        new_funding_txo: String,
    },
}

/// Mathematical model of a `WalletEvent`.
#[allow(inconsistent_fields)]
#[verifier::ext_equal]
pub enum EventV {
    PaymentSuccessful {
        payment_id: Seq<char>,
        payment_hash: Seq<char>,
        payment_preimage: Seq<char>,
        fee_paid_msat: u64,
    },
    PaymentFailed {
        payment_id: Seq<char>,
        payment_hash: Option<Seq<char>>,
        reason: Option<Seq<char>>,
    },
    PaymentReceived {
        payment_id: Seq<char>,
        payment_hash: Seq<char>,
        amount_msat: u64,
        custom_records_count: u64,
        lsp_fee_msats: u64,
    },
    OnchainPaymentReceived {
        payment_id: Seq<char>,
        txid: Seq<char>,
        amount_sat: u64,
        status: Seq<char>,
    },
    ChannelOpened {
        channel_id: Seq<char>,
        user_channel_id: Seq<char>,
        counterparty_node_id: Seq<char>,
        funding_txo: Seq<char>,
    },
    ChannelClosed {
        channel_id: Seq<char>,
        user_channel_id: Seq<char>,
        counterparty_node_id: Seq<char>,
        reason: Option<Seq<char>>,
    },
    RebalanceInitiated {
        trigger_payment_id: Seq<char>,
        trusted_rebalance_payment_id: Seq<char>,
        amount_msat: u64,
    },
    RebalanceSuccessful {
        trigger_payment_id: Seq<char>,
        trusted_rebalance_payment_id: Seq<char>,
        ln_rebalance_payment_id: Seq<char>,
        amount_msat: u64,
        fee_msat: u64,
    },
    SplicePending {
        channel_id: Seq<char>,
        user_channel_id: Seq<char>,
        counterparty_node_id: Seq<char>,
        new_funding_txo: Seq<char>,
    },
}

/// The model of an optional string: an explicit null when absent.
pub open spec fn opt_view(o: Option<String>) -> Option<Seq<char>> {
    match o {
        Option::None => Option::None,
        Option::Some(s) => Option::Some(s@),
    }
}

impl View for WalletEvent {
    type V = EventV;

    open spec fn view(&self) -> EventV {
        match self {
            WalletEvent::PaymentSuccessful { payment_id, payment_hash, payment_preimage, fee_paid_msat } =>
                EventV::PaymentSuccessful {
                    payment_id: payment_id@,
                    payment_hash: payment_hash@,
                    payment_preimage: payment_preimage@,
                    fee_paid_msat: *fee_paid_msat,
                },
            WalletEvent::PaymentFailed { payment_id, payment_hash, reason } =>
                EventV::PaymentFailed {
                    payment_id: payment_id@,
                    payment_hash: opt_view(*payment_hash),
                    reason: opt_view(*reason),
                },
            WalletEvent::PaymentReceived { payment_id, payment_hash, amount_msat, custom_records_count, lsp_fee_msats } =>
                EventV::PaymentReceived {
                    payment_id: payment_id@,
                    payment_hash: payment_hash@,
                    amount_msat: *amount_msat,
                    custom_records_count: *custom_records_count,
                    lsp_fee_msats: *lsp_fee_msats,
                },
            WalletEvent::OnchainPaymentReceived { payment_id, txid, amount_sat, status } =>
                EventV::OnchainPaymentReceived {
                    payment_id: payment_id@,
                    txid: txid@,
                    amount_sat: *amount_sat,
                    status: status@,
                },
            WalletEvent::ChannelOpened { channel_id, user_channel_id, counterparty_node_id, funding_txo } =>
                EventV::ChannelOpened {
                    channel_id: channel_id@,
                    user_channel_id: user_channel_id@,
                    counterparty_node_id: counterparty_node_id@,
                    funding_txo: funding_txo@,
                },
            WalletEvent::ChannelClosed { channel_id, user_channel_id, counterparty_node_id, reason } =>
                EventV::ChannelClosed {
                    channel_id: channel_id@,
                    user_channel_id: user_channel_id@,
                    counterparty_node_id: counterparty_node_id@,
                    reason: opt_view(*reason),
                },
            WalletEvent::RebalanceInitiated { trigger_payment_id, trusted_rebalance_payment_id, amount_msat } =>
                EventV::RebalanceInitiated {
                    trigger_payment_id: trigger_payment_id@,
                    trusted_rebalance_payment_id: trusted_rebalance_payment_id@,
                    amount_msat: *amount_msat,
                },
            WalletEvent::RebalanceSuccessful { trigger_payment_id, trusted_rebalance_payment_id, ln_rebalance_payment_id, amount_msat, fee_msat } =>
                EventV::RebalanceSuccessful {
                    trigger_payment_id: trigger_payment_id@,
                    trusted_rebalance_payment_id: trusted_rebalance_payment_id@,
                    ln_rebalance_payment_id: ln_rebalance_payment_id@,
                    amount_msat: *amount_msat,
                    fee_msat: *fee_msat,
                },
            WalletEvent::SplicePending { channel_id, user_channel_id, counterparty_node_id, new_funding_txo } =>
                EventV::SplicePending {
                    channel_id: channel_id@,
                    user_channel_id: user_channel_id@,
                    counterparty_node_id: counterparty_node_id@,
                    new_funding_txo: new_funding_txo@,
                },
        }
    }
}

/// The `type` discriminator that the canonical event document carries
/// for each event variant.
pub open spec fn event_tag(e: EventV) -> Seq<char> {
    match e {
        EventV::PaymentSuccessful { .. } => "payment_successful"@,
        EventV::PaymentFailed { .. } => "payment_failed"@,
        EventV::PaymentReceived { .. } => "payment_received"@,
        EventV::OnchainPaymentReceived { .. } => "onchain_payment_received"@,
        EventV::ChannelOpened { .. } => "channel_opened"@,
        EventV::ChannelClosed { .. } => "channel_closed"@,
        EventV::RebalanceInitiated { .. } => "rebalance_initiated"@,
        EventV::RebalanceSuccessful { .. } => "rebalance_successful"@,
        EventV::SplicePending { .. } => "splice_pending"@,
    }
}

/// The scalar that an optional string contributes to a document.
pub open spec fn opt_prim(o: Option<Seq<char>>) -> PrimV {
    match o {
        Option::None => PrimV::Null,
        Option::Some(s) => PrimV::Str(s),
    }
}

/// The canonical event document for one event captured at `ts`:
/// a `type` discriminator, the capture timestamp, and the
/// variant-specific fields, in this fixed order.
pub open spec fn event_doc_spec(e: EventV, ts: u64) -> Seq<(Seq<char>, PrimV)> {
    match e {
        EventV::PaymentSuccessful { payment_id, payment_hash, payment_preimage, fee_paid_msat } => seq![
            ("type"@, PrimV::Str("payment_successful"@)),
            ("timestamp"@, PrimV::UInt(ts)),
            ("payment_id"@, PrimV::Str(payment_id)),
            ("payment_hash"@, PrimV::Str(payment_hash)),
            ("payment_preimage"@, PrimV::Str(payment_preimage)),
            ("fee_paid_msat"@, PrimV::UInt(fee_paid_msat)),
        ],
        EventV::PaymentFailed { payment_id, payment_hash, reason } => seq![
            ("type"@, PrimV::Str("payment_failed"@)),
            ("timestamp"@, PrimV::UInt(ts)),
            ("payment_id"@, PrimV::Str(payment_id)),
            ("payment_hash"@, opt_prim(payment_hash)),
            ("reason"@, opt_prim(reason)),
        ],
        EventV::PaymentReceived { payment_id, payment_hash, amount_msat, custom_records_count, lsp_fee_msats } => seq![
            ("type"@, PrimV::Str("payment_received"@)),
            ("timestamp"@, PrimV::UInt(ts)),
            ("payment_id"@, PrimV::Str(payment_id)),
            ("payment_hash"@, PrimV::Str(payment_hash)),
            ("amount_msat"@, PrimV::UInt(amount_msat)),
            ("amount_sats"@, PrimV::UInt(amount_msat / 1000)),
            ("custom_records_count"@, PrimV::UInt(custom_records_count)),
            ("lsp_fee_msats"@, PrimV::UInt(lsp_fee_msats)),
        ],
        EventV::OnchainPaymentReceived { payment_id, txid, amount_sat, status } => seq![
            ("type"@, PrimV::Str("onchain_payment_received"@)),
            ("timestamp"@, PrimV::UInt(ts)),
            ("payment_id"@, PrimV::Str(payment_id)),
            ("txid"@, PrimV::Str(txid)),
            ("amount_sat"@, PrimV::UInt(amount_sat)),
            ("status"@, PrimV::Str(status)),
        ],
        EventV::ChannelOpened { channel_id, user_channel_id, counterparty_node_id, funding_txo } => seq![
            ("type"@, PrimV::Str("channel_opened"@)),
            ("timestamp"@, PrimV::UInt(ts)),
            ("channel_id"@, PrimV::Str(channel_id)),
            ("user_channel_id"@, PrimV::Str(user_channel_id)),
            ("counterparty_node_id"@, PrimV::Str(counterparty_node_id)),
            ("funding_txo"@, PrimV::Str(funding_txo)),
        ],
        EventV::ChannelClosed { channel_id, user_channel_id, counterparty_node_id, reason } => seq![
            ("type"@, PrimV::Str("channel_closed"@)),
            ("timestamp"@, PrimV::UInt(ts)),
            ("channel_id"@, PrimV::Str(channel_id)),
            ("user_channel_id"@, PrimV::Str(user_channel_id)),
            ("counterparty_node_id"@, PrimV::Str(counterparty_node_id)),
            ("reason"@, opt_prim(reason)),
        ],
        EventV::RebalanceInitiated { trigger_payment_id, trusted_rebalance_payment_id, amount_msat } => seq![
            ("type"@, PrimV::Str("rebalance_initiated"@)),
            ("timestamp"@, PrimV::UInt(ts)),
            ("trigger_payment_id"@, PrimV::Str(trigger_payment_id)),
            ("trusted_rebalance_payment_id"@, PrimV::Str(trusted_rebalance_payment_id)),
            ("amount_msat"@, PrimV::UInt(amount_msat)),
        ],
        EventV::RebalanceSuccessful { trigger_payment_id, trusted_rebalance_payment_id, ln_rebalance_payment_id, amount_msat, fee_msat } => seq![
            ("type"@, PrimV::Str("rebalance_successful"@)),
            ("timestamp"@, PrimV::UInt(ts)),
            ("trigger_payment_id"@, PrimV::Str(trigger_payment_id)),
            ("trusted_rebalance_payment_id"@, PrimV::Str(trusted_rebalance_payment_id)),
            ("ln_rebalance_payment_id"@, PrimV::Str(ln_rebalance_payment_id)),
            ("amount_msat"@, PrimV::UInt(amount_msat)),
            ("fee_msat"@, PrimV::UInt(fee_msat)),
        ],
        EventV::SplicePending { channel_id, user_channel_id, counterparty_node_id, new_funding_txo } => seq![
            ("type"@, PrimV::Str("splice_pending"@)),
            ("timestamp"@, PrimV::UInt(ts)),
            ("channel_id"@, PrimV::Str(channel_id)),
            ("user_channel_id"@, PrimV::Str(user_channel_id)),
            ("counterparty_node_id"@, PrimV::Str(counterparty_node_id)),
            ("new_funding_txo"@, PrimV::Str(new_funding_txo)),
        ],
    }
}

/// The scalar a cloned string contributes to a document.
fn str_prim(s: &String) -> (r: Prim)
    ensures
        r@ == PrimV::Str(s@),
{
    Prim::Str(s.clone())
}

/// The scalar an optional string contributes: its text, or null.
fn opt_str_prim(o: &Option<String>) -> (r: Prim)
    ensures
        r@ == opt_prim(opt_view(*o)),
{
    match o {
        Option::None => Prim::Null,
        Option::Some(s) => Prim::Str(s.clone()),
    }
}

/// Serializes one wallet event, captured at `timestamp`, into the
/// canonical event document used both for the one-shot event command
/// and for webhook payloads.
pub fn serialize_event(event: &WalletEvent, timestamp: u64) -> (r: FlatDoc)
    ensures
        r@ == event_doc_spec(event@, timestamp),
{
    let mut doc = FlatDoc::new();
    match event {
        WalletEvent::PaymentSuccessful { payment_id, payment_hash, payment_preimage, fee_paid_msat } => {
            doc.push("type", Prim::Str(String::from_str("payment_successful")));
            doc.push("timestamp", Prim::UInt(timestamp));
            doc.push("payment_id", str_prim(payment_id));
            doc.push("payment_hash", str_prim(payment_hash));
            doc.push("payment_preimage", str_prim(payment_preimage));
            doc.push("fee_paid_msat", Prim::UInt(*fee_paid_msat));
            proof {
                assert(doc@ =~= event_doc_spec(event@, timestamp));
            }
        }
        WalletEvent::PaymentFailed { payment_id, payment_hash, reason } => {
            doc.push("type", Prim::Str(String::from_str("payment_failed")));
            doc.push("timestamp", Prim::UInt(timestamp));
            doc.push("payment_id", str_prim(payment_id));
            doc.push("payment_hash", opt_str_prim(payment_hash));
            doc.push("reason", opt_str_prim(reason));
            proof {
                assert(doc@ =~= event_doc_spec(event@, timestamp));
            }
        }
        WalletEvent::PaymentReceived { payment_id, payment_hash, amount_msat, custom_records_count, lsp_fee_msats } => {
            doc.push("type", Prim::Str(String::from_str("payment_received")));
            doc.push("timestamp", Prim::UInt(timestamp));
            doc.push("payment_id", str_prim(payment_id));
            doc.push("payment_hash", str_prim(payment_hash));
            doc.push("amount_msat", Prim::UInt(*amount_msat));
            doc.push("amount_sats", Prim::UInt(*amount_msat / 1000));
            doc.push("custom_records_count", Prim::UInt(*custom_records_count));
            doc.push("lsp_fee_msats", Prim::UInt(*lsp_fee_msats));
            proof {
                assert(doc@ =~= event_doc_spec(event@, timestamp));
            }
        }
        WalletEvent::OnchainPaymentReceived { payment_id, txid, amount_sat, status } => {
            doc.push("type", Prim::Str(String::from_str("onchain_payment_received")));
            doc.push("timestamp", Prim::UInt(timestamp));
            doc.push("payment_id", str_prim(payment_id));
            doc.push("txid", str_prim(txid));
            doc.push("amount_sat", Prim::UInt(*amount_sat));
            doc.push("status", str_prim(status));
            proof {
                assert(doc@ =~= event_doc_spec(event@, timestamp));
            }
        }
        WalletEvent::ChannelOpened { channel_id, user_channel_id, counterparty_node_id, funding_txo } => {
            doc.push("type", Prim::Str(String::from_str("channel_opened")));
            doc.push("timestamp", Prim::UInt(timestamp));
            doc.push("channel_id", str_prim(channel_id));
            doc.push("user_channel_id", str_prim(user_channel_id));
            doc.push("counterparty_node_id", str_prim(counterparty_node_id));
            doc.push("funding_txo", str_prim(funding_txo));
            proof {
                assert(doc@ =~= event_doc_spec(event@, timestamp));
            }
        }
        WalletEvent::ChannelClosed { channel_id, user_channel_id, counterparty_node_id, reason } => {
            doc.push("type", Prim::Str(String::from_str("channel_closed")));
            doc.push("timestamp", Prim::UInt(timestamp));
            doc.push("channel_id", str_prim(channel_id));
            doc.push("user_channel_id", str_prim(user_channel_id));
            doc.push("counterparty_node_id", str_prim(counterparty_node_id));
            doc.push("reason", opt_str_prim(reason));
            proof {
                assert(doc@ =~= event_doc_spec(event@, timestamp));
            }
        }
        WalletEvent::RebalanceInitiated { trigger_payment_id, trusted_rebalance_payment_id, amount_msat } => {
            doc.push("type", Prim::Str(String::from_str("rebalance_initiated")));
            doc.push("timestamp", Prim::UInt(timestamp));
            doc.push("trigger_payment_id", str_prim(trigger_payment_id));
            doc.push("trusted_rebalance_payment_id", str_prim(trusted_rebalance_payment_id));
            doc.push("amount_msat", Prim::UInt(*amount_msat));
            proof {
                assert(doc@ =~= event_doc_spec(event@, timestamp));
            }
        }
        WalletEvent::RebalanceSuccessful { trigger_payment_id, trusted_rebalance_payment_id, ln_rebalance_payment_id, amount_msat, fee_msat } => {
            doc.push("type", Prim::Str(String::from_str("rebalance_successful")));
            doc.push("timestamp", Prim::UInt(timestamp));
            doc.push("trigger_payment_id", str_prim(trigger_payment_id));
            doc.push("trusted_rebalance_payment_id", str_prim(trusted_rebalance_payment_id));
            doc.push("ln_rebalance_payment_id", str_prim(ln_rebalance_payment_id));
            doc.push("amount_msat", Prim::UInt(*amount_msat));
            doc.push("fee_msat", Prim::UInt(*fee_msat));
            proof {
                assert(doc@ =~= event_doc_spec(event@, timestamp));
            }
        }
        WalletEvent::SplicePending { channel_id, user_channel_id, counterparty_node_id, new_funding_txo } => {
            doc.push("type", Prim::Str(String::from_str("splice_pending")));
            doc.push("timestamp", Prim::UInt(timestamp));
            doc.push("channel_id", str_prim(channel_id));
            doc.push("user_channel_id", str_prim(user_channel_id));
            doc.push("counterparty_node_id", str_prim(counterparty_node_id));
            doc.push("new_funding_txo", str_prim(new_funding_txo));
            proof {
                assert(doc@ =~= event_doc_spec(event@, timestamp));
            }
        }
    }
    doc
}

/// Re-inspecting the canonical document recovers the `type`
/// discriminator and the capture timestamp: looking either key up
/// yields exactly the serialized event's tag and timestamp.
pub proof fn lemma_event_doc_discriminator(e: EventV, ts: u64)
    ensures
        doc_lookup(event_doc_spec(e, ts), "type"@) == Option::Some(PrimV::Str(event_tag(e))),
        doc_lookup(event_doc_spec(e, ts), "timestamp"@) == Option::Some(PrimV::UInt(ts)),
{
    reveal_strlit("type");
    reveal_strlit("timestamp");
    assert("type"@.len() == 4);
    assert("timestamp"@.len() == 9);
    assert("timestamp"@ != "type"@);
    let doc = event_doc_spec(e, ts);
    assert(doc[0] == ("type"@, PrimV::Str(event_tag(e))));
    assert(doc.len() > 1 && doc[1] == ("timestamp"@, PrimV::UInt(ts)));
    assert(doc.drop_first()[0] == doc[1]);
    assert(doc_lookup(doc, "timestamp"@) == doc_lookup(doc.drop_first(), "timestamp"@));
}

/// Round trip: the canonical document determines the event. Two
/// serializations that produce the same document came from the same
/// event variant, the same variant-specific fields, and the same
/// capture timestamp.
#[verifier::rlimit(50)]
pub proof fn lemma_event_doc_injective(e1: EventV, ts1: u64, e2: EventV, ts2: u64)
    requires
        event_doc_spec(e1, ts1) == event_doc_spec(e2, ts2),
    ensures
        e1 == e2,
        ts1 == ts2,
{
    reveal_strlit("payment_successful");
    reveal_strlit("payment_failed");
    reveal_strlit("payment_received");
    reveal_strlit("onchain_payment_received");
    reveal_strlit("channel_opened");
    reveal_strlit("channel_closed");
    reveal_strlit("rebalance_initiated");
    reveal_strlit("rebalance_successful");
    reveal_strlit("splice_pending");
    assert("payment_successful"@.len() == 18);
    assert("payment_failed"@.len() == 14);
    assert("payment_received"@.len() == 16);
    assert("onchain_payment_received"@.len() == 24);
    assert("channel_opened"@.len() == 14);
    assert("channel_closed"@.len() == 14);
    assert("rebalance_initiated"@.len() == 19);
    assert("rebalance_successful"@.len() == 20);
    assert("splice_pending"@.len() == 14);
    assert("payment_failed"@[0] == 'p' && "channel_opened"@[0] == 'c' && "channel_closed"@[0]
        == 'c' && "splice_pending"@[0] == 's');
    assert("channel_opened"@[8] == 'o' && "channel_closed"@[8] == 'c');
    assert("payment_failed"@ != "channel_opened"@);
    assert("payment_failed"@ != "channel_closed"@);
    assert("payment_failed"@ != "splice_pending"@);
    assert("channel_opened"@ != "channel_closed"@);
    assert("channel_opened"@ != "splice_pending"@);
    assert("channel_closed"@ != "splice_pending"@);
    let d1 = event_doc_spec(e1, ts1);
    let d2 = event_doc_spec(e2, ts2);
    assert(d1[0].1 == d2[0].1);
    assert(event_tag(e1) == event_tag(e2));
    assert(d1[1].1 == d2[1].1);
    match e1 {
        EventV::PaymentSuccessful { .. } => {
            assert(e2 is PaymentSuccessful);
            assert(d1[2].1 == d2[2].1 && d1[3].1 == d2[3].1 && d1[4].1 == d2[4].1 && d1[5].1
                == d2[5].1);
            assert(e1 =~= e2);
        }
        EventV::PaymentFailed { .. } => {
            assert(e2 is PaymentFailed);
            assert(d1[2].1 == d2[2].1 && d1[3].1 == d2[3].1 && d1[4].1 == d2[4].1);
            assert(e1 =~= e2);
        }
        EventV::PaymentReceived { .. } => {
            assert(e2 is PaymentReceived);
            assert(d1[2].1 == d2[2].1 && d1[3].1 == d2[3].1 && d1[4].1 == d2[4].1 && d1[6].1
                == d2[6].1 && d1[7].1 == d2[7].1);
            assert(e1 =~= e2);
        }
        EventV::OnchainPaymentReceived { .. } => {
            assert(e2 is OnchainPaymentReceived);
            assert(d1[2].1 == d2[2].1 && d1[3].1 == d2[3].1 && d1[4].1 == d2[4].1 && d1[5].1
                == d2[5].1);
            assert(e1 =~= e2);
        }
        EventV::ChannelOpened { .. } => {
            assert(e2 is ChannelOpened);
            assert(d1[2].1 == d2[2].1 && d1[3].1 == d2[3].1 && d1[4].1 == d2[4].1 && d1[5].1
                == d2[5].1);
            assert(e1 =~= e2);
        }
        EventV::ChannelClosed { .. } => {
            assert(e2 is ChannelClosed);
            assert(d1[2].1 == d2[2].1 && d1[3].1 == d2[3].1 && d1[4].1 == d2[4].1 && d1[5].1
                == d2[5].1);
            assert(e1 =~= e2);
        }
        EventV::RebalanceInitiated { .. } => {
            assert(e2 is RebalanceInitiated);
            assert(d1[2].1 == d2[2].1 && d1[3].1 == d2[3].1 && d1[4].1 == d2[4].1);
            assert(e1 =~= e2);
        }
        EventV::RebalanceSuccessful { .. } => {
            assert(e2 is RebalanceSuccessful);
            assert(d1[2].1 == d2[2].1 && d1[3].1 == d2[3].1 && d1[4].1 == d2[4].1 && d1[5].1
                == d2[5].1 && d1[6].1 == d2[6].1);
            assert(e1 =~= e2);
        }
        EventV::SplicePending { .. } => {
            assert(e2 is SplicePending);
            assert(d1[2].1 == d2[2].1 && d1[3].1 == d2[3].1 && d1[4].1 == d2[4].1 && d1[5].1
                == d2[5].1);
            assert(e1 =~= e2);
        }
    }
}

/// In a `payment_received` document the amounts are recoverable by
/// key, as integers: `amount_msat` is the received amount and
/// `amount_sats` is that amount in whole satoshis.
pub proof fn lemma_payment_received_amounts(e: EventV, ts: u64)
    requires
        e is PaymentReceived,
    ensures
        doc_lookup(event_doc_spec(e, ts), "amount_msat"@) == Option::Some(
            PrimV::UInt(e->PaymentReceived_amount_msat),
        ),
        doc_lookup(event_doc_spec(e, ts), "amount_sats"@) == Option::Some(
            PrimV::UInt((e->PaymentReceived_amount_msat / 1000) as u64),
        ),
{
    reveal_strlit("type");
    reveal_strlit("timestamp");
    reveal_strlit("payment_id");
    reveal_strlit("payment_hash");
    reveal_strlit("amount_msat");
    reveal_strlit("amount_sats");
    assert("type"@.len() == 4);
    assert("timestamp"@.len() == 9);
    assert("payment_id"@.len() == 10);
    assert("payment_hash"@.len() == 12);
    assert("amount_msat"@.len() == 11);
    assert("amount_sats"@.len() == 11);
    assert("amount_msat"@[7] == 'm' && "amount_sats"@[7] == 's');
    assert("amount_msat"@ != "amount_sats"@);
    let msat = "amount_msat"@;
    let sats = "amount_sats"@;
    let d0 = event_doc_spec(e, ts);
    let d1 = d0.drop_first();
    let d2 = d1.drop_first();
    let d3 = d2.drop_first();
    let d4 = d3.drop_first();
    let d5 = d4.drop_first();
    assert(d0.len() == 8);
    assert(d1[0] == d0[1] && d2[0] == d0[2] && d3[0] == d0[3] && d4[0] == d0[4] && d5[0] == d0[5]);
    assert(doc_lookup(d0, msat) == doc_lookup(d1, msat));
    assert(doc_lookup(d1, msat) == doc_lookup(d2, msat));
    assert(doc_lookup(d2, msat) == doc_lookup(d3, msat));
    assert(doc_lookup(d3, msat) == doc_lookup(d4, msat));
    assert(doc_lookup(d4, msat) == Option::Some(d0[4].1));
    assert(doc_lookup(d0, sats) == doc_lookup(d1, sats));
    assert(doc_lookup(d1, sats) == doc_lookup(d2, sats));
    assert(doc_lookup(d2, sats) == doc_lookup(d3, sats));
    assert(doc_lookup(d3, sats) == doc_lookup(d4, sats));
    assert(doc_lookup(d4, sats) == doc_lookup(d5, sats));
    assert(doc_lookup(d5, sats) == Option::Some(d0[5].1));
}

/// The `type` discriminator of one event, as an owned string.
pub fn event_tag_string(event: &WalletEvent) -> (r: String)
    ensures
        r@ == event_tag(event@),
{
    match event {
        WalletEvent::PaymentSuccessful { .. } => String::from_str("payment_successful"),
        WalletEvent::PaymentFailed { .. } => String::from_str("payment_failed"),
        WalletEvent::PaymentReceived { .. } => String::from_str("payment_received"),
        WalletEvent::OnchainPaymentReceived { .. } => String::from_str("onchain_payment_received"),
        WalletEvent::ChannelOpened { .. } => String::from_str("channel_opened"),
        WalletEvent::ChannelClosed { .. } => String::from_str("channel_closed"),
        WalletEvent::RebalanceInitiated { .. } => String::from_str("rebalance_initiated"),
        WalletEvent::RebalanceSuccessful { .. } => String::from_str("rebalance_successful"),
        WalletEvent::SplicePending { .. } => String::from_str("splice_pending"),
    }
}

} // verus!
