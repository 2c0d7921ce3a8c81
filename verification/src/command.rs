use vstd::prelude::*;
use crate::doc::{Doc, DocNode, DocNodeV, FlatDoc, Prim, PrimV};
use crate::event::{WalletEvent, event_doc_spec, opt_view, serialize_event};

verus! {

/// The wallet balance, every amount already in whole satoshis.
#[derive(Clone, Copy)]
pub struct BalanceSummary {
    pub trusted_sats: u64,
    pub lightning_sats: u64,
    pub pending_sats: u64,
    pub available_sats: u64,
}

/// A single-use receive URI, reduced to the fields the balance
/// command reports.
pub struct ReceiveUriSummary {
    pub invoice: String,
    pub address: Option<String>,
    pub amount_sats: Option<u64>,
    pub full_uri: String,
    pub from_trusted: bool,
}

/// One transaction-history entry, reduced to plain values.
pub struct TxRecord {
    pub id: String,
    pub status: String,
    pub outbound: bool,
    pub amount_sats: Option<u64>,
    pub fee_sats: Option<u64>,
    pub payment_type: String,
    pub timestamp: u64,
}

/// Mathematical model of a `TxRecord`.
pub struct TxRecordV {
    pub id: Seq<char>,
    pub status: Seq<char>,
    pub outbound: bool,
    pub amount_sats: Option<u64>,
    pub fee_sats: Option<u64>,
    pub payment_type: Seq<char>,
    pub timestamp: u64,
}

impl View for TxRecord {
    type V = TxRecordV;

    open spec fn view(&self) -> TxRecordV {
        TxRecordV {
            id: self.id@,
            status: self.status@,
            outbound: self.outbound,
            amount_sats: self.amount_sats,
            fee_sats: self.fee_sats,
            payment_type: self.payment_type@,
            timestamp: self.timestamp,
        }
    }
}

/// One Lightning channel, reduced to plain values; capacities are in
/// millisatoshis as the wallet engine reports them.
pub struct ChannelRecord {
    pub channel_id: String,
    pub counterparty_node_id: String,
    pub funding_txo: Option<String>,
    pub is_channel_ready: bool,
    pub is_usable: bool,
    pub inbound_capacity_msat: u64,
    pub outbound_capacity_msat: u64,
    pub channel_value_sats: u64,
}

/// Mathematical model of a `ChannelRecord`.
pub struct ChannelRecordV {
    pub channel_id: Seq<char>,
    pub counterparty_node_id: Seq<char>,
    pub funding_txo: Option<Seq<char>>,
    pub is_channel_ready: bool,
    pub is_usable: bool,
    pub inbound_capacity_msat: u64,
    pub outbound_capacity_msat: u64,
    pub channel_value_sats: u64,
}

impl View for ChannelRecord {
    type V = ChannelRecordV;

    open spec fn view(&self) -> ChannelRecordV {
        ChannelRecordV {
            channel_id: self.channel_id@,
            counterparty_node_id: self.counterparty_node_id@,
            funding_txo: opt_view(self.funding_txo),
            is_channel_ready: self.is_channel_ready,
            is_usable: self.is_usable,
            inbound_capacity_msat: self.inbound_capacity_msat,
            outbound_capacity_msat: self.outbound_capacity_msat,
            channel_value_sats: self.channel_value_sats,
        }
    }
}

/// The wallet tunables the info command reports, already in whole
/// satoshis.
#[derive(Clone, Copy)]
pub struct TunablesSummary {
    pub trusted_balance_limit_sats: u64,
    pub rebalance_min_sats: u64,
    pub onchain_receive_threshold_sats: u64,
    pub enable_amountless_receive_on_chain: bool,
}

/// The scalar an optional amount contributes: the number, or null.
pub open spec fn opt_uint_prim(o: Option<u64>) -> PrimV {
    match o {
        Option::None => PrimV::Null,
        Option::Some(n) => PrimV::UInt(n),
    }
}

/// The scalar an optional string contributes: its text, or null.
pub open spec fn opt_str_prim_spec(o: Option<Seq<char>>) -> PrimV {
    match o {
        Option::None => PrimV::Null,
        Option::Some(s) => PrimV::Str(s),
    }
}

/// A copy of a scalar with the same model.
fn prim_dup(p: &Prim) -> (r: Prim)
    ensures
        r@ == p@,
{
    match p {
        Prim::Null => Prim::Null,
        Prim::Bool(b) => Prim::Bool(*b),
        Prim::UInt(n) => Prim::UInt(*n),
        Prim::Str(s) => Prim::Str(s.clone()),
    }
}

fn opt_uint(o: &Option<u64>) -> (r: Prim)
    ensures
        r@ == opt_uint_prim(*o),
{
    match o {
        Option::None => Prim::Null,
        Option::Some(n) => Prim::UInt(*n),
    }
}

fn opt_str(o: &Option<String>) -> (r: Prim)
    ensures
        r@ == opt_str_prim_spec(opt_view(*o)),
{
    match o {
        Option::None => Prim::Null,
        Option::Some(s) => Prim::Str(s.clone()),
    }
}

/// The uniform failure document: `{"error": <message>}`.
pub fn error_doc(message: String) -> (r: Doc)
    ensures
        r@ == seq![("error"@, DocNodeV::Prim(PrimV::Str(message@)))],
{
    let mut doc = Doc::new();
    doc.push("error", DocNode::Prim(Prim::Str(message)));
    proof {
        assert(doc@ =~= seq![("error"@, DocNodeV::Prim(PrimV::Str(message@)))]);
    }
    doc
}

/// The balance document: the four balances, in whole satoshis.
pub fn balance_doc(b: &BalanceSummary) -> (r: Doc)
    ensures
        r@ == seq![
            ("trusted_sats"@, DocNodeV::Prim(PrimV::UInt(b.trusted_sats))),
            ("lightning_sats"@, DocNodeV::Prim(PrimV::UInt(b.lightning_sats))),
            ("pending_sats"@, DocNodeV::Prim(PrimV::UInt(b.pending_sats))),
            ("available_sats"@, DocNodeV::Prim(PrimV::UInt(b.available_sats))),
        ],
{
    let mut doc = Doc::new();
    doc.push("trusted_sats", DocNode::Prim(Prim::UInt(b.trusted_sats)));
    doc.push("lightning_sats", DocNode::Prim(Prim::UInt(b.lightning_sats)));
    doc.push("pending_sats", DocNode::Prim(Prim::UInt(b.pending_sats)));
    doc.push("available_sats", DocNode::Prim(Prim::UInt(b.available_sats)));
    proof {
        assert(doc@ =~= seq![
            ("trusted_sats"@, DocNodeV::Prim(PrimV::UInt(b.trusted_sats))),
            ("lightning_sats"@, DocNodeV::Prim(PrimV::UInt(b.lightning_sats))),
            ("pending_sats"@, DocNodeV::Prim(PrimV::UInt(b.pending_sats))),
            ("available_sats"@, DocNodeV::Prim(PrimV::UInt(b.available_sats))),
        ]);
    }
    doc
}

/// The receive document: the invoice, optional address and amount,
/// the full URI, and whether it draws on the trusted balance.
pub fn receive_doc(u: ReceiveUriSummary) -> (r: Doc)
    ensures
        r@ == seq![
            ("invoice"@, DocNodeV::Prim(PrimV::Str(u.invoice@))),
            ("address"@, DocNodeV::Prim(opt_str_prim_spec(opt_view(u.address)))),
            ("amount_sats"@, DocNodeV::Prim(opt_uint_prim(u.amount_sats))),
            ("full_uri"@, DocNodeV::Prim(PrimV::Str(u.full_uri@))),
            ("from_trusted"@, DocNodeV::Prim(PrimV::Bool(u.from_trusted))),
        ],
{
    let mut doc = Doc::new();
    let ghost uv = u;
    doc.push("invoice", DocNode::Prim(Prim::Str(u.invoice)));
    doc.push("address", DocNode::Prim(opt_str(&u.address)));
    doc.push("amount_sats", DocNode::Prim(opt_uint(&u.amount_sats)));
    doc.push("full_uri", DocNode::Prim(Prim::Str(u.full_uri)));
    doc.push("from_trusted", DocNode::Prim(Prim::Bool(u.from_trusted)));
    proof {
        assert(doc@ =~= seq![
            ("invoice"@, DocNodeV::Prim(PrimV::Str(uv.invoice@))),
            ("address"@, DocNodeV::Prim(opt_str_prim_spec(opt_view(uv.address)))),
            ("amount_sats"@, DocNodeV::Prim(opt_uint_prim(uv.amount_sats))),
            ("full_uri"@, DocNodeV::Prim(PrimV::Str(uv.full_uri@))),
            ("from_trusted"@, DocNodeV::Prim(PrimV::Bool(uv.from_trusted))),
        ]);
    }
    doc
}

/// The reusable-offer document.
pub fn receive_offer_doc(offer: String) -> (r: Doc)
    ensures
        r@ == seq![("offer"@, DocNodeV::Prim(PrimV::Str(offer@)))],
{
    let mut doc = Doc::new();
    doc.push("offer", DocNode::Prim(Prim::Str(offer)));
    proof {
        assert(doc@ =~= seq![("offer"@, DocNodeV::Prim(PrimV::Str(offer@)))]);
    }
    doc
}

/// The send document: the initiated payment and its amount.
pub fn send_doc(payment_id: String, amount_sats: u64) -> (r: Doc)
    ensures
        r@ == seq![
            ("payment_id"@, DocNodeV::Prim(PrimV::Str(payment_id@))),
            ("amount_sats"@, DocNodeV::Prim(PrimV::UInt(amount_sats))),
            ("status"@, DocNodeV::Prim(PrimV::Str("initiated"@))),
        ],
{
    let mut doc = Doc::new();
    doc.push("payment_id", DocNode::Prim(Prim::Str(payment_id)));
    doc.push("amount_sats", DocNode::Prim(Prim::UInt(amount_sats)));
    doc.push("status", DocNode::Prim(Prim::Str(String::from_str("initiated"))));
    proof {
        assert(doc@ =~= seq![
            ("payment_id"@, DocNodeV::Prim(PrimV::Str(payment_id@))),
            ("amount_sats"@, DocNodeV::Prim(PrimV::UInt(amount_sats))),
            ("status"@, DocNodeV::Prim(PrimV::Str("initiated"@))),
        ]);
    }
    doc
}

/// The parse document: the parsed payment instructions, rendered by
/// the caller.
pub fn parse_doc(parsed: String) -> (r: Doc)
    ensures
        r@ == seq![("parsed"@, DocNodeV::Prim(PrimV::Str(parsed@)))],
{
    let mut doc = Doc::new();
    doc.push("parsed", DocNode::Prim(Prim::Str(parsed)));
    proof {
        assert(doc@ =~= seq![("parsed"@, DocNodeV::Prim(PrimV::Str(parsed@)))]);
    }
    doc
}

/// The flat document for one transaction-history entry.
pub open spec fn tx_doc_spec(t: TxRecordV) -> Seq<(Seq<char>, PrimV)> {
    seq![
        ("id"@, PrimV::Str(t.id)),
        ("status"@, PrimV::Str(t.status)),
        ("outbound"@, PrimV::Bool(t.outbound)),
        ("amount_sats"@, opt_uint_prim(t.amount_sats)),
        ("fee_sats"@, opt_uint_prim(t.fee_sats)),
        ("payment_type"@, PrimV::Str(t.payment_type)),
        ("timestamp"@, PrimV::UInt(t.timestamp)),
    ]
}

/// One transaction-history entry as a flat document.
pub fn tx_doc(t: &TxRecord) -> (r: FlatDoc)
    ensures
        r@ == tx_doc_spec(t@),
{
    let mut doc = FlatDoc::new();
    doc.push("id", Prim::Str(t.id.clone()));
    doc.push("status", Prim::Str(t.status.clone()));
    doc.push("outbound", Prim::Bool(t.outbound));
    doc.push("amount_sats", opt_uint(&t.amount_sats));
    doc.push("fee_sats", opt_uint(&t.fee_sats));
    doc.push("payment_type", Prim::Str(t.payment_type.clone()));
    doc.push("timestamp", Prim::UInt(t.timestamp));
    proof {
        assert(doc@ =~= tx_doc_spec(t@));
    }
    doc
}

/// The transactions document: the count, then one flat document per
/// entry, in the history's order.
pub fn transactions_doc(txs: &Vec<TxRecord>) -> (r: Doc)
    ensures
        r@ == seq![
            ("count"@, DocNodeV::Prim(PrimV::UInt(txs@.len() as u64))),
            ("transactions"@, DocNodeV::Arr(txs@.map_values(|t: TxRecord| tx_doc_spec(t@)))),
        ],
{
    let mut items: Vec<FlatDoc> = Vec::new();
    let n = txs.len();
    for i in 0..n
        invariant
            n == txs.len(),
            items.len() == i,
            forall|j: int| 0 <= j < i ==> (#[trigger] items@[j])@ == tx_doc_spec(txs@[j]@),
    {
        items.push(tx_doc(&txs[i]));
    }
    let count = txs.len() as u64;
    let mut doc = Doc::new();
    doc.push("count", DocNode::Prim(Prim::UInt(count)));
    doc.push("transactions", DocNode::Arr(items));
    proof {
        assert(items@.map_values(|d: FlatDoc| d@) =~= txs@.map_values(|t: TxRecord| tx_doc_spec(t@)));
        assert(doc@ =~= seq![
            ("count"@, DocNodeV::Prim(PrimV::UInt(txs@.len() as u64))),
            ("transactions"@, DocNodeV::Arr(txs@.map_values(|t: TxRecord| tx_doc_spec(t@)))),
        ]);
    }
    doc
}

/// The flat document for one channel: capacities are converted from
/// millisatoshis to whole satoshis.
pub open spec fn channel_doc_spec(c: ChannelRecordV) -> Seq<(Seq<char>, PrimV)> {
    seq![
        ("channel_id"@, PrimV::Str(c.channel_id)),
        ("counterparty_node_id"@, PrimV::Str(c.counterparty_node_id)),
        ("funding_txo"@, opt_str_prim_spec(c.funding_txo)),
        ("is_channel_ready"@, PrimV::Bool(c.is_channel_ready)),
        ("is_usable"@, PrimV::Bool(c.is_usable)),
        ("inbound_capacity_sats"@, PrimV::UInt((c.inbound_capacity_msat / 1000) as u64)),
        ("outbound_capacity_sats"@, PrimV::UInt((c.outbound_capacity_msat / 1000) as u64)),
        ("channel_value_sats"@, PrimV::UInt(c.channel_value_sats)),
    ]
}

/// One channel as a flat document.
pub fn channel_doc(c: &ChannelRecord) -> (r: FlatDoc)
    ensures
        r@ == channel_doc_spec(c@),
{
    let mut doc = FlatDoc::new();
    doc.push("channel_id", Prim::Str(c.channel_id.clone()));
    doc.push("counterparty_node_id", Prim::Str(c.counterparty_node_id.clone()));
    doc.push("funding_txo", opt_str(&c.funding_txo));
    doc.push("is_channel_ready", Prim::Bool(c.is_channel_ready));
    doc.push("is_usable", Prim::Bool(c.is_usable));
    doc.push("inbound_capacity_sats", Prim::UInt(c.inbound_capacity_msat / 1000));
    doc.push("outbound_capacity_sats", Prim::UInt(c.outbound_capacity_msat / 1000));
    doc.push("channel_value_sats", Prim::UInt(c.channel_value_sats));
    proof {
        assert(doc@ =~= channel_doc_spec(c@));
    }
    doc
}

/// The channels document: the count, then one flat document per
/// channel, in the wallet's order.
pub fn channels_doc(channels: &Vec<ChannelRecord>) -> (r: Doc)
    ensures
        r@ == seq![
            ("count"@, DocNodeV::Prim(PrimV::UInt(channels@.len() as u64))),
            ("channels"@, DocNodeV::Arr(channels@.map_values(|c: ChannelRecord| channel_doc_spec(c@)))),
        ],
{
    let mut items: Vec<FlatDoc> = Vec::new();
    let n = channels.len();
    for i in 0..n
        invariant
            n == channels.len(),
            items.len() == i,
            forall|j: int| 0 <= j < i ==> (#[trigger] items@[j])@ == channel_doc_spec(channels@[j]@),
    {
        items.push(channel_doc(&channels[i]));
    }
    let count = channels.len() as u64;
    let mut doc = Doc::new();
    doc.push("count", DocNode::Prim(Prim::UInt(count)));
    doc.push("channels", DocNode::Arr(items));
    proof {
        assert(items@.map_values(|d: FlatDoc| d@) =~= channels@.map_values(
            |c: ChannelRecord| channel_doc_spec(c@),
        ));
        assert(doc@ =~= seq![
            ("count"@, DocNodeV::Prim(PrimV::UInt(channels@.len() as u64))),
            ("channels"@, DocNodeV::Arr(channels@.map_values(|c: ChannelRecord| channel_doc_spec(c@)))),
        ]);
    }
    doc
}

/// The nested tunables object of the info document.
pub open spec fn tunables_doc_spec(t: TunablesSummary) -> Seq<(Seq<char>, PrimV)> {
    seq![
        ("trusted_balance_limit_sats"@, PrimV::UInt(t.trusted_balance_limit_sats)),
        ("rebalance_min_sats"@, PrimV::UInt(t.rebalance_min_sats)),
        ("onchain_receive_threshold_sats"@, PrimV::UInt(t.onchain_receive_threshold_sats)),
        ("enable_amountless_receive_on_chain"@, PrimV::Bool(t.enable_amountless_receive_on_chain)),
    ]
}

/// The info document: node identity, LSP connectivity, and the
/// tunables as one nested object.
pub fn info_doc(node_id: String, lsp_connected: bool, t: &TunablesSummary) -> (r: Doc)
    ensures
        r@ == seq![
            ("node_id"@, DocNodeV::Prim(PrimV::Str(node_id@))),
            ("lsp_connected"@, DocNodeV::Prim(PrimV::Bool(lsp_connected))),
            ("tunables"@, DocNodeV::Obj(tunables_doc_spec(*t))),
        ],
{
    let mut tunables = FlatDoc::new();
    tunables.push("trusted_balance_limit_sats", Prim::UInt(t.trusted_balance_limit_sats));
    tunables.push("rebalance_min_sats", Prim::UInt(t.rebalance_min_sats));
    tunables.push("onchain_receive_threshold_sats", Prim::UInt(t.onchain_receive_threshold_sats));
    tunables.push(
        "enable_amountless_receive_on_chain",
        Prim::Bool(t.enable_amountless_receive_on_chain),
    );
    proof {
        assert(tunables@ =~= tunables_doc_spec(*t));
    }
    let mut doc = Doc::new();
    doc.push("node_id", DocNode::Prim(Prim::Str(node_id)));
    doc.push("lsp_connected", DocNode::Prim(Prim::Bool(lsp_connected)));
    doc.push("tunables", DocNode::Obj(tunables));
    proof {
        assert(doc@ =~= seq![
            ("node_id"@, DocNodeV::Prim(PrimV::Str(node_id@))),
            ("lsp_connected"@, DocNodeV::Prim(PrimV::Bool(lsp_connected))),
            ("tunables"@, DocNodeV::Obj(tunables_doc_spec(*t))),
        ]);
    }
    doc
}

/// The fee-estimate document, in whole satoshis.
pub fn estimate_fee_doc(fee_sats: u64) -> (r: Doc)
    ensures
        r@ == seq![("estimated_fee_sats"@, DocNodeV::Prim(PrimV::UInt(fee_sats)))],
{
    let mut doc = Doc::new();
    doc.push("estimated_fee_sats", DocNode::Prim(Prim::UInt(fee_sats)));
    proof {
        assert(doc@ =~= seq![("estimated_fee_sats"@, DocNodeV::Prim(PrimV::UInt(fee_sats)))]);
    }
    doc
}

/// The lightning-address document.
pub fn lightning_address_doc(address: String) -> (r: Doc)
    ensures
        r@ == seq![("lightning_address"@, DocNodeV::Prim(PrimV::Str(address@)))],
{
    let mut doc = Doc::new();
    doc.push("lightning_address", DocNode::Prim(Prim::Str(address)));
    proof {
        assert(doc@ =~= seq![("lightning_address"@, DocNodeV::Prim(PrimV::Str(address@)))]);
    }
    doc
}

/// The registration document: confirmation plus the address now in
/// force.
pub fn register_lightning_address_doc(address: String) -> (r: Doc)
    ensures
        r@ == seq![
            ("registered"@, DocNodeV::Prim(PrimV::Bool(true))),
            ("lightning_address"@, DocNodeV::Prim(PrimV::Str(address@))),
        ],
{
    let mut doc = Doc::new();
    doc.push("registered", DocNode::Prim(Prim::Bool(true)));
    doc.push("lightning_address", DocNode::Prim(Prim::Str(address)));
    proof {
        assert(doc@ =~= seq![
            ("registered"@, DocNodeV::Prim(PrimV::Bool(true))),
            ("lightning_address"@, DocNodeV::Prim(PrimV::Str(address@))),
        ]);
    }
    doc
}

/// The acknowledgment document of the "mark event handled" command.
pub fn event_handled_doc() -> (r: Doc)
    ensures
        r@ == seq![("ok"@, DocNodeV::Prim(PrimV::Bool(true)))],
{
    let mut doc = Doc::new();
    doc.push("ok", DocNode::Prim(Prim::Bool(true)));
    proof {
        assert(doc@ =~= seq![("ok"@, DocNodeV::Prim(PrimV::Bool(true)))]);
    }
    doc
}

/// The document of the one-shot "get next event" command: the
/// canonical event document when an event is pending, else
/// `{"event": null}`.
pub fn next_event_doc(event: Option<&WalletEvent>, timestamp: u64) -> (r: Doc)
    ensures
        match event {
            Option::Some(e) => r@ == event_doc_spec(e@, timestamp).map_values(
                |p: (Seq<char>, PrimV)| (p.0, DocNodeV::Prim(p.1)),
            ),
            Option::None => r@ == seq![("event"@, DocNodeV::Prim(PrimV::Null))],
        },
{
    match event {
        Option::Some(e) => {
            let flat = serialize_event(e, timestamp);
            let mut doc = Doc::new();
            let n = flat.entries.len();
            for i in 0..n
                invariant
                    n == flat.entries.len(),
                    flat@ == event_doc_spec(e@, timestamp),
                    flat@.len() == n,
                    doc@.len() == i,
                    forall|j: int|
                        0 <= j < i ==> (#[trigger] doc@[j]) == (flat@[j].0, DocNodeV::Prim(flat@[j].1)),
            {
                let entry = &flat.entries[i];
                doc.push(entry.0.as_str(), DocNode::Prim(prim_dup(&entry.1)));
            }
            proof {
                assert(doc@ =~= event_doc_spec(e@, timestamp).map_values(
                    |p: (Seq<char>, PrimV)| (p.0, DocNodeV::Prim(p.1)),
                ));
            }
            doc
        }
        Option::None => {
            let mut doc = Doc::new();
            doc.push("event", DocNode::Prim(Prim::Null));
            proof {
                assert(doc@ =~= seq![("event"@, DocNodeV::Prim(PrimV::Null))]);
            }
            doc
        }
    }
}

} // verus!
