mod command;
mod config;
mod daemon;
mod doc;
mod event;

pub use command::{
    BalanceSummary, ChannelRecord, ChannelRecordV, ReceiveUriSummary, TunablesSummary, TxRecord,
    TxRecordV, balance_doc, channel_doc, channel_doc_spec, channels_doc, error_doc,
    estimate_fee_doc, event_handled_doc, info_doc, lightning_address_doc, next_event_doc,
    opt_str_prim_spec, opt_uint_prim, parse_doc, receive_doc, receive_offer_doc,
    register_lightning_address_doc, send_doc, transactions_doc, tunables_doc_spec, tx_doc,
    tx_doc_spec,
};
pub use config::{
    ChainSourceConfig, ChainSourceConfigV, ChainSourceSpec, ChainSourceSpecV, Config, ConfigV,
    LspConfig, LspConfigV, Network, SessionDescriptor, SessionDescriptorV, SparkConfig,
    ValidationError, ValidationErrorV, default_sync_interval, lemma_bitcoind_rpc_field_order,
    lemma_chain_source_required_fields, lemma_unknown_chain_source_type, message_spec,
    parse_network, spec_parse_network, spec_translate, spec_translate_chain_source,
};
pub use daemon::{
    DaemonInput, DaemonInputV, DaemonState, Delivery, DeliveryV, LogLine, LogLineV, StepOutcome,
    StepOutcomeV, consumed_len, daemon_run, daemon_step, inputs_view, step_spec, stop_count,
    targets_view, trace_view,
};
pub use doc::{Doc, DocNode, DocNodeV, FlatDoc, Prim, PrimV, doc_lookup};
pub use event::{
    EventV, WalletEvent, event_doc_spec, event_tag, event_tag_string,
    lemma_event_doc_discriminator, lemma_event_doc_injective, lemma_payment_received_amounts,
    opt_view, serialize_event,
};
