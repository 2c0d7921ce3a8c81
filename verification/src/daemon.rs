use vstd::prelude::*;
use crate::doc::{FlatDoc, PrimV};
use crate::event::{EventV, WalletEvent, event_doc_spec, event_tag, event_tag_string, serialize_event};

verus! {

/// The daemon loop's two states; `Shutdown` is terminal.
#[derive(Clone, Copy, PartialEq, Eq, Structural, Debug)]
pub enum DaemonState {
    Running,
    Shutdown,
}

/// What the daemon's blocking wait resolved to: the next wallet event
/// (with its capture-time timestamp), or the external interrupt
/// signal.
#[derive(Debug, PartialEq, Eq)]
pub enum DaemonInput {
    Event { event: WalletEvent, timestamp: u64 },
    Interrupt,
}

/// Mathematical model of a `DaemonInput`.
pub enum DaemonInputV {
    Event { event: EventV, timestamp: u64 },
    Interrupt,
}

impl View for DaemonInput {
    type V = DaemonInputV;

    open spec fn view(&self) -> DaemonInputV {
        match self {
            DaemonInput::Event { event, timestamp } => DaemonInputV::Event {
                event: event@,
                timestamp: *timestamp,
            },
            DaemonInput::Interrupt => DaemonInputV::Interrupt,
        }
    }
}

/// One webhook delivery attempt to issue: an HTTP POST of the
/// canonical event document to the target URL. Fire-and-forget: the
/// loop never waits on its outcome, and a failure is only logged.
#[derive(Debug, PartialEq, Eq)]
pub struct Delivery {
    pub url: String,
    pub payload: FlatDoc,
}

/// Mathematical model of a `Delivery`.
pub struct DeliveryV {
    pub url: Seq<char>,
    pub payload: Seq<(Seq<char>, PrimV)>,
}

impl View for Delivery {
    type V = DeliveryV;

    open spec fn view(&self) -> DeliveryV {
        DeliveryV { url: self.url@, payload: self.payload@ }
    }
}

/// The local log line one step emits.
#[derive(Debug, PartialEq, Eq)]
pub enum LogLine {
    EventSeen { event_tag: String, timestamp: u64 },
    ShutdownNotice,
}

/// Mathematical model of a `LogLine`.
pub enum LogLineV {
    EventSeen { event_tag: Seq<char>, timestamp: u64 },
    ShutdownNotice,
}

impl View for LogLine {
    type V = LogLineV;

    open spec fn view(&self) -> LogLineV {
        match self {
            LogLine::EventSeen { event_tag, timestamp } => LogLineV::EventSeen {
                event_tag: event_tag@,
                timestamp: *timestamp,
            },
            LogLine::ShutdownNotice => LogLineV::ShutdownNotice,
        }
    }
}

/// Everything one turn of the daemon loop decides: the next state,
/// the delivery attempts to issue concurrently, whether to mark the
/// event handled, whether to stop the wallet session, and the log
/// line to emit.
#[derive(Debug, PartialEq, Eq)]
pub struct StepOutcome {
    pub next: DaemonState,
    pub deliveries: Vec<Delivery>,
    pub acknowledge: bool,
    pub stop_wallet: bool,
    pub log: LogLine,
}

/// Mathematical model of a `StepOutcome`.
pub struct StepOutcomeV {
    pub next: DaemonState,
    pub deliveries: Seq<DeliveryV>,
    pub acknowledge: bool,
    pub stop_wallet: bool,
    pub log: LogLineV,
}

impl View for StepOutcome {
    type V = StepOutcomeV;

    open spec fn view(&self) -> StepOutcomeV {
        StepOutcomeV {
            next: self.next,
            deliveries: self.deliveries@.map_values(|d: Delivery| d@),
            acknowledge: self.acknowledge,
            stop_wallet: self.stop_wallet,
            log: self.log@,
        }
    }
}

/// The model of the webhook-target list: the URLs, in order.
pub open spec fn targets_view(targets: Seq<String>) -> Seq<Seq<char>> {
    targets.map_values(|s: String| s@)
}

/// The model of the queue of wait results handed to `daemon_run`.
pub open spec fn inputs_view(inputs: Seq<DaemonInput>) -> Seq<DaemonInputV> {
    inputs.map_values(|x: DaemonInput| x@)
}

/// What one turn of the daemon loop must decide for a given input.
///
/// Event branch: stay `Running`, issue exactly one delivery per
/// configured target (each carrying the canonical event document),
/// auto-acknowledge exactly when at least one target is configured —
/// delivery outcomes play no part in that decision — and log the
/// event's discriminator with its timestamp. Interrupt branch: go to
/// `Shutdown`, issue no delivery, acknowledge nothing, request the
/// wallet session's orderly stop, and log the shutdown notice.
pub open spec fn step_spec(targets: Seq<Seq<char>>, input: DaemonInputV, r: StepOutcomeV) -> bool {
    match input {
        DaemonInputV::Event { event, timestamp } => {
            &&& r.next == DaemonState::Running
            &&& !r.stop_wallet
            &&& r.deliveries.len() == targets.len()
            &&& forall|i: int|
                0 <= i < targets.len() ==> {
                    &&& (#[trigger] r.deliveries[i]).url == targets[i]
                    &&& r.deliveries[i].payload == event_doc_spec(event, timestamp)
                }
            &&& (r.acknowledge <==> targets.len() > 0)
            &&& r.log == (LogLineV::EventSeen { event_tag: event_tag(event), timestamp })
        }
        DaemonInputV::Interrupt => {
            &&& r.next == DaemonState::Shutdown
            &&& r.stop_wallet
            &&& r.deliveries.len() == 0
            &&& !r.acknowledge
            &&& r.log == LogLineV::ShutdownNotice
        }
    }
}

/// One turn of the daemon loop: from the wait's result to the actions
/// the host must perform, exactly as `step_spec` says.
pub fn daemon_step(targets: &Vec<String>, input: &DaemonInput) -> (r: StepOutcome)
    ensures
        step_spec(targets_view(targets@), input@, r@),
{
    match input {
        DaemonInput::Event { event, timestamp } => {
            let mut deliveries: Vec<Delivery> = Vec::new();
            let n = targets.len();
            for i in 0..n
                invariant
                    n == targets.len(),
                    deliveries.len() == i,
                    forall|j: int|
                        0 <= j < i ==> {
                            &&& (#[trigger] deliveries@[j])@.url == targets@[j]@
                            &&& deliveries@[j]@.payload == event_doc_spec(event@, *timestamp)
                        },
            {
                let payload = serialize_event(event, *timestamp);
                deliveries.push(Delivery { url: targets[i].clone(), payload });
            }
            let acknowledge = targets.len() > 0;
            let log = LogLine::EventSeen {
                event_tag: event_tag_string(event),
                timestamp: *timestamp,
            };
            let r = StepOutcome {
                next: DaemonState::Running,
                deliveries,
                acknowledge,
                stop_wallet: false,
                log,
            };
            proof {
                assert forall|i: int| 0 <= i < targets_view(targets@).len() implies {
                    &&& (#[trigger] r@.deliveries[i]).url == targets_view(targets@)[i]
                    &&& r@.deliveries[i].payload == event_doc_spec(event@, *timestamp)
                } by {
                    assert(r@.deliveries[i] == r.deliveries@[i]@);
                }
            }
            r
        }
        DaemonInput::Interrupt => {
            StepOutcome {
                next: DaemonState::Shutdown,
                deliveries: Vec::new(),
                acknowledge: false,
                stop_wallet: true,
                log: LogLine::ShutdownNotice,
            }
        }
    }
}

/// How many of the queued inputs one daemon invocation consumes: every
/// input up to and including the first interrupt, or all of them when
/// no interrupt arrives.
pub open spec fn consumed_len(inputs: Seq<DaemonInputV>) -> nat
    decreases inputs.len(),
{
    if inputs.len() == 0 {
        0nat
    } else if inputs[0] is Interrupt {
        1nat
    } else {
        1nat + consumed_len(inputs.drop_first())
    }
}

/// How many outcomes of a trace request the wallet's orderly stop.
pub open spec fn stop_count(trace: Seq<StepOutcomeV>) -> nat
    decreases trace.len(),
{
    if trace.len() == 0 {
        0nat
    } else {
        (if trace[0].stop_wallet {
            1nat
        } else {
            0nat
        }) + stop_count(trace.drop_first())
    }
}

/// The model of a trace of step outcomes.
pub open spec fn trace_view(trace: Seq<StepOutcome>) -> Seq<StepOutcomeV> {
    trace.map_values(|o: StepOutcome| o@)
}

/// In a trace whose outcomes before the last never stop the wallet,
/// the number of stops is decided by the last outcome alone.
proof fn lemma_stop_count_last_only(trace: Seq<StepOutcomeV>)
    requires
        trace.len() > 0,
        forall|i: int| 0 <= i < trace.len() - 1 ==> !(#[trigger] trace[i]).stop_wallet,
    ensures
        stop_count(trace) == if trace.last().stop_wallet {
            1nat
        } else {
            0nat
        },
    decreases trace.len(),
{
    if trace.len() == 1 {
        assert(trace.drop_first() =~= Seq::<StepOutcomeV>::empty());
        assert(stop_count(trace.drop_first()) == 0);
        assert(trace.last() == trace[0]);
    } else {
        assert forall|i: int| 0 <= i < trace.drop_first().len() - 1 implies !(#[trigger] trace
            .drop_first()[i]).stop_wallet by {
            assert(trace.drop_first()[i] == trace[i + 1]);
        }
        lemma_stop_count_last_only(trace.drop_first());
        assert(trace.drop_first().last() == trace.last());
        assert(!trace[0].stop_wallet);
    }
}

/// A trace without any stop has stop count zero.
proof fn lemma_stop_count_zero(trace: Seq<StepOutcomeV>)
    requires
        forall|i: int| 0 <= i < trace.len() ==> !(#[trigger] trace[i]).stop_wallet,
    ensures
        stop_count(trace) == 0,
    decreases trace.len(),
{
    if trace.len() > 0 {
        lemma_stop_count_zero(trace.drop_first());
    }
}

/// The daemon loop over a fixed queue of wait results: one step per
/// consumed input, stopping at the first interrupt.
///
/// The contract carries the shutdown discipline: every consumed input
/// gets exactly the outcome `step_spec` prescribes; every input
/// before the last consumed one is an event, so no event behind the
/// first interrupt is ever processed; and the wallet's orderly stop
/// is requested exactly once when an interrupt arrives, and never
/// otherwise.
pub fn daemon_run(targets: &Vec<String>, inputs: &Vec<DaemonInput>) -> (trace: Vec<StepOutcome>)
    ensures
        trace@.len() == consumed_len(inputs_view(inputs@)),
        stop_count(trace_view(trace@)) == if trace@.len() > 0 && inputs@[trace@.len() - 1]@
            is Interrupt {
            1nat
        } else {
            0nat
        },
        forall|i: int|
            0 <= i < trace@.len() ==> step_spec(
                targets_view(targets@),
                inputs@[i]@,
                (#[trigger] trace@[i])@,
            ),
        forall|i: int|
            0 <= i < trace@.len() ==> ((#[trigger] trace@[i])@.stop_wallet <==> inputs@[i]@ is Interrupt),
        forall|i: int| 0 <= i < trace@.len() - 1 ==> (#[trigger] inputs@[i])@ !is Interrupt,
        forall|i: int|
            0 <= i < trace@.len() - 1 ==> !(#[trigger] trace@[i])@.stop_wallet
                && trace@[i]@.next == DaemonState::Running,
{
    let ghost iv = inputs_view(inputs@);
    let mut trace: Vec<StepOutcome> = Vec::new();
    let mut k: usize = 0;
    let n = inputs.len();
    proof {
        assert(iv.skip(0) =~= iv);
    }
    loop
        invariant_except_break
            consumed_len(iv.skip(k as int)) + k == consumed_len(iv),
            forall|i: int| 0 <= i < k ==> (#[trigger] inputs@[i])@ !is Interrupt,
        invariant
            n == inputs.len(),
            iv == inputs_view(inputs@),
            0 <= k <= n,
            trace@.len() == k,
            forall|i: int|
                0 <= i < k ==> step_spec(targets_view(targets@), inputs@[i]@, (#[trigger] trace@[i])@),
        ensures
            trace@.len() == consumed_len(iv),
            forall|i: int|
                0 <= i < trace@.len() ==> step_spec(
                    targets_view(targets@),
                    inputs@[i]@,
                    (#[trigger] trace@[i])@,
                ),
            forall|i: int| 0 <= i < trace@.len() - 1 ==> (#[trigger] inputs@[i])@ !is Interrupt,
        decreases n - k,
    {
        if k == n {
            proof {
                assert(iv.skip(k as int) =~= Seq::<DaemonInputV>::empty());
            }
            break;
        }
        let outcome = daemon_step(targets, &inputs[k]);
        let ghost o = outcome@;
        let stop = outcome.stop_wallet;
        trace.push(outcome);
        k = k + 1;
        if stop {
            proof {
                assert(inputs@[k - 1]@ is Interrupt);
                assert(iv.skip(k as int - 1)[0] == iv[k as int - 1]);
                assert(consumed_len(iv.skip(k as int - 1)) == 1);
            }
            break;
        }
        proof {
            assert(inputs@[k - 1]@ !is Interrupt);
            assert(iv.skip(k as int - 1)[0] == iv[k as int - 1]);
            assert(iv.skip(k as int - 1).drop_first() =~= iv.skip(k as int));
            assert(consumed_len(iv.skip(k as int - 1)) == 1 + consumed_len(iv.skip(k as int)));
        }
    }
    proof {
        let tv = trace_view(trace@);
        if trace@.len() == 0 {
            assert(tv =~= Seq::<StepOutcomeV>::empty());
            lemma_stop_count_zero(tv);
        } else {
            assert forall|i: int| 0 <= i < tv.len() - 1 implies !(#[trigger] tv[i]).stop_wallet by {
                assert(tv[i] == trace@[i]@);
            }
            lemma_stop_count_last_only(tv);
            assert(tv.last() == trace@[trace@.len() - 1]@);
        }
    }
    trace
}

} // verus!
