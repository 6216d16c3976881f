//! The supervisor's decisions: per-delivery ack/nack arbitration, the
//! per-delivery lifecycle, and the resubscribe teardown plan.

use vstd::prelude::*;

use crate::dispatch::Disposition;
use crate::DELAY_BEFORE_NACK;

verus! {

/// The one broker acknowledgement a delivery receives.
#[derive(Clone, Copy, Debug, PartialEq, Eq, Structural)]
pub enum AckAction {
    /// `basic_ack(tag, multiple=false)`.
    Ack,
    /// `basic_nack(tag, multiple=false, requeue=true)`.
    NackRequeue,
}

/// The arbitration rule: delivered, exhausted and terminal deliveries are
/// acked; failed and timed-out deliveries are nacked with requeue.
pub open spec fn ack_of(d: Disposition) -> AckAction {
    match d {
        Disposition::Delivered => AckAction::Ack,
        Disposition::Exhausted => AckAction::Ack,
        Disposition::Terminal => AckAction::Ack,
        Disposition::Failed => AckAction::NackRequeue,
        Disposition::TimedOut => AckAction::NackRequeue,
    }
}

/// Decides the acknowledgement for a settled delivery.
pub fn ack_action(d: Disposition) -> (a: AckAction)
    ensures
        a == ack_of(d),
{
    match d {
        Disposition::Delivered => AckAction::Ack,
        Disposition::Exhausted => AckAction::Ack,
        Disposition::Terminal => AckAction::Ack,
        Disposition::Failed => AckAction::NackRequeue,
        Disposition::TimedOut => AckAction::NackRequeue,
    }
}

/// How long the supervisor waits before issuing the acknowledgement: acks
/// go out at once, nacks after the fixed grace delay.
pub fn settle_delay_ms(a: AckAction) -> (r: u64)
    ensures
        a == AckAction::Ack ==> r == 0,
        a == AckAction::NackRequeue ==> r == DELAY_BEFORE_NACK,
{
    match a {
        AckAction::Ack => 0,
        AckAction::NackRequeue => DELAY_BEFORE_NACK,
    }
}

// ---------------------------------------------------------------------------
// The per-delivery lifecycle
// ---------------------------------------------------------------------------

/// Where one delivery stands between arrival and acknowledgement.
#[derive(Clone, Copy, Debug, PartialEq, Eq, Structural)]
pub enum DeliveryPhase {
    /// Arrived; the dispatcher has not been called yet.
    Received,
    /// The dispatcher is running under the per-delivery deadline.
    Dispatching,
    /// Settled: the one acknowledgement has been issued.
    Settled(AckAction),
}

/// One delivery the supervisor owns, keyed by its channel-local tag.
pub struct DeliveryLife {
    pub tag: u64,
    pub phase: DeliveryPhase,
}

impl DeliveryLife {
    /// A freshly arrived delivery.
    pub fn accept(tag: u64) -> (r: Self)
        ensures
            r.tag == tag,
            r.phase == DeliveryPhase::Received,
    {
        DeliveryLife { tag, phase: DeliveryPhase::Received }
    }

    /// Hands the delivery to the dispatcher.
    pub fn start_dispatch(&mut self)
        requires
            old(self).phase == DeliveryPhase::Received,
        ensures
            final(self).tag == old(self).tag,
            final(self).phase == DeliveryPhase::Dispatching,
    {
        self.phase = DeliveryPhase::Dispatching;
    }

    /// Settles the delivery: the returned action is the single
    /// acknowledgement issued for this tag, and no further settlement is
    /// possible.
    pub fn settle(&mut self, d: Disposition) -> (a: AckAction)
        requires
            old(self).phase == DeliveryPhase::Dispatching,
        ensures
            final(self).tag == old(self).tag,
            final(self).phase == DeliveryPhase::Settled(a),
            a == ack_of(d),
    {
        let a = ack_action(d);
        self.phase = DeliveryPhase::Settled(a);
        a
    }
}

/// One step of a delivery's life, as the supervisor drives it.
#[derive(Clone, Copy, Debug, PartialEq, Eq, Structural)]
pub enum LifeEvent {
    StartDispatch,
    Settle(Disposition),
}

/// The phase after one event, or `None` if the event is illegal in the
/// current phase.
pub open spec fn phase_step(p: DeliveryPhase, e: LifeEvent) -> Option<DeliveryPhase> {
    match (p, e) {
        (DeliveryPhase::Received, LifeEvent::StartDispatch) => Some(DeliveryPhase::Dispatching),
        (DeliveryPhase::Dispatching, LifeEvent::Settle(d)) => Some(
            DeliveryPhase::Settled(ack_of(d)),
        ),
        _ => None,
    }
}

/// The phase after a whole event sequence, starting from `Received`; `None`
/// if any step is illegal.
pub open spec fn phase_after(events: Seq<LifeEvent>) -> Option<DeliveryPhase>
    decreases events.len(),
{
    if events.len() == 0 {
        Some(DeliveryPhase::Received)
    } else {
        match phase_after(events.drop_last()) {
            Some(p) => phase_step(p, events.last()),
            None => None,
        }
    }
}

/// The acknowledgements a run issues: one per settle event.
pub open spec fn acks_of(events: Seq<LifeEvent>) -> Seq<AckAction>
    decreases events.len(),
{
    if events.len() == 0 {
        Seq::empty()
    } else {
        acks_of(events.drop_last()) + (match events.last() {
            LifeEvent::Settle(d) => seq![ack_of(d)],
            LifeEvent::StartDispatch => Seq::empty(),
        })
    }
}

/// Along any legal run, a delivery receives exactly one acknowledgement once
/// it settles, and none before.
pub proof fn lemma_one_ack_per_delivery(events: Seq<LifeEvent>)
    requires
        phase_after(events) is Some,
    ensures
        (phase_after(events) matches Some(DeliveryPhase::Settled(a))
            ==> acks_of(events) == seq![a]),
        !(phase_after(events) matches Some(DeliveryPhase::Settled(_)))
            ==> acks_of(events) == Seq::<AckAction>::empty(),
    decreases events.len(),
{
    if events.len() == 0 {
    } else {
        lemma_one_ack_per_delivery(events.drop_last());
        match events.last() {
            LifeEvent::Settle(d) => {
                assert(acks_of(events) =~= acks_of(events.drop_last()) + seq![ack_of(d)]);
                assert(Seq::<AckAction>::empty() + seq![ack_of(d)] =~= seq![ack_of(d)]);
            },
            LifeEvent::StartDispatch => {
                assert(acks_of(events) =~= acks_of(events.drop_last()));
            },
        }
    }
}

// ---------------------------------------------------------------------------
// Observability counters
// ---------------------------------------------------------------------------

/// The supervisor's observational counters, logged at each resubscribe
/// boundary; they never drive a decision. Each saturates rather than wrap.
#[derive(Clone, Copy, Debug, PartialEq, Eq, Structural)]
pub struct Counters {
    pub received: u64,
    pub ack_attempted: u64,
    pub ack_confirmed: u64,
    pub nack_attempted: u64,
    pub nack_confirmed: u64,
}

/// A saturating count of one more event.
pub open spec fn bumped(x: u64) -> u64 {
    if x < u64::MAX { (x + 1) as u64 } else { x }
}

fn bump(x: u64) -> (r: u64)
    ensures
        r == bumped(x),
{
    if x < u64::MAX { x + 1 } else { x }
}

impl Counters {
    /// All five counters at zero.
    pub fn new() -> (r: Self)
        ensures
            r == (Counters { received: 0, ack_attempted: 0, ack_confirmed: 0, nack_attempted: 0, nack_confirmed: 0 }),
    {
        Counters { received: 0, ack_attempted: 0, ack_confirmed: 0, nack_attempted: 0, nack_confirmed: 0 }
    }

    /// Counts one delivery received.
    pub fn on_received(&mut self)
        ensures
            *final(self) == (Counters { received: bumped(old(self).received), ..*old(self) }),
    {
        self.received = bump(self.received);
    }

    /// Counts one acknowledgement attempted: an ack or a requeueing nack.
    pub fn on_attempted(&mut self, a: AckAction)
        ensures
            a == AckAction::Ack ==> *final(self) == (Counters {
                ack_attempted: bumped(old(self).ack_attempted),
                ..*old(self)
            }),
            a == AckAction::NackRequeue ==> *final(self) == (Counters {
                nack_attempted: bumped(old(self).nack_attempted),
                ..*old(self)
            }),
    {
        match a {
            AckAction::Ack => {
                self.ack_attempted = bump(self.ack_attempted);
            },
            AckAction::NackRequeue => {
                self.nack_attempted = bump(self.nack_attempted);
            },
        }
    }

    /// Counts one acknowledgement the broker confirmed.
    pub fn on_confirmed(&mut self, a: AckAction)
        ensures
            a == AckAction::Ack ==> *final(self) == (Counters {
                ack_confirmed: bumped(old(self).ack_confirmed),
                ..*old(self)
            }),
            a == AckAction::NackRequeue ==> *final(self) == (Counters {
                nack_confirmed: bumped(old(self).nack_confirmed),
                ..*old(self)
            }),
    {
        match a {
            AckAction::Ack => {
                self.ack_confirmed = bump(self.ack_confirmed);
            },
            AckAction::NackRequeue => {
                self.nack_confirmed = bump(self.nack_confirmed);
            },
        }
    }
}

// ---------------------------------------------------------------------------
// Resubscribe teardown
// ---------------------------------------------------------------------------

/// One consumer the supervisor is about to cancel: the broker-assigned
/// consumer tag and the last delivery tag still unacknowledged, if any.
#[derive(Clone, Debug, PartialEq, Eq)]
pub struct ConsumerHandle {
    pub consumer_tag: String,
    pub outstanding: Option<u64>,
}

/// One broker operation of the teardown plan.
#[derive(Clone, Debug, PartialEq, Eq)]
pub enum BrokerOp {
    /// `basic_nack(tag, multiple=false, requeue=true)`.
    NackRequeue(u64),
    /// `basic_cancel(consumer_tag)`.
    Cancel(String),
    /// `basic_recover(requeue=true)`.
    Recover,
}

/// The mathematical value of a [`BrokerOp`].
pub enum BrokerOpV {
    NackRequeue(u64),
    Cancel(Seq<char>),
    Recover,
}

impl View for BrokerOp {
    type V = BrokerOpV;

    open spec fn view(&self) -> BrokerOpV {
        match self {
            BrokerOp::NackRequeue(t) => BrokerOpV::NackRequeue(*t),
            BrokerOp::Cancel(s) => BrokerOpV::Cancel(s@),
            BrokerOp::Recover => BrokerOpV::Recover,
        }
    }
}

/// The teardown steps for one consumer: nack its outstanding tag with
/// requeue if it has one, cancel the consumer, then recover so the broker
/// redelivers anything still unacknowledged.
pub open spec fn teardown_of(c: ConsumerHandle) -> Seq<BrokerOpV> {
    (match c.outstanding {
        Some(t) => seq![BrokerOpV::NackRequeue(t)],
        None => Seq::empty(),
    }) + seq![BrokerOpV::Cancel(c.consumer_tag@), BrokerOpV::Recover]
}

/// The whole teardown plan, consumer by consumer, in order.
pub open spec fn plan_of(cs: Seq<ConsumerHandle>) -> Seq<BrokerOpV>
    decreases cs.len(),
{
    if cs.len() == 0 {
        Seq::empty()
    } else {
        plan_of(cs.drop_last()) + teardown_of(cs.last())
    }
}

/// Builds the resubscribe teardown plan for every consumer.
pub fn resubscribe_plan(consumers: &Vec<ConsumerHandle>) -> (r: Vec<BrokerOp>)
    ensures
        r@.map_values(|op: BrokerOp| op@) == plan_of(consumers@),
{
    let mut r: Vec<BrokerOp> = Vec::new();
    let n = consumers.len();
    let mut i: usize = 0;
    while i < n
        invariant
            i <= n,
            n == consumers@.len(),
            r@.map_values(|op: BrokerOp| op@) == plan_of(consumers@.take(i as int)),
        decreases n - i,
    {
        let ghost before = r@.map_values(|op: BrokerOp| op@);
        match consumers[i].outstanding {
            Some(t) => {
                r.push(BrokerOp::NackRequeue(t));
            },
            None => {},
        }
        r.push(BrokerOp::Cancel(consumers[i].consumer_tag.clone()));
        r.push(BrokerOp::Recover);
        proof {
            assert(consumers@.take(i + 1 as int).drop_last() =~= consumers@.take(i as int));
            assert(consumers@.take(i + 1 as int).last() == consumers@[i as int]);
            assert(r@.map_values(|op: BrokerOp| op@) =~= before + teardown_of(
                consumers@[i as int],
            ));
            assert(r@.map_values(|op: BrokerOp| op@) =~= plan_of(consumers@.take(i + 1 as int)));
        }
        i = i + 1;
    }
    assert(consumers@.take(n as int) =~= consumers@);
    r
}

/// The plan covers every consumer: its cancel and recover steps are there,
/// and so is a requeueing nack of its outstanding tag if it has one.
pub proof fn lemma_resubscribe_covers(cs: Seq<ConsumerHandle>, i: int)
    requires
        0 <= i < cs.len(),
    ensures
        plan_of(cs).contains(BrokerOpV::Cancel(cs[i].consumer_tag@)),
        plan_of(cs).contains(BrokerOpV::Recover),
        cs[i].outstanding matches Some(t) ==> plan_of(cs).contains(BrokerOpV::NackRequeue(t)),
    decreases cs.len(),
{
    let plan = plan_of(cs);
    if i == cs.len() - 1 {
        let base = plan_of(cs.drop_last());
        let t = teardown_of(cs.last());
        assert(t[t.len() - 2] == BrokerOpV::Cancel(cs[i].consumer_tag@));
        assert(t[t.len() - 1] == BrokerOpV::Recover);
        assert(plan[base.len() + t.len() - 2] == BrokerOpV::Cancel(cs[i].consumer_tag@));
        assert(plan[base.len() + t.len() - 1] == BrokerOpV::Recover);
        match cs[i].outstanding {
            Some(tag) => {
                assert(t[0] == BrokerOpV::NackRequeue(tag));
                assert(plan[base.len() as int] == BrokerOpV::NackRequeue(tag));
            },
            None => {},
        }
    } else {
        lemma_resubscribe_covers(cs.drop_last(), i);
        assert(cs.drop_last()[i] == cs[i]);
        let base = plan_of(cs.drop_last());
        assert forall|op: BrokerOpV| base.contains(op) implies plan.contains(op) by {
            let k = choose|k: int| 0 <= k < base.len() && base[k] == op;
            assert(plan[k] == op);
        }
    }
}

} // verus!
