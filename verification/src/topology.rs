//! The broker topology this system owns: the notifications exchange, the
//! dead-letter queues and their bindings, with declaration modeled as set
//! insertion so that initialization is idempotent.

use vstd::prelude::*;
use vstd::string::*;

verus! {

/// An exchange declaration.
#[derive(Clone, Debug, PartialEq, Eq)]
pub struct ExchangeDecl {
    pub name: String,
    pub kind: String,
    pub durable: bool,
}

/// The mathematical value of an [`ExchangeDecl`].
pub struct ExchangeV {
    pub name: Seq<char>,
    pub kind: Seq<char>,
    pub durable: bool,
}

impl View for ExchangeDecl {
    type V = ExchangeV;

    open spec fn view(&self) -> ExchangeV {
        ExchangeV { name: self.name@, kind: self.kind@, durable: self.durable }
    }
}

/// A queue declaration.
#[derive(Clone, Debug, PartialEq, Eq)]
pub struct QueueDecl {
    pub name: String,
    pub durable: bool,
}

/// The mathematical value of a [`QueueDecl`].
pub struct QueueV {
    pub name: Seq<char>,
    pub durable: bool,
}

impl View for QueueDecl {
    type V = QueueV;

    open spec fn view(&self) -> QueueV {
        QueueV { name: self.name@, durable: self.durable }
    }
}

/// A binding of a queue to an exchange under a routing key.
#[derive(Clone, Debug, PartialEq, Eq)]
pub struct BindingDecl {
    pub queue: String,
    pub exchange: String,
    pub routing_key: String,
}

/// The mathematical value of a [`BindingDecl`].
pub struct BindingV {
    pub queue: Seq<char>,
    pub exchange: Seq<char>,
    pub routing_key: Seq<char>,
}

impl View for BindingDecl {
    type V = BindingV;

    open spec fn view(&self) -> BindingV {
        BindingV {
            queue: self.queue@,
            exchange: self.exchange@,
            routing_key: self.routing_key@,
        }
    }
}

/// One topology operation of the publisher's initialization plan.
#[derive(Clone, Debug, PartialEq, Eq)]
pub enum TopologyOp {
    DeclareExchange(ExchangeDecl),
    DeclareQueue(QueueDecl),
    Bind(BindingDecl),
}

/// The mathematical value of a [`TopologyOp`].
pub enum TopologyOpV {
    DeclareExchange(ExchangeV),
    DeclareQueue(QueueV),
    Bind(BindingV),
}

impl View for TopologyOp {
    type V = TopologyOpV;

    open spec fn view(&self) -> TopologyOpV {
        match self {
            TopologyOp::DeclareExchange(e) => TopologyOpV::DeclareExchange(e@),
            TopologyOp::DeclareQueue(q) => TopologyOpV::DeclareQueue(q@),
            TopologyOp::Bind(b) => TopologyOpV::Bind(b@),
        }
    }
}

/// The item views of an exchange list.
pub open spec fn exchange_views(s: Seq<ExchangeDecl>) -> Seq<ExchangeV> {
    s.map_values(|e: ExchangeDecl| e@)
}

/// The item views of a queue list.
pub open spec fn queue_views(s: Seq<QueueDecl>) -> Seq<QueueV> {
    s.map_values(|q: QueueDecl| q@)
}

/// The item views of a binding list.
pub open spec fn binding_views(s: Seq<BindingDecl>) -> Seq<BindingV> {
    s.map_values(|b: BindingDecl| b@)
}

/// The item views of an operation list.
pub open spec fn op_views(s: Seq<TopologyOp>) -> Seq<TopologyOpV> {
    s.map_values(|op: TopologyOp| op@)
}

/// One durable dead-letter declaration pair: the queue, and its binding to
/// the notifications exchange under its own name as routing key.
pub open spec fn dead_letter_ops(name: Seq<char>) -> Seq<TopologyOpV> {
    seq![
        TopologyOpV::DeclareQueue(QueueV { name: name, durable: true }),
        TopologyOpV::Bind(BindingV { queue: name, exchange: "notifications"@, routing_key: name }),
    ]
}

/// The publisher's initialization plan: declare the durable direct exchange
/// `notifications`, then declare and bind the three durable dead-letter
/// queues.
pub open spec fn init_ops_plan() -> Seq<TopologyOpV> {
    seq![
        TopologyOpV::DeclareExchange(
            ExchangeV { name: "notifications"@, kind: "direct"@, durable: true },
        ),
    ] + dead_letter_ops("error_callbacks"@) + dead_letter_ops("error_emails"@)
        + dead_letter_ops("error_pushes"@)
}

fn dl_queue_ops(name: &str, out: &mut Vec<TopologyOp>)
    ensures
        op_views(final(out)@)
            == op_views(old(out)@) + dead_letter_ops(name@),
{
    out.push(
        TopologyOp::DeclareQueue(QueueDecl { name: String::from_str(name), durable: true }),
    );
    out.push(
        TopologyOp::Bind(
            BindingDecl {
                queue: String::from_str(name),
                exchange: String::from_str("notifications"),
                routing_key: String::from_str(name),
            },
        ),
    );
    assert(op_views(out@) =~= op_views(old(out)@)
        + dead_letter_ops(name@));
}

/// Builds the initialization plan.
pub fn init_ops() -> (r: Vec<TopologyOp>)
    ensures
        op_views(r@) == init_ops_plan(),
{
    let mut r: Vec<TopologyOp> = Vec::new();
    r.push(
        TopologyOp::DeclareExchange(
            ExchangeDecl {
                name: String::from_str("notifications"),
                kind: String::from_str("direct"),
                durable: true,
            },
        ),
    );
    dl_queue_ops("error_callbacks", &mut r);
    dl_queue_ops("error_emails", &mut r);
    dl_queue_ops("error_pushes", &mut r);
    assert(op_views(r@) =~= init_ops_plan());
    r
}

/// One consumer to open at subscribe time: declare the queue durable, then
/// start a consume with an empty consumer tag, so the broker assigns one.
#[derive(Clone, Debug, PartialEq, Eq)]
pub struct SubscribeEntry {
    pub queue: String,
    pub durable: bool,
    pub consumer_tag: String,
}

/// The mathematical value of a [`SubscribeEntry`].
pub struct SubscribeEntryV {
    pub queue: Seq<char>,
    pub durable: bool,
    pub consumer_tag: Seq<char>,
}

impl View for SubscribeEntry {
    type V = SubscribeEntryV;

    open spec fn view(&self) -> SubscribeEntryV {
        SubscribeEntryV {
            queue: self.queue@,
            durable: self.durable,
            consumer_tag: self.consumer_tag@,
        }
    }
}

/// The item views of a subscribe plan.
pub open spec fn subscribe_views(s: Seq<SubscribeEntry>) -> Seq<SubscribeEntryV> {
    s.map_values(|e: SubscribeEntry| e@)
}

/// The fixed consumer set: one durable work queue per purpose, each with a
/// broker-assigned consumer tag.
pub open spec fn subscribe_plan_entries() -> Seq<SubscribeEntryV> {
    seq![
        SubscribeEntryV { queue: "pushes"@, durable: true, consumer_tag: Seq::empty() },
        SubscribeEntryV { queue: "callbacks"@, durable: true, consumer_tag: Seq::empty() },
        SubscribeEntryV { queue: "emails"@, durable: true, consumer_tag: Seq::empty() },
    ]
}

/// Builds the subscribe plan.
pub fn subscribe_plan() -> (r: Vec<SubscribeEntry>)
    ensures
        subscribe_views(r@) == subscribe_plan_entries(),
{
    let mut r: Vec<SubscribeEntry> = Vec::new();
    r.push(
        SubscribeEntry {
            queue: String::from_str("pushes"),
            durable: true,
            consumer_tag: String::new(),
        },
    );
    r.push(
        SubscribeEntry {
            queue: String::from_str("callbacks"),
            durable: true,
            consumer_tag: String::new(),
        },
    );
    r.push(
        SubscribeEntry {
            queue: String::from_str("emails"),
            durable: true,
            consumer_tag: String::new(),
        },
    );
    assert(subscribe_views(r@) =~= subscribe_plan_entries());
    r
}

// ---------------------------------------------------------------------------
// The topology state
// ---------------------------------------------------------------------------

/// The exchange set an operation sequence declares.
pub open spec fn exchanges_of(ops: Seq<TopologyOpV>) -> Set<ExchangeV>
    decreases ops.len(),
{
    if ops.len() == 0 {
        Set::empty()
    } else {
        match ops.last() {
            TopologyOpV::DeclareExchange(e) => exchanges_of(ops.drop_last()).insert(e),
            _ => exchanges_of(ops.drop_last()),
        }
    }
}

/// The queue set an operation sequence declares.
pub open spec fn queues_of(ops: Seq<TopologyOpV>) -> Set<QueueV>
    decreases ops.len(),
{
    if ops.len() == 0 {
        Set::empty()
    } else {
        match ops.last() {
            TopologyOpV::DeclareQueue(q) => queues_of(ops.drop_last()).insert(q),
            _ => queues_of(ops.drop_last()),
        }
    }
}

/// The binding set an operation sequence declares.
pub open spec fn bindings_of(ops: Seq<TopologyOpV>) -> Set<BindingV>
    decreases ops.len(),
{
    if ops.len() == 0 {
        Set::empty()
    } else {
        match ops.last() {
            TopologyOpV::Bind(b) => bindings_of(ops.drop_last()).insert(b),
            _ => bindings_of(ops.drop_last()),
        }
    }
}

/// The broker topology as the declarations leave it. Declaring is set
/// insertion: a declaration already present changes nothing.
#[derive(Debug, PartialEq, Eq)]
pub struct Topology {
    pub exchanges: Vec<ExchangeDecl>,
    pub queues: Vec<QueueDecl>,
    pub bindings: Vec<BindingDecl>,
}

impl Topology {
    /// The exchanges declared so far.
    pub open spec fn exchange_set(&self) -> Set<ExchangeV> {
        exchange_views(self.exchanges@).to_set()
    }

    /// The queues declared so far.
    pub open spec fn queue_set(&self) -> Set<QueueV> {
        queue_views(self.queues@).to_set()
    }

    /// The bindings declared so far.
    pub open spec fn binding_set(&self) -> Set<BindingV> {
        binding_views(self.bindings@).to_set()
    }

    /// An empty broker topology.
    pub fn new() -> (r: Self)
        ensures
            r.exchange_set() == Set::<ExchangeV>::empty(),
            r.queue_set() == Set::<QueueV>::empty(),
            r.binding_set() == Set::<BindingV>::empty(),
    {
        let r = Topology { exchanges: Vec::new(), queues: Vec::new(), bindings: Vec::new() };
        proof {
            broadcast use vstd::set::group_set_axioms;
            assert(r.exchange_set() =~= Set::<ExchangeV>::empty());
            assert(r.queue_set() =~= Set::<QueueV>::empty());
            assert(r.binding_set() =~= Set::<BindingV>::empty());
        }
        r
    }

    /// Declares an exchange: present afterwards, nothing else changed.
    pub fn declare_exchange(&mut self, e: &ExchangeDecl)
        ensures
            final(self).exchange_set() == old(self).exchange_set().insert(e@),
            final(self).queue_set() == old(self).queue_set(),
            final(self).binding_set() == old(self).binding_set(),
    {
        let n = self.exchanges.len();
        let mut i: usize = 0;
        let mut found = false;
        while i < n && !found
            invariant
                i <= n,
                n == self.exchanges@.len(),
                !found ==> forall|k: int| 0 <= k < i ==> self.exchanges@[k]@ != e@,
                found ==> exchange_views(self.exchanges@).contains(e@),
                self.exchanges == old(self).exchanges,
                self.queues == old(self).queues,
                self.bindings == old(self).bindings,
            decreases n - i, (if found { 0int } else { 1int }),
        {
            let cur = &self.exchanges[i];
            if cur.name == e.name && cur.kind == e.kind && cur.durable == e.durable {
                proof {
                    assert(exchange_views(self.exchanges@)[i as int] == e@);
                }
                found = true;
            } else {
                i = i + 1;
            }
        }
        if found {
            proof {
                broadcast use vstd::set::group_set_axioms;
                assert(exchange_views(self.exchanges@).to_set().contains(e@));
                assert(self.exchanges == old(self).exchanges);
                assert(self.exchange_set() == old(self).exchange_set());
                assert(old(self).exchange_set().contains(e@));
                assert(self.exchange_set() =~~= old(self).exchange_set().insert(e@));
            }
        } else {
            let copy = ExchangeDecl {
                name: self_clone_str(&e.name),
                kind: self_clone_str(&e.kind),
                durable: e.durable,
            };
            self.exchanges.push(copy);
            proof {
                broadcast use vstd::set::group_set_axioms;
                assert(exchange_views(self.exchanges@) =~= exchange_views(old(self).exchanges@)
                    + seq![e@]);
                Seq::<ExchangeV>::lemma_to_set_insert_commutes(
                    exchange_views(old(self).exchanges@),
                    e@,
                );
            }
        }
    }

    /// Declares a queue: present afterwards, nothing else changed.
    pub fn declare_queue(&mut self, q: &QueueDecl)
        ensures
            final(self).queue_set() == old(self).queue_set().insert(q@),
            final(self).exchange_set() == old(self).exchange_set(),
            final(self).binding_set() == old(self).binding_set(),
    {
        let n = self.queues.len();
        let mut i: usize = 0;
        let mut found = false;
        while i < n && !found
            invariant
                i <= n,
                n == self.queues@.len(),
                !found ==> forall|k: int| 0 <= k < i ==> self.queues@[k]@ != q@,
                found ==> queue_views(self.queues@).contains(q@),
                self.exchanges == old(self).exchanges,
                self.queues == old(self).queues,
                self.bindings == old(self).bindings,
            decreases n - i, (if found { 0int } else { 1int }),
        {
            let cur = &self.queues[i];
            if cur.name == q.name && cur.durable == q.durable {
                proof {
                    assert(queue_views(self.queues@)[i as int] == q@);
                }
                found = true;
            } else {
                i = i + 1;
            }
        }
        if found {
            proof {
                broadcast use vstd::set::group_set_axioms;
                assert(queue_views(self.queues@).to_set().contains(q@));
                assert(self.queue_set() =~~= old(self).queue_set().insert(q@));
            }
        } else {
            let copy = QueueDecl { name: self_clone_str(&q.name), durable: q.durable };
            self.queues.push(copy);
            proof {
                broadcast use vstd::set::group_set_axioms;
                assert(queue_views(self.queues@) =~= queue_views(old(self).queues@) + seq![q@]);
                Seq::<QueueV>::lemma_to_set_insert_commutes(queue_views(old(self).queues@), q@);
            }
        }
    }

    /// Declares a binding: present afterwards, nothing else changed.
    pub fn bind(&mut self, b: &BindingDecl)
        ensures
            final(self).binding_set() == old(self).binding_set().insert(b@),
            final(self).exchange_set() == old(self).exchange_set(),
            final(self).queue_set() == old(self).queue_set(),
    {
        let n = self.bindings.len();
        let mut i: usize = 0;
        let mut found = false;
        while i < n && !found
            invariant
                i <= n,
                n == self.bindings@.len(),
                !found ==> forall|k: int| 0 <= k < i ==> self.bindings@[k]@ != b@,
                found ==> binding_views(self.bindings@).contains(b@),
                self.exchanges == old(self).exchanges,
                self.queues == old(self).queues,
                self.bindings == old(self).bindings,
            decreases n - i, (if found { 0int } else { 1int }),
        {
            let cur = &self.bindings[i];
            if cur.queue == b.queue && cur.exchange == b.exchange && cur.routing_key
                == b.routing_key {
                proof {
                    assert(binding_views(self.bindings@)[i as int] == b@);
                }
                found = true;
            } else {
                i = i + 1;
            }
        }
        if found {
            proof {
                broadcast use vstd::set::group_set_axioms;
                assert(binding_views(self.bindings@).to_set().contains(b@));
                assert(self.binding_set() =~~= old(self).binding_set().insert(b@));
            }
        } else {
            let copy = BindingDecl {
                queue: self_clone_str(&b.queue),
                exchange: self_clone_str(&b.exchange),
                routing_key: self_clone_str(&b.routing_key),
            };
            self.bindings.push(copy);
            proof {
                broadcast use vstd::set::group_set_axioms;
                assert(binding_views(self.bindings@) =~= binding_views(old(self).bindings@)
                    + seq![b@]);
                Seq::<BindingV>::lemma_to_set_insert_commutes(
                    binding_views(old(self).bindings@),
                    b@,
                );
            }
        }
    }

    /// Applies one declaration: the corresponding set grows by the declared
    /// item; the other two are untouched.
    pub fn apply(&mut self, op: &TopologyOp)
        ensures
            final(self).exchange_set() == match op {
                TopologyOp::DeclareExchange(e) => old(self).exchange_set().insert(e@),
                _ => old(self).exchange_set(),
            },
            final(self).queue_set() == match op {
                TopologyOp::DeclareQueue(q) => old(self).queue_set().insert(q@),
                _ => old(self).queue_set(),
            },
            final(self).binding_set() == match op {
                TopologyOp::Bind(b) => old(self).binding_set().insert(b@),
                _ => old(self).binding_set(),
            },
    {
        match op {
            TopologyOp::DeclareExchange(e) => self.declare_exchange(e),
            TopologyOp::DeclareQueue(q) => self.declare_queue(q),
            TopologyOp::Bind(b) => self.bind(b),
        }
    }

    /// Applies a whole operation sequence, in order.
    pub fn apply_all(&mut self, ops: &Vec<TopologyOp>)
        ensures
            (final(self).exchange_set(), final(self).queue_set(), final(self).binding_set())
                == topology_after(
                old(self).exchange_set(),
                old(self).queue_set(),
                old(self).binding_set(),
                op_views(ops@),
            ),
    {
        let ghost opvs = op_views(ops@);
        let n = ops.len();
        let mut i: usize = 0;
        while i < n
            invariant
                i <= n,
                n == ops@.len(),
                opvs == op_views(ops@),
                self.exchange_set() == old(self).exchange_set().union(
                    exchanges_of(opvs.take(i as int)),
                ),
                self.queue_set() == old(self).queue_set().union(queues_of(opvs.take(i as int))),
                self.binding_set() == old(self).binding_set().union(
                    bindings_of(opvs.take(i as int)),
                ),
            decreases n - i,
        {
            self.apply(&ops[i]);
            proof {
                broadcast use vstd::set::group_set_axioms;
                assert(opvs.take(i + 1 as int).drop_last() =~= opvs.take(i as int));
                assert(opvs.take(i + 1 as int).last() == ops@[i as int]@);
                assert(self.exchange_set() =~= old(self).exchange_set().union(
                    exchanges_of(opvs.take(i + 1 as int)),
                ));
                assert(self.queue_set() =~= old(self).queue_set().union(
                    queues_of(opvs.take(i + 1 as int)),
                ));
                assert(self.binding_set() =~= old(self).binding_set().union(
                    bindings_of(opvs.take(i + 1 as int)),
                ));
            }
            i = i + 1;
        }
        assert(opvs.take(n as int) =~= opvs);
    }
}

/// The topology after applying `ops` on top of a starting state.
pub open spec fn topology_after(
    e0: Set<ExchangeV>,
    q0: Set<QueueV>,
    b0: Set<BindingV>,
    ops: Seq<TopologyOpV>,
) -> (Set<ExchangeV>, Set<QueueV>, Set<BindingV>) {
    (e0.union(exchanges_of(ops)), q0.union(queues_of(ops)), b0.union(bindings_of(ops)))
}

/// Declaring is idempotent at the broker: applying the same operation
/// sequence a second time leaves the topology exactly as one application
/// left it.
pub proof fn lemma_apply_twice_is_once(
    e0: Set<ExchangeV>,
    q0: Set<QueueV>,
    b0: Set<BindingV>,
    ops: Seq<TopologyOpV>,
)
    ensures
        ({
            let once = topology_after(e0, q0, b0, ops);
            topology_after(once.0, once.1, once.2, ops) == once
        }),
{
    broadcast use vstd::set::group_set_axioms;
    let once = topology_after(e0, q0, b0, ops);
    assert(once.0.union(exchanges_of(ops)) =~= once.0);
    assert(once.1.union(queues_of(ops)) =~= once.1);
    assert(once.2.union(bindings_of(ops)) =~= once.2);
}

/// The publisher's initialization is idempotent: two consecutive runs of the
/// plan leave the same broker topology as one.
pub proof fn lemma_init_idempotent(e0: Set<ExchangeV>, q0: Set<QueueV>, b0: Set<BindingV>)
    ensures
        ({
            let once = topology_after(e0, q0, b0, init_ops_plan());
            topology_after(once.0, once.1, once.2, init_ops_plan()) == once
        }),
{
    lemma_apply_twice_is_once(e0, q0, b0, init_ops_plan());
}

/// A field-wise string copy with its contents pinned.
fn self_clone_str(s: &String) -> (r: String)
    ensures
        r@ == s@,
{
    String::from_str(s.as_str())
}

} // verus!
