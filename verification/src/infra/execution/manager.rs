use vstd::prelude::*;
use crate::common::text::str_eq;
use crate::common::types::{is_operation_error, operation_error, Error};
use crate::domain::events::OrderStatus;

verus! {

/// The map a list of tracked orders stands for.
pub open spec fn orders_map<V>(s: Seq<(String, V)>) -> Map<Seq<char>, V>
    decreases s.len(),
{
    if s.len() == 0 {
        Map::empty()
    } else {
        orders_map(s.drop_last()).insert(s.last().0@, s.last().1)
    }
}

/// No order id occurs twice.
pub open spec fn ids_distinct<V>(s: Seq<(String, V)>) -> bool {
    forall|i: int, j: int| 0 <= i < j < s.len() ==> s[i].0@ != s[j].0@
}

proof fn lemma_orders_dom<V>(s: Seq<(String, V)>, k: Seq<char>)
    ensures
        orders_map(s).dom().contains(k) <==> exists|i: int| 0 <= i < s.len() && s[i].0@ == k,
    decreases s.len(),
{
    if s.len() > 0 {
        lemma_orders_dom(s.drop_last(), k);
        if orders_map(s).dom().contains(k) && k != s.last().0@ {
            let i = choose|i: int| 0 <= i < s.len() - 1 && s.drop_last()[i].0@ == k;
            assert(s[i].0@ == k);
        }
        if exists|i: int| 0 <= i < s.len() && s[i].0@ == k {
            let i = choose|i: int| 0 <= i < s.len() && s[i].0@ == k;
            if i < s.len() - 1 {
                assert(s.drop_last()[i].0@ == k);
            }
        }
    }
}

proof fn lemma_orders_value<V>(s: Seq<(String, V)>, i: int)
    requires
        ids_distinct(s),
        0 <= i < s.len(),
    ensures
        orders_map(s).dom().contains(s[i].0@),
        orders_map(s)[s[i].0@] == s[i].1,
    decreases s.len(),
{
    lemma_orders_dom(s, s[i].0@);
    if i < s.len() - 1 {
        assert(s.drop_last()[i] == s[i]);
        lemma_orders_value(s.drop_last(), i);
    }
}

proof fn lemma_orders_len<V>(s: Seq<(String, V)>)
    requires
        ids_distinct(s),
    ensures
        orders_map(s).dom().finite(),
        orders_map(s).len() == s.len(),
    decreases s.len(),
{
    if s.len() > 0 {
        lemma_orders_len(s.drop_last());
        lemma_orders_dom(s.drop_last(), s.last().0@);
        if orders_map(s.drop_last()).dom().contains(s.last().0@) {
            let i = choose|i: int| 0 <= i < s.len() - 1 && s.drop_last()[i].0@ == s.last().0@;
            assert(s[i].0@ == s[s.len() - 1].0@);
        }
    }
}

/// The orders that wait for their end, by order id.
#[derive(Debug)]
pub struct ActiveOrders<V> {
    entries: Vec<(String, V)>,
}

impl<V> View for ActiveOrders<V> {
    type V = Map<Seq<char>, V>;

    closed spec fn view(&self) -> Map<Seq<char>, V> {
        orders_map(self.entries@)
    }
}

impl<V> ActiveOrders<V> {
    #[verifier::type_invariant]
    closed spec fn inv(self) -> bool {
        ids_distinct(self.entries@)
    }

    /// No active order.
    pub fn new() -> (r: Self)
        ensures
            r@ == Map::<Seq<char>, V>::empty(),
    {
        ActiveOrders { entries: Vec::new() }
    }

    /// Number of active orders.
    pub fn len(&self) -> (r: usize)
        ensures
            r == self@.len(),
            self@.dom().finite(),
    {
        proof {
            use_type_invariant(self);
            lemma_orders_len(self.entries@);
        }
        self.entries.len()
    }

    /// Whether an order is active.
    #[verifier::loop_isolation(false)]
    pub fn contains(&self, id: &str) -> (r: bool)
        ensures
            r == self@.dom().contains(id@),
    {
        proof {
            lemma_orders_dom(self.entries@, id@);
        }
        let mut i: usize = 0;
        while i < self.entries.len()
            invariant
                i <= self.entries@.len(),
                forall|j: int| 0 <= j < i ==> self.entries@[j].0@ != id@,
            decreases self.entries@.len() - i,
        {
            if str_eq(self.entries[i].0.as_str(), id) {
                return true;
            }
            i = i + 1;
        }
        false
    }

    /// Tracks an order under an id, replacing an order tracked under it.
    pub fn insert(&mut self, id: String, order: V)
        ensures
            final(self)@ == old(self)@.insert(id@, order),
    {
        proof {
            use_type_invariant(&*self);
        }
        self.remove(id.as_str());
        proof {
            use_type_invariant(&*self);
        }
        let mut entries: Vec<(String, V)> = Vec::new();
        std::mem::swap(&mut entries, &mut self.entries);
        let ghost s = entries@;
        proof {
            lemma_orders_dom(s, id@);
        }
        entries.push((id, order));
        proof {
            assert(entries@.drop_last() =~= s);
            assert(ids_distinct(entries@)) by {
                assert forall|a: int, b: int| 0 <= a < b < entries@.len() implies entries@[a].0@
                    != entries@[b].0@ by {
                    if b < s.len() {
                        assert(s[a].0@ != s[b].0@);
                    } else {
                        assert(entries@[a] == s[a]);
                    }
                }
            }
        }
        self.entries = entries;
    }

    /// Stops tracking an order; nothing changes if it is not tracked.
    #[verifier::loop_isolation(false)]
    pub fn remove(&mut self, id: &str)
        ensures
            final(self)@ == old(self)@.remove(id@),
    {
        proof {
            use_type_invariant(&*self);
        }
        let mut entries: Vec<(String, V)> = Vec::new();
        std::mem::swap(&mut entries, &mut self.entries);
        let ghost s = entries@;
        proof {
            lemma_orders_dom(s, id@);
        }
        let mut i: usize = 0;
        while i < entries.len()
            invariant
                entries@ == s,
                i <= s.len(),
                forall|j: int| 0 <= j < i ==> s[j].0@ != id@,
            decreases s.len() - i,
        {
            if str_eq(entries[i].0.as_str(), id) {
                let _gone = entries.remove(i);
                proof {
                    let t = s.remove(i as int);
                    assert(ids_distinct(t)) by {
                        assert forall|a: int, b: int| 0 <= a < b < t.len() implies t[a].0@ != t[b].0@ by {
                            let a2 = if a < i { a } else { a + 1 };
                            let b2 = if b < i { b } else { b + 1 };
                            assert(t[a] == s[a2] && t[b] == s[b2]);
                        }
                    }
                    let m = orders_map(s).remove(id@);
                    assert forall|k: Seq<char>| m.dom().contains(k) <==> orders_map(t).dom().contains(k) by {
                        lemma_orders_dom(s, k);
                        lemma_orders_dom(t, k);
                        if exists|j: int| 0 <= j < s.len() && s[j].0@ == k {
                            let j = choose|j: int| 0 <= j < s.len() && s[j].0@ == k;
                            if k != id@ {
                                if j < i {
                                    assert(t[j] == s[j]);
                                } else {
                                    assert(j != i);
                                    assert(t[j - 1] == s[j]);
                                }
                            }
                        }
                        if exists|j: int| 0 <= j < t.len() && t[j].0@ == k {
                            let j = choose|j: int| 0 <= j < t.len() && t[j].0@ == k;
                            let j2 = if j < i { j } else { j + 1 };
                            assert(t[j] == s[j2]);
                            assert(s[j2].0@ != s[i as int].0@ || j2 == i);
                        }
                    }
                    assert forall|k: Seq<char>| m.dom().contains(k) implies m[k] == orders_map(t)[k] by {
                        lemma_orders_dom(t, k);
                        let j = choose|j: int| 0 <= j < t.len() && t[j].0@ == k;
                        let j2 = if j < i { j } else { j + 1 };
                        assert(t[j] == s[j2]);
                        lemma_orders_value(t, j);
                        lemma_orders_value(s, j2);
                    }
                    assert(m =~= orders_map(t));
                }
                self.entries = entries;
                return;
            }
            i = i + 1;
        }
        proof {
            assert(orders_map(s).remove(id@) =~= orders_map(s));
        }
        self.entries = entries;
    }
}

/// What the execution manager holds: whether it runs and its active
/// orders by id.
pub ghost struct ExecutionView<V> {
    pub running: bool,
    pub active_orders: Map<Seq<char>, V>,
}

/// The manager after it tracks `order` under `id`.
pub open spec fn after_track<V>(v: ExecutionView<V>, id: Seq<char>, order: V) -> ExecutionView<V> {
    ExecutionView { active_orders: v.active_orders.insert(id, order), ..v }
}

/// The manager after it stops tracking `id`.
pub open spec fn after_forget<V>(v: ExecutionView<V>, id: Seq<char>) -> ExecutionView<V> {
    ExecutionView { active_orders: v.active_orders.remove(id), ..v }
}

/// The manager after the broker reports on the order `id`; a report with
/// an empty id names no order.
pub open spec fn after_report<V>(v: ExecutionView<V>, id: Seq<char>) -> ExecutionView<V> {
    if id.len() > 0 {
        after_forget(v, id)
    } else {
        v
    }
}

/// The manager after the order `id` takes `status`: a filled or cancelled
/// order is no longer active.
pub open spec fn after_status<V>(v: ExecutionView<V>, id: Seq<char>, status: OrderStatus) -> ExecutionView<V> {
    if status.ends_order() {
        after_forget(v, id)
    } else {
        v
    }
}

/// The decisions of order execution: whether the manager runs, and which
/// orders are active. The orders themselves are of any type `V`.
pub struct ExecutionManager<V> {
    active_orders: ActiveOrders<V>,
    is_running: bool,
}

impl<V> View for ExecutionManager<V> {
    type V = ExecutionView<V>;

    closed spec fn view(&self) -> ExecutionView<V> {
        ExecutionView { running: self.is_running, active_orders: self.active_orders@ }
    }
}

impl<V> ExecutionManager<V> {
    /// A stopped manager with no active order.
    pub fn new() -> (r: Self)
        ensures
            !r@.running,
            r@.active_orders == Map::<Seq<char>, V>::empty(),
    {
        ExecutionManager { active_orders: ActiveOrders::new(), is_running: false }
    }

    /// Whether the manager runs.
    pub fn is_running(&self) -> (r: bool)
        ensures
            r == self@.running,
    {
        self.is_running
    }

    /// Trade signals are handled only while the manager runs.
    pub fn check_running(&self) -> (r: Result<(), Error>)
        ensures
            r is Ok <==> self@.running,
            r matches Err(e) ==> is_operation_error(e, "Execution manager not running"@),
    {
        if !self.is_running {
            return Err(operation_error("Execution manager not running"));
        }
        Ok(())
    }

    /// Orders go through a broker only when there is one.
    pub fn check_broker(broker_available: bool) -> (r: Result<(), Error>)
        ensures
            r is Ok <==> broker_available,
            r matches Err(e) ==> is_operation_error(e, "Broker not available"@),
    {
        if !broker_available {
            return Err(operation_error("Broker not available"));
        }
        Ok(())
    }

    /// Whether the manager may start: it must be stopped and have a broker.
    pub fn check_start(&self, broker_available: bool) -> (r: Result<(), Error>)
        ensures
            r is Ok <==> !self@.running && broker_available,
            self@.running ==> (r matches Err(e) && is_operation_error(
                e,
                "Execution manager already running"@,
            )),
            !self@.running && !broker_available ==> (r matches Err(e) && is_operation_error(
                e,
                "Broker not available"@,
            )),
    {
        if self.is_running {
            return Err(operation_error("Execution manager already running"));
        }
        Self::check_broker(broker_available)
    }

    /// Records that the broker started: the manager runs.
    pub fn mark_started(&mut self)
        ensures
            final(self)@ == (ExecutionView { running: true, ..old(self)@ }),
    {
        self.is_running = true;
    }

    /// Records that the broker stopped: the manager no longer runs; the
    /// active orders stay.
    pub fn mark_stopped(&mut self)
        ensures
            final(self)@ == (ExecutionView { running: false, ..old(self)@ }),
    {
        self.is_running = false;
    }

    /// Tracks a new order under its id.
    pub fn track_order(&mut self, order_id: String, order: V)
        ensures
            final(self)@ == after_track(old(self)@, order_id@, order),
    {
        self.active_orders.insert(order_id, order);
    }

    /// Stops tracking an order, as when the broker refused it.
    pub fn forget_order(&mut self, order_id: &str)
        ensures
            final(self)@ == after_forget(old(self)@, order_id@),
    {
        self.active_orders.remove(order_id);
    }

    /// A status report from the broker: the order it names, if it names
    /// one, is no longer active.
    pub fn on_order_status(&mut self, order_id: &str)
        ensures
            final(self)@ == after_report(old(self)@, order_id@),
    {
        if order_id.unicode_len() > 0 {
            self.active_orders.remove(order_id);
        }
    }

    /// Updates order status: a filled or cancelled order is no longer active.
    pub fn update_order_status(&mut self, order_id: &str, status: OrderStatus)
        ensures
            final(self)@ == after_status(old(self)@, order_id@, status),
    {
        if status.is_final() {
            self.active_orders.remove(order_id);
        }
    }

    /// Gets the count of active orders
    pub fn get_active_orders_count(&self) -> (r: usize)
        ensures
            r == self@.active_orders.len(),
            self@.active_orders.dom().finite(),
    {
        self.active_orders.len()
    }

    /// Whether an order is active.
    pub fn is_active(&self, order_id: &str) -> (r: bool)
        ensures
            r == self@.active_orders.dom().contains(order_id@),
    {
        self.active_orders.contains(order_id)
    }
}


/// An order stays active from its tracking until a report names it; then
/// it is no longer active, and the other orders and the running flag stay
/// as they were. Tracking a new order adds one to the count, and the report
/// takes it back.
pub proof fn law_order_lifecycle<V>(v: ExecutionView<V>, id: Seq<char>, order: V, other: Seq<char>)
    requires
        id.len() > 0,
        other != id,
        v.active_orders.dom().finite(),
    ensures
        after_track(v, id, order).active_orders.dom().contains(id),
        after_track(v, id, order).active_orders[id] == order,
        after_track(v, id, order).running == v.running,
        !after_report(after_track(v, id, order), id).active_orders.dom().contains(id),
        after_report(after_track(v, id, order), id).running == v.running,
        after_report(after_track(v, id, order), id).active_orders.dom().contains(other)
            == v.active_orders.dom().contains(other),
        after_report(after_track(v, id, order), id).active_orders.dom().contains(other) ==> after_report(
            after_track(v, id, order),
            id,
        ).active_orders[other] == v.active_orders[other],
        !v.active_orders.dom().contains(id) ==> after_track(v, id, order).active_orders.len()
            == v.active_orders.len() + 1,
        !v.active_orders.dom().contains(id) ==> after_report(
            after_track(v, id, order),
            id,
        ).active_orders == v.active_orders,
{
    if !v.active_orders.dom().contains(id) {
        assert(v.active_orders.insert(id, order).remove(id) =~= v.active_orders);
    }
}

/// A report that names no order changes nothing, and a status that does
/// not end an order changes nothing.
pub proof fn law_reports_without_effect<V>(v: ExecutionView<V>, id: Seq<char>, status: OrderStatus)
    requires
        !status.ends_order(),
    ensures
        after_report(v, Seq::empty()) == v,
        after_status(v, id, status) == v,
{
}

} // verus!
