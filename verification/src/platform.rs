use vstd::prelude::*;
use crate::common::constants::{AUDIT_TOPIC, LOG_TOPIC, METRICS_TOPIC};
use crate::common::enums::{BrokerName, ExchangeName, StrategyName};
use crate::common::named::Named;
use crate::common::text::owned;
use crate::common::types::Error;
use crate::config::{BrokerConfig, ComponentsConfig, ExchangeConfig, StrategyConfig, SubscriberConfig};

verus! {

/// The exchanges that have a data adapter.
pub open spec fn exchange_supported(name: ExchangeName) -> bool {
    name == ExchangeName::Kraken || name == ExchangeName::Coinbase
}

/// The strategies that have an implementation.
pub open spec fn strategy_supported(name: StrategyName) -> bool {
    name == StrategyName::Arbitrage || name == StrategyName::MeanReversion
}

/// The brokers that have an adapter.
pub open spec fn broker_supported(name: BrokerName) -> bool {
    name == BrokerName::InteractiveBrokers
}

/// `picked` lists, in increasing order, exactly the positions `i` below
/// `n` for which `keep(i)` holds.
pub open spec fn picks(picked: Seq<usize>, n: int, keep: spec_fn(int) -> bool) -> bool {
    &&& forall|j: int| 0 <= j < picked.len() ==> 0 <= #[trigger] picked[j] < n && keep(picked[j] as int)
    &&& forall|j: int, k: int| 0 <= j < k < picked.len() ==> #[trigger] picked[j] < #[trigger] picked[k]
    &&& forall|i: int| 0 <= i < n && #[trigger] keep(i) ==> picked.contains(i as usize)
}

proof fn lemma_picks_step(picked: Seq<usize>, i: int, keep: spec_fn(int) -> bool)
    requires
        picks(picked, i, keep),
        0 <= i <= usize::MAX,
    ensures
        keep(i) ==> picks(picked.push(i as usize), i + 1, keep),
        !keep(i) ==> picks(picked, i + 1, keep),
{
    if keep(i) {
        let q = picked.push(i as usize);
        assert forall|j: int| 0 <= j < q.len() implies 0 <= #[trigger] q[j] < i + 1 && keep(q[j] as int) by {
            if j < picked.len() {
                assert(q[j] == picked[j]);
            }
        }
        assert forall|j: int, k: int| 0 <= j < k < q.len() implies #[trigger] q[j] < #[trigger] q[k] by {
            if k < picked.len() {
                assert(q[j] == picked[j] && q[k] == picked[k]);
            } else {
                assert(q[j] == picked[j]);
                assert(picked[j] < i);
            }
        }
        assert forall|x: int| 0 <= x < i + 1 && #[trigger] keep(x) implies q.contains(x as usize) by {
            if x < i {
                assert(picked.contains(x as usize));
                let k = choose|k: int| 0 <= k < picked.len() && picked[k] == x as usize;
                assert(q[k] == picked[k]);
            } else {
                assert(q[picked.len() as int] == i as usize);
            }
        }
    } else {
        assert forall|x: int| 0 <= x < i + 1 && #[trigger] keep(x) implies picked.contains(x as usize) by {
            if x == i {
                assert(false);
            }
        }
    }
}

/// The configured exchanges that get a data adapter, by position; an error
/// when there is none.
pub fn plan_data_adapters(exchanges: &Option<Named<ExchangeName, ExchangeConfig>>) -> (r: Result<
    Vec<usize>,
    Error,
>)
    ensures
        r matches Ok(v) ==> v@.len() > 0 && exchanges is Some && picks(
            v@,
            exchanges->Some_0@.len() as int,
            |i: int| exchange_supported(exchanges->Some_0@[i].0),
        ),
        r matches Err(e) ==> e matches Error::ConfigError(m) && m@ == "No data adapters configured"@,
        r is Err ==> forall|i: int|
            #![trigger exchanges->Some_0@[i]]
            exchanges is Some && 0 <= i < exchanges->Some_0@.len() ==> !exchange_supported(
                exchanges->Some_0@[i].0,
            ),
{
    let mut picked: Vec<usize> = Vec::new();
    if let Some(e) = exchanges {
        let e = e.as_vec();
        let mut i: usize = 0;
        while i < e.len()
            invariant
                i <= e@.len(),
                exchanges->Some_0@ == e@,
                exchanges is Some,
                picks(picked@, i as int, |k: int| exchange_supported(e@[k].0)),
            decreases e@.len() - i,
        {
            let name = e[i].0;
            proof {
                lemma_picks_step(picked@, i as int, |k: int| exchange_supported(e@[k].0));
            }
            if name == ExchangeName::Kraken || name == ExchangeName::Coinbase {
                picked.push(i);
            }
            i = i + 1;
        }
        if picked.len() > 0 {
            return Ok(picked);
        }
    }
    proof {
        if exchanges is Some {
            let n = exchanges->Some_0@.len() as int;
            assert forall|i: int| 0 <= i < n implies !exchange_supported(exchanges->Some_0@[i].0) by {
                let keep = |k: int| exchange_supported(exchanges->Some_0@[k].0);
                if keep(i) {
                    assert(picked@.contains(i as usize));
                }
            }
        }
    }
    Err(Error::ConfigError(owned("No data adapters configured")))
}

/// The configured strategies that get an implementation, by position; an
/// error when there is none.
pub fn plan_strategies(strategies: &Option<Named<StrategyName, StrategyConfig>>) -> (r: Result<
    Vec<usize>,
    Error,
>)
    ensures
        r matches Ok(v) ==> v@.len() > 0 && strategies is Some && picks(
            v@,
            strategies->Some_0@.len() as int,
            |i: int| strategy_supported(strategies->Some_0@[i].0),
        ),
        r matches Err(e) ==> e matches Error::ConfigError(m) && m@ == "No strategies configured"@,
        r is Err ==> forall|i: int|
            #![trigger strategies->Some_0@[i]]
            strategies is Some && 0 <= i < strategies->Some_0@.len() ==> !strategy_supported(
                strategies->Some_0@[i].0,
            ),
{
    let mut picked: Vec<usize> = Vec::new();
    if let Some(s) = strategies {
        let s = s.as_vec();
        let mut i: usize = 0;
        while i < s.len()
            invariant
                i <= s@.len(),
                strategies->Some_0@ == s@,
                strategies is Some,
                picks(picked@, i as int, |k: int| strategy_supported(s@[k].0)),
            decreases s@.len() - i,
        {
            let name = s[i].0;
            proof {
                lemma_picks_step(picked@, i as int, |k: int| strategy_supported(s@[k].0));
            }
            if name == StrategyName::Arbitrage || name == StrategyName::MeanReversion {
                picked.push(i);
            }
            i = i + 1;
        }
        if picked.len() > 0 {
            return Ok(picked);
        }
    }
    proof {
        if strategies is Some {
            let n = strategies->Some_0@.len() as int;
            assert forall|i: int| 0 <= i < n implies !strategy_supported(strategies->Some_0@[i].0) by {
                let keep = |k: int| strategy_supported(strategies->Some_0@[k].0);
                if keep(i) {
                    assert(picked@.contains(i as usize));
                }
            }
        }
    }
    Err(Error::ConfigError(owned("No strategies configured")))
}

/// The configured brokers that get an adapter, by position; an error when
/// there is none.
pub fn plan_broker_adapters(brokers: &Option<Named<BrokerName, BrokerConfig>>) -> (r: Result<
    Vec<usize>,
    Error,
>)
    ensures
        r matches Ok(v) ==> v@.len() > 0 && brokers is Some && picks(
            v@,
            brokers->Some_0@.len() as int,
            |i: int| broker_supported(brokers->Some_0@[i].0),
        ),
        r matches Err(e) ==> e matches Error::ConfigError(m) && m@ == "No broker adapters configured"@,
        r is Err ==> forall|i: int|
            #![trigger brokers->Some_0@[i]]
            brokers is Some && 0 <= i < brokers->Some_0@.len() ==> !broker_supported(
                brokers->Some_0@[i].0,
            ),
{
    let mut picked: Vec<usize> = Vec::new();
    if let Some(b) = brokers {
        let b = b.as_vec();
        let mut i: usize = 0;
        while i < b.len()
            invariant
                i <= b@.len(),
                brokers->Some_0@ == b@,
                brokers is Some,
                picks(picked@, i as int, |k: int| broker_supported(b@[k].0)),
            decreases b@.len() - i,
        {
            proof {
                lemma_picks_step(picked@, i as int, |k: int| broker_supported(b@[k].0));
            }
            if b[i].0 == BrokerName::InteractiveBrokers {
                picked.push(i);
            }
            i = i + 1;
        }
        if picked.len() > 0 {
            return Ok(picked);
        }
    }
    proof {
        if brokers is Some {
            let n = brokers->Some_0@.len() as int;
            assert forall|i: int| 0 <= i < n implies !broker_supported(brokers->Some_0@[i].0) by {
                let keep = |k: int| broker_supported(brokers->Some_0@[k].0);
                if keep(i) {
                    assert(picked@.contains(i as usize));
                }
            }
        }
    }
    Err(Error::ConfigError(owned("No broker adapters configured")))
}

/// The subscribers the platform can start.
#[derive(Debug, Clone, Copy, PartialEq, Eq, Structural)]
pub enum SubscriberKind {
    Console,
    Logger,
    Metrics,
    Audit,
}

impl SubscriberKind {
    /// The topic the subscriber's events are published on.
    pub open spec fn sink(self) -> Seq<char> {
        match self {
            SubscriberKind::Console => LOG_TOPIC@,
            SubscriberKind::Logger => LOG_TOPIC@,
            SubscriberKind::Metrics => METRICS_TOPIC@,
            SubscriberKind::Audit => AUDIT_TOPIC@,
        }
    }

    /// The topic the subscriber's events are published on.
    pub fn sink_topic(&self) -> (r: &'static str)
        ensures
            r@ == self.sink(),
    {
        match self {
            SubscriberKind::Console => LOG_TOPIC,
            SubscriberKind::Logger => LOG_TOPIC,
            SubscriberKind::Metrics => METRICS_TOPIC,
            SubscriberKind::Audit => AUDIT_TOPIC,
        }
    }

    /// The name the subscriber is reported under.
    pub fn label(&self) -> (r: &'static str)
        ensures
            r@ == (match self {
                SubscriberKind::Console => "UI"@,
                SubscriberKind::Logger => "Logger"@,
                SubscriberKind::Metrics => "Metrics"@,
                SubscriberKind::Audit => "Audit"@,
            }),
    {
        match self {
            SubscriberKind::Console => "UI",
            SubscriberKind::Logger => "Logger",
            SubscriberKind::Metrics => "Metrics",
            SubscriberKind::Audit => "Audit",
        }
    }
}

/// A subscriber configuration asks for a subscriber to run.
pub open spec fn wanted(c: Option<SubscriberConfig>) -> bool {
    c matches Some(s) && s.enabled
}

/// The subscribers to start, in the order console, logger, metrics, audit.
pub open spec fn subscriber_plan(c: ComponentsConfig) -> Seq<SubscriberKind> {
    let a: Seq<SubscriberKind> = if wanted(c.ui) { seq![SubscriberKind::Console] } else { seq![] };
    let b: Seq<SubscriberKind> = if wanted(c.logging) { seq![SubscriberKind::Logger] } else { seq![] };
    let m: Seq<SubscriberKind> = if wanted(c.metrics) { seq![SubscriberKind::Metrics] } else { seq![] };
    let d: Seq<SubscriberKind> = if wanted(c.audit) { seq![SubscriberKind::Audit] } else { seq![] };
    a + b + m + d
}

fn enabled(c: &Option<SubscriberConfig>) -> (r: bool)
    ensures
        r == wanted(*c),
{
    match c {
        Some(s) => s.enabled,
        None => false,
    }
}

/// The subscribers that the configuration enables.
pub fn plan_subscribers(components: &ComponentsConfig) -> (r: Vec<SubscriberKind>)
    ensures
        r@ == subscriber_plan(*components),
{
    let mut r: Vec<SubscriberKind> = Vec::new();
    if enabled(&components.ui) {
        r.push(SubscriberKind::Console);
    }
    if enabled(&components.logging) {
        r.push(SubscriberKind::Logger);
    }
    if enabled(&components.metrics) {
        r.push(SubscriberKind::Metrics);
    }
    if enabled(&components.audit) {
        r.push(SubscriberKind::Audit);
    }
    assert(r@ =~= subscriber_plan(*components));
    r
}


/// Each subscriber is in the plan exactly when its configuration is
/// present and enabled, and it is there once.
pub proof fn law_subscriber_plan_members(c: ComponentsConfig)
    ensures
        subscriber_plan(c).contains(SubscriberKind::Console) <==> (c.ui matches Some(s) && s.enabled),
        subscriber_plan(c).contains(SubscriberKind::Logger) <==> (c.logging matches Some(s) && s.enabled),
        subscriber_plan(c).contains(SubscriberKind::Metrics) <==> (c.metrics matches Some(s) && s.enabled),
        subscriber_plan(c).contains(SubscriberKind::Audit) <==> (c.audit matches Some(s) && s.enabled),
        forall|i: int, j: int|
            0 <= i < j < subscriber_plan(c).len() ==> subscriber_plan(c)[i] != subscriber_plan(c)[j],
{
    let p = subscriber_plan(c);
    let kinds = seq![SubscriberKind::Console, SubscriberKind::Logger, SubscriberKind::Metrics, SubscriberKind::Audit];
    let on = seq![
        c.ui matches Some(s) && s.enabled,
        c.logging matches Some(s) && s.enabled,
        c.metrics matches Some(s) && s.enabled,
        c.audit matches Some(s) && s.enabled,
    ];
    let ua: Seq<SubscriberKind> = if wanted(c.ui) { seq![SubscriberKind::Console] } else { seq![] };
    let lb: Seq<SubscriberKind> = if wanted(c.logging) { seq![SubscriberKind::Logger] } else { seq![] };
    let mm: Seq<SubscriberKind> = if wanted(c.metrics) { seq![SubscriberKind::Metrics] } else { seq![] };
    let ad: Seq<SubscriberKind> = if wanted(c.audit) { seq![SubscriberKind::Audit] } else { seq![] };
    assert(p == ua + lb + mm + ad);
    assert forall|k: int| 0 <= k < 4 implies (p.contains(#[trigger] kinds[k]) <==> on[k]) by {
        if on[k] {
            let q = if k == 0 { 0int } else if k == 1 { ua.len() as int } else if k == 2 { (ua.len() + lb.len()) as int } else { (ua.len() + lb.len() + mm.len()) as int };
            assert(p[q] == kinds[k]);
        }
        if p.contains(kinds[k]) {
            let q = choose|q: int| 0 <= q < p.len() && p[q] == kinds[k];
            assert((ua + lb + mm + ad)[q] == kinds[k]);
            if q < ua.len() {
                assert(p[q] == ua[q]);
            } else if q < ua.len() + lb.len() {
                assert(p[q] == lb[q - ua.len()]);
            } else if q < ua.len() + lb.len() + mm.len() {
                assert(p[q] == mm[q - ua.len() - lb.len()]);
            } else {
                assert(p[q] == ad[q - ua.len() - lb.len() - mm.len()]);
            }
        }
    }
    assert(kinds[0] == SubscriberKind::Console && kinds[1] == SubscriberKind::Logger);
    assert(kinds[2] == SubscriberKind::Metrics && kinds[3] == SubscriberKind::Audit);
    assert forall|i: int, j: int| 0 <= i < j < p.len() implies p[i] != p[j] by {
        let f = |x: int|
            if x < ua.len() {
                ua[x]
            } else if x < ua.len() + lb.len() {
                lb[x - ua.len()]
            } else if x < ua.len() + lb.len() + mm.len() {
                mm[x - ua.len() - lb.len()]
            } else {
                ad[x - ua.len() - lb.len() - mm.len()]
            };
        assert(p[i] == f(i));
        assert(p[j] == f(j));
    }
}

} // verus!
