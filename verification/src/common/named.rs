use vstd::prelude::*;
use crate::common::enums::{BrokerName, ExchangeName, StrategyName};
use crate::common::text::str_eq;

verus! {

/// A name under which a component is configured; two names are the same
/// name when their texts are equal.
pub trait ConfigName: Sized {
    /// The text of the name.
    spec fn name_text(&self) -> Seq<char>;

    /// Whether two names are the same name.
    fn same_name(&self, other: &Self) -> (r: bool)
        ensures
            r == (self.name_text() == other.name_text()),
    ;
}

impl ConfigName for ExchangeName {
    open spec fn name_text(&self) -> Seq<char> {
        self.display_text()
    }

    fn same_name(&self, other: &Self) -> (r: bool) {
        proof {
            reveal_strlit("Kraken");
            reveal_strlit("Coinbase");
            reveal_strlit("Binance");
            reveal_strlit("Bitfinex");
            reveal_strlit("FTX");
            assert(self.display_text().len() > 0 && other.display_text().len() > 0);
            if self.display_text() == other.display_text() {
                assert(self.display_text()[0] == other.display_text()[0]);
                assert(self.display_text().len() == other.display_text().len());
            }
        }
        *self == *other
    }
}

impl ConfigName for StrategyName {
    open spec fn name_text(&self) -> Seq<char> {
        self.display_text()
    }

    fn same_name(&self, other: &Self) -> (r: bool) {
        proof {
            reveal_strlit("Arbitrage");
            reveal_strlit("MeanReversion");
            reveal_strlit("Momentum");
            reveal_strlit("MarketMaking");
            reveal_strlit("StatisticalArbitrage");
            if self.display_text() == other.display_text() {
                assert(self.display_text().len() == other.display_text().len());
            }
        }
        *self == *other
    }
}

impl ConfigName for BrokerName {
    open spec fn name_text(&self) -> Seq<char> {
        self.display_text()
    }

    fn same_name(&self, other: &Self) -> (r: bool) {
        proof {
            reveal_strlit("InteractiveBrokers");
            reveal_strlit("AlpacaMarkets");
            reveal_strlit("TDAmeritrade");
            if self.display_text() == other.display_text() {
                assert(self.display_text()[0] == other.display_text()[0]);
                assert(self.display_text().len() == other.display_text().len());
            }
        }
        *self == *other
    }
}

impl ConfigName for String {
    open spec fn name_text(&self) -> Seq<char> {
        self@
    }

    fn same_name(&self, other: &Self) -> (r: bool) {
        str_eq(self.as_str(), other.as_str())
    }
}

/// No name occurs twice.
pub open spec fn names_distinct<K: ConfigName, V>(s: Seq<(K, V)>) -> bool {
    forall|i: int, j: int|
        0 <= i < j < s.len() ==> #[trigger] s[i].0.name_text() != #[trigger] s[j].0.name_text()
}

/// The position at which a name is configured, if it is.
pub open spec fn position_of<K: ConfigName, V>(s: Seq<(K, V)>, name: Seq<char>) -> Option<int> {
    if exists|i: int| 0 <= i < s.len() && #[trigger] s[i].0.name_text() == name {
        Some(choose|i: int| 0 <= i < s.len() && #[trigger] s[i].0.name_text() == name)
    } else {
        None
    }
}

/// The configurations after setting `name` to `config`: a configuration
/// under the same name is replaced where it stands; else the new one comes
/// last.
pub open spec fn with_entry<K: ConfigName, V>(s: Seq<(K, V)>, name: K, config: V) -> Seq<(K, V)> {
    match position_of(s, name.name_text()) {
        Some(i) => s.update(i, (name, config)),
        None => s.push((name, config)),
    }
}

/// Configurations by name, each name at most once, in the order in which
/// the names were first set.
#[derive(Debug)]
pub struct Named<K: ConfigName, V> {
    entries: Vec<(K, V)>,
}

impl<K: ConfigName, V> View for Named<K, V> {
    type V = Seq<(K, V)>;

    closed spec fn view(&self) -> Seq<(K, V)> {
        self.entries@
    }
}

impl<K: ConfigName, V> Named<K, V> {
    #[verifier::type_invariant]
    closed spec fn inv(self) -> bool {
        names_distinct(self.entries@)
    }

    /// No configuration.
    pub fn new() -> (r: Self)
        ensures
            r@ == Seq::<(K, V)>::empty(),
    {
        Named { entries: Vec::new() }
    }

    /// Number of configured names.
    pub fn len(&self) -> (r: usize)
        ensures
            r == self@.len(),
    {
        self.entries.len()
    }

    /// The configurations, in order; no name occurs twice.
    pub fn as_vec(&self) -> (r: &Vec<(K, V)>)
        ensures
            r@ == self@,
            names_distinct(self@),
    {
        proof {
            use_type_invariant(self);
        }
        &self.entries
    }

    /// The configurations, in order; no name occurs twice.
    pub fn into_vec(self) -> (r: Vec<(K, V)>)
        ensures
            r@ == self@,
            names_distinct(r@),
    {
        proof {
            use_type_invariant(&self);
        }
        self.entries
    }

    /// Sets the configuration of a name; gives back the configuration it
    /// replaces, if the name had one.
    pub fn insert(&mut self, name: K, config: V) -> (r: Option<V>)
        ensures
            final(self)@ == with_entry(old(self)@, name, config),
            match position_of(old(self)@, name.name_text()) {
                Some(i) => r == Some(old(self)@[i].1),
                None => r is None,
            },
    {
        proof {
            use_type_invariant(&*self);
        }
        let mut entries: Vec<(K, V)> = Vec::new();
        std::mem::swap(&mut entries, &mut self.entries);
        let ghost s = entries@;
        let ghost n = name.name_text();
        let mut i: usize = 0;
        while i < entries.len()
            invariant
                entries@ == s,
                s == old(self)@,
                names_distinct(s),
                i <= s.len(),
                n == name.name_text(),
                forall|j: int| 0 <= j < i ==> #[trigger] s[j].0.name_text() != n,
            decreases s.len() - i,
        {
            if entries[i].0.same_name(&name) {
                let (_, old) = entries.remove(i);
                entries.insert(i, (name, config));
                proof {
                    assert(s[i as int].0.name_text() == n);
                    let p = choose|k: int| 0 <= k < s.len() && #[trigger] s[k].0.name_text() == n;
                    assert(p == i);
                    assert(entries@ =~= s.update(i as int, (name, config)));
                    assert forall|a: int, b: int| 0 <= a < b < entries@.len() implies #[trigger] entries@[a].0.name_text()
                        != #[trigger] entries@[b].0.name_text() by {
                        assert(s[a].0.name_text() != s[b].0.name_text());
                    }
                }
                self.entries = entries;
                return Some(old);
            }
            i = i + 1;
        }
        entries.push((name, config));
        proof {
            assert(entries@ =~= s.push((name, config)));
            assert forall|a: int, b: int| 0 <= a < b < entries@.len() implies #[trigger] entries@[a].0.name_text()
                != #[trigger] entries@[b].0.name_text() by {
                if b < s.len() {
                    assert(s[a].0.name_text() != s[b].0.name_text());
                } else {
                    assert(entries@[a] == s[a]);
                }
            }
        }
        self.entries = entries;
        None
    }
}

} // verus!
