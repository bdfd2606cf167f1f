//! Parameter addressing and the live mirror of console parameter values.

use vstd::prelude::*;
use crate::channel::{ChannelId, ConsoleConfig};

verus! {

/// One parameter within a channel strip.
#[derive(Clone, Copy, Debug, PartialEq, Eq, Hash, Structural)]
pub enum ParameterPath {
    Name,
    Fader,
    Mute,
    Pan,
    AnalogGain,
    DigitalTrim,
    /// Console-derived, read-only monitor value (post-fader + control-group
    /// sum). It cannot be written back to the desk.
    TotalGain,
    EqEnabled,
    EqBandFrequency(u8),
    EqBandGain(u8),
    EqBandQ(u8),
}

/// A fully-qualified parameter: which channel, which parameter.
#[derive(Clone, Copy, Debug, PartialEq, Eq, Hash, Structural)]
pub struct ParameterAddress {
    pub channel: ChannelId,
    pub parameter: ParameterPath,
}

/// A parameter value. Floating-point values are carried as their IEEE-754
/// single-precision bit pattern.
#[derive(Debug)]
pub enum ParameterValue {
    Float(u32),
    Int(i32),
    Bool(bool),
    String(String),
}

/// The parameter value a lookup in `entries` finds for `addr`: the value of
/// the first entry with that address.
pub open spec fn lookup(entries: Seq<(ParameterAddress, ParameterValue)>, addr: ParameterAddress) -> Option<ParameterValue>
    decreases entries.len(),
{
    if entries.len() == 0 {
        None
    } else if entries[0].0 == addr {
        Some(entries[0].1)
    } else {
        lookup(entries.drop_first(), addr)
    }
}

/// Mirror of every parameter value received from (or sent to) the console,
/// plus the console's layout.
pub struct ConsoleState {
    config: ConsoleConfig,
    entries: Vec<(ParameterAddress, ParameterValue)>,
}

proof fn lemma_lookup_index(entries: Seq<(ParameterAddress, ParameterValue)>, addr: ParameterAddress, k: int)
    requires
        0 <= k <= entries.len(),
        forall|j: int| 0 <= j < k ==> (#[trigger] entries[j]).0 != addr,
    ensures
        lookup(entries, addr) == lookup(entries.subrange(k, entries.len() as int), addr),
    decreases k,
{
    if k > 0 {
        assert(entries.drop_first() =~= entries.subrange(1, entries.len() as int));
        lemma_lookup_index(entries.drop_first(), addr, k - 1);
        assert(entries.drop_first().subrange(k - 1, entries.drop_first().len() as int)
            =~= entries.subrange(k, entries.len() as int));
    } else {
        assert(entries.subrange(0, entries.len() as int) =~= entries);
    }
}

proof fn lemma_lookup_push(entries: Seq<(ParameterAddress, ParameterValue)>, e: (ParameterAddress, ParameterValue), addr: ParameterAddress)
    ensures
        lookup(entries.push(e), addr) == (if lookup(entries, addr) is Some {
            lookup(entries, addr)
        } else if e.0 == addr {
            Some(e.1)
        } else {
            None
        }),
    decreases entries.len(),
{
    let p = entries.push(e);
    if entries.len() > 0 {
        assert(p[0] == entries[0]);
        assert(p.drop_first() =~= entries.drop_first().push(e));
        lemma_lookup_push(entries.drop_first(), e, addr);
    } else {
        assert(p[0] == e);
        assert(p.drop_first() =~= Seq::<(ParameterAddress, ParameterValue)>::empty());
        assert(lookup(p.drop_first(), addr) is None);
        assert(lookup(entries, addr) is None);
    }
}

proof fn lemma_lookup_update(entries: Seq<(ParameterAddress, ParameterValue)>, k: int, v: ParameterValue, addr: ParameterAddress)
    requires
        0 <= k < entries.len(),
        forall|j: int| 0 <= j < k ==> (#[trigger] entries[j]).0 != entries[k].0,
    ensures
        lookup(entries.update(k, (entries[k].0, v)), addr) == (if addr == entries[k].0 {
            Some(v)
        } else {
            lookup(entries, addr)
        }),
    decreases k,
{
    let u = entries.update(k, (entries[k].0, v));
    if k > 0 {
        assert(u[0] == entries[0]);
        assert(entries[0].0 != entries[k].0);
        let d = entries.drop_first();
        assert(d[k - 1] == entries[k]);
        assert forall|j: int| 0 <= j < k - 1 implies (#[trigger] d[j]).0 != d[k - 1].0 by {
            assert(d[j] == entries[j + 1]);
        }
        assert(u.drop_first() =~= d.update(k - 1, (entries[k].0, v)));
        lemma_lookup_update(d, k - 1, v, addr);
    } else {
        assert(u[0] == (entries[0].0, v));
        assert(u.drop_first() =~= entries.drop_first());
    }
}

impl ConsoleState {
    /// A fresh mirror for `config` holding no parameter values.
    pub fn new(config: ConsoleConfig) -> (s: ConsoleState)
        ensures
            s.spec_config() == config,
            forall|a: ParameterAddress| #[trigger] s.spec_get(a) is None,
            s.spec_count() == 0,
    {
        ConsoleState { config, entries: Vec::new() }
    }

    pub closed spec fn spec_config(&self) -> ConsoleConfig {
        self.config
    }

    /// The value currently held for `addr`, if any.
    pub closed spec fn spec_get(&self, addr: ParameterAddress) -> Option<ParameterValue> {
        lookup(self.entries@, addr)
    }

    /// How many distinct parameters hold a value.
    pub closed spec fn spec_count(&self) -> nat {
        self.entries@.len()
    }

    pub fn config(&self) -> (c: &ConsoleConfig)
        ensures
            *c == self.spec_config(),
    {
        &self.config
    }

    /// Number of parameters in the mirror.
    pub fn parameter_count(&self) -> (n: usize)
        ensures
            n == self.spec_count(),
    {
        self.entries.len()
    }

    /// Look up the value held for `addr`.
    pub fn get(&self, addr: &ParameterAddress) -> (r: Option<&ParameterValue>)
        ensures
            match r {
                Some(v) => self.spec_get(*addr) == Some(*v),
                None => self.spec_get(*addr) is None,
            },
    {
        let mut k: usize = 0;
        while k < self.entries.len()
            invariant
                k <= self.entries.len(),
                forall|j: int| 0 <= j < k ==> (#[trigger] self.entries@[j]).0 != *addr,
            decreases self.entries.len() - k,
        {
            if self.entries[k].0 == *addr {
                proof {
                    lemma_lookup_index(self.entries@, *addr, k as int);
                }
                return Some(&self.entries[k].1);
            }
            k = k + 1;
        }
        proof {
            lemma_lookup_index(self.entries@, *addr, k as int);
        }
        None
    }

    /// Record `value` for `addr`, replacing any earlier value.
    pub fn set(&mut self, addr: ParameterAddress, value: ParameterValue)
        ensures
            final(self).spec_get(addr) == Some(value),
            forall|a: ParameterAddress| a != addr ==> #[trigger] final(self).spec_get(a) == old(self).spec_get(a),
            final(self).spec_config() == old(self).spec_config(),
    {
        let mut k: usize = 0;
        while k < self.entries.len()
            invariant
                k <= self.entries.len(),
                self.entries@ == old(self).entries@,
                self.config == old(self).config,
                forall|j: int| 0 <= j < k ==> (#[trigger] self.entries@[j]).0 != addr,
            decreases self.entries.len() - k,
        {
            if self.entries[k].0 == addr {
                proof {
                    assert forall|a: ParameterAddress| true implies lookup(self.entries@.update(k as int, (addr, value)), a)
                        == (if a == addr { Some(value) } else { lookup(self.entries@, a) }) by {
                        lemma_lookup_update(self.entries@, k as int, value, a);
                    }
                }
                self.entries.set(k, (addr, value));
                return;
            }
            k = k + 1;
        }
        proof {
            assert forall|a: ParameterAddress| true implies lookup(self.entries@.push((addr, value)), a)
                == (if a == addr { Some(value) } else { lookup(self.entries@, a) }) by {
                lemma_lookup_push(self.entries@, (addr, value), a);
                if a == addr {
                    lemma_lookup_index(self.entries@, a, k as int);
                }
            }
        }
        self.entries.push((addr, value));
    }
}

} // verus!
