use vstd::prelude::*;

use super::collector::Collector;

verus! {

/// A registry entry as text: the name and its collector.
pub open spec fn entry_text(e: (String, Collector)) -> (Seq<char>, Collector) {
    (e.0@, e.1)
}

/// Whether some entry of `s` is registered under `name`.
pub open spec fn has_name(s: Seq<(Seq<char>, Collector)>, name: Seq<char>) -> bool {
    exists|i: int| 0 <= i < s.len() && (#[trigger] s[i]).0 == name
}

/// No two entries of `s` are registered under the same name.
pub open spec fn unique_names(s: Seq<(Seq<char>, Collector)>) -> bool {
    forall|i: int, j: int|
        0 <= i < s.len() && 0 <= j < s.len() && (#[trigger] s[i]).0 == (#[trigger] s[j]).0 ==> i == j
}

/// The position of the entry registered under `name` (meaningful when
/// `has_name(s, name)`).
pub open spec fn name_slot(s: Seq<(Seq<char>, Collector)>, name: Seq<char>) -> int {
    choose|i: int| 0 <= i < s.len() && (#[trigger] s[i]).0 == name
}

/// The collector registered under `name`, if any.
pub open spec fn lookup(s: Seq<(Seq<char>, Collector)>, name: Seq<char>) -> Option<Collector> {
    if has_name(s, name) {
        Some(s[name_slot(s, name)].1)
    } else {
        None
    }
}

/// The entries after registering `c` under `name`: a collector already
/// registered under that name is replaced in place, otherwise the new entry
/// is added at the end.
pub open spec fn after_register(s: Seq<(Seq<char>, Collector)>, name: Seq<char>, c: Collector) -> Seq<
    (Seq<char>, Collector),
> {
    if has_name(s, name) {
        s.update(name_slot(s, name), (name, c))
    } else {
        s.push((name, c))
    }
}

proof fn lemma_name_slot_unique(s: Seq<(Seq<char>, Collector)>, i: int)
    requires
        unique_names(s),
        0 <= i < s.len(),
    ensures
        has_name(s, s[i].0),
        name_slot(s, s[i].0) == i,
{
    assert(has_name(s, s[i].0));
    let j = name_slot(s, s[i].0);
    assert(s[j].0 == s[i].0);
}

/// Registering then looking up gives back what was registered; every other
/// name looks up as before; names stay unique, and the number of entries
/// grows by one exactly when the name was new.
pub proof fn law_register_then_lookup(s: Seq<(Seq<char>, Collector)>, name: Seq<char>, c: Collector)
    requires
        unique_names(s),
    ensures
        lookup(after_register(s, name, c), name) == Some(c),
        forall|other: Seq<char>|
            other != name ==> lookup(after_register(s, name, c), other) == lookup(s, other),
        unique_names(after_register(s, name, c)),
        after_register(s, name, c).len() == s.len() + (if has_name(s, name) { 0int } else { 1int }),
{
    let t = after_register(s, name, c);
    if has_name(s, name) {
        let k = name_slot(s, name);
        assert(t[k].0 == name);
        assert forall|i: int, j: int|
            0 <= i < t.len() && 0 <= j < t.len() && (#[trigger] t[i]).0 == (#[trigger] t[j]).0
            implies i == j by {
            assert(t[i].0 == s[i].0);
            assert(t[j].0 == s[j].0);
        }
        lemma_name_slot_unique(t, k);
        assert forall|other: Seq<char>| other != name implies lookup(t, other) == lookup(s, other) by {
            if has_name(s, other) {
                let w = name_slot(s, other);
                assert(t[w] == s[w]);
                lemma_name_slot_unique(t, w);
            }
            if has_name(t, other) {
                let w = name_slot(t, other);
                assert(t[w] == s[w]);
            }
        }
    } else {
        let k = s.len() as int;
        assert(t[k] == (name, c));
        assert forall|i: int, j: int|
            0 <= i < t.len() && 0 <= j < t.len() && (#[trigger] t[i]).0 == (#[trigger] t[j]).0
            implies i == j by {
            if i < k && j < k {
                assert(s[i].0 == s[j].0);
            } else if i < k {
                assert(s[i].0 == name);
            } else if j < k {
                assert(s[j].0 == name);
            }
        }
        lemma_name_slot_unique(t, k);
        assert forall|other: Seq<char>| other != name implies lookup(t, other) == lookup(s, other) by {
            if has_name(s, other) {
                let w = name_slot(s, other);
                assert(t[w] == s[w]);
                lemma_name_slot_unique(t, w);
            }
            if has_name(t, other) {
                let w = name_slot(t, other);
                assert(w < k);
                assert(t[w] == s[w]);
            }
        }
    }
}

/// Metrics registry: collectors, each under its own name.
pub struct MetricsRegistry {
    collectors: Vec<(String, Collector)>,
}

impl MetricsRegistry {
    /// The registered names and collectors, in the order the names were
    /// first registered.
    pub closed spec fn entries(&self) -> Seq<(Seq<char>, Collector)> {
        self.collectors@.map_values(|e: (String, Collector)| entry_text(e))
    }

    /// Well-formedness: no two collectors share a name.
    pub open spec fn wf(&self) -> bool {
        unique_names(self.entries())
    }

    /// A registry with no collectors.
    pub fn new() -> (r: Self)
        ensures
            r.wf(),
            r.entries() == Seq::<(Seq<char>, Collector)>::empty(),
    {
        let r = MetricsRegistry { collectors: Vec::new() };
        assert(r.entries() =~= Seq::<(Seq<char>, Collector)>::empty());
        r
    }

    /// The position of the collector registered under `key`, if any.
    fn find(&self, key: &String) -> (r: Option<usize>)
        ensures
            match r {
                Some(i) => i < self.entries().len() && self.entries()[i as int].0 == key@,
                None => !has_name(self.entries(), key@),
            },
    {
        let mut i: usize = 0;
        while i < self.collectors.len()
            invariant
                i <= self.collectors@.len(),
                forall|j: int| 0 <= j < i ==> (#[trigger] self.entries()[j]).0 != key@,
            decreases self.collectors@.len() - i,
        {
            if self.collectors[i].0 == *key {
                return Some(i);
            }
            i += 1;
        }
        None
    }

    /// Register `collector` under `name`, replacing any collector already
    /// registered under it.
    pub fn register(&mut self, name: &str, collector: Collector)
        requires
            old(self).wf(),
        ensures
            final(self).wf(),
            final(self).entries() == after_register(old(self).entries(), name@, collector),
    {
        let key = name.to_owned();
        let ghost s = self.entries();
        proof {
            law_register_then_lookup(s, name@, collector);
        }
        match self.find(&key) {
            Some(i) => {
                proof {
                    lemma_name_slot_unique(s, i as int);
                }
                let (old_name, _old_collector) = self.collectors.remove(i);
                self.collectors.insert(i, (old_name, collector));
                assert(self.entries() =~= s.update(i as int, (name@, collector)));
            },
            None => {
                self.collectors.push((key, collector));
                assert(self.entries() =~= s.push((name@, collector)));
            },
        }
    }

    /// The collector registered under `name`, if any.
    pub fn get(&self, name: &str) -> (r: Option<&Collector>)
        requires
            self.wf(),
        ensures
            r is Some <==> has_name(self.entries(), name@),
            r matches Some(c) ==> lookup(self.entries(), name@) == Some(*c),
    {
        let key = name.to_owned();
        match self.find(&key) {
            Some(i) => {
                proof {
                    lemma_name_slot_unique(self.entries(), i as int);
                }
                Some(&self.collectors[i].1)
            },
            None => None,
        }
    }

    /// The collector registered under `name`, if any, for changing it; the
    /// names and the other collectors stay.
    pub fn get_mut(&mut self, name: &str) -> (r: Option<&mut Collector>)
        requires
            old(self).wf(),
        ensures
            r is Some <==> has_name(old(self).entries(), name@),
            r matches Some(c) ==> {
                let k = name_slot(old(self).entries(), name@);
                &&& lookup(old(self).entries(), name@) == Some(*c)
                &&& final(self).entries() == old(self).entries().update(k, (name@, *final(c)))
            },
            r is None ==> final(self).entries() == old(self).entries(),
    {
        let key = name.to_owned();
        match self.find(&key) {
            Some(i) => {
                proof {
                    lemma_name_slot_unique(self.entries(), i as int);
                }
                Some(&mut self.collectors[i].1)
            },
            None => None,
        }
    }

    /// The registered collectors with their names.
    pub fn collectors(&self) -> (c: &[(String, Collector)])
        ensures
            c@.map_values(|e: (String, Collector)| entry_text(e)) == self.entries(),
    {
        self.collectors.as_slice()
    }
}

impl Default for MetricsRegistry {
    /// A registry with no collectors.
    fn default() -> (r: Self)
        ensures
            r.wf(),
            r.entries() == Seq::<(Seq<char>, Collector)>::empty(),
    {
        MetricsRegistry::new()
    }
}

} // verus!
