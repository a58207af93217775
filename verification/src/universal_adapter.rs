//! Universal adapter for capability-based primal discovery.
//!
//! Primals announce what they can do (not who they are) and discover others
//! by asking "who can do X?". The local adapter is an in-memory registry of
//! the current announcement of each primal, ordered by when each primal last
//! announced.

use crate::error::SkunkBatError;
use crate::text;
use vstd::prelude::*;

verus! {

/// Capability announcement: a primal announces what it can do.
#[derive(Debug, Clone, PartialEq, Eq)]
pub struct Capability {
    /// Self-identity (discovered from system)
    pub primal_id: String,
    /// What capabilities this primal provides
    pub capabilities: Vec<String>,
    /// How to reach this primal
    pub endpoint: String,
    /// Optional metadata, as key/value pairs
    pub metadata: Vec<(String, String)>,
}

/// Discovery result: a primal that provides a capability.
#[derive(Debug, Clone)]
pub struct DiscoveredPrimal {
    /// Primal identifier
    pub id: String,
    /// Endpoint to connect to
    pub endpoint: String,
    /// Capabilities provided
    pub capabilities: Vec<String>,
    /// Metadata
    pub metadata: Vec<(String, String)>,
}

/// What a discovery result holds: identifier, endpoint, capabilities and
/// metadata.
pub type DiscoveredView = (Seq<char>, Seq<char>, Seq<String>, Seq<(String, String)>);

impl View for DiscoveredPrimal {
    type V = DiscoveredView;

    open spec fn view(&self) -> DiscoveredView {
        (self.id@, self.endpoint@, self.capabilities@, self.metadata@)
    }
}

/// The discovery result describing an announcement.
pub open spec fn described(c: Capability) -> DiscoveredView {
    (c.primal_id@, c.endpoint@, c.capabilities@, c.metadata@)
}

/// How many times `cap` appears in a capability list.
pub open spec fn occurrences(caps: Seq<String>, cap: Seq<char>) -> nat
    decreases caps.len(),
{
    if caps.len() == 0 {
        0
    } else {
        occurrences(caps.drop_last(), cap) + if caps.last()@ == cap { 1nat } else { 0nat }
    }
}

/// The discovery results for `cap`: each announcement, in order, once per
/// time it lists `cap`.
pub open spec fn providers(anns: Seq<Capability>, cap: Seq<char>) -> Seq<DiscoveredView>
    decreases anns.len(),
{
    if anns.len() == 0 {
        Seq::empty()
    } else {
        providers(anns.drop_last(), cap) + Seq::new(
            occurrences(anns.last().capabilities@, cap),
            |_i: int| described(anns.last()),
        )
    }
}

/// Whether some announcement is that of primal `id`.
pub open spec fn announced(anns: Seq<Capability>, id: Seq<char>) -> bool {
    exists|i: int| 0 <= i < anns.len() && #[trigger] anns[i].primal_id@ == id
}

/// The announcements with the one of primal `id` taken out (unchanged when
/// there is none).
pub open spec fn without(anns: Seq<Capability>, id: Seq<char>) -> Seq<Capability> {
    if announced(anns, id) {
        anns.remove(choose|i: int| 0 <= i < anns.len() && #[trigger] anns[i].primal_id@ == id)
    } else {
        anns
    }
}

/// No two announcements share a primal identifier.
pub open spec fn ids_unique(anns: Seq<Capability>) -> bool {
    forall|i: int, j: int|
        0 <= i < anns.len() && 0 <= j < anns.len() && i != j ==> #[trigger] anns[i].primal_id@
            != #[trigger] anns[j].primal_id@
}

/// Universal adapter operations: announce, discover by capability, discover
/// all, and remove.
pub struct LocalUniversalAdapter {
    primals: Vec<Capability>,
}

/// With unique identifiers, taking out the identifier at `i` removes
/// exactly the element at `i`.
proof fn lemma_without_at(anns: Seq<Capability>, i: int)
    requires
        ids_unique(anns),
        0 <= i < anns.len(),
    ensures
        without(anns, anns[i].primal_id@) == anns.remove(i),
{
    let id = anns[i].primal_id@;
    assert(anns[i].primal_id@ == id);
    let j = choose|j: int| 0 <= j < anns.len() && #[trigger] anns[j].primal_id@ == id;
    assert(anns[j].primal_id@ == anns[i].primal_id@);
}

/// Removing an element keeps identifiers unique.
proof fn lemma_unique_remove(anns: Seq<Capability>, i: int)
    requires
        ids_unique(anns),
        0 <= i < anns.len(),
    ensures
        ids_unique(anns.remove(i)),
{
    let r = anns.remove(i);
    assert forall|a: int, b: int|
        0 <= a < r.len() && 0 <= b < r.len() && a != b implies #[trigger] r[a].primal_id@
        != #[trigger] r[b].primal_id@ by {
        let oa = if a < i { a } else { a + 1 };
        let ob = if b < i { b } else { b + 1 };
        assert(r[a] == anns[oa] && r[b] == anns[ob]);
    }
}

/// `providers` distributes over appending one announcement.
proof fn lemma_providers_push(anns: Seq<Capability>, c: Capability, cap: Seq<char>)
    ensures
        providers(anns.push(c), cap) == providers(anns, cap) + Seq::new(
            occurrences(c.capabilities@, cap),
            |_i: int| described(c),
        ),
{
    assert(anns.push(c).drop_last() =~= anns);
}


/// A capability listed by an announcement occurs at least once in its list.
proof fn lemma_occurrences_positive(caps: Seq<String>, cap: Seq<char>, k: int)
    requires
        0 <= k < caps.len(),
        caps[k]@ == cap,
    ensures
        occurrences(caps, cap) >= 1,
    decreases caps.len(),
{
    if k < caps.len() - 1 {
        assert(caps.drop_last()[k] == caps[k]);
        lemma_occurrences_positive(caps.drop_last(), cap, k);
    }
}

/// Every discovery result for a capability describes one of the
/// announcements.
proof fn lemma_providers_described(anns: Seq<Capability>, cap: Seq<char>, k: int)
    requires
        0 <= k < providers(anns, cap).len(),
    ensures
        exists|i: int| 0 <= i < anns.len() && providers(anns, cap)[k] == described(#[trigger] anns[i]),
    decreases anns.len(),
{
    let init = anns.drop_last();
    let front = providers(init, cap);
    if k < front.len() {
        lemma_providers_described(init, cap, k);
        let i = choose|i: int| 0 <= i < init.len() && front[k] == described(#[trigger] init[i]);
        assert(init[i] == anns[i]);
    } else {
        assert(providers(anns, cap)[k] == described(anns[anns.len() - 1]));
    }
}

/// With unique identifiers, once the announcement of `id` is taken out, no
/// announcement left is that of `id`.
pub proof fn lemma_without_forgets(anns: Seq<Capability>, id: Seq<char>)
    requires
        ids_unique(anns),
    ensures
        forall|j: int| 0 <= j < without(anns, id).len() ==> #[trigger] without(anns, id)[j].primal_id@ != id,
{
    if announced(anns, id) {
        let i = choose|i: int| 0 <= i < anns.len() && #[trigger] anns[i].primal_id@ == id;
        let w = anns.remove(i);
        assert forall|j: int| 0 <= j < w.len() implies #[trigger] w[j].primal_id@ != id by {
            let oj = if j < i { j } else { j + 1 };
            assert(w[j] == anns[oj]);
        }
    }
}

/// Announce-then-discover: right after a primal announces, discovering any
/// capability it lists returns its announcement (as the last result).
pub proof fn lemma_announce_then_discover(anns: Seq<Capability>, c: Capability, cap: Seq<char>, k: int)
    requires
        0 <= k < c.capabilities@.len(),
        c.capabilities@[k]@ == cap,
    ensures
        providers(without(anns, c.primal_id@).push(c), cap).len() >= 1,
        providers(without(anns, c.primal_id@).push(c), cap).last() == described(c),
{
    let w = without(anns, c.primal_id@);
    lemma_providers_push(w, c, cap);
    lemma_occurrences_positive(c.capabilities@, cap, k);
}

/// Remove-then-discover: after a primal's announcement is removed, no
/// discovery result names it.
pub proof fn lemma_remove_then_discover(anns: Seq<Capability>, id: Seq<char>, cap: Seq<char>)
    requires
        ids_unique(anns),
    ensures
        forall|k: int| 0 <= k < providers(without(anns, id), cap).len() ==> (#[trigger] providers(without(anns, id), cap)[k]).0 != id,
{
    let w = without(anns, id);
    lemma_without_forgets(anns, id);
    assert forall|k: int| 0 <= k < providers(w, cap).len() implies (#[trigger] providers(w, cap)[k]).0 != id by {
        lemma_providers_described(w, cap, k);
    }
}

/// A capability occurring in a list is listed at some position.
proof fn lemma_occurrences_witness(caps: Seq<String>, cap: Seq<char>)
    requires
        occurrences(caps, cap) >= 1,
    ensures
        exists|t: int| 0 <= t < caps.len() && (#[trigger] caps[t])@ == cap,
    decreases caps.len(),
{
    let init = caps.drop_last();
    if caps.last()@ == cap {
        assert(caps[caps.len() - 1]@ == cap);
    } else {
        lemma_occurrences_witness(init, cap);
        let t = choose|t: int| 0 <= t < init.len() && (#[trigger] init[t])@ == cap;
        assert(caps[t] == init[t]);
    }
}

/// Re-announcing replaces: after primal `c.primal_id` announces `c`, the
/// registry holds exactly one announcement of it, `c` itself (the most
/// recent); every other primal's announcement is kept unchanged and nothing
/// else is added; and discovering a capability lists that primal exactly
/// when `c` lists the capability.
pub proof fn lemma_reannounce_replaces(anns: Seq<Capability>, c: Capability, cap: Seq<char>)
    requires
        ids_unique(anns),
    ensures
        ids_unique(without(anns, c.primal_id@).push(c)),
        without(anns, c.primal_id@).push(c).last() == c,
        forall|j: int|
            0 <= j < without(anns, c.primal_id@).len() ==> (#[trigger] without(anns, c.primal_id@).push(c)[j]).primal_id@
                != c.primal_id@,
        forall|i: int|
            0 <= i < anns.len() && (#[trigger] anns[i]).primal_id@ != c.primal_id@ ==> exists|j: int|
                0 <= j < without(anns, c.primal_id@).len() && without(anns, c.primal_id@).push(c)[j]
                    == anns[i],
        forall|j: int|
            0 <= j < without(anns, c.primal_id@).len() ==> exists|i: int|
                0 <= i < anns.len() && anns[i] == #[trigger] without(anns, c.primal_id@).push(c)[j],
        (exists|k: int|
            0 <= k < providers(without(anns, c.primal_id@).push(c), cap).len() && (#[trigger] providers(
                without(anns, c.primal_id@).push(c),
                cap,
            )[k]).0 == c.primal_id@) <==> (exists|t: int|
            0 <= t < c.capabilities@.len() && (#[trigger] c.capabilities@[t])@ == cap),
{
    let id = c.primal_id@;
    let w = without(anns, id);
    let n = w.push(c);
    lemma_without_forgets(anns, id);
    if announced(anns, id) {
        let i0 = choose|i: int| 0 <= i < anns.len() && #[trigger] anns[i].primal_id@ == id;
        lemma_unique_remove(anns, i0);
        assert forall|i: int|
            0 <= i < anns.len() && (#[trigger] anns[i]).primal_id@ != id implies exists|j: int|
                0 <= j < w.len() && n[j] == anns[i] by {
            let j = if i < i0 { i } else { i - 1 };
            assert(i != i0);
            assert(w[j] == anns[i]);
            assert(n[j] == w[j]);
        }
        assert forall|j: int| 0 <= j < w.len() implies exists|i: int|
            0 <= i < anns.len() && anns[i] == #[trigger] n[j] by {
            let oj = if j < i0 { j } else { j + 1 };
            assert(n[j] == w[j] && w[j] == anns[oj]);
        }
    } else {
        assert forall|i: int|
            0 <= i < anns.len() && (#[trigger] anns[i]).primal_id@ != id implies exists|j: int|
                0 <= j < w.len() && n[j] == anns[i] by {
            assert(n[i] == w[i]);
        }
        assert forall|j: int| 0 <= j < w.len() implies exists|i: int|
            0 <= i < anns.len() && anns[i] == #[trigger] n[j] by {
            assert(n[j] == w[j]);
        }
    }
    assert forall|a: int, b: int|
        0 <= a < n.len() && 0 <= b < n.len() && a != b implies #[trigger] n[a].primal_id@
        != #[trigger] n[b].primal_id@ by {
        if a == w.len() {
            assert(n[b] == w[b]);
        } else if b == w.len() {
            assert(n[a] == w[a]);
        } else {
            assert(n[a] == w[a] && n[b] == w[b]);
        }
    }
    assert forall|j: int| 0 <= j < w.len() implies (#[trigger] n[j]).primal_id@ != id by {
        assert(n[j] == w[j]);
    }
    lemma_providers_push(w, c, cap);
    let p = providers(n, cap);
    let front = providers(w, cap);
    if exists|k: int| 0 <= k < p.len() && (#[trigger] p[k]).0 == id {
        let k = choose|k: int| 0 <= k < p.len() && (#[trigger] p[k]).0 == id;
        if k < front.len() {
            lemma_providers_described(w, cap, k);
            let i = choose|i: int| 0 <= i < w.len() && front[k] == described(#[trigger] w[i]);
            assert(p[k] == front[k]);
            assert(false);
        }
        lemma_occurrences_witness(c.capabilities@, cap);
    }
    if exists|t: int| 0 <= t < c.capabilities@.len() && (#[trigger] c.capabilities@[t])@ == cap {
        let t = choose|t: int| 0 <= t < c.capabilities@.len() && (#[trigger] c.capabilities@[t])@ == cap;
        lemma_occurrences_positive(c.capabilities@, cap, t);
        assert(p[p.len() - 1] == described(c));
        assert(p[p.len() - 1].0 == id);
    }
}

impl LocalUniversalAdapter {
    /// The current announcements, ordered by when each primal last announced.
    pub closed spec fn announcements(&self) -> Seq<Capability> {
        self.primals@
    }

    /// The registry's invariant: one announcement per primal.
    pub open spec fn wf(&self) -> bool {
        ids_unique(self.announcements())
    }

    /// Create a new local universal adapter with an empty registry.
    pub fn new() -> (a: Self)
        ensures
            a.wf(),
            a.announcements().len() == 0,
    {
        LocalUniversalAdapter { primals: Vec::new() }
    }

    /// The index of the announcement of `primal_id`, if any.
    fn find(&self, primal_id: &str) -> (r: Option<usize>)
        ensures
            match r {
                Some(i) => i < self.primals@.len() && self.primals@[i as int].primal_id@ == primal_id@,
                None => forall|j: int|
                    0 <= j < self.primals@.len() ==> #[trigger] self.primals@[j].primal_id@ != primal_id@,
            },
    {
        let mut i: usize = 0;
        while i < self.primals.len()
            invariant
                i <= self.primals@.len(),
                forall|j: int| 0 <= j < i ==> #[trigger] self.primals@[j].primal_id@ != primal_id@,
            decreases self.primals@.len() - i,
        {
            if text::str_eq(self.primals[i].primal_id.as_str(), primal_id) {
                return Some(i);
            }
            i = i + 1;
        }
        None
    }

    /// Drop the announcement of `primal_id`, if any.
    fn drop_announcement(&mut self, primal_id: &str)
        requires
            old(self).wf(),
        ensures
            final(self).wf(),
            final(self).announcements() == without(old(self).announcements(), primal_id@),
            forall|j: int|
                0 <= j < final(self).announcements().len()
                    ==> #[trigger] final(self).announcements()[j].primal_id@ != primal_id@,
    {
        let ghost before = self.primals@;
        match self.find(primal_id) {
            Some(i) => {
                proof {
                    lemma_without_at(before, i as int);
                    lemma_unique_remove(before, i as int);
                }
                self.primals.remove(i);
                proof {
                    let after = self.primals@;
                    assert forall|j: int| 0 <= j < after.len() implies #[trigger] after[j].primal_id@
                        != primal_id@ by {
                        let oj = if j < i { j } else { j + 1 };
                        assert(after[j] == before[oj]);
                        assert(oj != i);
                    }
                }
            },
            None => {},
        }
    }

    /// Announce capabilities: any earlier announcement of the same primal is
    /// replaced, and the new one becomes the most recent.
    pub fn announce(&mut self, capability: Capability) -> (r: Result<(), SkunkBatError>)
        requires
            old(self).wf(),
        ensures
            r is Ok,
            final(self).wf(),
            final(self).announcements() == without(
                old(self).announcements(),
                capability.primal_id@,
            ).push(capability),
    {
        self.drop_announcement(capability.primal_id.as_str());
        let ghost before = self.primals@;
        self.primals.push(capability);
        proof {
            let after = self.primals@;
            assert forall|a: int, b: int|
                0 <= a < after.len() && 0 <= b < after.len() && a != b implies #[trigger] after[a].primal_id@
                != #[trigger] after[b].primal_id@ by {
                if a == before.len() {
                    assert(after[b] == before[b]);
                } else if b == before.len() {
                    assert(after[a] == before[a]);
                } else {
                    assert(after[a] == before[a] && after[b] == before[b]);
                }
            }
        }
        Ok(())
    }

    /// The discovery result describing an announcement.
    fn describe(c: &Capability) -> (d: DiscoveredPrimal)
        ensures
            d@ == described(*c),
    {
        DiscoveredPrimal {
            id: c.primal_id.clone(),
            endpoint: c.endpoint.clone(),
            capabilities: text::clone_strings(&c.capabilities),
            metadata: text::clone_pairs(&c.metadata),
        }
    }

    /// Discover primals by capability: each announcement listing the
    /// capability, in announcement order (once per time it lists it).
    pub fn discover_capability(&self, capability: &str) -> (r: Result<Vec<DiscoveredPrimal>, SkunkBatError>)
        ensures
            r matches Ok(v) && v@.map_values(|d: DiscoveredPrimal| d@) == providers(
                self.announcements(),
                capability@,
            ),
    {
        let mut out: Vec<DiscoveredPrimal> = Vec::new();
        let mut i: usize = 0;
        while i < self.primals.len()
            invariant
                i <= self.primals@.len(),
                out@.map_values(|d: DiscoveredPrimal| d@) == providers(
                    self.primals@.take(i as int),
                    capability@,
                ),
            decreases self.primals@.len() - i,
        {
            let c = &self.primals[i];
            let ghost prefix = self.primals@.take(i as int);
            let ghost base = out@.map_values(|d: DiscoveredPrimal| d@);
            let mut k: usize = 0;
            while k < c.capabilities.len()
                invariant
                    c == self.primals@[i as int],
                    k <= c.capabilities@.len(),
                    out@.map_values(|d: DiscoveredPrimal| d@) == base + Seq::new(
                        occurrences(c.capabilities@.take(k as int), capability@),
                        |_j: int| described(*c),
                    ),
                decreases c.capabilities@.len() - k,
            {
                let ghost before_k = out@.map_values(|d: DiscoveredPrimal| d@);
                assert(c.capabilities@.take(k + 1).drop_last() =~= c.capabilities@.take(k as int));
                if text::str_eq(c.capabilities[k].as_str(), capability) {
                    let d = Self::describe(c);
                    out.push(d);
                    assert(out@.map_values(|d: DiscoveredPrimal| d@) =~= before_k.push(described(*c)));
                }
                k = k + 1;
                assert(out@.map_values(|d: DiscoveredPrimal| d@) =~= base + Seq::new(
                    occurrences(c.capabilities@.take(k as int), capability@),
                    |_j: int| described(*c),
                ));
            }
            assert(c.capabilities@.take(c.capabilities@.len() as int) =~= c.capabilities@);
            proof {
                assert(self.primals@.take(i + 1) =~= prefix.push(*c));
                lemma_providers_push(prefix, *c, capability@);
            }
            i = i + 1;
        }
        assert(self.primals@.take(self.primals@.len() as int) =~= self.primals@);
        Ok(out)
    }

    /// Discover all announced primals, in announcement order.
    pub fn discover_all(&self) -> (r: Result<Vec<DiscoveredPrimal>, SkunkBatError>)
        ensures
            r matches Ok(v) && v@.map_values(|d: DiscoveredPrimal| d@) == self.announcements().map_values(
                |c: Capability| described(c),
            ),
    {
        let mut out: Vec<DiscoveredPrimal> = Vec::new();
        let mut i: usize = 0;
        while i < self.primals.len()
            invariant
                i <= self.primals@.len(),
                out@.len() == i,
                forall|j: int| 0 <= j < i ==> #[trigger] out@[j]@ == described(self.primals@[j]),
            decreases self.primals@.len() - i,
        {
            let d = Self::describe(&self.primals[i]);
            out.push(d);
            i = i + 1;
        }
        assert(out@.map_values(|d: DiscoveredPrimal| d@) =~= self.primals@.map_values(
            |c: Capability| described(c),
        ));
        Ok(out)
    }

    /// Remove the announcement of a primal (nothing changes when it has none).
    pub fn remove(&mut self, primal_id: &str) -> (r: Result<(), SkunkBatError>)
        requires
            old(self).wf(),
        ensures
            r is Ok,
            final(self).wf(),
            final(self).announcements() == without(old(self).announcements(), primal_id@),
    {
        self.drop_announcement(primal_id);
        Ok(())
    }

    /// Total primals registered.
    pub fn total_primals(&self) -> (n: usize)
        ensures
            n == self.announcements().len(),
    {
        self.primals.len()
    }
}

/// Every capability name the announcements list, in order, repeats kept.
pub open spec fn listed(anns: Seq<Capability>) -> Seq<Seq<char>>
    decreases anns.len(),
{
    if anns.len() == 0 {
        Seq::empty()
    } else {
        listed(anns.drop_last()) + text::texts(anns.last().capabilities@)
    }
}

/// Counts over the registry.
#[derive(Debug, Clone, Copy)]
pub struct AdapterCounts {
    /// Primals registered.
    pub total_primals: usize,
    /// Distinct capability names.
    pub total_capabilities: usize,
    /// Capability names listed over all primals, repeats counted.
    pub capability_entries: usize,
}

fn contains_text(v: &Vec<String>, s: &str) -> (r: bool)
    ensures
        r == text::texts(v@).contains(s@),
{
    let mut i: usize = 0;
    while i < v.len()
        invariant
            i <= v@.len(),
            forall|j: int| 0 <= j < i ==> v@[j]@ != s@,
        decreases v@.len() - i,
    {
        if text::str_eq(v[i].as_str(), s) {
            assert(text::texts(v@)[i as int] == s@);
            return true;
        }
        i = i + 1;
    }
    proof {
        if text::texts(v@).contains(s@) {
            let j = choose|j: int| 0 <= j < text::texts(v@).len() && text::texts(v@)[j] == s@;
            assert(v@[j]@ == s@);
        }
    }
    false
}

proof fn lemma_push_to_set(s: Seq<Seq<char>>, x: Seq<char>)
    ensures
        s.push(x).to_set() == s.to_set().insert(x),
{
    assert forall|a: Seq<char>| s.push(x).to_set().contains(a) <==> s.to_set().insert(x).contains(a) by {
        if s.push(x).contains(a) {
            let j = choose|j: int| 0 <= j < s.push(x).len() && s.push(x)[j] == a;
            if j < s.len() {
                assert(s[j] == a);
            }
        }
        if s.contains(a) {
            let j = choose|j: int| 0 <= j < s.len() && s[j] == a;
            assert(s.push(x)[j] == a);
        }
        if a == x {
            assert(s.push(x)[s.len() as int] == a);
        }
    }
    assert(s.push(x).to_set() =~= s.to_set().insert(x));
}

/// The distinct texts of a list of strings, in first-appearance order.
fn distinct(v: &Vec<String>) -> (r: Vec<String>)
    ensures
        text::texts(r@).no_duplicates(),
        text::texts(r@).to_set() == text::texts(v@).to_set(),
{
    let mut r: Vec<String> = Vec::new();
    let mut i: usize = 0;
    assert(text::texts(v@.take(0)).to_set() =~= Set::<Seq<char>>::empty());
    assert(text::texts(r@).to_set() =~= Set::<Seq<char>>::empty());
    while i < v.len()
        invariant
            i <= v@.len(),
            text::texts(r@).no_duplicates(),
            text::texts(r@).to_set() == text::texts(v@.take(i as int)).to_set(),
        decreases v@.len() - i,
    {
        let ghost before = text::texts(r@);
        proof {
            assert(text::texts(v@.take(i + 1)) =~= text::texts(v@.take(i as int)).push(v@[i as int]@));
            lemma_push_to_set(text::texts(v@.take(i as int)), v@[i as int]@);
        }
        if !contains_text(&r, v[i].as_str()) {
            r.push(v[i].clone());
            proof {
                assert(text::texts(r@) =~= before.push(v@[i as int]@));
                lemma_push_to_set(before, v@[i as int]@);
                assert forall|a: int, b: int| 0 <= a < b < text::texts(r@).len() implies text::texts(r@)[a] != text::texts(r@)[b] by {
                    if b == before.len() {
                        assert(before[a] == text::texts(r@)[a]);
                        assert(before.contains(before[a]));
                    }
                }
            }
        } else {
            proof {
                assert(before.to_set().contains(v@[i as int]@));
                assert(before.to_set().insert(v@[i as int]@) =~= before.to_set());
            }
        }
        i = i + 1;
    }
    assert(v@.take(v@.len() as int) =~= v@);
    r
}

impl LocalUniversalAdapter {
    /// Every capability name the registered primals list, in order.
    fn listed_capabilities(&self) -> (r: Vec<String>)
        ensures
            text::texts(r@) == listed(self.announcements()),
    {
        let mut r: Vec<String> = Vec::new();
        let mut i: usize = 0;
        while i < self.primals.len()
            invariant
                i <= self.primals@.len(),
                text::texts(r@) == listed(self.primals@.take(i as int)),
            decreases self.primals@.len() - i,
        {
            let caps = &self.primals[i].capabilities;
            let mut j: usize = 0;
            let ghost base = text::texts(r@);
            while j < caps.len()
                invariant
                    j <= caps@.len(),
                    caps@ == self.primals@[i as int].capabilities@,
                    text::texts(r@) == base + text::texts(caps@.take(j as int)),
                decreases caps@.len() - j,
            {
                let ghost rv = text::texts(r@);
                r.push(caps[j].clone());
                assert(text::texts(r@) =~= rv.push(caps@[j as int]@));
                assert(text::texts(caps@.take(j + 1)) =~= text::texts(caps@.take(j as int)).push(caps@[j as int]@));
                j = j + 1;
            }
            proof {
                assert(caps@.take(caps@.len() as int) =~= caps@);
                assert(self.primals@.take(i + 1).drop_last() =~= self.primals@.take(i as int));
                assert(self.primals@.take(i + 1).last() == self.primals@[i as int]);
            }
            i = i + 1;
        }
        assert(self.primals@.take(self.primals@.len() as int) =~= self.primals@);
        r
    }

    /// Counts over the registry: primals, distinct capability names, and
    /// capability names listed (repeats counted).
    pub fn counts(&self) -> (r: AdapterCounts)
        ensures
            r.total_primals == self.announcements().len(),
            r.total_capabilities == listed(self.announcements()).to_set().len(),
            r.capability_entries == listed(self.announcements()).len(),
    {
        let all = self.listed_capabilities();
        let d = distinct(&all);
        proof {
            text::texts(d@).unique_seq_to_set();
        }
        AdapterCounts { total_primals: self.primals.len(), total_capabilities: d.len(), capability_entries: all.len() }
    }
}

impl Default for LocalUniversalAdapter {
    fn default() -> (a: Self)
        ensures
            a.wf(),
            a.announcements().len() == 0,
    {
        Self::new()
    }
}

} // verus!
