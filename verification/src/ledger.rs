//! The deployment ledger: for every network the project has deployed to, a
//! record of each step id and the address of the contract it produced. The
//! ledger is what makes redeploys idempotent — a step whose id is already
//! recorded for the current network is migrated in place instead of being
//! instantiated again.
//!
//! Entries are kept as ordered association lists with distinct keys, viewed
//! as a `Map` from chain id to a `Map` from step id to address. Recording an
//! entry never touches any other network's records, and never overwrites an
//! address already recorded for the same step — migration leaves addresses
//! unchanged.

use vstd::prelude::*;
use vstd::string::*;
use crate::text::str_eq;

verus! {

/// The recorded deployments of one network: pairs of step id and contract
/// address, first occurrence of a key authoritative.
#[derive(Debug, Clone)]
pub struct NetworkDeployments {
    pub chain_id: String,
    pub contracts: Vec<(String, String)>,
}

/// The whole persisted ledger: one record per network.
#[derive(Debug, Clone)]
pub struct DeploymentResult {
    pub deployment: Vec<NetworkDeployments>,
}

/// The map described by an association list of step id / address pairs.
pub open spec fn pairs_view(s: Seq<(String, String)>) -> Map<Seq<char>, Seq<char>>
    decreases s.len(),
{
    if s.len() == 0 {
        Map::empty()
    } else {
        pairs_view(s.skip(1)).insert(s[0].0@, s[0].1@)
    }
}

/// The keys of the association list are pairwise distinct.
pub open spec fn pairs_wf(s: Seq<(String, String)>) -> bool {
    forall|i: int, j: int| 0 <= i < j < s.len() ==> s[i].0@ != s[j].0@
}

impl View for NetworkDeployments {
    type V = Map<Seq<char>, Seq<char>>;

    open spec fn view(&self) -> Map<Seq<char>, Seq<char>> {
        pairs_view(self.contracts@)
    }
}

/// The map described by the list of per-network records.
pub open spec fn networks_view(s: Seq<NetworkDeployments>) -> Map<
    Seq<char>,
    Map<Seq<char>, Seq<char>>,
>
    decreases s.len(),
{
    if s.len() == 0 {
        Map::empty()
    } else {
        networks_view(s.skip(1)).insert(s[0].chain_id@, s[0]@)
    }
}

impl View for DeploymentResult {
    type V = Map<Seq<char>, Map<Seq<char>, Seq<char>>>;

    open spec fn view(&self) -> Map<Seq<char>, Map<Seq<char>, Seq<char>>> {
        networks_view(self.deployment@)
    }
}

/// The effect of recording `(step, addr)` for network `chain`: the network's
/// record is created if absent, and the pair is added only if the step has no
/// address recorded yet.
pub open spec fn ledger_record(
    m: Map<Seq<char>, Map<Seq<char>, Seq<char>>>,
    chain: Seq<char>,
    step: Seq<char>,
    addr: Seq<char>,
) -> Map<Seq<char>, Map<Seq<char>, Seq<char>>> {
    let net = if m.contains_key(chain) {
        m[chain]
    } else {
        Map::<Seq<char>, Seq<char>>::empty()
    };
    let net2 = if net.contains_key(step) {
        net
    } else {
        net.insert(step, addr)
    };
    m.insert(chain, net2)
}

proof fn lemma_pairs_view_first(s: Seq<(String, String)>, i: int)
    requires
        pairs_wf(s),
        0 <= i < s.len(),
    ensures
        pairs_view(s).contains_key(s[i].0@),
        pairs_view(s)[s[i].0@] == s[i].1@,
    decreases s.len(),
{
    if i > 0 {
        assert(pairs_wf(s.skip(1)));
        lemma_pairs_view_first(s.skip(1), i - 1);
        assert(s.skip(1)[i - 1] == s[i]);
        assert(s[0].0@ != s[i].0@);
    }
}

proof fn lemma_pairs_view_absent(s: Seq<(String, String)>, k: Seq<char>)
    requires
        forall|i: int| 0 <= i < s.len() ==> s[i].0@ != k,
    ensures
        !pairs_view(s).contains_key(k),
    decreases s.len(),
{
    if s.len() > 0 {
        assert forall|i: int| 0 <= i < s.skip(1).len() implies s.skip(1)[i].0@ != k by {
            assert(s.skip(1)[i] == s[i + 1]);
        }
        lemma_pairs_view_absent(s.skip(1), k);
    }
}

proof fn lemma_pairs_view_push(s: Seq<(String, String)>, p: (String, String))
    requires
        forall|i: int| 0 <= i < s.len() ==> s[i].0@ != p.0@,
    ensures
        pairs_view(s.push(p)) == pairs_view(s).insert(p.0@, p.1@),
    decreases s.len(),
{
    if s.len() == 0 {
        assert(s.push(p).skip(1) =~= s);
        assert(s.push(p)[0] == p);
        assert(s.push(p).len() == 1);
        assert(pairs_view(s.push(p)) == pairs_view(s).insert(p.0@, p.1@));
    } else {
        assert(s.push(p).skip(1) =~= s.skip(1).push(p));
        assert forall|i: int| 0 <= i < s.skip(1).len() implies s.skip(1)[i].0@ != p.0@ by {
            assert(s.skip(1)[i] == s[i + 1]);
        }
        lemma_pairs_view_push(s.skip(1), p);
        assert(s.push(p)[0] == s[0]);
        assert(s[0].0@ != p.0@);
        assert(pairs_view(s.skip(1)).insert(p.0@, p.1@).insert(s[0].0@, s[0].1@) =~= pairs_view(
            s.skip(1),
        ).insert(s[0].0@, s[0].1@).insert(p.0@, p.1@));
    }
}

proof fn lemma_networks_view_first(s: Seq<NetworkDeployments>, i: int)
    requires
        forall|x: int, y: int| 0 <= x < y < s.len() ==> s[x].chain_id@ != s[y].chain_id@,
        0 <= i < s.len(),
    ensures
        networks_view(s).contains_key(s[i].chain_id@),
        networks_view(s)[s[i].chain_id@] == s[i]@,
    decreases s.len(),
{
    if i > 0 {
        assert forall|x: int, y: int|
            0 <= x < y < s.skip(1).len() implies s.skip(1)[x].chain_id@
            != s.skip(1)[y].chain_id@ by {
            assert(s.skip(1)[x] == s[x + 1]);
            assert(s.skip(1)[y] == s[y + 1]);
        }
        lemma_networks_view_first(s.skip(1), i - 1);
        assert(s.skip(1)[i - 1] == s[i]);
        assert(s[0].chain_id@ != s[i].chain_id@);
    }
}

proof fn lemma_networks_view_absent(s: Seq<NetworkDeployments>, k: Seq<char>)
    requires
        forall|i: int| 0 <= i < s.len() ==> s[i].chain_id@ != k,
    ensures
        !networks_view(s).contains_key(k),
    decreases s.len(),
{
    if s.len() > 0 {
        assert forall|i: int| 0 <= i < s.skip(1).len() implies s.skip(1)[i].chain_id@ != k by {
            assert(s.skip(1)[i] == s[i + 1]);
        }
        lemma_networks_view_absent(s.skip(1), k);
    }
}

proof fn lemma_networks_view_push(s: Seq<NetworkDeployments>, nd: NetworkDeployments)
    requires
        forall|i: int| 0 <= i < s.len() ==> s[i].chain_id@ != nd.chain_id@,
    ensures
        networks_view(s.push(nd)) == networks_view(s).insert(nd.chain_id@, nd@),
    decreases s.len(),
{
    if s.len() == 0 {
        assert(s.push(nd).skip(1) =~= s);
        assert(s.push(nd)[0] == nd);
        assert(s.push(nd).len() == 1);
        assert(networks_view(s.push(nd)) == networks_view(s).insert(nd.chain_id@, nd@));
    } else {
        assert(s.push(nd).skip(1) =~= s.skip(1).push(nd));
        assert forall|i: int|
            0 <= i < s.skip(1).len() implies s.skip(1)[i].chain_id@ != nd.chain_id@ by {
            assert(s.skip(1)[i] == s[i + 1]);
        }
        lemma_networks_view_push(s.skip(1), nd);
        assert(s.push(nd)[0] == s[0]);
        assert(s[0].chain_id@ != nd.chain_id@);
        assert(networks_view(s.skip(1)).insert(nd.chain_id@, nd@).insert(s[0].chain_id@, s[0]@)
            =~= networks_view(s.skip(1)).insert(s[0].chain_id@, s[0]@).insert(
            nd.chain_id@,
            nd@,
        ));
    }
}

proof fn lemma_networks_view_update(s: Seq<NetworkDeployments>, i: int, nd: NetworkDeployments)
    requires
        forall|x: int, y: int| 0 <= x < y < s.len() ==> s[x].chain_id@ != s[y].chain_id@,
        0 <= i < s.len(),
        nd.chain_id@ == s[i].chain_id@,
    ensures
        networks_view(s.update(i, nd)) == networks_view(s).insert(nd.chain_id@, nd@),
    decreases s.len(),
{
    if i == 0 {
        assert(s.update(0, nd).skip(1) =~= s.skip(1));
        assert(s.update(0, nd)[0] == nd);
        assert(networks_view(s.skip(1)).insert(nd.chain_id@, nd@) =~= networks_view(s.skip(1)).insert(
            s[0].chain_id@,
            s[0]@,
        ).insert(nd.chain_id@, nd@));
    } else {
        assert(s.update(i, nd).skip(1) =~= s.skip(1).update(i - 1, nd));
        assert forall|x: int, y: int|
            0 <= x < y < s.skip(1).len() implies s.skip(1)[x].chain_id@
            != s.skip(1)[y].chain_id@ by {
            assert(s.skip(1)[x] == s[x + 1]);
            assert(s.skip(1)[y] == s[y + 1]);
        }
        assert(s.skip(1)[i - 1] == s[i]);
        lemma_networks_view_update(s.skip(1), i - 1, nd);
        assert(s.update(i, nd)[0] == s[0]);
        assert(s[0].chain_id@ != nd.chain_id@);
        assert(networks_view(s.skip(1)).insert(nd.chain_id@, nd@).insert(s[0].chain_id@, s[0]@)
            =~= networks_view(s.skip(1)).insert(s[0].chain_id@, s[0]@).insert(
            nd.chain_id@,
            nd@,
        ));
    }
}

impl NetworkDeployments {
    /// Step ids recorded for this network are pairwise distinct.
    pub open spec fn wf(&self) -> bool {
        pairs_wf(self.contracts@)
    }

    /// Is an address recorded for this step id?
    pub fn contains_key(&self, id: &str) -> (b: bool)
        ensures
            b == self@.contains_key(id@),
    {
        let mut i: usize = 0;
        while i < self.contracts.len()
            invariant
                i <= self.contracts@.len(),
                forall|k: int| 0 <= k < i ==> self.contracts@[k].0@ != id@,
            decreases self.contracts@.len() - i,
        {
            if str_eq(self.contracts[i].0.as_str(), id) {
                proof {
                    lemma_pairs_view_contains_some(self.contracts@, i as int);
                }
                return true;
            }
            i = i + 1;
        }
        proof {
            lemma_pairs_view_absent(self.contracts@, id@);
        }
        false
    }

    /// The address recorded for this step id, if any.
    pub fn get(&self, id: &str) -> (r: Option<&String>)
        requires
            self.wf(),
        ensures
            match r {
                Some(a) => self@.contains_key(id@) && self@[id@] == a@,
                None => !self@.contains_key(id@),
            },
    {
        let mut i: usize = 0;
        while i < self.contracts.len()
            invariant
                self.wf(),
                i <= self.contracts@.len(),
                forall|k: int| 0 <= k < i ==> self.contracts@[k].0@ != id@,
            decreases self.contracts@.len() - i,
        {
            if str_eq(self.contracts[i].0.as_str(), id) {
                proof {
                    lemma_pairs_view_first(self.contracts@, i as int);
                }
                return Some(&self.contracts[i].1);
            }
            i = i + 1;
        }
        proof {
            lemma_pairs_view_absent(self.contracts@, id@);
        }
        None
    }

    /// Record an address for a step id unless one is already recorded — the
    /// in-memory form of the ledger's "create, never overwrite" rule.
    pub fn record(&mut self, id: &str, addr: String)
        requires
            old(self).wf(),
        ensures
            final(self).wf(),
            final(self).chain_id == old(self).chain_id,
            final(self)@ == if old(self)@.contains_key(id@) {
                old(self)@
            } else {
                old(self)@.insert(id@, addr@)
            },
    {
        if !self.contains_key(id) {
            let ghost s0 = self.contracts@;
            let p = (id.to_owned(), addr);
            proof {
                assert forall|i: int| 0 <= i < s0.len() implies s0[i].0@ != p.0@ by {
                    if pairs_view(s0).contains_key(id@) {
                    } else {
                        if s0[i].0@ == id@ {
                            lemma_pairs_view_contains_some(s0, i);
                        }
                    }
                }
                lemma_pairs_view_push(s0, p);
            }
            self.contracts.push(p);
            proof {
                assert forall|i: int, j: int|
                    0 <= i < j < self.contracts@.len() implies self.contracts@[i].0@
                    != self.contracts@[j].0@ by {
                    if j < self.contracts@.len() - 1 {
                        assert(self.contracts@[i] == s0[i]);
                        assert(self.contracts@[j] == s0[j]);
                    } else {
                        assert(self.contracts@[i] == s0[i]);
                        assert(self.contracts@[j] == p);
                    }
                }
            }
        }
    }
}

proof fn lemma_pairs_view_contains_some(s: Seq<(String, String)>, i: int)
    requires
        0 <= i < s.len(),
    ensures
        pairs_view(s).contains_key(s[i].0@),
    decreases s.len(),
{
    if i > 0 {
        lemma_pairs_view_contains_some(s.skip(1), i - 1);
        assert(s.skip(1)[i - 1] == s[i]);
    }
}

proof fn lemma_networks_view_contains_some(s: Seq<NetworkDeployments>, i: int)
    requires
        0 <= i < s.len(),
    ensures
        networks_view(s).contains_key(s[i].chain_id@),
    decreases s.len(),
{
    if i > 0 {
        lemma_networks_view_contains_some(s.skip(1), i - 1);
        assert(s.skip(1)[i - 1] == s[i]);
    }
}

impl Default for DeploymentResult {
    /// An empty ledger: no networks, no entries.
    fn default() -> (r: DeploymentResult)
        ensures
            r.wf(),
            r@ == Map::<Seq<char>, Map<Seq<char>, Seq<char>>>::empty(),
    {
        let r = DeploymentResult { deployment: Vec::new() };
        proof {
            assert(r.deployment@ =~= Seq::<NetworkDeployments>::empty());
        }
        r
    }
}

impl DeploymentResult {
    /// Chain ids are pairwise distinct and every network record is
    /// well-formed.
    pub open spec fn wf(&self) -> bool {
        &&& forall|x: int, y: int|
            0 <= x < y < self.deployment@.len() ==> self.deployment@[x].chain_id@
                != self.deployment@[y].chain_id@
        &&& forall|i: int|
            0 <= i < self.deployment@.len() ==> (#[trigger] self.deployment@[i]).wf()
    }

    fn find_network(&self, id: &str) -> (r: Option<usize>)
        ensures
            match r {
                Some(i) => i < self.deployment@.len() && self.deployment@[i as int].chain_id@
                    == id@ && self@.contains_key(id@),
                None => !self@.contains_key(id@),
            },
    {
        let mut i: usize = 0;
        while i < self.deployment.len()
            invariant
                i <= self.deployment@.len(),
                forall|k: int| 0 <= k < i ==> self.deployment@[k].chain_id@ != id@,
            decreases self.deployment@.len() - i,
        {
            if str_eq(self.deployment[i].chain_id.as_str(), id) {
                proof {
                    lemma_networks_view_contains_some(self.deployment@, i as int);
                }
                return Some(i);
            }
            i = i + 1;
        }
        proof {
            lemma_networks_view_absent(self.deployment@, id@);
        }
        None
    }

    /// The index of the record for network `id`, creating an empty record if
    /// none exists yet. The records of every other network are untouched.
    pub fn network(&mut self, id: &str) -> (idx: usize)
        requires
            old(self).wf(),
        ensures
            final(self).wf(),
            idx < final(self).deployment@.len(),
            final(self).deployment@[idx as int].chain_id@ == id@,
            final(self)@ == if old(self)@.contains_key(id@) {
                old(self)@
            } else {
                old(self)@.insert(id@, Map::<Seq<char>, Seq<char>>::empty())
            },
            old(self)@.contains_key(id@) ==> *final(self) == *old(self),
            final(self)@[id@] == final(self).deployment@[idx as int]@,
    {
        match self.find_network(id) {
            Some(i) => {
                proof {
                    lemma_networks_view_first(self.deployment@, i as int);
                }
                i
            },
            None => {
                let ghost s0 = self.deployment@;
                let nd = NetworkDeployments { chain_id: id.to_owned(), contracts: Vec::new() };
                proof {
                    assert(nd@ =~= Map::<Seq<char>, Seq<char>>::empty());
                    assert forall|i: int| 0 <= i < s0.len() implies s0[i].chain_id@
                        != nd.chain_id@ by {
                        if s0[i].chain_id@ == id@ {
                            lemma_networks_view_contains_some(s0, i);
                        }
                    }
                    lemma_networks_view_push(s0, nd);
                }
                self.deployment.push(nd);
                let idx = self.deployment.len() - 1;
                proof {
                    assert forall|x: int, y: int|
                        0 <= x < y < self.deployment@.len() implies self.deployment@[x].chain_id@
                        != self.deployment@[y].chain_id@ by {
                        if y < self.deployment@.len() - 1 {
                            assert(self.deployment@[x] == s0[x]);
                            assert(self.deployment@[y] == s0[y]);
                        } else {
                            assert(self.deployment@[x] == s0[x]);
                        }
                    }
                    assert forall|i: int|
                        0 <= i < self.deployment@.len() implies (
                        #[trigger] self.deployment@[i]).wf() by {
                        if i < self.deployment@.len() - 1 {
                            assert(self.deployment@[i] == s0[i]);
                        }
                    }
                    lemma_networks_view_first(self.deployment@, idx as int);
                }
                idx
            },
        }
    }

    /// Is an address recorded for `step` on network `chain`?
    pub fn contains_entry(&self, chain: &str, step: &str) -> (b: bool)
        requires
            self.wf(),
        ensures
            b == (self@.contains_key(chain@) && self@[chain@].contains_key(step@)),
    {
        match self.find_network(chain) {
            Some(i) => {
                proof {
                    lemma_networks_view_first(self.deployment@, i as int);
                }
                self.deployment[i].contains_key(step)
            },
            None => false,
        }
    }

    /// The address recorded for `step` on network `chain`, if any.
    pub fn address_of(&self, chain: &str, step: &str) -> (r: Option<String>)
        requires
            self.wf(),
        ensures
            r is Some <==> (self@.contains_key(chain@) && self@[chain@].contains_key(step@)),
            r matches Some(a) ==> self@[chain@][step@] == a@,
    {
        match self.find_network(chain) {
            Some(i) => {
                proof {
                    lemma_networks_view_first(self.deployment@, i as int);
                }
                match self.deployment[i].get(step) {
                    Some(a) => Some(a.clone()),
                    None => None,
                }
            },
            None => None,
        }
    }

    /// Record `(step, addr)` for network `chain`: create the network record
    /// if absent, keep any address already recorded for the step, and leave
    /// every other network's records unchanged.
    pub fn record(&mut self, chain: &str, step: &str, addr: String)
        requires
            old(self).wf(),
        ensures
            final(self).wf(),
            final(self)@ == ledger_record(old(self)@, chain@, step@, addr@),
    {
        let ghost m0 = old(self)@;
        let idx = self.network(chain);
        let ghost s1 = self.deployment@;
        let mut nd = self.deployment.remove(idx);
        let ghost nd0 = nd;
        nd.record(step, addr);
        proof {
            assert(self.deployment@ == s1.remove(idx as int));
        }
        self.deployment.insert(idx, nd);
        proof {
            assert(self.deployment@ == s1.remove(idx as int).insert(idx as int, nd));
            assert(self.deployment@ =~= s1.update(idx as int, nd));
            lemma_networks_view_update(s1, idx as int, nd);
            assert(networks_view(s1).insert(nd.chain_id@, nd@) =~= ledger_record(
                m0,
                chain@,
                step@,
                addr@,
            ));
            assert forall|x: int, y: int|
                0 <= x < y < self.deployment@.len() implies self.deployment@[x].chain_id@
                != self.deployment@[y].chain_id@ by {
                assert(self.deployment@[x] == s1.update(idx as int, nd)[x]);
            }
            assert forall|i: int|
                0 <= i < self.deployment@.len() implies (#[trigger] self.deployment@[i]).wf() by {
                if i != idx as int {
                    assert(self.deployment@[i] == s1[i]);
                }
            }
        }
    }
}

/// Recording an entry for one network never changes what the ledger holds
/// for any other network.
pub proof fn lemma_record_preserves_other_networks(
    m: Map<Seq<char>, Map<Seq<char>, Seq<char>>>,
    chain: Seq<char>,
    step: Seq<char>,
    addr: Seq<char>,
    other: Seq<char>,
)
    requires
        other != chain,
    ensures
        ledger_record(m, chain, step, addr).contains_key(other) == m.contains_key(other),
        m.contains_key(other) ==> ledger_record(m, chain, step, addr)[other] == m[other],
{
}

/// Recording an entry for a step that already has one changes nothing at
/// all: a migration leaves the recorded address as it was.
pub proof fn lemma_record_existing_is_noop(
    m: Map<Seq<char>, Map<Seq<char>, Seq<char>>>,
    chain: Seq<char>,
    step: Seq<char>,
    addr: Seq<char>,
)
    requires
        m.contains_key(chain),
        m[chain].contains_key(step),
    ensures
        ledger_record(m, chain, step, addr) == m,
{
    assert(ledger_record(m, chain, step, addr) =~= m);
}

} // verus!
