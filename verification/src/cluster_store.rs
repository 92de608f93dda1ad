use vstd::prelude::*;
use vstd::string::*;
use vstd::utf8::encode_utf8;

use crate::chains::{spec_cluster_from_text, spec_cluster_endpoint, spec_cluster_name, Chains};
use crate::notification::NotificationInfo;
use crate::percent::{percent_encode_non_alphanumeric, spec_percent_encode};
use crate::text::str_eq;

verus! {

/// What a cluster entry is: its name, the cluster it belongs to, and its endpoint.
pub struct ClusterView {
    pub name: Seq<char>,
    pub cluster: Chains,
    pub endpoint: Seq<char>,
}

/// A named endpoint of a Solana cluster.
#[derive(Debug, PartialEq, Eq, PartialOrd, Ord)]
pub struct AdapterCluster {
    name: String,
    cluster: Chains,
    endpoint: String,
}

impl View for AdapterCluster {
    type V = ClusterView;

    closed spec fn view(&self) -> ClusterView {
        ClusterView { name: self.name@, cluster: self.cluster, endpoint: self.endpoint@ }
    }
}

/// The entry a built-in cluster starts with: named after the cluster, at its default endpoint.
pub open spec fn spec_builtin(c: Chains) -> ClusterView {
    ClusterView { name: spec_cluster_name(c), cluster: c, endpoint: spec_cluster_endpoint(c) }
}

/// The explorer query string for an entry: the cluster's own name when the entry
/// carries that name (localnet excepted), else a custom URL.
pub open spec fn spec_query_string(c: ClusterView) -> Seq<char> {
    if c.name == spec_cluster_name(c.cluster) && c.cluster != Chains::LocalNet {
        "?cluster="@ + spec_cluster_name(c.cluster)
    } else {
        "?cluster=custom&customUrl="@ + spec_percent_encode(encode_utf8(c.endpoint))
    }
}

/// An entry that does not carry its cluster's own name, or that is a localnet entry, is
/// shown in the explorer as a custom cluster whose URL is the percent-encoding of the
/// entry's own endpoint, whatever cluster the entry belongs to.
pub proof fn law_custom_query_uses_own_endpoint(c: ClusterView)
    requires
        c.name != spec_cluster_name(c.cluster) || c.cluster == Chains::LocalNet,
    ensures
        spec_query_string(c) == "?cluster=custom&customUrl="@ + spec_percent_encode(
            encode_utf8(c.endpoint),
        ),
{
}

/// An entry that carries its cluster's own name, localnet aside, is shown in the explorer
/// by that name, whatever its endpoint.
pub proof fn law_named_query_uses_name(c: ClusterView)
    requires
        c.name == spec_cluster_name(c.cluster),
        c.cluster != Chains::LocalNet,
    ensures
        spec_query_string(c) == "?cluster="@ + c.name,
{
}

impl AdapterCluster {
    /// The devnet entry.
    pub fn new() -> (res: Self)
        ensures
            res@ == spec_builtin(Chains::DevNet),
    {
        Self::devnet()
    }

    /// The same entry under another name.
    pub fn add_name(self, name: &str) -> (res: Self)
        ensures
            res@ == (ClusterView { name: name@, ..self@ }),
    {
        let mut this = self;
        this.name = name.to_owned();
        this
    }

    /// The same entry for another cluster.
    pub fn add_cluster(self, cluster: Chains) -> (res: Self)
        ensures
            res@ == (ClusterView { cluster: cluster, ..self@ }),
    {
        let mut this = self;
        this.cluster = cluster;
        this
    }

    /// The same entry at another endpoint.
    pub fn add_endpoint(self, endpoint: &str) -> (res: Self)
        ensures
            res@ == (ClusterView { endpoint: endpoint@, ..self@ }),
    {
        let mut this = self;
        this.endpoint = endpoint.to_owned();
        this
    }

    pub fn name(&self) -> (res: &str)
        ensures
            res@ == self@.name,
    {
        self.name.as_str()
    }

    pub fn cluster(&self) -> (res: Chains)
        ensures
            res == self@.cluster,
    {
        self.cluster
    }

    pub fn endpoint(&self) -> (res: &str)
        ensures
            res@ == self@.endpoint,
    {
        self.endpoint.as_str()
    }

    /// The query string that points the Solana explorer at this entry.
    pub fn query_string(&self) -> (res: String)
        ensures
            res@ == spec_query_string(self@),
    {
        if str_eq(self.name.as_str(), self.cluster.name()) && self.cluster != Chains::LocalNet {
            let mut s = String::from_str("?cluster=");
            s.append(self.cluster.name());
            s
        } else {
            let mut s = String::from_str("?cluster=custom&customUrl=");
            let encoded = percent_encode_non_alphanumeric(self.endpoint.as_str());
            s.append(encoded.as_str());
            s
        }
    }

    fn builtin(cluster: Chains) -> (res: Self)
        ensures
            res@ == spec_builtin(cluster),
    {
        AdapterCluster {
            name: cluster.name().to_owned(),
            cluster,
            endpoint: cluster.endpoint().to_owned(),
        }
    }

    pub fn devnet() -> (res: Self)
        ensures
            res@ == spec_builtin(Chains::DevNet),
    {
        Self::builtin(Chains::DevNet)
    }

    pub fn mainnet() -> (res: Self)
        ensures
            res@ == spec_builtin(Chains::MainNet),
    {
        Self::builtin(Chains::MainNet)
    }

    pub fn testnet() -> (res: Self)
        ensures
            res@ == spec_builtin(Chains::TestNet),
    {
        Self::builtin(Chains::TestNet)
    }

    pub fn localnet() -> (res: Self)
        ensures
            res@ == spec_builtin(Chains::LocalNet),
    {
        Self::builtin(Chains::LocalNet)
    }
}

impl Default for AdapterCluster {
    /// The devnet entry.
    fn default() -> (res: Self)
        ensures
            res@ == spec_builtin(Chains::DevNet),
    {
        Self::devnet()
    }
}

impl Clone for AdapterCluster {
    fn clone(&self) -> (res: Self)
        ensures
            res@ == self@,
    {
        AdapterCluster { name: self.name.clone(), cluster: self.cluster, endpoint: self.endpoint.clone() }
    }
}

/// The entries of a list, as values.
pub open spec fn views(clusters: Seq<AdapterCluster>) -> Seq<ClusterView> {
    clusters.map_values(|c: AdapterCluster| c@)
}

/// No two entries share a name, and no two share an endpoint.
pub open spec fn distinct_entries(clusters: Seq<ClusterView>) -> bool {
    forall|i: int, j: int|
        0 <= i < clusters.len() && 0 <= j < clusters.len() && i != j ==> {
            &&& #[trigger] clusters[i].name != #[trigger] clusters[j].name
            &&& clusters[i].endpoint != clusters[j].endpoint
        }
}

/// The entry has this name or this endpoint.
pub open spec fn entry_clashes(c: ClusterView, name: Seq<char>, endpoint: Seq<char>) -> bool {
    c.name == name || c.endpoint == endpoint
}

/// Some entry has this name or this endpoint.
pub open spec fn clashes(clusters: Seq<ClusterView>, name: Seq<char>, endpoint: Seq<char>) -> bool {
    exists|i: int| 0 <= i < clusters.len() && #[trigger] entry_clashes(clusters[i], name, endpoint)
}

/// The index of the first entry in `clusters[from..]` named `name`.
pub open spec fn first_cluster_named(clusters: Seq<ClusterView>, name: Seq<char>, from: int) -> Option<int>
    decreases clusters.len() - from,
{
    if from < 0 || from >= clusters.len() {
        None
    } else if clusters[from].name == name {
        Some(from)
    } else {
        first_cluster_named(clusters, name, from + 1)
    }
}

/// `first_cluster_named` finds the lowest index at or after `from` with that name.
pub proof fn lemma_first_cluster_named(clusters: Seq<ClusterView>, name: Seq<char>, from: int)
    requires
        0 <= from,
    ensures
        first_cluster_named(clusters, name, from) matches Some(i) ==> {
            &&& from <= i < clusters.len()
            &&& clusters[i].name == name
            &&& forall|j: int| from <= j < i ==> clusters[j].name != name
        },
        first_cluster_named(clusters, name, from) is None ==> forall|j: int|
            from <= j < clusters.len() ==> clusters[j].name != name,
    decreases clusters.len() - from,
{
    if from < clusters.len() && clusters[from].name != name {
        lemma_first_cluster_named(clusters, name, from + 1);
    }
}

/// Adding an entry that clashes with none keeps the entries distinct.
pub proof fn lemma_push_keeps_distinct(clusters: Seq<ClusterView>, entry: ClusterView)
    requires
        distinct_entries(clusters),
        !clashes(clusters, entry.name, entry.endpoint),
    ensures
        distinct_entries(clusters.push(entry)),
{
    let s = clusters.push(entry);
    assert forall|i: int, j: int|
        0 <= i < s.len() && 0 <= j < s.len() && i != j implies {
            &&& #[trigger] s[i].name != #[trigger] s[j].name
            &&& s[i].endpoint != s[j].endpoint
        } by {
        if i == clusters.len() {
            assert(!entry_clashes(clusters[j], entry.name, entry.endpoint));
        } else if j == clusters.len() {
            assert(!entry_clashes(clusters[i], entry.name, entry.endpoint));
        } else {
            assert(s[i] == clusters[i] && s[j] == clusters[j]);
            assert(clusters[i].name != clusters[j].name);
        }
    }
}

/// Taking an entry out keeps the entries distinct.
pub proof fn lemma_remove_keeps_distinct(clusters: Seq<ClusterView>, k: int)
    requires
        distinct_entries(clusters),
        0 <= k < clusters.len(),
    ensures
        distinct_entries(clusters.remove(k)),
{
    let s = clusters.remove(k);
    assert forall|i: int, j: int|
        0 <= i < s.len() && 0 <= j < s.len() && i != j implies {
            &&& #[trigger] s[i].name != #[trigger] s[j].name
            &&& s[i].endpoint != s[j].endpoint
        } by {
        let a = if i < k { i } else { i + 1 };
        let b = if j < k { j } else { j + 1 };
        assert(s[i] == clusters[a]);
        assert(s[j] == clusters[b]);
        assert(clusters[a].name != clusters[b].name);
    }
}

proof fn lemma_pushed_is_first_named(clusters: Seq<ClusterView>, entry: ClusterView, from: int)
    requires
        0 <= from <= clusters.len(),
        !clashes(clusters, entry.name, entry.endpoint),
    ensures
        first_cluster_named(clusters.push(entry), entry.name, from) == Some(clusters.len() as int),
    decreases clusters.len() - from,
{
    let s = clusters.push(entry);
    if from < clusters.len() {
        assert(!entry_clashes(clusters[from], entry.name, entry.endpoint));
        assert(s[from] == clusters[from]);
        lemma_pushed_is_first_named(clusters, entry, from + 1);
    }
}

/// Adding an entry that clashes with no other, then removing the first entry with its
/// name, gives back the entries as they were: the entry added is the one found.
pub proof fn law_add_then_remove_restores(clusters: Seq<ClusterView>, entry: ClusterView)
    requires
        !clashes(clusters, entry.name, entry.endpoint),
    ensures
        first_cluster_named(clusters.push(entry), entry.name, 0) == Some(clusters.len() as int),
        clusters.push(entry).remove(clusters.len() as int) == clusters,
{
    lemma_pushed_is_first_named(clusters, entry, 0);
    assert(clusters.push(entry).remove(clusters.len() as int) =~= clusters);
}

/// A sequence with each run of equal neighbours kept once.
pub open spec fn spec_dedup(s: Seq<Chains>) -> Seq<Chains>
    decreases s.len(),
{
    if s.len() <= 1 {
        s
    } else {
        let rest = spec_dedup(s.drop_last());
        if s.last() == s[s.len() - 2] {
            rest
        } else {
            rest.push(s.last())
        }
    }
}

/// Removing repeated neighbours keeps the last element.
pub proof fn lemma_dedup_last(s: Seq<Chains>)
    requires
        s.len() > 0,
    ensures
        spec_dedup(s).len() > 0,
        spec_dedup(s).last() == s.last(),
    decreases s.len(),
{
    if s.len() > 1 {
        lemma_dedup_last(s.drop_last());
    }
}

/// After removing repeated neighbours, no two neighbours are equal, and every element
/// left comes from the sequence it was taken from.
pub proof fn law_dedup_no_equal_neighbours(s: Seq<Chains>)
    ensures
        forall|i: int| 0 <= i < spec_dedup(s).len() - 1 ==> #[trigger] spec_dedup(s)[i] != spec_dedup(s)[i + 1],
        forall|i: int| 0 <= i < spec_dedup(s).len() ==> s.contains(#[trigger] spec_dedup(s)[i]),
        spec_dedup(s).len() <= s.len(),
    decreases s.len(),
{
    if s.len() > 1 {
        let rest = spec_dedup(s.drop_last());
        law_dedup_no_equal_neighbours(s.drop_last());
        lemma_dedup_last(s.drop_last());
        assert forall|i: int| 0 <= i < spec_dedup(s).len() implies s.contains(#[trigger] spec_dedup(s)[i]) by {
            if i < rest.len() {
                let j = choose|j: int| 0 <= j < s.drop_last().len() && s.drop_last()[j] == rest[i];
                assert(s[j] == rest[i]);
            } else {
                assert(s[s.len() - 1] == spec_dedup(s)[i]);
            }
        }
    }
}

/// What a cluster store holds: its entries, in order, and the active entry.
pub struct StoreView {
    pub clusters: Seq<ClusterView>,
    pub active: ClusterView,
}

/// The changes the cluster store accepts.
#[derive(Debug, PartialEq, Eq)]
pub enum ClusterStoreActions {
    /// Add an entry, unless one has the same name or endpoint.
    Add { name: String, endpoint: String, network: String },
    /// Remove the first entry with this name.
    Remove { cluster_name: String },
    /// Make the first entry with this name the active one.
    SetActive { name: String },
}

/// The clusters the user can pick from, and the one in use.
#[derive(Debug, PartialEq, Eq, PartialOrd, Ord)]
pub struct ClusterStore {
    clusters: Vec<AdapterCluster>,
    active_cluster: AdapterCluster,
}

impl View for ClusterStore {
    type V = StoreView;

    closed spec fn view(&self) -> StoreView {
        StoreView { clusters: views(self.clusters@), active: self.active_cluster@ }
    }
}

/// The notification text for an entry that was added or made active.
pub open spec fn added_text(name: Seq<char>) -> Seq<char> {
    "`"@ + name + "` cluster added!"@
}

/// The notification text for an entry that was removed.
pub open spec fn removed_text(name: Seq<char>) -> Seq<char> {
    "`"@ + name + "` removed!"@
}

/// The notification text for a name that no entry has.
pub open spec fn not_found_text(name: Seq<char>) -> Seq<char> {
    "`"@ + name + "` cluster not found!"@
}

/// The notification text for an entry that clashes with one already there.
pub open spec fn exists_text() -> Seq<char> {
    "Cluster exists, make sure endpoint or name are not the same"@
}

fn quoted_notice(name: &str, tail: &str) -> (res: String)
    ensures
        res@ == "`"@ + name@ + tail@,
{
    let mut s = String::from_str("`");
    s.append(name);
    s.append(tail);
    s
}

impl Default for ClusterStore {
    /// No entries; devnet active.
    fn default() -> (res: Self)
        ensures
            res@.clusters == Seq::<ClusterView>::empty(),
            res@.active == spec_builtin(Chains::DevNet),
    {
        let res = ClusterStore { clusters: Vec::new(), active_cluster: AdapterCluster::devnet() };
        assert(views(res.clusters@) =~= Seq::<ClusterView>::empty());
        res
    }
}

impl ClusterStore {
    /// The four built-in clusters (devnet, localnet, testnet, mainnet), devnet active.
    pub fn new() -> (res: Self)
        ensures
            res@.clusters == seq![
                spec_builtin(Chains::DevNet),
                spec_builtin(Chains::LocalNet),
                spec_builtin(Chains::TestNet),
                spec_builtin(Chains::MainNet),
            ],
            res@.active == spec_builtin(Chains::DevNet),
            distinct_entries(res@.clusters),
    {
        proof {
            reveal_strlit("devnet");
            reveal_strlit("localnet");
            reveal_strlit("testnet");
            reveal_strlit("mainnet");
            reveal_strlit("https://api.devnet.solana.com");
            reveal_strlit("http://localhost:8899");
            reveal_strlit("https://api.testnet.solana.com");
            reveal_strlit("https://api.mainnet-beta.solana.com");
        }
        let mut clusters: Vec<AdapterCluster> = Vec::new();
        clusters.push(AdapterCluster::devnet());
        clusters.push(AdapterCluster::localnet());
        clusters.push(AdapterCluster::testnet());
        clusters.push(AdapterCluster::mainnet());
        let res = ClusterStore { clusters, active_cluster: AdapterCluster::devnet() };
        assert(views(res.clusters@) =~= seq![
            spec_builtin(Chains::DevNet),
            spec_builtin(Chains::LocalNet),
            spec_builtin(Chains::TestNet),
            spec_builtin(Chains::MainNet),
        ]);
        proof {
            let v = res@.clusters;
            assert(v[0].name.len() == 6 && v[1].name.len() == 8 && v[2].name.len() == 7 && v[3].name.len() == 7);
            assert(v[2].name[0] != v[3].name[0]);
            assert(v[0].endpoint.len() == 29 && v[1].endpoint.len() == 21);
            assert(v[2].endpoint.len() == 30 && v[3].endpoint.len() == 35);
            assert(distinct_entries(v));
        }
        res
    }

    /// A copy of the entries.
    pub fn get_clusters(&self) -> (res: Vec<AdapterCluster>)
        ensures
            views(res@) == self@.clusters,
    {
        let n = self.clusters.len();
        let mut out: Vec<AdapterCluster> = Vec::new();
        let mut i: usize = 0;
        while i < n
            invariant
                n == self.clusters@.len(),
                i <= n,
                out@.len() == i,
                views(out@) =~= views(self.clusters@).take(i as int),
            decreases n - i,
        {
            let c = self.clusters[i].clone();
            assert(c@ == self.clusters@[i as int]@);
            let ghost prev = out@;
            out.push(c);
            assert(out@ == prev.push(c));
            assert(views(out@).len() == i + 1);
            assert(views(out@)[i as int] == c@);
            assert(forall|j: int| 0 <= j < i ==> views(out@)[j] == views(prev)[j]);
            assert(views(out@) =~= views(self.clusters@).take(i + 1));
            i = i + 1;
        }
        assert(views(self.clusters@).take(n as int) =~= views(self.clusters@));
        out
    }

    /// The clusters of the entries, in order, with repeated neighbours kept once.
    pub fn get_networks(&self) -> (res: Vec<Chains>)
        ensures
            res@ == spec_dedup(self@.clusters.map_values(|c: ClusterView| c.cluster)),
    {
        let ghost all = self@.clusters.map_values(|c: ClusterView| c.cluster);
        let n = self.clusters.len();
        let mut out: Vec<Chains> = Vec::new();
        let mut i: usize = 0;
        while i < n
            invariant
                n == self.clusters@.len(),
                all == views(self.clusters@).map_values(|c: ClusterView| c.cluster),
                i <= n,
                out@ == spec_dedup(all.take(i as int)),
            decreases n - i,
        {
            let c = self.clusters[i].cluster;
            assert(all[i as int] == c);
            assert(all.take(i + 1).drop_last() =~= all.take(i as int));
            if i == 0 {
                assert(all.take(1) =~= seq![c]);
                out.push(c);
            } else {
                proof {
                    lemma_dedup_last(all.take(i as int));
                }
                let last = out[out.len() - 1];
                assert(all.take(i + 1)[i - 1] == all.take(i as int).last());
                if last != c {
                    out.push(c);
                }
            }
            i = i + 1;
        }
        assert(all.take(n as int) =~= all);
        out
    }

    /// A copy of the active entry.
    pub fn active_cluster(&self) -> (res: AdapterCluster)
        ensures
            res@ == self@.active,
    {
        self.active_cluster.clone()
    }

    /// A copy of the first entry named `name`, if any.
    pub fn get_cluster(&self, name: &str) -> (res: Option<AdapterCluster>)
        ensures
            match first_cluster_named(self@.clusters, name@, 0) {
                Some(i) => res is Some && res.unwrap()@ == self@.clusters[i],
                None => res is None,
            },
    {
        proof {
            lemma_first_cluster_named(self@.clusters, name@, 0);
        }
        match self.position_named(name) {
            Some(i) => {
                let c = self.clusters[i].clone();
                assert(c@ == self@.clusters[i as int]);
                assert(first_cluster_named(self@.clusters, name@, 0) == Some(i as int));
                Some(c)
            },
            None => None,
        }
    }

    fn position_named(&self, name: &str) -> (res: Option<usize>)
        ensures
            match res {
                Some(i) => first_cluster_named(self@.clusters, name@, 0) == Some(i as int),
                None => first_cluster_named(self@.clusters, name@, 0) is None,
            },
    {
        let n = self.clusters.len();
        let mut i: usize = 0;
        while i < n
            invariant
                n == self.clusters@.len(),
                i <= n,
                first_cluster_named(self@.clusters, name@, 0) == first_cluster_named(
                    self@.clusters,
                    name@,
                    i as int,
                ),
            decreases n - i,
        {
            assert(self@.clusters[i as int] == self.clusters@[i as int]@);
            if str_eq(self.clusters[i].name.as_str(), name) {
                return Some(i);
            }
            i = i + 1;
        }
        None
    }

    fn clashing(&self, name: &str, endpoint: &str) -> (res: bool)
        ensures
            res == clashes(self@.clusters, name@, endpoint@),
    {
        let n = self.clusters.len();
        let mut i: usize = 0;
        while i < n
            invariant
                n == self.clusters@.len(),
                i <= n,
                forall|j: int| 0 <= j < i ==> !#[trigger] entry_clashes(self@.clusters[j], name@, endpoint@),
            decreases n - i,
        {
            assert(self@.clusters[i as int] == self.clusters@[i as int]@);
            let same_name = str_eq(self.clusters[i].name.as_str(), name);
            let same_endpoint = str_eq(self.clusters[i].endpoint.as_str(), endpoint);
            assert(self@.clusters[i as int].name == self.clusters@[i as int].name@);
            assert(self@.clusters[i as int].endpoint == self.clusters@[i as int].endpoint@);
            if same_name || same_endpoint {
                assert(entry_clashes(self@.clusters[i as int], name@, endpoint@));
                return true;
            }
            i = i + 1;
        }
        false
    }

    /// Applies an action to the store. Hands back the notification to show and whether
    /// the views must render again.
    pub fn reduce(&mut self, action: ClusterStoreActions) -> (res: (NotificationInfo, bool))
        ensures
            distinct_entries(old(self)@.clusters) ==> distinct_entries(final(self)@.clusters),
            match action {
                ClusterStoreActions::Add { name, endpoint, network } => {
                    let entry = ClusterView {
                        name: name@,
                        cluster: match spec_cluster_from_text(network@) { Some(c) => c, None => Chains::DevNet },
                        endpoint: endpoint@,
                    };
                    &&& res.1
                    &&& final(self)@.active == old(self)@.active
                    &&& if clashes(old(self)@.clusters, name@, endpoint@) {
                        &&& final(self)@.clusters == old(self)@.clusters
                        &&& res.0.spec_message() == exists_text()
                        &&& res.0.spec_secs() == crate::notification::ERROR_NOTIFICATION_SECS
                    } else {
                        &&& final(self)@.clusters == old(self)@.clusters.push(entry)
                        &&& res.0.spec_message() == added_text(name@)
                        &&& res.0.spec_secs() == crate::notification::NOTIFICATION_SECS
                    }
                },
                ClusterStoreActions::Remove { cluster_name } => {
                    &&& res.1
                    &&& final(self)@.active == old(self)@.active
                    &&& res.0.spec_secs() == crate::notification::ERROR_NOTIFICATION_SECS
                    &&& match first_cluster_named(old(self)@.clusters, cluster_name@, 0) {
                        Some(i) => {
                            &&& final(self)@.clusters == old(self)@.clusters.remove(i)
                            &&& res.0.spec_message() == removed_text(cluster_name@)
                        },
                        None => {
                            &&& final(self)@.clusters == old(self)@.clusters
                            &&& res.0.spec_message() == not_found_text(cluster_name@)
                        },
                    }
                },
                ClusterStoreActions::SetActive { name } => {
                    &&& final(self)@.clusters == old(self)@.clusters
                    &&& match first_cluster_named(old(self)@.clusters, name@, 0) {
                        Some(i) => {
                            &&& res.1
                            &&& final(self)@.active == old(self)@.clusters[i]
                            &&& res.0.spec_message() == added_text(name@)
                            &&& res.0.spec_secs() == crate::notification::NOTIFICATION_SECS
                        },
                        None => {
                            &&& !res.1
                            &&& final(self)@.active == old(self)@.active
                            &&& res.0.spec_message() == not_found_text(name@)
                            &&& res.0.spec_secs() == crate::notification::ERROR_NOTIFICATION_SECS
                        },
                    }
                },
            },
    {
        match action {
            ClusterStoreActions::Add { name, endpoint, network } => {
                let cluster = Chains::from_text_or_default(network.as_str());
                let new_cluster = AdapterCluster::new()
                    .add_name(name.as_str())
                    .add_endpoint(endpoint.as_str())
                    .add_cluster(cluster);
                if self.clashing(name.as_str(), endpoint.as_str()) {
                    (NotificationInfo::error("Cluster exists, make sure endpoint or name are not the same"), true)
                } else {
                    let notice = quoted_notice(name.as_str(), "` cluster added!");
                    proof {
                        if distinct_entries(self@.clusters) {
                            lemma_push_keeps_distinct(self@.clusters, new_cluster@);
                        }
                    }
                    self.clusters.push(new_cluster);
                    assert(views(self.clusters@) =~= views(old(self).clusters@).push(new_cluster@));
                    (NotificationInfo::new(notice.as_str()), true)
                }
            },
            ClusterStoreActions::Remove { cluster_name } => {
                let notice;
                proof {
                    lemma_first_cluster_named(self@.clusters, cluster_name@, 0);
                }
                match self.position_named(cluster_name.as_str()) {
                    Some(i) => {
                        proof {
                            if distinct_entries(self@.clusters) {
                                lemma_remove_keeps_distinct(self@.clusters, i as int);
                            }
                        }
                        let _ = self.clusters.remove(i);
                        assert(views(self.clusters@) =~= views(old(self).clusters@).remove(i as int));
                        notice = quoted_notice(cluster_name.as_str(), "` removed!");
                    },
                    None => {
                        notice = quoted_notice(cluster_name.as_str(), "` cluster not found!");
                    },
                }
                (NotificationInfo::error(notice.as_str()), true)
            },
            ClusterStoreActions::SetActive { name } => {
                proof {
                    lemma_first_cluster_named(self@.clusters, name@, 0);
                }
                match self.get_cluster(name.as_str()) {
                    Some(found) => {
                        self.active_cluster = found;
                        let notice = quoted_notice(name.as_str(), "` cluster added!");
                        (NotificationInfo::new(notice.as_str()), true)
                    },
                    None => {
                        let notice = quoted_notice(name.as_str(), "` cluster not found!");
                        (NotificationInfo::error(notice.as_str()), false)
                    },
                }
            },
        }
    }
}

} // verus!
