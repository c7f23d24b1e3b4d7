//! The node resource that this host registers, and its builder.

use vstd::prelude::*;
use vstd::string::*;

verus! {

/// One key with its value.
#[derive(Debug)]
pub struct Entry {
    pub key: String,
    pub value: String,
}

/// A map from strings to strings, kept as a list in which no key occurs
/// twice.
#[derive(Debug)]
pub struct StringMap {
    pub entries: Vec<Entry>,
}

/// Some entry of `entries` has the key `k`.
pub open spec fn has_key(entries: Seq<Entry>, k: Seq<char>) -> bool {
    exists|i: int| 0 <= i < entries.len() && (#[trigger] entries[i]).key@ == k
}

/// The place of an entry with the key `k`.
pub open spec fn position(entries: Seq<Entry>, k: Seq<char>) -> int {
    choose|i: int| 0 <= i < entries.len() && (#[trigger] entries[i]).key@ == k
}

/// No key occurs twice.
pub open spec fn distinct_keys(entries: Seq<Entry>) -> bool {
    forall|i: int, j: int|
        0 <= i < j < entries.len() ==> (#[trigger] entries[i]).key@ != (#[trigger] entries[j]).key@
}

/// The map that a list of entries stands for.
pub open spec fn entries_map(entries: Seq<Entry>) -> Map<Seq<char>, Seq<char>> {
    Map::new(|k: Seq<char>| has_key(entries, k), |k: Seq<char>| entries[position(entries, k)].value@)
}

/// In a list without repeated keys, the value under a key is that of the
/// one entry that has it.
pub proof fn lemma_value_at(entries: Seq<Entry>, i: int)
    requires
        distinct_keys(entries),
        0 <= i < entries.len(),
    ensures
        has_key(entries, entries[i].key@),
        entries_map(entries)[entries[i].key@] == entries[i].value@,
{
    let k = entries[i].key@;
    let p = position(entries, k);
    assert(0 <= p < entries.len() && entries[p].key@ == k);
    if p < i {
        assert(entries[p].key@ != entries[i].key@);
    } else if i < p {
        assert(entries[i].key@ != entries[p].key@);
    }
}

impl View for StringMap {
    type V = Map<Seq<char>, Seq<char>>;

    open spec fn view(&self) -> Map<Seq<char>, Seq<char>> {
        entries_map(self.entries@)
    }
}

impl StringMap {
    pub open spec fn wf(&self) -> bool {
        distinct_keys(self.entries@)
    }

    /// The empty map.
    pub fn new() -> (m: StringMap)
        ensures
            m.wf(),
            m@ == Map::<Seq<char>, Seq<char>>::empty(),
    {
        let m = StringMap { entries: Vec::new() };
        assert(m@ =~= Map::<Seq<char>, Seq<char>>::empty());
        m
    }

    /// The number of keys.
    pub fn len(&self) -> (n: usize)
        ensures
            n == self.entries@.len(),
    {
        self.entries.len()
    }

    /// The value under `key`, if the map has the key.
    pub fn get(&self, key: &str) -> (r: Option<&String>)
        requires
            self.wf(),
        ensures
            r is Some <==> self@.contains_key(key@),
            r is Some ==> r->0@ == self@[key@],
    {
        let wanted = String::from_str(key);
        let mut i: usize = 0;
        while i < self.entries.len()
            invariant
                i <= self.entries.len(),
                self.wf(),
                wanted@ == key@,
                forall|j: int| 0 <= j < i ==> (#[trigger] self.entries@[j]).key@ != key@,
            decreases self.entries.len() - i,
        {
            if self.entries[i].key == wanted {
                proof {
                    lemma_value_at(self.entries@, i as int);
                }
                return Some(&self.entries[i].value);
            }
            i += 1;
        }
        None
    }

    /// Sets the value under `key`, replacing an earlier one.
    pub fn insert(&mut self, key: &str, value: &str)
        requires
            old(self).wf(),
        ensures
            final(self).wf(),
            final(self)@ == old(self)@.insert(key@, value@),
    {
        let entry = Entry { key: String::from_str(key), value: String::from_str(value) };
        let ghost before = self.entries@;
        let mut i: usize = 0;
        while i < self.entries.len()
            invariant
                i <= self.entries.len(),
                self.entries@ == before,
                before == old(self).entries@,
                entry.key@ == key@,
                entry.value@ == value@,
                distinct_keys(before),
                forall|j: int| 0 <= j < i ==> (#[trigger] before[j]).key@ != key@,
            decreases self.entries.len() - i,
        {
            if self.entries[i].key == entry.key {
                self.entries.set(i, entry);
                proof {
                    lemma_entry_set(before, self.entries@, i as int, key@, value@);
                }
                return ;
            }
            i += 1;
        }
        self.entries.push(entry);
        proof {
            lemma_entry_set(before, self.entries@, before.len() as int, key@, value@);
        }
    }
}

/// Setting the entry at `p` to `key` and `value`, where `p` is the place of
/// `key` in `before` or, if `before` lacks the key, the place behind its
/// last entry, keeps the keys distinct and gives the map with `key` set to
/// `value`.
pub proof fn lemma_entry_set(
    before: Seq<Entry>,
    after: Seq<Entry>,
    p: int,
    key: Seq<char>,
    value: Seq<char>,
)
    requires
        distinct_keys(before),
        0 <= p <= before.len(),
        p < before.len() ==> before[p].key@ == key && after.len() == before.len(),
        p == before.len() ==> after.len() == before.len() + 1 && forall|i: int|
            0 <= i < before.len() ==> (#[trigger] before[i]).key@ != key,
        after[p].key@ == key,
        after[p].value@ == value,
        forall|i: int| 0 <= i < before.len() && i != p ==> #[trigger] after[i] == before[i],
    ensures
        distinct_keys(after),
        entries_map(after) == entries_map(before).insert(key, value),
{
    assert(distinct_keys(after)) by {
        assert forall|a: int, b: int| 0 <= a < b < after.len() implies (#[trigger] after[a]).key@ != (
        #[trigger] after[b]).key@ by {
            if a < before.len() {
                assert(after[a].key@ == before[a].key@);
            }
            if b < before.len() {
                assert(after[b].key@ == before[b].key@);
            }
        }
    }
    assert forall|k: Seq<char>| has_key(after, k) <==> (k == key || has_key(before, k)) by {
        if has_key(after, k) {
            let q = position(after, k);
            if q < before.len() {
                assert(after[q].key@ == before[q].key@);
            }
        }
        if has_key(before, k) {
            let q = position(before, k);
            assert(after[q].key@ == k);
        }
        if k == key {
            assert(after[p].key@ == k);
        }
    }
    assert forall|k: Seq<char>| has_key(after, k) implies #[trigger] entries_map(after)[k]
        == before_or(before, key, value, k) by {
        let q = position(after, k);
        lemma_value_at(after, q);
        if q != p {
            assert(after[q] == before[q]);
            lemma_value_at(before, q);
        }
    }
    assert(entries_map(after) =~= entries_map(before).insert(key, value));
}

/// The value under `k` once `key` was set to `value`.
pub open spec fn before_or(before: Seq<Entry>, key: Seq<char>, value: Seq<char>, k: Seq<char>)
    -> Seq<char> {
    if k == key {
        value
    } else {
        entries_map(before)[k]
    }
}

/// What a node resource holds, as mathematical values.
pub struct NodeView {
    pub name: Seq<char>,
    pub annotations: Map<Seq<char>, Seq<char>>,
    pub labels: Map<Seq<char>, Seq<char>>,
    pub pod_cidr: Seq<char>,
    pub architecture: Seq<char>,
    pub kube_proxy_version: Seq<char>,
    pub kubelet_version: Seq<char>,
    pub container_runtime_version: Seq<char>,
    pub operating_system: Seq<char>,
    pub capacity: Map<Seq<char>, Seq<char>>,
    pub allocatable: Map<Seq<char>, Seq<char>>,
    pub port: int,
}

/// The node resource as it is submitted to the cluster. Taints, conditions
/// and addresses are always empty at registration and not represented.
#[derive(Debug)]
pub struct KubeNode {
    pub name: String,
    pub annotations: StringMap,
    pub labels: StringMap,
    pub pod_cidr: String,
    pub architecture: String,
    pub kube_proxy_version: String,
    pub kubelet_version: String,
    pub container_runtime_version: String,
    pub operating_system: String,
    pub capacity: StringMap,
    pub allocatable: StringMap,
    pub port: i32,
}

/// A node definition, ready to be submitted.
#[derive(Debug)]
pub struct Node(pub KubeNode);

/// Builder for a node definition.
#[derive(Debug)]
pub struct Builder {
    pub name: String,
    pub annotations: StringMap,
    pub labels: StringMap,
    pub pod_cidr: String,
    pub architecture: String,
    pub kube_proxy_version: String,
    pub kubelet_version: String,
    pub container_runtime_version: String,
    pub operating_system: String,
    pub capacity: StringMap,
    pub allocatable: StringMap,
    pub port: i32,
}

impl View for KubeNode {
    type V = NodeView;

    open spec fn view(&self) -> NodeView {
        NodeView {
            name: self.name@,
            annotations: self.annotations@,
            labels: self.labels@,
            pod_cidr: self.pod_cidr@,
            architecture: self.architecture@,
            kube_proxy_version: self.kube_proxy_version@,
            kubelet_version: self.kubelet_version@,
            container_runtime_version: self.container_runtime_version@,
            operating_system: self.operating_system@,
            capacity: self.capacity@,
            allocatable: self.allocatable@,
            port: self.port as int,
        }
    }
}

impl View for Builder {
    type V = NodeView;

    open spec fn view(&self) -> NodeView {
        NodeView {
            name: self.name@,
            annotations: self.annotations@,
            labels: self.labels@,
            pod_cidr: self.pod_cidr@,
            architecture: self.architecture@,
            kube_proxy_version: self.kube_proxy_version@,
            kubelet_version: self.kubelet_version@,
            container_runtime_version: self.container_runtime_version@,
            operating_system: self.operating_system@,
            capacity: self.capacity@,
            allocatable: self.allocatable@,
            port: self.port as int,
        }
    }
}

/// The definition that a fresh builder holds.
pub open spec fn default_node() -> NodeView {
    NodeView {
        name: "krustlet"@,
        annotations: Map::empty(),
        labels: Map::empty(),
        pod_cidr: "10.244.0.0/24"@,
        architecture: ""@,
        kube_proxy_version: "v1.17.0"@,
        kubelet_version: "v1.24.7"@,
        container_runtime_version: "mvp"@,
        operating_system: "linux"@,
        capacity: Map::empty(),
        allocatable: Map::empty(),
        port: 10250,
    }
}

impl KubeNode {
    /// All four maps are free of repeated keys.
    pub open spec fn wf(&self) -> bool {
        &&& self.annotations.wf()
        &&& self.labels.wf()
        &&& self.capacity.wf()
        &&& self.allocatable.wf()
    }
}

impl Node {
    /// A builder that holds the default definition.
    pub fn builder() -> (b: Builder)
        ensures
            b.wf(),
            b@ == default_node(),
    {
        Builder::default()
    }

    /// The node definition itself.
    pub fn into_inner(self) -> (n: KubeNode)
        ensures
            n == self.0,
    {
        self.0
    }
}

impl Default for Builder {
    fn default() -> (b: Builder)
        ensures
            b.wf(),
            b@ == default_node(),
    {
        Builder {
            name: String::from_str("krustlet"),
            annotations: StringMap::new(),
            labels: StringMap::new(),
            pod_cidr: String::from_str("10.244.0.0/24"),
            architecture: String::from_str(""),
            kube_proxy_version: String::from_str("v1.17.0"),
            kubelet_version: String::from_str("v1.24.7"),
            container_runtime_version: String::from_str("mvp"),
            operating_system: String::from_str("linux"),
            capacity: StringMap::new(),
            allocatable: StringMap::new(),
            port: 10250,
        }
    }
}

impl Builder {
    /// All four maps are free of repeated keys.
    pub open spec fn wf(&self) -> bool {
        &&& self.annotations.wf()
        &&& self.labels.wf()
        &&& self.capacity.wf()
        &&& self.allocatable.wf()
    }

    /// Sets the name of the node.
    pub fn set_name(&mut self, name: &str)
        ensures
            final(self).wf() == old(self).wf(),
            final(self)@ == (NodeView { name: name@, ..old(self)@ }),
    {
        self.name = String::from_str(name);
    }

    /// Sets the annotation `key` to `value`.
    pub fn add_annotation(&mut self, key: &str, value: &str)
        requires
            old(self).wf(),
        ensures
            final(self).wf(),
            final(self)@ == (NodeView {
                annotations: old(self)@.annotations.insert(key@, value@),
                ..old(self)@
            }),
    {
        self.annotations.insert(key, value);
    }

    /// Sets the label `key` to `value`.
    pub fn add_label(&mut self, key: &str, value: &str)
        requires
            old(self).wf(),
        ensures
            final(self).wf(),
            final(self)@ == (NodeView {
                labels: old(self)@.labels.insert(key@, value@),
                ..old(self)@
            }),
    {
        self.labels.insert(key, value);
    }

    /// Sets the capacity of the resource `key` to the quantity `value`.
    pub fn add_capacity(&mut self, key: &str, value: &str)
        requires
            old(self).wf(),
        ensures
            final(self).wf(),
            final(self)@ == (NodeView {
                capacity: old(self)@.capacity.insert(key@, value@),
                ..old(self)@
            }),
    {
        self.capacity.insert(key, value);
    }

    /// The node definition that the builder holds.
    pub fn build(self) -> (node: Node)
        requires
            self.wf(),
        ensures
            node.0.wf(),
            node.0@ == self@,
    {
        Node(
            KubeNode {
                name: self.name,
                annotations: self.annotations,
                labels: self.labels,
                pod_cidr: self.pod_cidr,
                architecture: self.architecture,
                kube_proxy_version: self.kube_proxy_version,
                kubelet_version: self.kubelet_version,
                container_runtime_version: self.container_runtime_version,
                operating_system: self.operating_system,
                capacity: self.capacity,
                allocatable: self.allocatable,
                port: self.port,
            },
        )
    }
}

} // verus!
