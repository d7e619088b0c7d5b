//! The in-process graph registry: which node has which endpoint on which
//! topic, and the name/type tables the introspection queries hand out.
//!
//! The registry itself is plain data with exact contracts; sharing it
//! between the nodes of one session is the context's affair.

use vstd::prelude::*;

verus! {

/// What role an endpoint plays on the graph.
#[derive(Clone, Copy, Debug, PartialEq, Eq, Structural)]
pub enum EndpointKind {
    Publisher,
    Subscription,
    Service,
    Client,
}

/// One endpoint's record on the graph.
pub struct EndpointRecord {
    /// The endpoint's role.
    pub kind: EndpointKind,
    /// The name of the node that owns the endpoint.
    pub node_name: String,
    /// The owning node's namespace, absolute.
    pub node_namespace: String,
    /// The fully qualified topic or service name.
    pub topic: String,
    /// The full message or service type name.
    pub message_type: String,
}

impl EndpointRecord {
    /// Whether the record is an endpoint of the given kind on the given
    /// fully qualified name.
    pub open spec fn matches_topic(self, kind: EndpointKind, topic: Seq<char>) -> bool {
        self.kind == kind && self.topic@ == topic
    }

    /// Whether the record belongs to the given node.
    pub open spec fn of_node(self, name: Seq<char>, namespace: Seq<char>) -> bool {
        self.node_name@ == name && self.node_namespace@ == namespace
    }
}

/// How many records of `s` are endpoints of `kind` on `topic`.
pub open spec fn count_matching(s: Seq<EndpointRecord>, kind: EndpointKind, topic: Seq<char>) -> nat
    decreases s.len(),
{
    if s.len() == 0 {
        0
    } else {
        count_matching(s.drop_last(), kind, topic) + (if s.last().matches_topic(kind, topic) {
            1nat
        } else {
            0nat
        })
    }
}

/// Whether `v` holds a string whose characters are `y`.
pub open spec fn lists_type(v: Seq<String>, y: Seq<char>) -> bool {
    exists|j: int| 0 <= j < v.len() && v[j]@ == y
}

/// A table of fully qualified names, each with the type names seen on it.
///
/// Keys are unique; the order of keys and of types is the order of first
/// sight.  Types are not deduplicated: membership, which is all the
/// contracts speak of, is unaffected.
pub struct TopicNamesAndTypes {
    /// The table: one entry per name, with every type name seen on it.
    pub entries: Vec<(String, Vec<String>)>,
}

impl TopicNamesAndTypes {
    /// Whether the table has an entry for `topic`.
    pub open spec fn has_key(self, topic: Seq<char>) -> bool {
        exists|i: int| 0 <= i < self.entries@.len() && self.entries@[i].0@ == topic
    }

    /// Whether the table lists `ty` under `topic`.
    pub open spec fn has_type(self, topic: Seq<char>, ty: Seq<char>) -> bool {
        exists|i: int, j: int|
            0 <= i < self.entries@.len() && self.entries@[i].0@ == topic && 0 <= j
                < self.entries@[i].1@.len() && self.entries@[i].1@[j]@ == ty
    }

    /// No two entries share a key.
    pub open spec fn keys_unique(self) -> bool {
        forall|i: int, j: int|
            0 <= i < j < self.entries@.len() ==> self.entries@[i].0@ != self.entries@[j].0@
    }

    /// An empty table.
    pub fn new() -> (r: TopicNamesAndTypes)
        ensures
            r.entries@.len() == 0,
            r.keys_unique(),
            forall|t: Seq<char>| !r.has_key(t),
            forall|t: Seq<char>, y: Seq<char>| !r.has_type(t, y),
    {
        TopicNamesAndTypes { entries: Vec::new() }
    }

    /// The position of `topic`'s entry, if the table has one.
    fn find_key(&self, topic: &String) -> (r: Option<usize>)
        ensures
            match r {
                Some(i) => i < self.entries@.len() && self.entries@[i as int].0@ == topic@,
                None => !self.has_key(topic@),
            },
    {
        let n = self.entries.len();
        for i in 0..n
            invariant
                n == self.entries@.len(),
                forall|j: int| 0 <= j < i ==> self.entries@[j].0@ != topic@,
        {
            if self.entries[i].0 == *topic {
                return Some(i);
            }
        }
        None
    }

    /// Records `ty` under `topic`, opening a new entry if the table has
    /// none for `topic` yet.
    fn add_type(&mut self, topic: &String, ty: &String)
        requires
            old(self).keys_unique(),
        ensures
            final(self).keys_unique(),
            forall|t: Seq<char>|
                #[trigger] final(self).has_key(t) <==> (old(self).has_key(t) || t == topic@),
            forall|t: Seq<char>, y: Seq<char>|
                #[trigger] final(self).has_type(t, y) <==> (old(self).has_type(t, y) || (t
                    == topic@ && y == ty@)),
    {
        match self.find_key(topic) {
            Some(i) => {
                self.entries[i].1.push(ty.clone());
                proof {
                    let e0 = old(self).entries@;
                    let e1 = self.entries@;
                    assert forall|t: Seq<char>| #[trigger]
                        self.has_key(t) <==> (old(self).has_key(t) || t == topic@) by {
                        if self.has_key(t) {
                            let k = choose|k: int| 0 <= k < e1.len() && e1[k].0@ == t;
                            assert(e0[k].0@ == t);
                        }
                        if old(self).has_key(t) {
                            let k = choose|k: int| 0 <= k < e0.len() && e0[k].0@ == t;
                            assert(e1[k].0@ == t);
                        }
                        if t == topic@ {
                            assert(e1[i as int].0@ == t);
                        }
                    }
                    assert forall|t: Seq<char>, y: Seq<char>| #[trigger]
                        self.has_type(t, y) <==> (old(self).has_type(t, y) || (t == topic@ && y
                        == ty@)) by {
                        let m = e0[i as int].1@.len() as int;
                        if self.has_type(t, y) {
                            let (k, j) = choose|k: int, j: int|
                                0 <= k < e1.len() && e1[k].0@ == t && 0 <= j < e1[k].1@.len()
                                    && e1[k].1@[j]@ == y;
                            if k == i as int && j == m {
                                assert(t == topic@ && y == ty@);
                            } else {
                                assert(0 <= j < e0[k].1@.len() && e0[k].1@[j]@ == y);
                            }
                        }
                        if old(self).has_type(t, y) {
                            let (k, j) = choose|k: int, j: int|
                                0 <= k < e0.len() && e0[k].0@ == t && 0 <= j < e0[k].1@.len()
                                    && e0[k].1@[j]@ == y;
                            assert(0 <= j < e1[k].1@.len() && e1[k].1@[j]@ == y);
                        }
                        if t == topic@ && y == ty@ {
                            assert(e1[i as int].0@ == t);
                            assert(e1[i as int].1@[m]@ == y);
                        }
                    }
                }
            },
            None => {
                let mut types: Vec<String> = Vec::new();
                types.push(ty.clone());
                self.entries.push((topic.clone(), types));
                proof {
                    let e0 = old(self).entries@;
                    let e1 = self.entries@;
                    let n = e0.len() as int;
                    assert forall|t: Seq<char>| #[trigger]
                        self.has_key(t) <==> (old(self).has_key(t) || t == topic@) by {
                        if self.has_key(t) {
                            let k = choose|k: int| 0 <= k < e1.len() && e1[k].0@ == t;
                            if k < n {
                                assert(e0[k].0@ == t);
                            }
                        }
                        if old(self).has_key(t) {
                            let k = choose|k: int| 0 <= k < e0.len() && e0[k].0@ == t;
                            assert(e1[k].0@ == t);
                        }
                        if t == topic@ {
                            assert(e1[n].0@ == t);
                        }
                    }
                    assert forall|t: Seq<char>, y: Seq<char>| #[trigger]
                        self.has_type(t, y) <==> (old(self).has_type(t, y) || (t == topic@ && y
                        == ty@)) by {
                        if self.has_type(t, y) {
                            let (k, j) = choose|k: int, j: int|
                                0 <= k < e1.len() && e1[k].0@ == t && 0 <= j < e1[k].1@.len()
                                    && e1[k].1@[j]@ == y;
                            if k < n {
                                assert(0 <= j < e0[k].1@.len() && e0[k].1@[j]@ == y);
                            } else {
                                assert(t == topic@ && y == ty@);
                            }
                        }
                        if old(self).has_type(t, y) {
                            let (k, j) = choose|k: int, j: int|
                                0 <= k < e0.len() && e0[k].0@ == t && 0 <= j < e0[k].1@.len()
                                    && e0[k].1@[j]@ == y;
                            assert(0 <= j < e1[k].1@.len() && e1[k].1@[j]@ == y);
                        }
                        if t == topic@ && y == ty@ {
                            assert(e1[n].0@ == t);
                            assert(e1[n].1@[0]@ == y);
                        }
                    }
                }
            },
        }
    }

    /// The types listed under `topic`, or `None` if the table has no
    /// entry for it.
    pub fn get(&self, topic: &str) -> (r: Option<&Vec<String>>)
        requires
            self.keys_unique(),
        ensures
            (r is Some) == self.has_key(topic@),
            forall|y: Seq<char>|
                r is Some ==> (#[trigger] self.has_type(topic@, y) <==> lists_type(r->0@, y)),
    {
        let key = topic.to_owned();
        match self.find_key(&key) {
            Some(i) => {
                let v = &self.entries[i].1;
                proof {
                    assert(self.has_key(topic@));
                    assert forall|y: Seq<char>| #[trigger]
                        self.has_type(topic@, y) <==> lists_type(v@, y) by {
                        if self.has_type(topic@, y) {
                            let (k, j) = choose|k: int, j: int|
                                0 <= k < self.entries@.len() && self.entries@[k].0@ == topic@ && 0
                                    <= j < self.entries@[k].1@.len() && self.entries@[k].1@[j]@
                                    == y;
                            assert(k == i as int);
                        }
                        if lists_type(v@, y) {
                            let j = choose|j: int| 0 <= j < v@.len() && v@[j]@ == y;
                            assert((i as int) < self.entries@.len() && self.entries@[i as int].0@
                                == topic@ && 0 <= j < self.entries@[i as int].1@.len()
                                && self.entries@[i as int].1@[j]@ == y);
                        }
                    }
                }
                Some(v)
            },
            None => None,
        }
    }
}

/// Whether `v` holds a string equal to `ty`.
pub fn contains_type(v: &Vec<String>, ty: &str) -> (r: bool)
    ensures
        r == lists_type(v@, ty@),
{
    let key = ty.to_owned();
    let n = v.len();
    for i in 0..n
        invariant
            n == v@.len(),
            key@ == ty@,
            forall|j: int| 0 <= j < i ==> v@[j]@ != ty@,
    {
        if v[i] == key {
            proof {
                assert(0 <= (i as int) && (i as int) < v@.len() && v@[i as int]@ == ty@);
            }
            return true;
        }
    }
    false
}

/// The graph: every endpoint record of the session, in creation order.
pub struct GraphState {
    /// The records, in creation order.
    pub endpoints: Vec<EndpointRecord>,
}

impl GraphState {
    /// An empty graph.
    pub fn new() -> (r: GraphState)
        ensures
            r.endpoints@.len() == 0,
    {
        GraphState { endpoints: Vec::new() }
    }

    /// Appends one endpoint record.
    pub fn add_endpoint(&mut self, record: EndpointRecord)
        ensures
            final(self).endpoints@ == old(self).endpoints@.push(record),
    {
        self.endpoints.push(record);
    }

    /// How many endpoints of `kind` the graph holds on the fully
    /// qualified name `topic`.
    pub fn count_on_topic(&self, kind: EndpointKind, topic: &String) -> (r: usize)
        ensures
            r == count_matching(self.endpoints@, kind, topic@),
    {
        let n = self.endpoints.len();
        let mut count: usize = 0;
        for i in 0..n
            invariant
                n == self.endpoints@.len(),
                count <= i,
                count == count_matching(self.endpoints@.take(i as int), kind, topic@),
        {
            let e = &self.endpoints[i];
            let matched: bool = kinds_equal(e.kind, kind) && e.topic == *topic;
            proof {
                assert(self.endpoints@.take(i as int + 1).drop_last() =~= self.endpoints@.take(
                    i as int,
                ));
                assert(self.endpoints@.take(i as int + 1).last() == self.endpoints@[i as int]);
            }
            if matched {
                count = count + 1;
            }
        }
        proof {
            assert(self.endpoints@.take(n as int) =~= self.endpoints@);
        }
        count
    }

    /// The name/type table of every endpoint whose kind is `first` or
    /// `second`, over the whole graph.
    pub fn names_and_types_of_kinds(&self, first: EndpointKind, second: EndpointKind) -> (r:
        TopicNamesAndTypes)
        ensures
            r.keys_unique(),
            forall|t: Seq<char>, y: Seq<char>|
                #[trigger] r.has_type(t, y) <==> (exists|k: int|
                    0 <= k < self.endpoints@.len() && (self.endpoints@[k].kind == first
                        || self.endpoints@[k].kind == second) && self.endpoints@[k].topic@ == t
                        && self.endpoints@[k].message_type@ == y),
    {
        let n = self.endpoints.len();
        let mut r = TopicNamesAndTypes::new();
        for i in 0..n
            invariant
                n == self.endpoints@.len(),
                r.keys_unique(),
                forall|t: Seq<char>, y: Seq<char>|
                    #[trigger] r.has_type(t, y) <==> (exists|k: int|
                        0 <= k < i && (self.endpoints@[k].kind == first || self.endpoints@[k].kind
                            == second) && self.endpoints@[k].topic@ == t
                            && self.endpoints@[k].message_type@ == y),
        {
            let e = &self.endpoints[i];
            let wanted = kinds_equal(e.kind, first) || kinds_equal(e.kind, second);
            if wanted {
                r.add_type(&e.topic, &e.message_type);
            }
            proof {
                lemma_membership_step(
                    self.endpoints@,
                    i as int,
                    r,
                    |rec: EndpointRecord| rec.kind == first || rec.kind == second,
                );
            }
        }
        r
    }

    /// The name/type table of every endpoint of `kind` owned by the named
    /// node.
    pub fn names_and_types_by_node(
        &self,
        kind: EndpointKind,
        node_name: &String,
        node_namespace: &String,
    ) -> (r: TopicNamesAndTypes)
        ensures
            r.keys_unique(),
            forall|t: Seq<char>, y: Seq<char>|
                #[trigger] r.has_type(t, y) <==> (exists|k: int|
                    0 <= k < self.endpoints@.len() && self.endpoints@[k].kind == kind
                        && self.endpoints@[k].of_node(node_name@, node_namespace@)
                        && self.endpoints@[k].topic@ == t && self.endpoints@[k].message_type@ == y),
    {
        let n = self.endpoints.len();
        let mut r = TopicNamesAndTypes::new();
        for i in 0..n
            invariant
                n == self.endpoints@.len(),
                r.keys_unique(),
                forall|t: Seq<char>, y: Seq<char>|
                    #[trigger] r.has_type(t, y) <==> (exists|k: int|
                        0 <= k < i && self.endpoints@[k].kind == kind && self.endpoints@[k].of_node(
                            node_name@,
                            node_namespace@,
                        ) && self.endpoints@[k].topic@ == t && self.endpoints@[k].message_type@ == y),
        {
            let e = &self.endpoints[i];
            let wanted = kinds_equal(e.kind, kind) && e.node_name == *node_name
                && e.node_namespace == *node_namespace;
            if wanted {
                r.add_type(&e.topic, &e.message_type);
            }
            proof {
                lemma_membership_step(
                    self.endpoints@,
                    i as int,
                    r,
                    |rec: EndpointRecord|
                        rec.kind == kind && rec.of_node(node_name@, node_namespace@),
                );
            }
        }
        r
    }
}

/// Whether two kinds are the same.
fn kinds_equal(a: EndpointKind, b: EndpointKind) -> (r: bool)
    ensures
        r == (a == b),
{
    match a {
        EndpointKind::Publisher => matches!(b, EndpointKind::Publisher),
        EndpointKind::Subscription => matches!(b, EndpointKind::Subscription),
        EndpointKind::Service => matches!(b, EndpointKind::Service),
        EndpointKind::Client => matches!(b, EndpointKind::Client),
    }
}

/// One step of the table-building loops: if membership in the table
/// matches the filtered records before `i`, and the record at `i` was
/// added exactly when the filter wants it, membership matches the
/// filtered records up to and including `i`.
proof fn lemma_membership_step(
    endpoints: Seq<EndpointRecord>,
    i: int,
    r: TopicNamesAndTypes,
    want: spec_fn(EndpointRecord) -> bool,
)
    requires
        0 <= i < endpoints.len(),
        forall|t: Seq<char>, y: Seq<char>|
            #[trigger] r.has_type(t, y) <==> ((exists|k: int|
                0 <= k < i && want(endpoints[k]) && endpoints[k].topic@ == t
                    && endpoints[k].message_type@ == y) || (want(endpoints[i]) && t
                == endpoints[i].topic@ && y == endpoints[i].message_type@)),
    ensures
        forall|t: Seq<char>, y: Seq<char>|
            #[trigger] r.has_type(t, y) <==> (exists|k: int|
                0 <= k < i + 1 && want(endpoints[k]) && endpoints[k].topic@ == t
                    && endpoints[k].message_type@ == y),
{
    assert forall|t: Seq<char>, y: Seq<char>| #[trigger]
        r.has_type(t, y) <==> (exists|k: int|
            0 <= k < i + 1 && want(endpoints[k]) && endpoints[k].topic@ == t
                && endpoints[k].message_type@ == y) by {
        if r.has_type(t, y) {
            if exists|k: int|
                0 <= k < i && want(endpoints[k]) && endpoints[k].topic@ == t
                    && endpoints[k].message_type@ == y {
                let k = choose|k: int|
                    0 <= k < i && want(endpoints[k]) && endpoints[k].topic@ == t
                        && endpoints[k].message_type@ == y;
                assert(0 <= k < i + 1 && want(endpoints[k]) && endpoints[k].topic@ == t
                    && endpoints[k].message_type@ == y);
            } else {
                assert(0 <= i < i + 1 && want(endpoints[i]) && endpoints[i].topic@ == t
                    && endpoints[i].message_type@ == y);
            }
        }
        if exists|k: int|
            0 <= k < i + 1 && want(endpoints[k]) && endpoints[k].topic@ == t
                && endpoints[k].message_type@ == y {
            let k = choose|k: int|
                0 <= k < i + 1 && want(endpoints[k]) && endpoints[k].topic@ == t
                    && endpoints[k].message_type@ == y;
            if k < i {
                assert(exists|k2: int|
                    0 <= k2 < i && want(endpoints[k2]) && endpoints[k2].topic@ == t
                        && endpoints[k2].message_type@ == y);
            }
        }
    }
}

} // verus!
