//! Nodes and their graph endpoints: creation registers a record on the
//! session's shared graph, and the introspection queries read it back.
//!
//! The graph registry lives behind the session's lock, so what a query
//! returns is exact with respect to the snapshot it reads; the record
//! arithmetic itself carries exact contracts in the registry module.

use crate::context::Context;
use crate::context::ContextCell;
use crate::context::share_session;
use crate::error::RclrsError;
use crate::graph::EndpointKind;
use crate::graph::EndpointRecord;
use crate::graph::TopicNamesAndTypes;
use std::sync::Arc;
use vstd::prelude::*;

verus! {

/// Quality-of-service selection for publishers and subscriptions.  The
/// in-process graph keeps no delivery queues, so the profile carries no
/// further settings.
#[derive(Clone, Copy, Debug, PartialEq, Eq, Structural)]
pub enum QoSProfile {
    SystemDefault,
}

pub const QOS_PROFILE_SYSTEM_DEFAULT: QoSProfile = QoSProfile::SystemDefault;

/// Whether a namespace is in its stored form: absolute, starting with a
/// slash.
pub open spec fn is_absolute(s: Seq<char>) -> bool {
    s.len() >= 1 && s[0] == '/'
}

/// The stored form of a namespace as given to a builder: empty becomes
/// the root, a relative namespace gets the leading slash, an absolute one
/// is kept.
pub open spec fn normalized_namespace(s: Seq<char>) -> Seq<char> {
    if s.len() == 0 {
        seq!['/']
    } else if s[0] == '/' {
        s
    } else {
        seq!['/'] + s
    }
}

/// The fully qualified name of `topic` under the absolute namespace `ns`:
/// the root namespace contributes only its slash, any other namespace is
/// joined with a slash.
pub open spec fn topic_fqn(ns: Seq<char>, topic: Seq<char>) -> Seq<char> {
    if ns == seq!['/'] {
        seq!['/'] + topic
    } else {
        ns + seq!['/'] + topic
    }
}

/// Normalizes a namespace to its stored, absolute form.
fn normalize_namespace(s: &str) -> (r: String)
    ensures
        r@ == normalized_namespace(s@),
        is_absolute(r@),
{
    proof {
        reveal_strlit("/");
    }
    let n = s.unicode_len();
    if n == 0 {
        let r = String::from_str("/");
        proof {
            assert(r@ =~= seq!['/']);
        }
        r
    } else if s.get_char(0) == '/' {
        String::from_str(s)
    } else {
        let mut r = String::from_str("/");
        r.append(s);
        proof {
            assert(r@ =~= seq!['/'] + s@);
        }
        r
    }
}

/// Joins an absolute namespace and a topic name into the fully qualified
/// name.
fn make_fqn(ns: &String, topic: &str) -> (r: String)
    requires
        is_absolute(ns@),
    ensures
        r@ == topic_fqn(ns@, topic@),
{
    proof {
        reveal_strlit("/");
    }
    if ns.as_str().unicode_len() == 1 {
        proof {
            assert(ns@ =~= seq!['/']);
        }
        let mut r = String::from_str("/");
        r.append(topic);
        proof {
            assert(r@ =~= seq!['/'] + topic@);
        }
        r
    } else {
        proof {
            assert(ns@ != seq!['/']);
        }
        let mut r = ns.clone();
        r.append("/");
        r.append(topic);
        proof {
            assert(r@ =~= ns@ + seq!['/'] + topic@);
        }
        r
    }
}

/// A publisher endpoint, as far as the graph sees one: its fully
/// qualified topic and its message type.
pub struct Publisher {
    /// The fully qualified topic name.
    pub topic: String,
    /// The full message type name.
    pub message_type: String,
}

/// A subscription endpoint, as far as the graph sees one.
pub struct Subscription {
    /// The fully qualified topic name.
    pub topic: String,
    /// The full message type name.
    pub message_type: String,
}

/// A service server endpoint, as far as the graph sees one.
pub struct Service {
    /// The fully qualified service name.
    pub topic: String,
    /// The full service type name.
    pub message_type: String,
}

/// A service client endpoint, as far as the graph sees one.
pub struct Client {
    /// The fully qualified service name.
    pub topic: String,
    /// The full service type name.
    pub message_type: String,
}

/// A node: a named participant of one session, under an absolute
/// namespace, whose endpoints are recorded on the session's graph.
pub struct Node {
    /// The node's name.
    pub name: String,
    /// The node's namespace, absolute.
    pub namespace: String,
    /// The session the node was created under.
    pub session: Arc<ContextCell>,
}

impl Node {
    /// The namespace is kept in its absolute form.
    pub open spec fn wf(self) -> bool {
        is_absolute(self.namespace@)
    }

    /// Creates a node under the root namespace.  Fails if and only if
    /// the context handle has been shut down.
    pub fn new(context: &Context, name: &str) -> (r: Result<Node, RclrsError>)
        ensures
            context.valid <==> r is Ok,
            r matches Err(e) ==> e == RclrsError::ContextInvalid,
            r matches Ok(n) ==> {
                &&& n.wf()
                &&& n.name@ == name@
                &&& n.namespace@ == seq!['/']
                &&& n.session == context.cell
            },
    {
        NodeBuilder::new(context, name).build()
    }

    /// The node's name.
    pub fn name(&self) -> (r: String)
        ensures
            r@ == self.name@,
    {
        self.name.clone()
    }

    /// The node's namespace, absolute.
    pub fn namespace(&self) -> (r: String)
        ensures
            r@ == self.namespace@,
    {
        self.namespace.clone()
    }

    /// Registers one endpoint record on the session's graph.
    fn register_endpoint(&self, kind: EndpointKind, topic: &str, message_type: &str) -> (fqn:
        String)
        requires
            self.wf(),
        ensures
            fqn@ == topic_fqn(self.namespace@, topic@),
    {
        let fqn = make_fqn(&self.namespace, topic);
        let record = EndpointRecord {
            kind,
            node_name: self.name.clone(),
            node_namespace: self.namespace.clone(),
            topic: fqn.clone(),
            message_type: message_type.to_owned(),
        };
        let (mut graph, write_handle) = self.session.graph.acquire_write();
        graph.add_endpoint(record);
        write_handle.release_write(graph);
        fqn
    }

    /// Creates a publisher on `topic` under the node's namespace and
    /// records it on the graph.
    pub fn create_publisher(&self, topic: &str, qos: QoSProfile, message_type: &str) -> (r: Result<
        Publisher,
        RclrsError,
    >)
        requires
            self.wf(),
        ensures
            r matches Ok(p) && p.topic@ == topic_fqn(self.namespace@, topic@) && p.message_type@
                == message_type@,
    {
        let _ = qos;
        let fqn = self.register_endpoint(EndpointKind::Publisher, topic, message_type);
        Ok(Publisher { topic: fqn, message_type: message_type.to_owned() })
    }

    /// Creates a subscription on `topic` under the node's namespace and
    /// records it on the graph.  Message delivery is no affair of the
    /// graph, so no callback is taken here.
    pub fn create_subscription(&self, topic: &str, qos: QoSProfile, message_type: &str) -> (r:
        Result<Subscription, RclrsError>)
        requires
            self.wf(),
        ensures
            r matches Ok(s) && s.topic@ == topic_fqn(self.namespace@, topic@) && s.message_type@
                == message_type@,
    {
        let _ = qos;
        let fqn = self.register_endpoint(EndpointKind::Subscription, topic, message_type);
        Ok(Subscription { topic: fqn, message_type: message_type.to_owned() })
    }

    /// Creates a service server on `topic` under the node's namespace and
    /// records it on the graph.  Request handling is no affair of the
    /// graph, so no handler is taken here.
    pub fn create_service(&self, topic: &str, message_type: &str) -> (r: Result<
        Service,
        RclrsError,
    >)
        requires
            self.wf(),
        ensures
            r matches Ok(s) && s.topic@ == topic_fqn(self.namespace@, topic@) && s.message_type@
                == message_type@,
    {
        let fqn = self.register_endpoint(EndpointKind::Service, topic, message_type);
        Ok(Service { topic: fqn, message_type: message_type.to_owned() })
    }

    /// Creates a service client on `topic` under the node's namespace and
    /// records it on the graph.
    pub fn create_client(&self, topic: &str, message_type: &str) -> (r: Result<Client, RclrsError>)
        requires
            self.wf(),
        ensures
            r matches Ok(c) && c.topic@ == topic_fqn(self.namespace@, topic@) && c.message_type@
                == message_type@,
    {
        let fqn = self.register_endpoint(EndpointKind::Client, topic, message_type);
        Ok(Client { topic: fqn, message_type: message_type.to_owned() })
    }

    /// How many publishers the graph currently holds on the fully
    /// qualified name `topic`.  The count is exact for the snapshot the
    /// query reads; the registry's counting itself is specified in the
    /// registry module.
    pub fn count_publishers(&self, topic: &str) -> (r: Result<usize, RclrsError>)
        ensures
            r is Ok,
    {
        let key = topic.to_owned();
        let read_handle = self.session.graph.acquire_read();
        let count = read_handle.borrow().count_on_topic(EndpointKind::Publisher, &key);
        read_handle.release_read();
        Ok(count)
    }

    /// How many subscriptions the graph currently holds on the fully
    /// qualified name `topic`.
    pub fn count_subscriptions(&self, topic: &str) -> (r: Result<usize, RclrsError>)
        ensures
            r is Ok,
    {
        let key = topic.to_owned();
        let read_handle = self.session.graph.acquire_read();
        let count = read_handle.borrow().count_on_topic(EndpointKind::Subscription, &key);
        read_handle.release_read();
        Ok(count)
    }

    /// Every topic the graph knows, publishers and subscriptions alike,
    /// with the message types seen on it.
    pub fn get_topic_names_and_types(&self) -> (r: Result<TopicNamesAndTypes, RclrsError>)
        ensures
            r matches Ok(t) && t.keys_unique(),
    {
        let read_handle = self.session.graph.acquire_read();
        let table = read_handle.borrow().names_and_types_of_kinds(
            EndpointKind::Publisher,
            EndpointKind::Subscription,
        );
        read_handle.release_read();
        Ok(table)
    }

    /// Every service name the graph knows, from servers and clients
    /// alike, with the service types seen on it.
    pub fn get_service_names_and_types(&self) -> (r: Result<TopicNamesAndTypes, RclrsError>)
        ensures
            r matches Ok(t) && t.keys_unique(),
    {
        let read_handle = self.session.graph.acquire_read();
        let table = read_handle.borrow().names_and_types_of_kinds(
            EndpointKind::Service,
            EndpointKind::Client,
        );
        read_handle.release_read();
        Ok(table)
    }

    /// The table of one kind of endpoint owned by the named node.
    fn names_and_types_of_node(
        &self,
        kind: EndpointKind,
        node_name: &str,
        namespace: &str,
    ) -> (r: TopicNamesAndTypes)
        ensures
            r.keys_unique(),
    {
        let name_key = node_name.to_owned();
        let namespace_key = namespace.to_owned();
        let read_handle = self.session.graph.acquire_read();
        let table = read_handle.borrow().names_and_types_by_node(kind, &name_key, &namespace_key);
        read_handle.release_read();
        table
    }

    /// The topics the named node publishes, with their message types.
    pub fn get_publisher_names_and_types_by_node(&self, node_name: &str, namespace: &str) -> (r:
        Result<TopicNamesAndTypes, RclrsError>)
        ensures
            r matches Ok(t) && t.keys_unique(),
    {
        Ok(self.names_and_types_of_node(EndpointKind::Publisher, node_name, namespace))
    }

    /// The topics the named node subscribes to, with their message types.
    pub fn get_subscription_names_and_types_by_node(&self, node_name: &str, namespace: &str) -> (r:
        Result<TopicNamesAndTypes, RclrsError>)
        ensures
            r matches Ok(t) && t.keys_unique(),
    {
        Ok(self.names_and_types_of_node(EndpointKind::Subscription, node_name, namespace))
    }

    /// The services the named node serves, with their service types.
    pub fn get_service_names_and_types_by_node(&self, node_name: &str, namespace: &str) -> (r:
        Result<TopicNamesAndTypes, RclrsError>)
        ensures
            r matches Ok(t) && t.keys_unique(),
    {
        Ok(self.names_and_types_of_node(EndpointKind::Service, node_name, namespace))
    }

    /// The services the named node has clients for, with their service
    /// types.
    pub fn get_client_names_and_types_by_node(&self, node_name: &str, namespace: &str) -> (r:
        Result<TopicNamesAndTypes, RclrsError>)
        ensures
            r matches Ok(t) && t.keys_unique(),
    {
        Ok(self.names_and_types_of_node(EndpointKind::Client, node_name, namespace))
    }
}

/// A builder for nodes: name, then optionally a namespace, then `build`.
pub struct NodeBuilder {
    /// The session of the context the builder was made from.
    pub session: Arc<ContextCell>,
    /// Whether that context handle was still valid.
    pub context_valid: bool,
    /// The name the node will carry.
    pub name: String,
    /// The namespace as given; empty until one is set.
    pub namespace: String,
}

impl NodeBuilder {
    /// Starts a builder for a node of the given name under `context`.
    pub fn new(context: &Context, name: &str) -> (r: NodeBuilder)
        ensures
            r.session == context.cell,
            r.context_valid == context.valid,
            r.name@ == name@,
            r.namespace@.len() == 0,
    {
        NodeBuilder {
            session: share_session(&context.cell),
            context_valid: context.ok(),
            name: name.to_owned(),
            namespace: String::new(),
        }
    }

    /// Sets the namespace the node will live under; relative input is
    /// made absolute at build time.
    pub fn namespace(self, namespace: &str) -> (r: NodeBuilder)
        ensures
            r.session == self.session,
            r.context_valid == self.context_valid,
            r.name@ == self.name@,
            r.namespace@ == namespace@,
    {
        NodeBuilder {
            session: self.session,
            context_valid: self.context_valid,
            name: self.name,
            namespace: namespace.to_owned(),
        }
    }

    /// Builds the node.  Fails if and only if the context handle the
    /// builder was made from had been shut down.
    pub fn build(&self) -> (r: Result<Node, RclrsError>)
        ensures
            self.context_valid <==> r is Ok,
            r matches Err(e) ==> e == RclrsError::ContextInvalid,
            r matches Ok(n) ==> {
                &&& n.wf()
                &&& n.name@ == self.name@
                &&& n.namespace@ == normalized_namespace(self.namespace@)
                &&& n.session == self.session
            },
    {
        if !self.context_valid {
            return Err(RclrsError::ContextInvalid);
        }
        Ok(
            Node {
                name: self.name.clone(),
                namespace: normalize_namespace(self.namespace.as_str()),
                session: share_session(&self.session),
            },
        )
    }
}

} // verus!
