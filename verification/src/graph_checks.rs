//! Helpers that assemble a small two-node graph and hold the
//! introspection queries to the names and types expected on it.

use crate::context::Context;
use crate::error::RclrsError;
use crate::graph::contains_type;
use crate::node::normalized_namespace;
use crate::node::Node;
use crate::node::NodeBuilder;
use vstd::prelude::*;

verus! {

/// Two nodes of one session, under a common namespace.
pub struct TestGraph {
    pub node1: Node,
    pub node2: Node,
}

/// Opens a session and creates the two conventionally named nodes of a
/// test graph under the given namespace.
pub fn construct_test_graph(namespace: &str) -> (r: Result<TestGraph, RclrsError>)
    ensures
        r is Ok,
        r matches Ok(g) ==> {
            &&& g.node1.wf()
            &&& g.node2.wf()
            &&& g.node1.name@ == "graph_test_node_1"@
            &&& g.node2.name@ == "graph_test_node_2"@
            &&& g.node1.namespace@ == normalized_namespace(namespace@)
            &&& g.node2.namespace@ == normalized_namespace(namespace@)
            &&& g.node1.session == g.node2.session
        },
{
    let context = match Context::new(Vec::new()) {
        Ok(c) => c,
        Err(e) => {
            return Err(e);
        },
    };
    let node1 = match NodeBuilder::new(&context, "graph_test_node_1").namespace(namespace).build() {
        Ok(n) => n,
        Err(e) => {
            return Err(e);
        },
    };
    let node2 = match NodeBuilder::new(&context, "graph_test_node_2").namespace(namespace).build() {
        Ok(n) => n,
        Err(e) => {
            return Err(e);
        },
    };
    Ok(TestGraph { node1, node2 })
}

/// Checks that the graph lists the three conventional test topics with
/// their message types.
pub fn check_topic_names_and_types(node: &Node) -> (r: Result<(), RclrsError>)
    ensures
        r is Ok || r == Err::<(), RclrsError>(RclrsError::GraphMismatch),
{
    let topic_names_and_types = match node.get_topic_names_and_types() {
        Ok(t) => t,
        Err(e) => {
            return Err(e);
        },
    };
    let types = match topic_names_and_types.get("/graph_test_topic_1") {
        Some(t) => t,
        None => {
            return Err(RclrsError::GraphMismatch);
        },
    };
    if !contains_type(types, "test_msgs/msg/Empty") {
        return Err(RclrsError::GraphMismatch);
    }
    let types = match topic_names_and_types.get("/graph_test_topic_2") {
        Some(t) => t,
        None => {
            return Err(RclrsError::GraphMismatch);
        },
    };
    if !contains_type(types, "test_msgs/msg/BasicTypes") {
        return Err(RclrsError::GraphMismatch);
    }
    let types = match topic_names_and_types.get("/graph_test_topic_3") {
        Some(t) => t,
        None => {
            return Err(RclrsError::GraphMismatch);
        },
    };
    if !contains_type(types, "test_msgs/msg/Defaults") {
        return Err(RclrsError::GraphMismatch);
    }
    Ok(())
}

/// Checks that the graph lists the conventional test service, both over
/// the whole graph and for the node itself.
pub fn check_services(node: &Node) -> (r: Result<(), RclrsError>)
    ensures
        r is Ok || r == Err::<(), RclrsError>(RclrsError::GraphMismatch),
{
    let service_names_and_types = match node.get_service_names_and_types() {
        Ok(t) => t,
        Err(e) => {
            return Err(e);
        },
    };
    let types = match service_names_and_types.get("/graph_test_topic_4") {
        Some(t) => t,
        None => {
            return Err(RclrsError::GraphMismatch);
        },
    };
    if !contains_type(types, "test_msgs/srv/Empty") {
        return Err(RclrsError::GraphMismatch);
    }
    let name = node.name();
    let namespace = node.namespace();
    let service_names_and_types = match node.get_service_names_and_types_by_node(
        name.as_str(),
        namespace.as_str(),
    ) {
        Ok(t) => t,
        Err(e) => {
            return Err(e);
        },
    };
    let types = match service_names_and_types.get("/graph_test_topic_4") {
        Some(t) => t,
        None => {
            return Err(RclrsError::GraphMismatch);
        },
    };
    if !contains_type(types, "test_msgs/srv/Empty") {
        return Err(RclrsError::GraphMismatch);
    }
    Ok(())
}

/// Checks that the graph lists the node's client for the conventional
/// test service.
pub fn check_clients(node: &Node) -> (r: Result<(), RclrsError>)
    ensures
        r is Ok || r == Err::<(), RclrsError>(RclrsError::GraphMismatch),
{
    let name = node.name();
    let namespace = node.namespace();
    let client_names_and_types = match node.get_client_names_and_types_by_node(
        name.as_str(),
        namespace.as_str(),
    ) {
        Ok(t) => t,
        Err(e) => {
            return Err(e);
        },
    };
    let types = match client_names_and_types.get("/graph_test_topic_4") {
        Some(t) => t,
        None => {
            return Err(RclrsError::GraphMismatch);
        },
    };
    if !contains_type(types, "test_msgs/srv/Empty") {
        return Err(RclrsError::GraphMismatch);
    }
    Ok(())
}

} // verus!
