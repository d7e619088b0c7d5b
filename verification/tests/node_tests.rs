use rclrs::check_topic_names_and_types;
use rclrs::Context;
use rclrs::EndpointKind;
use rclrs::EndpointRecord;
use rclrs::GraphState;
use rclrs::Node;
use rclrs::NodeBuilder;
use rclrs::RclrsError;
use rclrs::TopicNamesAndTypes;
use rclrs::QOS_PROFILE_SYSTEM_DEFAULT;

fn record(kind: EndpointKind, node: &str, ns: &str, topic: &str, ty: &str) -> EndpointRecord {
    EndpointRecord {
        kind,
        node_name: node.to_string(),
        node_namespace: ns.to_string(),
        topic: topic.to_string(),
        message_type: ty.to_string(),
    }
}

#[test]
fn registry_counts_exactly() {
    let mut g = GraphState::new();
    assert_eq!(g.count_on_topic(EndpointKind::Publisher, &"/a".to_string()), 0);
    g.add_endpoint(record(EndpointKind::Publisher, "n1", "/", "/a", "t/T"));
    g.add_endpoint(record(EndpointKind::Publisher, "n2", "/", "/a", "t/T"));
    g.add_endpoint(record(EndpointKind::Subscription, "n1", "/", "/a", "t/T"));
    g.add_endpoint(record(EndpointKind::Publisher, "n1", "/", "/b", "t/T"));
    assert_eq!(g.count_on_topic(EndpointKind::Publisher, &"/a".to_string()), 2);
    assert_eq!(g.count_on_topic(EndpointKind::Subscription, &"/a".to_string()), 1);
    assert_eq!(g.count_on_topic(EndpointKind::Publisher, &"/b".to_string()), 1);
    assert_eq!(g.count_on_topic(EndpointKind::Client, &"/a".to_string()), 0);
}

#[test]
fn registry_tables_group_types_by_name() {
    let mut g = GraphState::new();
    g.add_endpoint(record(EndpointKind::Publisher, "n1", "/", "/a", "t/One"));
    g.add_endpoint(record(EndpointKind::Subscription, "n2", "/", "/a", "t/Two"));
    g.add_endpoint(record(EndpointKind::Service, "n1", "/", "/a", "t/Srv"));
    let table: TopicNamesAndTypes =
        g.names_and_types_of_kinds(EndpointKind::Publisher, EndpointKind::Subscription);
    let types = table.get("/a").unwrap();
    assert!(types.contains(&"t/One".to_string()));
    assert!(types.contains(&"t/Two".to_string()));
    assert!(!types.contains(&"t/Srv".to_string()));
    assert!(table.get("/missing").is_none());

    let by_node = g.names_and_types_by_node(
        EndpointKind::Publisher,
        &"n1".to_string(),
        &"/".to_string(),
    );
    let types = by_node.get("/a").unwrap();
    assert_eq!(types, &vec!["t/One".to_string()]);
    assert!(by_node.get("/b").is_none());
}

#[test]
fn namespaces_are_normalized() -> Result<(), RclrsError> {
    let context = Context::new(vec![])?;
    let plain = Node::new(&context, "n")?;
    assert_eq!(plain.namespace(), "/");
    assert_eq!(plain.name(), "n");

    let relative = NodeBuilder::new(&context, "n").namespace("team_one").build()?;
    assert_eq!(relative.namespace(), "/team_one");

    let absolute = NodeBuilder::new(&context, "n").namespace("/team_two").build()?;
    assert_eq!(absolute.namespace(), "/team_two");

    let rooted = NodeBuilder::new(&context, "n").namespace("/").build()?;
    assert_eq!(rooted.namespace(), "/");
    Ok(())
}

#[test]
fn fully_qualified_names_join_namespace_and_topic() -> Result<(), RclrsError> {
    let context = Context::new(vec![])?;
    let root = Node::new(&context, "n")?;
    let p = root.create_publisher("chat", QOS_PROFILE_SYSTEM_DEFAULT, "t/T")?;
    assert_eq!(p.topic, "/chat");
    assert_eq!(p.message_type, "t/T");

    let nested = NodeBuilder::new(&context, "n").namespace("wing").build()?;
    let s = nested.create_subscription("chat", QOS_PROFILE_SYSTEM_DEFAULT, "t/T")?;
    assert_eq!(s.topic, "/wing/chat");

    let srv = nested.create_service("door", "t/Srv")?;
    assert_eq!(srv.topic, "/wing/door");
    let cli = nested.create_client("door", "t/Srv")?;
    assert_eq!(cli.topic, "/wing/door");
    Ok(())
}

#[test]
fn node_creation_fails_under_a_shut_down_context() {
    let mut context = Context::new(vec![]).unwrap();
    context.shutdown();
    assert!(matches!(
        Node::new(&context, "n"),
        Err(RclrsError::ContextInvalid)
    ));
    assert!(matches!(
        NodeBuilder::new(&context, "n").namespace("x").build(),
        Err(RclrsError::ContextInvalid)
    ));
}

#[test]
fn graph_checks_report_a_mismatch_on_an_empty_graph() {
    let context = Context::new(vec![]).unwrap();
    let node = Node::new(&context, "n").unwrap();
    assert!(matches!(
        check_topic_names_and_types(&node),
        Err(RclrsError::GraphMismatch)
    ));
}
