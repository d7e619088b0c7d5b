use rclrs::check_clients;
use rclrs::check_services;
use rclrs::check_topic_names_and_types;
use rclrs::construct_test_graph;
use rclrs::Context;
use rclrs::Node;
use rclrs::RclrsError;
use rclrs::QOS_PROFILE_SYSTEM_DEFAULT;

#[test]
fn test_publishers() -> Result<(), RclrsError> {
    let graph = construct_test_graph("test_publishers_graph")?;

    let _node_1_empty_publisher = graph.node1.create_publisher(
        "graph_test_topic_1",
        QOS_PROFILE_SYSTEM_DEFAULT,
        "test_msgs/msg/Empty",
    )?;
    let _node_1_basic_types_publisher = graph.node1.create_publisher(
        "graph_test_topic_2",
        QOS_PROFILE_SYSTEM_DEFAULT,
        "test_msgs/msg/BasicTypes",
    )?;
    let _node_2_default_publisher = graph.node2.create_publisher(
        "graph_test_topic_3",
        QOS_PROFILE_SYSTEM_DEFAULT,
        "test_msgs/msg/Defaults",
    )?;

    assert_eq!(
        graph
            .node1
            .count_publishers(&(graph.node1.namespace() + "/graph_test_topic_1"))?,
        1
    );
    assert_eq!(
        graph
            .node1
            .count_publishers(&(graph.node1.namespace() + "/graph_test_topic_2"))?,
        1
    );
    let node_1_publisher_names_and_types = graph
        .node1
        .get_publisher_names_and_types_by_node(&graph.node1.name(), &graph.node1.namespace())?;

    let types = node_1_publisher_names_and_types
        .get(&(graph.node1.namespace() + "/graph_test_topic_1"))
        .unwrap();
    assert!(types.contains(&"test_msgs/msg/Empty".to_string()));

    let types = node_1_publisher_names_and_types
        .get(&(graph.node1.namespace() + "/graph_test_topic_2"))
        .unwrap();
    assert!(types.contains(&"test_msgs/msg/BasicTypes".to_string()));

    let node_2_publisher_names_and_types = graph
        .node2
        .get_publisher_names_and_types_by_node(&graph.node2.name(), &graph.node2.namespace())?;

    let types = node_2_publisher_names_and_types
        .get(&(graph.node2.namespace() + "/graph_test_topic_3"))
        .unwrap();
    assert_eq!(
        graph
            .node2
            .count_publishers(&(graph.node2.namespace() + "/graph_test_topic_3"))?,
        1
    );
    assert!(types.contains(&"test_msgs/msg/Defaults".to_string()));

    Ok(())
}

#[test]
fn test_subscriptions() -> Result<(), RclrsError> {
    let graph = construct_test_graph("test_subscriptions_graph")?;

    let _node_1_defaults_subscription = graph.node1.create_subscription(
        "graph_test_topic_3",
        QOS_PROFILE_SYSTEM_DEFAULT,
        "test_msgs/msg/Defaults",
    )?;
    let _node_2_empty_subscription = graph.node2.create_subscription(
        "graph_test_topic_1",
        QOS_PROFILE_SYSTEM_DEFAULT,
        "test_msgs/msg/Empty",
    )?;
    let _node_2_basic_types_subscription = graph.node2.create_subscription(
        "graph_test_topic_2",
        QOS_PROFILE_SYSTEM_DEFAULT,
        "test_msgs/msg/BasicTypes",
    )?;

    let node_1_subscription_names_and_types = graph
        .node1
        .get_subscription_names_and_types_by_node(&graph.node1.name(), &graph.node1.namespace())?;

    let types = node_1_subscription_names_and_types
        .get(&(graph.node2.namespace() + "/graph_test_topic_3"))
        .unwrap();
    assert!(types.contains(&"test_msgs/msg/Defaults".to_string()));

    assert_eq!(
        graph
            .node2
            .count_subscriptions(&(graph.node2.namespace() + "/graph_test_topic_1"))?,
        1
    );
    assert_eq!(
        graph
            .node2
            .count_subscriptions(&(graph.node2.namespace() + "/graph_test_topic_2"))?,
        1
    );

    let node_2_subscription_names_and_types = graph
        .node2
        .get_subscription_names_and_types_by_node(&graph.node2.name(), &graph.node2.namespace())?;

    let types = node_2_subscription_names_and_types
        .get(&(graph.node1.namespace() + "/graph_test_topic_1"))
        .unwrap();
    assert!(types.contains(&"test_msgs/msg/Empty".to_string()));

    let types = node_2_subscription_names_and_types
        .get(&(graph.node2.namespace() + "/graph_test_topic_2"))
        .unwrap();
    assert!(types.contains(&"test_msgs/msg/BasicTypes".to_string()));

    Ok(())
}

#[test]
fn test_graph() -> Result<(), RclrsError> {
    let context = Context::new(vec![])?;
    let node1 = Node::new(&context, "graph_test_node_1")?;
    let node2 = Node::new(&context, "graph_test_node_2")?;

    let _node_1_empty_publisher = node1.create_publisher(
        "graph_test_topic_1",
        QOS_PROFILE_SYSTEM_DEFAULT,
        "test_msgs/msg/Empty",
    )?;
    let _node_1_basic_types_publisher = node1.create_publisher(
        "graph_test_topic_2",
        QOS_PROFILE_SYSTEM_DEFAULT,
        "test_msgs/msg/BasicTypes",
    )?;
    let _node_1_defaults_subscription = node1.create_subscription(
        "graph_test_topic_3",
        QOS_PROFILE_SYSTEM_DEFAULT,
        "test_msgs/msg/Defaults",
    )?;
    let _node_1_empty_service = node1.create_service("graph_test_topic_4", "test_msgs/srv/Empty")?;

    let _node_2_default_publisher = node2.create_publisher(
        "graph_test_topic_3",
        QOS_PROFILE_SYSTEM_DEFAULT,
        "test_msgs/msg/Defaults",
    )?;
    let _node_2_empty_subscription = node2.create_subscription(
        "graph_test_topic_1",
        QOS_PROFILE_SYSTEM_DEFAULT,
        "test_msgs/msg/Empty",
    )?;
    let _node_2_basic_types_subscription = node2.create_subscription(
        "graph_test_topic_2",
        QOS_PROFILE_SYSTEM_DEFAULT,
        "test_msgs/msg/BasicTypes",
    )?;
    let _node_2_empty_client = node2.create_client("graph_test_topic_4", "test_msgs/srv/Empty")?;

    check_topic_names_and_types(&node1)?;
    check_services(&node1)?;
    check_clients(&node2)?;

    Ok(())
}
