//! An in-process readiness wait-set with the graph bookkeeping around it.
//!
//! The wait-set aggregates waitable entities (subscriptions, guard
//! conditions, timers, clients, services, events) and blocks a caller until
//! one of them becomes ready, a timeout elapses, or the session is shut
//! down.  Registration goes through a weak, non-owning relation to each
//! entity, so an owner may release an entity at any time without the
//! wait-set keeping it alive.

mod context;
mod entity;
mod error;
mod graph;
mod graph_checks;
mod node;
mod platform;
mod wait;

pub use context::Context;
pub use entity::EntityRef;
pub use entity::WaitableEntity;
pub use entity::WaitableHandle;
pub use error::RclrsError;
pub use error::WaitReturnCode;
pub use error::WaitSetErrorResponse;
pub use graph::EndpointKind;
pub use graph::EndpointRecord;
pub use graph::GraphState;
pub use graph::TopicNamesAndTypes;
pub use graph_checks::check_clients;
pub use graph_checks::check_services;
pub use graph_checks::check_topic_names_and_types;
pub use graph_checks::construct_test_graph;
pub use graph_checks::TestGraph;
pub use node::Client;
pub use node::Node;
pub use node::NodeBuilder;
pub use node::Publisher;
pub use node::QoSProfile;
pub use node::Service;
pub use node::Subscription;
pub use node::QOS_PROFILE_SYSTEM_DEFAULT;
pub use wait::lemma_clear_idempotent;
pub use wait::lemma_vacant_reads_not_ready;
pub use wait::Phase;
pub use wait::SlotArray;
pub use wait::WaitSet;
pub use wait::WaitableCategory;
