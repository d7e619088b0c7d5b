use rclrs::Context;
use rclrs::WaitReturnCode;
use rclrs::WaitSet;
use rclrs::WaitSetErrorResponse;
use rclrs::WaitableCategory;
use rclrs::WaitableEntity;
use std::time::Duration;
use std::time::Instant;

fn fresh_context() -> Context {
    Context::new(vec![]).unwrap()
}

#[test]
fn wait_on_empty_fill_fails_empty_without_blocking() {
    let ctx = fresh_context();
    let mut ws = WaitSet::new(2, 1, 1, 1, 1, 1, &ctx).unwrap();
    let started = Instant::now();
    assert_eq!(ws.wait(-1), Err(WaitReturnCode::Empty));
    assert_eq!(ws.wait(0), Err(WaitReturnCode::Empty));
    assert_eq!(ws.wait(1_000_000_000), Err(WaitReturnCode::Empty));
    assert!(started.elapsed() < Duration::from_secs(5));
}

#[test]
fn wait_with_one_reserved_slot_and_no_fill_fails_empty() {
    let ctx = fresh_context();
    let mut ws = WaitSet::new(1, 0, 0, 0, 0, 0, &ctx).unwrap();
    assert_eq!(ws.wait(1_000_000_000), Err(WaitReturnCode::Empty));
}

#[test]
fn zero_timeout_polls_and_returns_quickly() {
    let ctx = fresh_context();
    let mut ws = WaitSet::new(1, 0, 0, 0, 0, 0, &ctx).unwrap();
    let entity = WaitableEntity::new();
    ws.add_subscription(&entity.downgrade()).unwrap();
    let started = Instant::now();
    assert_eq!(ws.wait(0), Err(WaitReturnCode::Timeout));
    assert!(started.elapsed() < Duration::from_secs(5));
}

#[test]
fn timed_out_wait_reads_every_slot_as_empty() {
    let ctx = fresh_context();
    let mut ws = WaitSet::new(2, 0, 0, 0, 0, 0, &ctx).unwrap();
    let a = WaitableEntity::new();
    let b = WaitableEntity::new();
    ws.add_subscription(&a.downgrade()).unwrap();
    ws.add_subscription(&b.downgrade()).unwrap();
    assert_eq!(ws.wait(50_000_000), Err(WaitReturnCode::Timeout));
    assert_eq!(ws.readiness(WaitableCategory::Subscription), vec![false, false]);
}

#[test]
fn positive_timeout_waits_at_least_that_long() {
    let ctx = fresh_context();
    let mut ws = WaitSet::new(1, 0, 0, 0, 0, 0, &ctx).unwrap();
    let entity = WaitableEntity::new();
    ws.add_subscription(&entity.downgrade()).unwrap();
    let started = Instant::now();
    assert_eq!(ws.wait(50_000_000), Err(WaitReturnCode::Timeout));
    assert!(started.elapsed() >= Duration::from_millis(50));
}

#[test]
fn ready_entity_classified_ready_other_not() {
    let ctx = fresh_context();
    let mut ws = WaitSet::new(2, 0, 0, 0, 0, 0, &ctx).unwrap();
    let a = WaitableEntity::new();
    let b = WaitableEntity::new();
    ws.add_subscription(&a.downgrade()).unwrap();
    ws.add_subscription(&b.downgrade()).unwrap();
    a.trigger();
    assert_eq!(ws.wait(1_000_000_000), Ok(()));
    assert_eq!(ws.readiness(WaitableCategory::Subscription), vec![true, false]);
}

#[test]
fn negative_timeout_returns_once_ready() {
    let ctx = fresh_context();
    let mut ws = WaitSet::new(0, 1, 0, 0, 0, 0, &ctx).unwrap();
    let guard = WaitableEntity::new();
    ws.add_entity(WaitableCategory::GuardCondition, &guard.downgrade())
        .unwrap();
    guard.trigger();
    assert_eq!(ws.wait(-1), Ok(()));
    assert_eq!(ws.readiness(WaitableCategory::GuardCondition), vec![true]);
}

#[test]
fn shutdown_interrupts_the_wait() {
    let mut ctx = fresh_context();
    let mut ws = WaitSet::new(1, 0, 0, 0, 0, 0, &ctx).unwrap();
    let entity = WaitableEntity::new();
    ws.add_subscription(&entity.downgrade()).unwrap();
    ctx.shutdown();
    assert_eq!(ws.wait(-1), Err(WaitReturnCode::Interrupted));
    assert_eq!(ws.readiness(WaitableCategory::Subscription), vec![false]);
}

#[test]
fn registering_a_released_entity_reports_dropped_and_leaves_slots_alone() {
    let ctx = fresh_context();
    let mut ws = WaitSet::new(1, 0, 0, 0, 0, 0, &ctx).unwrap();
    let mut entity = WaitableEntity::new();
    let reference = entity.downgrade();
    entity.release();
    assert_eq!(
        ws.add_subscription(&reference),
        Err(WaitSetErrorResponse::DroppedEntity)
    );
    assert_eq!(ws.readiness(WaitableCategory::Subscription).len(), 0);
    assert_eq!(ws.wait(0), Err(WaitReturnCode::Empty));
}

#[test]
fn clear_is_idempotent_and_demands_an_allocated_core() {
    let ctx = fresh_context();
    let mut ws = WaitSet::new(1, 0, 0, 0, 0, 0, &ctx).unwrap();
    let entity = WaitableEntity::new();
    ws.add_subscription(&entity.downgrade()).unwrap();
    assert_eq!(ws.clear(), Ok(()));
    assert_eq!(ws.readiness(WaitableCategory::Subscription).len(), 0);
    assert_eq!(ws.clear(), Ok(()));
    assert_eq!(ws.readiness(WaitableCategory::Subscription).len(), 0);

    let mut zeroed = WaitSet::zero_initialized();
    assert_eq!(
        zeroed.clear(),
        Err(WaitSetErrorResponse::ReturnCode(
            WaitReturnCode::NotInitialized
        ))
    );
}

#[test]
fn capacity_is_fixed_at_allocation() {
    let ctx = fresh_context();
    let mut ws = WaitSet::new(1, 0, 0, 0, 0, 0, &ctx).unwrap();
    let a = WaitableEntity::new();
    let b = WaitableEntity::new();
    ws.add_subscription(&a.downgrade()).unwrap();
    assert_eq!(
        ws.add_subscription(&b.downgrade()),
        Err(WaitSetErrorResponse::ReturnCode(
            WaitReturnCode::CapacityExceeded
        ))
    );
    assert_eq!(
        ws.add_entity(WaitableCategory::Timer, &b.downgrade()),
        Err(WaitSetErrorResponse::ReturnCode(
            WaitReturnCode::CapacityExceeded
        ))
    );
}

#[test]
fn allocation_fails_under_a_shut_down_context() {
    let mut ctx = fresh_context();
    assert!(ctx.ok());
    ctx.shutdown();
    assert!(!ctx.ok());
    match WaitSet::new(1, 0, 0, 0, 0, 0, &ctx) {
        Err(WaitSetErrorResponse::ReturnCode(WaitReturnCode::AllocationFailed)) => {}
        other => panic!("expected an allocation failure, got {:?}", other.is_ok()),
    }
}

#[test]
fn a_waited_core_must_be_cleared_before_the_next_fill() {
    let ctx = fresh_context();
    let mut ws = WaitSet::new(2, 0, 0, 0, 0, 0, &ctx).unwrap();
    let a = WaitableEntity::new();
    ws.add_subscription(&a.downgrade()).unwrap();
    assert_eq!(ws.wait(0), Err(WaitReturnCode::Timeout));
    assert_eq!(
        ws.add_subscription(&a.downgrade()),
        Err(WaitSetErrorResponse::ReturnCode(
            WaitReturnCode::NotInitialized
        ))
    );
    assert_eq!(ws.wait(0), Err(WaitReturnCode::NotInitialized));
    assert_eq!(ws.clear(), Ok(()));
    ws.add_subscription(&a.downgrade()).unwrap();
    a.trigger();
    assert_eq!(ws.wait(0), Ok(()));
}

#[test]
fn every_category_accepts_a_fill_and_classifies_it() {
    let ctx = fresh_context();
    let mut ws = WaitSet::new(1, 1, 1, 1, 1, 1, &ctx).unwrap();
    let categories = [
        WaitableCategory::Subscription,
        WaitableCategory::GuardCondition,
        WaitableCategory::Timer,
        WaitableCategory::Client,
        WaitableCategory::Service,
        WaitableCategory::Event,
    ];
    let entities: Vec<WaitableEntity> = (0..6).map(|_| WaitableEntity::new()).collect();
    for (category, entity) in categories.iter().zip(entities.iter()) {
        ws.add_entity(*category, &entity.downgrade()).unwrap();
    }
    entities[2].trigger();
    assert_eq!(ws.wait(1_000_000_000), Ok(()));
    for (i, category) in categories.iter().enumerate() {
        assert_eq!(ws.readiness(*category), vec![i == 2]);
    }
}

#[test]
fn error_messages_are_stable() {
    assert_eq!(
        WaitSetErrorResponse::DroppedEntity.message(),
        "attempted to access a dropped entity"
    );
    assert_eq!(
        WaitSetErrorResponse::ReturnCode(WaitReturnCode::Timeout).message(),
        "timeout"
    );
    assert_eq!(WaitReturnCode::Empty.message(), "wait set is empty");
    assert_eq!(WaitReturnCode::AllocationFailed.message(), "allocation failed");
    assert_eq!(
        WaitReturnCode::NotInitialized.message(),
        "wait set not initialized"
    );
    assert_eq!(WaitReturnCode::ClearFailed.message(), "clear failed");
    assert_eq!(WaitReturnCode::CapacityExceeded.message(), "capacity exceeded");
    assert_eq!(WaitReturnCode::Interrupted.message(), "interrupted");
    assert_eq!(
        WaitReturnCode::FinalizationFailed.message(),
        "finalization failed"
    );
    assert_eq!(
        WaitSetErrorResponse::from(WaitReturnCode::Timeout),
        WaitSetErrorResponse::ReturnCode(WaitReturnCode::Timeout)
    );
}
