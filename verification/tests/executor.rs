use power_pizza_bot::transcript::container::JobContainer;
use power_pizza_bot::transcript::error::JobManagerError;
use power_pizza_bot::transcript::executor::StageExecutor;

#[test]
fn a_stage_grants_as_many_permits_as_it_has() {
    let mut stage = StageExecutor::new(2);
    assert_eq!(stage.max_jobs(), 2);
    assert_eq!(stage.available(), 2);
    assert!(stage.try_acquire());
    assert!(stage.try_acquire());
    assert!(!stage.try_acquire());
    assert_eq!(stage.active(), 2);
    assert_eq!(stage.available(), 0);
}

#[test]
fn a_released_permit_can_be_taken_again() {
    let mut stage = StageExecutor::new(1);
    assert!(stage.try_acquire());
    assert!(!stage.try_acquire());
    assert!(stage.release());
    assert_eq!(stage.active(), 0);
    assert!(stage.try_acquire());
}

#[test]
fn a_permit_that_is_not_held_cannot_be_released() {
    let mut stage = StageExecutor::new(3);
    assert!(!stage.release());
    assert_eq!(stage.active(), 0);
    assert_eq!(stage.available(), 3);
}

#[test]
fn a_stage_without_permits_grants_none() {
    let mut stage = StageExecutor::new(0);
    assert!(!stage.try_acquire());
    assert_eq!(stage.available(), 0);
}

#[test]
fn handles_start_in_the_order_they_were_made() {
    let mut jobs: JobContainer<&'static str, u8> = JobContainer::new(2);
    assert_eq!(jobs.limit(), 2);
    jobs.push(10, "a");
    jobs.push(11, "b");
    jobs.push(12, "c");
    assert_eq!(jobs.len(), 3);
    assert_eq!(jobs.id_at(1), Some(11));
    assert_eq!(jobs.id_at(3), None);
    assert_eq!(jobs.start_next(), Some((0, 10, "a")));
    assert_eq!(jobs.start_next(), Some((1, 11, "b")));
    assert_eq!(jobs.start_next(), None);
    assert_eq!(jobs.running(), 2);
    assert!(jobs.complete(0, Ok(1)));
    assert_eq!(jobs.running(), 1);
    assert_eq!(jobs.start_next(), Some((2, 12, "c")));
    assert_eq!(jobs.start_next(), None);
}

#[test]
fn a_result_is_taken_once_and_only_when_it_is_there() {
    let mut jobs: JobContainer<(), u8> = JobContainer::new(1);
    jobs.push(5, ());
    assert!(jobs.take(0).is_none());
    assert!(!jobs.complete(0, Ok(9)));
    jobs.start_next();
    assert!(jobs.take(0).is_none());
    assert!(jobs.complete(0, Ok(9)));
    assert!(!jobs.complete(0, Ok(8)));
    assert!(matches!(jobs.take(0), Some((5, Ok(9)))));
    assert!(jobs.take(0).is_none());
    assert!(jobs.take(1).is_none());
}

#[test]
fn a_failed_handle_gives_its_error() {
    let mut jobs: JobContainer<(), u8> = JobContainer::new(1);
    jobs.push(5, ());
    jobs.start_next();
    assert!(jobs.complete(0, Err(JobManagerError::NotFound(5))));
    assert_eq!(jobs.running(), 0);
    assert!(matches!(jobs.take(0), Some((5, Err(JobManagerError::NotFound(5))))));
}
