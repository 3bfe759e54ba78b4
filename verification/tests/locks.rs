use socktrace::locks::{
    get_oncelock, initialized, read_rwlock, unpoisoned, write_rwlock, LockError,
};
use std::sync::{OnceLock, PoisonError, RwLock};

static EMPTY: OnceLock<u32> = OnceLock::new();
static FULL: OnceLock<RwLock<u32>> = OnceLock::new();

#[test]
fn value_that_was_not_set_is_an_error() {
    assert_eq!(get_oncelock(&EMPTY), Err(LockError::NotInitialized));
    assert_eq!(LockError::NotInitialized.message(), "OnceLock is not initialized");
}

#[test]
fn value_that_was_set_is_found() {
    FULL.get_or_init(|| RwLock::new(1));
    let lock = get_oncelock(&FULL).unwrap();
    *write_rwlock(lock).unwrap() += 4;
    assert_eq!(*read_rwlock(lock).unwrap(), 5);
}

#[test]
fn outcomes_become_results() {
    assert_eq!(initialized(Some(3)), Ok(3));
    assert_eq!(initialized::<i32>(None), Err(LockError::NotInitialized));
    assert_eq!(unpoisoned(Ok::<i32, PoisonError<i32>>(3)), Ok(3));
    assert_eq!(unpoisoned(Err(PoisonError::new(3))), Err(LockError::Poisoned));
}

#[test]
fn poisoned_message_names_the_cause() {
    assert_eq!(
        LockError::Poisoned.message(),
        format!("RwLock poisoned: {}", PoisonError::new(()))
    );
}
