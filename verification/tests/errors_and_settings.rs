use todo_live::config::{LiveSettings, DEFAULT_BACKLOG, DEFAULT_KEEPALIVE_SECS};
use todo_live::error::{StoreStep, TodoError};
use todo_live::page::{index, IndexTemplate};

#[test]
fn an_error_keeps_its_message() {
    let error = TodoError::new("unable to fetch todos: timeout");
    assert_eq!(error.message(), "unable to fetch todos: timeout");
    assert_eq!(TodoError::new("").message(), "");
}

#[test]
fn a_cloned_error_equals_its_source() {
    let error = TodoError::new("broken");
    assert_eq!(error.clone(), error);
    assert_eq!(error.clone().message(), "broken");
}

#[test]
fn a_store_failure_names_its_step() {
    assert_eq!(
        TodoError::store_failure(StoreStep::Acquire, "PoolTimedOut").message(),
        "unable to acquire connection: PoolTimedOut"
    );
    assert_eq!(
        TodoError::store_failure(StoreStep::FetchAll, "e").message(),
        "unable to fetch todos: e"
    );
    assert_eq!(
        TodoError::store_failure(StoreStep::FetchOne, "RowNotFound").message(),
        "unable to fetch todo: RowNotFound"
    );
    assert_eq!(
        TodoError::store_failure(StoreStep::Insert, "e").message(),
        "unable to create todo: e"
    );
    assert_eq!(
        TodoError::store_failure(StoreStep::Update, "e").message(),
        "unable to update todo: e"
    );
    assert_eq!(
        TodoError::store_failure(StoreStep::Delete, "").message(),
        "Failed to delete todo: "
    );
}

#[test]
fn the_default_settings_are_five_seconds_and_a_hundred() {
    let settings = LiveSettings::default();
    assert_eq!(settings.keepalive_secs(), 5);
    assert_eq!(settings.backlog_capacity(), 100);
    assert_eq!(DEFAULT_KEEPALIVE_SECS, 5);
    assert_eq!(DEFAULT_BACKLOG, 100);
}

#[test]
fn settings_keep_what_they_were_given() {
    let settings = LiveSettings::new(30, 1).unwrap();
    assert_eq!(settings.keepalive_secs(), 30);
    assert_eq!(settings.backlog_capacity(), 1);
    let largest = LiveSettings::new(u64::MAX, usize::MAX / 2).unwrap();
    assert_eq!(largest.keepalive_secs(), u64::MAX);
    assert_eq!(largest.backlog_capacity(), usize::MAX / 2);
}

#[test]
fn settings_refuse_a_period_of_zero() {
    assert_eq!(LiveSettings::new(0, 100), None);
}

#[test]
fn settings_refuse_a_backlog_out_of_range() {
    assert_eq!(LiveSettings::new(5, 0), None);
    assert_eq!(LiveSettings::new(5, usize::MAX / 2 + 1), None);
    assert_eq!(LiveSettings::new(5, usize::MAX), None);
}

#[test]
fn the_index_page_takes_nothing() {
    assert_eq!(index(), IndexTemplate {});
}
