use granite2::naming::basic_block::{
    assert_transition_labels, block_place_label, drop_transition_labels, goto_transition_label,
    switch_int_transition_label, unreachable_transition_label, unwind_transition_label,
};
use granite2::naming::function::{
    arc_new_transition_labels, call_name, clone_transition_labels, deref_transition_labels,
    diverging_call_transition_label, foreign_call_transition_labels, panic_transition_label,
    return_transition_label, unwrap_transition_labels,
};
use granite2::naming::program::{PROGRAM_END, PROGRAM_PANIC, PROGRAM_START};
use granite2::naming::thread::{
    end_place_label, join_transition_labels, spawn_transition_labels, start_place_label,
};
use granite2::naming::{decimal, indexed_label, sanitize};

fn pair(first: &str, second: &str) -> (String, String) {
    (first.to_string(), second.to_string())
}

#[test]
fn sanitize_keeps_identifiers() {
    assert_eq!(sanitize("main"), "main");
    assert_eq!(sanitize("snake_case_2"), "snake_case_2");
    assert_eq!(sanitize(""), "");
}

#[test]
fn sanitize_replaces_path_separators() {
    assert_eq!(sanitize("std::thread::spawn"), "std_thread_spawn");
    assert_eq!(sanitize("a::b"), "a_b");
}

#[test]
fn sanitize_drops_brackets() {
    assert_eq!(sanitize("std::sync::Arc::<T>::new"), "std_sync_Arc_T_new");
    assert_eq!(
        sanitize("std::thread::JoinHandle::<T>::join"),
        "std_thread_JoinHandle_T_join"
    );
    assert_eq!(sanitize("main::{closure#0}"), "main_closure_0");
}

#[test]
fn sanitize_replaces_other_characters() {
    assert_eq!(sanitize("a b-c"), "a_b_c");
    assert_eq!(sanitize("a:b"), "a_b");
    assert_eq!(sanitize(":::"), "__");
    assert_eq!(sanitize("é"), "_");
}

#[test]
fn sanitize_yields_identifier_characters_only() {
    let sanitized = sanitize("<alloc::vec::Vec<T> as core::ops::Index<usize>>::index (x)");
    assert!(sanitized.chars().all(|c| c.is_ascii_alphanumeric() || c == '_'));
}

#[test]
fn sanitize_is_idempotent() {
    let once = sanitize("core::fmt::{impl#1}::fmt");
    assert_eq!(sanitize(&once), once);
}

#[test]
fn decimal_writes_numbers() {
    assert_eq!(decimal(0), "0");
    assert_eq!(decimal(7), "7");
    assert_eq!(decimal(10), "10");
    assert_eq!(decimal(1234567890), "1234567890");
    assert_eq!(decimal(usize::MAX), usize::MAX.to_string());
}

#[test]
fn indexed_label_appends_the_index() {
    assert_eq!(indexed_label("prefix_", 42), "prefix_42");
}

#[test]
fn function_labels() {
    assert_eq!(return_transition_label("main"), "main_RETURN");
    assert_eq!(
        foreign_call_transition_labels("std::mem::drop"),
        pair("std_mem_drop_CALL", "std_mem_drop_CALL_UNWIND")
    );
    assert_eq!(
        diverging_call_transition_label("std::process::exit"),
        "std_process_exit_DIVERGING_CALL"
    );
    assert_eq!(panic_transition_label("core::panicking::panic"), "core_panicking_panic_PANIC");
    assert_eq!(call_name("foo::bar", 3), "foo::bar_3");
}

#[test]
fn indexed_function_labels() {
    assert_eq!(
        unwrap_transition_labels(0),
        pair("std_result_Result_unwrap_0", "std_result_Result_unwrap_0_UNWIND")
    );
    assert_eq!(
        arc_new_transition_labels(1),
        pair("std_sync_Arc_T_new_1", "std_sync_Arc_T_new_1_UNWIND")
    );
    assert_eq!(
        clone_transition_labels(2),
        pair("std_clone_Clone_clone_2", "std_clone_Clone_clone_2_UNWIND")
    );
    assert_eq!(
        deref_transition_labels(13),
        pair("std_ops_Deref_deref_13", "std_ops_Deref_deref_13_UNWIND")
    );
}

#[test]
fn thread_labels() {
    assert_eq!(
        spawn_transition_labels(0),
        pair("std_thread_spawn_0", "std_thread_spawn_0_UNWIND")
    );
    assert_eq!(
        join_transition_labels(5),
        pair("std_thread_JoinHandle_T_join_5", "std_thread_JoinHandle_T_join_5_UNWIND")
    );
    assert_eq!(start_place_label(0), "THREAD_0_START");
    assert_eq!(end_place_label(12), "THREAD_12_END");
}

#[test]
fn condvar_labels() {
    let places = granite2::naming::condvar::place_labels(3);
    assert_eq!(places.0, "CONDVAR_3_LOST_SIGNAL_POSSIBLE");
    assert_eq!(places.1, "CONDVAR_3_SIGNAL_INPUT");
    assert_eq!(places.2, "CONDVAR_3_WAIT_INPUT");
    assert_eq!(places.3, "CONDVAR_3_SIGNAL_OUTPUT");
    assert_eq!(
        granite2::naming::condvar::transition_labels(3),
        pair("CONDVAR_3_LOST_SIGNAL_TRANSITION", "CONDVAR_3_SIGNAL_TRANSITION")
    );
    assert_eq!(
        granite2::naming::condvar::new_transition_labels(0),
        pair("std_sync_Condvar_new_0", "std_sync_Condvar_new_0_UNWIND")
    );
    assert_eq!(
        granite2::naming::condvar::notify_one_transition_labels(1),
        pair("std_sync_Condvar_notify_one_1", "std_sync_Condvar_notify_one_1_UNWIND")
    );
    let wait = granite2::naming::condvar::wait_transition_labels(2);
    assert_eq!(wait.0, "std_sync_Condvar_wait_2_START");
    assert_eq!(wait.1, "std_sync_Condvar_wait_2_END");
    assert_eq!(wait.2, "std_sync_Condvar_wait_2_UNWIND");
}

#[test]
fn mutex_labels() {
    assert_eq!(
        granite2::naming::mutex::place_labels(0),
        pair("MUTEX_0_UNLOCKED", "MUTEX_0_LOCKED")
    );
    assert_eq!(
        granite2::naming::mutex::new_transition_labels(4),
        pair("std_sync_Mutex_T_new_4", "std_sync_Mutex_T_new_4_UNWIND")
    );
    assert_eq!(
        granite2::naming::mutex::lock_transition_labels(9),
        pair("std_sync_Mutex_T_lock_9", "std_sync_Mutex_T_lock_9_UNWIND")
    );
}

#[test]
fn basic_block_labels() {
    assert_eq!(block_place_label("main", 1), "main_BB1");
    assert_eq!(goto_transition_label("main", 0), "main_BB0_GOTO");
    assert_eq!(switch_int_transition_label("a::b", 2, 1), "a_b_BB2_SWITCH_1");
    assert_eq!(unwind_transition_label("main", 3), "main_BB3_UNWIND");
    assert_eq!(unreachable_transition_label("main", 4), "main_BB4_UNREACHABLE");
    assert_eq!(
        drop_transition_labels("main", 5),
        pair("main_BB5_DROP", "main_BB5_DROP_UNWIND")
    );
    assert_eq!(
        assert_transition_labels("main", 6),
        pair("main_BB6_ASSERT", "main_BB6_ASSERT_CLEANUP")
    );
}

#[test]
fn program_place_labels() {
    assert_eq!(PROGRAM_START, "PROGRAM_START");
    assert_eq!(PROGRAM_END, "PROGRAM_END");
    assert_eq!(PROGRAM_PANIC, "PROGRAM_PANIC");
}
