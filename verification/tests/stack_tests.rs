use lucent::config::Config;
use lucent::notification::{DbusSignal, Notification, UiCommand};
use lucent::ui::{State, UiAction};
use std::collections::HashMap;

fn config(max_visible: u32) -> Config {
    Config {
        width: 350,
        timeout_seconds: 5,
        background_color: "#0D0B14E6".to_string(),
        border_color: "#1A1525".to_string(),
        border_width: 1,
        text_color: "#E8E2F0".to_string(),
        corner_radius: 12,
        font_family: "Geist".to_string(),
        max_visible_notifications: max_visible,
    }
}

fn note(id: u32, expire_timeout: i32) -> Notification {
    Notification {
        id,
        app_name: "app".to_string(),
        app_icon: String::new(),
        summary: format!("summary {id}"),
        body: String::new(),
        actions: Vec::new(),
        hints: HashMap::new(),
        expire_timeout,
        created_at: std::time::Instant::now(),
    }
}

fn heights_for(state: &State) -> Vec<i32> {
    vec![100; state.display_order().len()]
}

fn show(state: &mut State, id: u32, expire_timeout: i32) -> Vec<UiAction> {
    let heights = heights_for(state);
    state.handle_command(UiCommand::Show(note(id, expire_timeout)), heights)
}

fn close(state: &mut State, id: u32, reason: u32) -> Vec<UiAction> {
    let heights = heights_for(state);
    state.handle_command(UiCommand::Close { id, reason }, heights)
}

#[test]
fn new_state_is_empty() {
    let state = State::new(config(5));
    assert!(state.display_order().is_empty());
    assert_eq!(state.pending_len(), 0);
    assert_eq!(state.config().max_visible_notifications, 5);
}

#[test]
fn show_with_room_creates_restacks_and_schedules() {
    let mut state = State::new(config(5));
    let actions = show(&mut state, 1, -1);
    assert_eq!(actions.len(), 4);
    assert!(matches!(
        &actions[0],
        UiAction::CreateWindow { notification, top_offset: 0 } if notification.id == 1
    ));
    assert!(matches!(&actions[1], UiAction::Restack { order } if order == &vec![1]));
    assert!(matches!(
        &actions[2],
        UiAction::Schedule { delay_ms: 30, command: UiCommand::Reflow }
    ));
    assert!(matches!(
        &actions[3],
        UiAction::Schedule { delay_ms: 5000, command: UiCommand::Expire { id: 1, generation: 0 } }
    ));
    assert_eq!(state.display_order(), &vec![1]);
}

#[test]
fn second_popup_goes_below_the_first() {
    let mut state = State::new(config(5));
    show(&mut state, 1, 0);
    let actions = state.handle_command(UiCommand::Show(note(2, 0)), vec![40]);
    assert!(matches!(
        &actions[0],
        UiAction::CreateWindow { top_offset: 50, .. }
    ));
    assert_eq!(state.display_order(), &vec![1, 2]);
}

#[test]
fn zero_timeout_never_expires() {
    let mut state = State::new(config(5));
    let actions = show(&mut state, 1, 0);
    assert_eq!(actions.len(), 3);
    assert!(!actions
        .iter()
        .any(|a| matches!(a, UiAction::Schedule { command: UiCommand::Expire { .. }, .. })));
}

#[test]
fn positive_timeout_is_milliseconds() {
    let mut state = State::new(config(5));
    let actions = show(&mut state, 7, 2500);
    assert!(matches!(
        actions.last(),
        Some(UiAction::Schedule { delay_ms: 2500, command: UiCommand::Expire { id: 7, generation: 0 } })
    ));
}

#[test]
fn full_stack_queues_the_notification() {
    let mut state = State::new(config(2));
    show(&mut state, 1, 0);
    show(&mut state, 2, 0);
    let actions = show(&mut state, 3, 0);
    assert!(actions.is_empty());
    assert_eq!(state.display_order(), &vec![1, 2]);
    assert_eq!(state.pending_len(), 1);
}

#[test]
fn zero_capacity_queues_everything() {
    let mut state = State::new(config(0));
    let actions = show(&mut state, 1, 0);
    assert!(actions.is_empty());
    assert_eq!(state.pending_len(), 1);
}

#[test]
fn replacement_removes_old_popup_silently() {
    let mut state = State::new(config(2));
    show(&mut state, 1, 0);
    show(&mut state, 2, 0);
    let actions = show(&mut state, 1, 0);
    assert!(matches!(&actions[0], UiAction::DestroyWindow { id: 1 }));
    assert!(matches!(&actions[1], UiAction::CreateWindow { notification, top_offset: 110 } if notification.id == 1));
    assert!(!actions.iter().any(|a| matches!(a, UiAction::Emit { .. })));
    assert_eq!(state.display_order(), &vec![2, 1]);
    assert_eq!(state.pending_len(), 0);
}

#[test]
fn close_emits_signal_and_destroys() {
    let mut state = State::new(config(5));
    show(&mut state, 1, 0);
    show(&mut state, 2, 0);
    let actions = close(&mut state, 1, 2);
    assert_eq!(actions.len(), 3);
    assert!(matches!(
        &actions[0],
        UiAction::Emit { signal: DbusSignal::Closed { id: 1, reason: 2 } }
    ));
    assert!(matches!(&actions[1], UiAction::DestroyWindow { id: 1 }));
    assert!(matches!(&actions[2], UiAction::Restack { order } if order == &vec![2]));
    assert_eq!(state.display_order(), &vec![2]);
}

#[test]
fn close_unknown_id_is_ignored() {
    let mut state = State::new(config(5));
    show(&mut state, 1, 0);
    let actions = close(&mut state, 9, 1);
    assert!(actions.is_empty());
    assert_eq!(state.display_order(), &vec![1]);
}

#[test]
fn close_promotes_first_queued_notification() {
    let mut state = State::new(config(1));
    show(&mut state, 1, 0);
    show(&mut state, 2, 0);
    show(&mut state, 3, 0);
    assert_eq!(state.pending_len(), 2);
    let actions = close(&mut state, 1, 3);
    assert!(matches!(
        &actions[0],
        UiAction::Emit { signal: DbusSignal::Closed { id: 1, reason: 3 } }
    ));
    assert!(matches!(
        &actions[3],
        UiAction::CreateWindow { notification, top_offset: 0 } if notification.id == 2
    ));
    assert_eq!(state.display_order(), &vec![2]);
    assert_eq!(state.pending_len(), 1);
}

#[test]
fn reflow_restacks_current_order() {
    let mut state = State::new(config(5));
    show(&mut state, 4, 0);
    show(&mut state, 5, 0);
    let heights = heights_for(&state);
    let actions = state.handle_command(UiCommand::Reflow, heights);
    assert_eq!(actions.len(), 1);
    assert!(matches!(&actions[0], UiAction::Restack { order } if order == &vec![4, 5]));
}

#[test]
fn unmeasured_popups_take_fallback_height() {
    assert_eq!(State::height_for_window(0), 90);
    assert_eq!(State::height_for_window(-3), 90);
    assert_eq!(State::height_for_window(42), 42);
}

#[test]
fn restack_offsets_stack_with_gaps() {
    let heights = vec![100, 0, -5];
    assert_eq!(State::restack_offsets(&heights), vec![0, 110, 210]);
    assert_eq!(State::next_top_offset(&heights), 310);
    assert_eq!(State::next_top_offset(&Vec::new()), 0);
}

fn expire(state: &mut State, id: u32, generation: u64) -> Vec<UiAction> {
    let heights = heights_for(state);
    state.handle_command(UiCommand::Expire { id, generation }, heights)
}

#[test]
fn live_expiry_timer_closes_with_reason_expired() {
    let mut state = State::new(config(5));
    show(&mut state, 5, 1000);
    let actions = expire(&mut state, 5, 0);
    assert!(matches!(
        &actions[0],
        UiAction::Emit { signal: DbusSignal::Closed { id: 5, reason: 1 } }
    ));
    assert!(state.display_order().is_empty());
}

#[test]
fn old_timer_does_not_close_a_replacement() {
    let mut state = State::new(config(5));
    let first = show(&mut state, 5, 1000);
    assert!(matches!(
        first.last(),
        Some(UiAction::Schedule { delay_ms: 1000, command: UiCommand::Expire { id: 5, generation: 0 } })
    ));
    let second = show(&mut state, 5, 0);
    assert!(matches!(&second[0], UiAction::DestroyWindow { id: 5 }));
    assert!(!second
        .iter()
        .any(|a| matches!(a, UiAction::Schedule { command: UiCommand::Expire { .. }, .. })));
    let fired = expire(&mut state, 5, 0);
    assert!(fired.is_empty());
    assert_eq!(state.display_order(), &vec![5]);
}

#[test]
fn close_of_queued_notification_removes_it() {
    let mut state = State::new(config(1));
    show(&mut state, 1, 0);
    show(&mut state, 2, 0);
    assert_eq!(state.pending_len(), 1);
    let actions = close(&mut state, 2, 3);
    assert!(actions.is_empty());
    assert_eq!(state.pending_len(), 0);
    let later = close(&mut state, 1, 2);
    assert_eq!(later.len(), 3);
    assert!(state.display_order().is_empty());
}

#[test]
fn second_close_is_ignored() {
    let mut state = State::new(config(5));
    show(&mut state, 3, 1000);
    let first = close(&mut state, 3, 2);
    assert_eq!(first.len(), 3);
    let second = close(&mut state, 3, 3);
    assert!(second.is_empty());
    let timer = expire(&mut state, 3, 0);
    assert!(timer.is_empty());
}
