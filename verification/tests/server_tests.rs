use lucent::config::default_border_width;
use lucent::dbus::{action_pairs, NotificationServer};
use lucent::decimal::decimal_string;
use lucent::notification::{DbusSignal, UiCommand};
use lucent::window::{entry_top_margin, measure_for_size, popup_labels, LabelRole};
use std::collections::HashMap;

fn strings(items: &[&str]) -> Vec<String> {
    items.iter().map(|s| s.to_string()).collect()
}

#[test]
fn default_border_width_is_one() {
    assert_eq!(default_border_width(), 1);
}

#[test]
fn fresh_ids_start_at_one_and_count_up() {
    let mut server = NotificationServer::new();
    let a = server.notify("a", 0, "", "s", "b", Vec::new(), HashMap::new(), -1);
    let b = server.notify("a", 0, "", "s", "b", Vec::new(), HashMap::new(), -1);
    let c = server.notify("a", 0, "", "s", "b", Vec::new(), HashMap::new(), -1);
    assert_eq!((a.id, b.id, c.id), (1, 2, 3));
}

#[test]
fn replaces_id_is_kept_and_uses_no_fresh_id() {
    let mut server = NotificationServer::new();
    let r = server.notify("a", 42, "", "s", "b", Vec::new(), HashMap::new(), -1);
    assert_eq!(r.id, 42);
    let f = server.notify("a", 0, "", "s", "b", Vec::new(), HashMap::new(), -1);
    assert_eq!(f.id, 1);
}

#[test]
fn notify_copies_fields() {
    let mut server = NotificationServer::new();
    let mut hints = HashMap::new();
    hints.insert(
        "urgency".to_string(),
        zbus::zvariant::OwnedValue::from(2u8),
    );
    let n = server.notify(
        "mail",
        0,
        "mail-icon",
        "New mail",
        "<b>hi</b>",
        strings(&["open", "Open", "archive", "Archive"]),
        hints,
        5000,
    );
    assert_eq!(n.app_name, "mail");
    assert_eq!(n.app_icon, "mail-icon");
    assert_eq!(n.summary, "New mail");
    assert_eq!(n.body, "<b>hi</b>");
    assert_eq!(n.expire_timeout, 5000);
    assert_eq!(n.hints.len(), 1);
    assert_eq!(u8::try_from(&n.hints["urgency"]).unwrap(), 2);
    assert_eq!(
        n.actions,
        vec![
            ("open".to_string(), "Open".to_string()),
            ("archive".to_string(), "Archive".to_string())
        ]
    );
}

#[test]
fn odd_trailing_action_is_dropped() {
    let pairs = action_pairs(&strings(&["k1", "l1", "k2"]));
    assert_eq!(pairs, vec![("k1".to_string(), "l1".to_string())]);
    assert!(action_pairs(&strings(&["only"])).is_empty());
    assert!(action_pairs(&Vec::new()).is_empty());
}

#[test]
fn close_notification_uses_reason_three() {
    let server = NotificationServer::new();
    let (cmd, signal) = server.close_notification(17);
    assert!(matches!(cmd, UiCommand::Close { id: 17, reason: 3 }));
    assert!(matches!(signal, DbusSignal::Closed { id: 17, reason: 3 }));
}

#[test]
fn capabilities_and_server_information() {
    let server = NotificationServer::new();
    assert_eq!(server.get_capabilities(), strings(&["body", "body-markup", "icon-static"]));
    let info = server.get_server_information("0.1.0");
    assert_eq!(
        info,
        (
            "Lucent".to_string(),
            "lucent".to_string(),
            "0.1.0".to_string(),
            "1.3".to_string()
        )
    );
}

#[test]
fn decimal_rendering() {
    assert_eq!(decimal_string(0), "0");
    assert_eq!(decimal_string(7), "7");
    assert_eq!(decimal_string(1234), "1234");
    assert_eq!(decimal_string(u32::MAX), u32::MAX.to_string());
}

#[test]
fn popup_shows_only_non_empty_parts() {
    let mut server = NotificationServer::new();
    let n = server.notify("", 0, "", "Title", "Body", Vec::new(), HashMap::new(), 0);
    let labels = popup_labels(&n);
    assert_eq!(labels.len(), 2);
    assert_eq!(labels[0].role, LabelRole::Summary);
    assert_eq!(labels[0].text, "Title");
    assert_eq!(labels[1].role, LabelRole::Body);
    assert_eq!(labels[1].text, "Body");
    let all = server.notify("App", 0, "", "T", "B", Vec::new(), HashMap::new(), 0);
    let roles: Vec<LabelRole> = popup_labels(&all).iter().map(|l| l.role).collect();
    assert_eq!(roles, vec![LabelRole::AppName, LabelRole::Summary, LabelRole::Body]);
}

#[test]
fn entry_margin_adds_screen_margin_and_travel() {
    assert_eq!(entry_top_margin(0), 26);
    assert_eq!(entry_top_margin(110), 136);
}

#[test]
fn measurement_width_falls_back_to_unconstrained() {
    assert_eq!(measure_for_size(350), 350);
    assert_eq!(measure_for_size(0), -1);
    assert_eq!(measure_for_size(-4), -1);
}
