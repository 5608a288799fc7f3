use lucent::config::Config;
use lucent::style::build_css;

fn config(border_width: u32) -> Config {
    Config {
        width: 350,
        timeout_seconds: 5,
        background_color: "#0D0B14E6".to_string(),
        border_color: "#1A1525".to_string(),
        border_width,
        text_color: "#E8E2F0".to_string(),
        corner_radius: 12,
        font_family: "Geist".to_string(),
        max_visible_notifications: 5,
    }
}

fn expected_css(config: &Config) -> String {
    let border_rule = if config.border_width == 0 {
        "border: none;".to_string()
    } else {
        format!(
            "border: {}px solid {};",
            config.border_width, config.border_color
        )
    };
    format!(
        r#"
.lucent-window {{
    background-color: transparent;
    box-shadow: none;
}}

.notification-popup {{
    background-color: {bg};
    {border_rule}
    border-radius: {radius}px;
    padding: 14px 18px;
    color: {text};
}}

.notification-summary {{
    font-weight: 700;
    font-size: 15px;
    line-height: 1.25;
    font-family: "{font}";
    color: {text};
}}

.notification-body {{
    font-size: 13px;
    line-height: 1.3;
    font-family: "{font}";
    color: {text};
    opacity: 0.88;
}}

.notification-app-name {{
    font-size: 11px;
    font-weight: 600;
    font-family: "{font}";
    color: {text};
    opacity: 0.68;
}}
"#,
        bg = config.background_color,
        border_rule = border_rule,
        text = config.text_color,
        radius = config.corner_radius,
        font = config.font_family,
    )
}

#[test]
fn css_matches_template_with_border() {
    let c = config(1);
    assert_eq!(build_css(&c), expected_css(&c));
    assert!(build_css(&c).contains("border: 1px solid #1A1525;"));
}

#[test]
fn zero_border_width_disables_border() {
    let c = config(0);
    let css = build_css(&c);
    assert_eq!(css, expected_css(&c));
    assert!(css.contains("border: none;"));
    assert!(!css.contains("px solid"));
}

#[test]
fn css_uses_configured_values() {
    let mut c = config(3);
    c.corner_radius = 0;
    c.font_family = "Inter".to_string();
    let css = build_css(&c);
    assert_eq!(css, expected_css(&c));
    assert!(css.contains("border-radius: 0px;"));
    assert!(css.contains("font-family: \"Inter\";"));
}
