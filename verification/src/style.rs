//! The popup stylesheet: translucent backgrounds, rounded corners and text
//! colors, all driven by the user's `Config`.

use vstd::prelude::*;

use crate::config::Config;
use crate::decimal::{decimal, push_decimal};

verus! {

/// The border declaration of the popup: `border: none;` for a zero width,
/// else a solid border of the configured width and color.
pub open spec fn border_rule(c: Config) -> Seq<char> {
    if c.border_width == 0 {
        "border: none;"@
    } else {
        "border: "@ + decimal(c.border_width as nat) + "px solid "@ + c.border_color@ + ";"@
    }
}

/// The whole stylesheet for configuration `c`.
pub open spec fn css_text(c: Config) -> Seq<char> {
    "\n.lucent-window {\n    background-color: transparent;\n    box-shadow: none;\n}\n\n.notification-popup {\n    background-color: "@
        + c.background_color@
        + ";\n    "@
        + border_rule(c)
        + "\n    border-radius: "@
        + decimal(c.corner_radius as nat)
        + "px;\n    padding: 14px 18px;\n    color: "@
        + c.text_color@
        + ";\n}\n\n.notification-summary {\n    font-weight: 700;\n    font-size: 15px;\n    line-height: 1.25;\n    font-family: \""@
        + c.font_family@
        + "\";\n    color: "@
        + c.text_color@
        + ";\n}\n\n.notification-body {\n    font-size: 13px;\n    line-height: 1.3;\n    font-family: \""@
        + c.font_family@
        + "\";\n    color: "@
        + c.text_color@
        + ";\n    opacity: 0.88;\n}\n\n.notification-app-name {\n    font-size: 11px;\n    font-weight: 600;\n    font-family: \""@
        + c.font_family@
        + "\";\n    color: "@
        + c.text_color@
        + ";\n    opacity: 0.68;\n}\n"@
}

/// The popup has no border exactly when the configured border width is 0.
pub proof fn law_border_none_iff_zero_width(c: Config)
    ensures
        (border_rule(c) == "border: none;"@) <==> c.border_width == 0,
{
    if c.border_width != 0 {
        reveal_strlit("border: none;");
        reveal_strlit("border: ");
        reveal_strlit("px solid ");
        reveal_strlit(";");
        let d = decimal(c.border_width as nat);
        assert(d.len() >= 1);
        assert(border_rule(c).len() >= 19);
    }
}

/// Whether `t` occurs in `s` as a contiguous run.
pub open spec fn has_infix(s: Seq<char>, t: Seq<char>) -> bool {
    exists|p: Seq<char>, q: Seq<char>| #[trigger] (p + t + q) == s
}

proof fn lemma_infix(s: Seq<char>, p: Seq<char>, t: Seq<char>, q: Seq<char>)
    requires
        s =~= p + t + q,
    ensures
        has_infix(s, t),
{
    assert(p + t + q == s);
}

/// The stylesheet as pieces: the fixed text around the background color,
/// the border rule, the corner radius and the popup's text color, then the
/// rest.
proof fn lemma_css_pieces(c: Config)
    ensures
        css_text(c) =~= "\n.lucent-window {\n    background-color: transparent;\n    box-shadow: none;\n}\n\n.notification-popup {\n    background-color: "@ + c.background_color@ + ";\n    "@ + border_rule(c) + "\n    border-radius: "@ + decimal(
            c.corner_radius as nat,
        ) + "px;\n    padding: 14px 18px;\n    color: "@ + c.text_color@ + ";\n}\n\n.notification-summary {\n    font-weight: 700;\n    font-size: 15px;\n    line-height: 1.25;\n    font-family: \""@ + c.font_family@ + ("\";\n    color: "@ + css_tail(c)),
{
}

/// The stylesheet after the summary's font family.
spec fn css_tail(c: Config) -> Seq<char> {
    c.text_color@ + ";\n}\n\n.notification-body {\n    font-size: 13px;\n    line-height: 1.3;\n    font-family: \""@
        + c.font_family@ + "\";\n    color: "@ + c.text_color@
        + ";\n    opacity: 0.88;\n}\n\n.notification-app-name {\n    font-size: 11px;\n    font-weight: 600;\n    font-family: \""@
        + c.font_family@ + "\";\n    color: "@ + c.text_color@ + ";\n    opacity: 0.68;\n}\n"@
}

proof fn lemma_css_background(c: Config)
    ensures
        has_infix(css_text(c), "background-color: "@ + c.background_color@ + ";"@),
{
    lemma_css_pieces(c);
    reveal_strlit("\n.lucent-window {\n    background-color: transparent;\n    box-shadow: none;\n}\n\n.notification-popup {\n    background-color: ");
    reveal_strlit(";\n    ");
    reveal_strlit("background-color: ");
    reveal_strlit(";");
    let l0 = "\n.lucent-window {\n    background-color: transparent;\n    box-shadow: none;\n}\n\n.notification-popup {\n    background-color: "@;
    let l1 = ";\n    "@;
    let p = l0.subrange(0, l0.len() - 18);
    assert(l0 =~= p + "background-color: "@);
    assert(l1 =~= ";"@ + l1.subrange(1, l1.len() as int));
    let q = l1.subrange(1, l1.len() as int) + border_rule(c) + "\n    border-radius: "@ + decimal(c.corner_radius as nat)
        + "px;\n    padding: 14px 18px;\n    color: "@ + c.text_color@ + ";\n}\n\n.notification-summary {\n    font-weight: 700;\n    font-size: 15px;\n    line-height: 1.25;\n    font-family: \""@ + c.font_family@ + ("\";\n    color: "@ + css_tail(c));
    lemma_infix(css_text(c), p, "background-color: "@ + c.background_color@ + ";"@, q);
}

proof fn lemma_css_border(c: Config)
    ensures
        has_infix(css_text(c), border_rule(c)),
{
    lemma_css_pieces(c);
    let p = "\n.lucent-window {\n    background-color: transparent;\n    box-shadow: none;\n}\n\n.notification-popup {\n    background-color: "@ + c.background_color@ + ";\n    "@;
    let q = "\n    border-radius: "@ + decimal(c.corner_radius as nat) + "px;\n    padding: 14px 18px;\n    color: "@ + c.text_color@ + ";\n}\n\n.notification-summary {\n    font-weight: 700;\n    font-size: 15px;\n    line-height: 1.25;\n    font-family: \""@ + c.font_family@ + (
    "\";\n    color: "@ + css_tail(c));
    lemma_infix(css_text(c), p, border_rule(c), q);
}

proof fn lemma_css_radius(c: Config)
    ensures
        has_infix(css_text(c), "border-radius: "@ + decimal(c.corner_radius as nat) + "px;"@),
{
    lemma_css_pieces(c);
    reveal_strlit("\n    border-radius: ");
    reveal_strlit("px;\n    padding: 14px 18px;\n    color: ");
    reveal_strlit("border-radius: ");
    reveal_strlit("px;");
    let l2 = "\n    border-radius: "@;
    let l3 = "px;\n    padding: 14px 18px;\n    color: "@;
    let p2 = l2.subrange(0, l2.len() - 15);
    assert(l2 =~= p2 + "border-radius: "@);
    assert(l3 =~= "px;"@ + l3.subrange(3, l3.len() as int));
    let p = "\n.lucent-window {\n    background-color: transparent;\n    box-shadow: none;\n}\n\n.notification-popup {\n    background-color: "@ + c.background_color@ + ";\n    "@ + border_rule(c) + p2;
    let q = l3.subrange(3, l3.len() as int) + c.text_color@ + ";\n}\n\n.notification-summary {\n    font-weight: 700;\n    font-size: 15px;\n    line-height: 1.25;\n    font-family: \""@ + c.font_family@ + ("\";\n    color: "@
        + css_tail(c));
    lemma_infix(css_text(c), p, "border-radius: "@ + decimal(c.corner_radius as nat) + "px;"@, q);
}

proof fn lemma_css_text_color(c: Config)
    ensures
        has_infix(css_text(c), "color: "@ + c.text_color@ + ";"@),
{
    lemma_css_pieces(c);
    reveal_strlit("px;\n    padding: 14px 18px;\n    color: ");
    reveal_strlit(";\n}\n\n.notification-summary {\n    font-weight: 700;\n    font-size: 15px;\n    line-height: 1.25;\n    font-family: \"");
    reveal_strlit("color: ");
    reveal_strlit(";");
    let l3 = "px;\n    padding: 14px 18px;\n    color: "@;
    let l4 = ";\n}\n\n.notification-summary {\n    font-weight: 700;\n    font-size: 15px;\n    line-height: 1.25;\n    font-family: \""@;
    let p3 = l3.subrange(0, l3.len() - 7);
    assert(l3 =~= p3 + "color: "@);
    assert(l4 =~= ";"@ + l4.subrange(1, l4.len() as int));
    let p = "\n.lucent-window {\n    background-color: transparent;\n    box-shadow: none;\n}\n\n.notification-popup {\n    background-color: "@ + c.background_color@ + ";\n    "@ + border_rule(c) + "\n    border-radius: "@ + decimal(
        c.corner_radius as nat,
    ) + p3;
    let q = l4.subrange(1, l4.len() as int) + c.font_family@ + ("\";\n    color: "@ + css_tail(c));
    lemma_infix(css_text(c), p, "color: "@ + c.text_color@ + ";"@, q);
}

proof fn lemma_css_font(c: Config)
    ensures
        has_infix(css_text(c), "font-family: \""@ + c.font_family@ + "\";"@),
{
    lemma_css_pieces(c);
    reveal_strlit(";\n}\n\n.notification-summary {\n    font-weight: 700;\n    font-size: 15px;\n    line-height: 1.25;\n    font-family: \"");
    reveal_strlit("\";\n    color: ");
    reveal_strlit("font-family: \"");
    reveal_strlit("\";");
    let l4 = ";\n}\n\n.notification-summary {\n    font-weight: 700;\n    font-size: 15px;\n    line-height: 1.25;\n    font-family: \""@;
    let l5 = "\";\n    color: "@;
    let p4 = l4.subrange(0, l4.len() - 14);
    assert(l4 =~= p4 + "font-family: \""@);
    assert(l5 =~= "\";"@ + l5.subrange(2, l5.len() as int));
    let p = "\n.lucent-window {\n    background-color: transparent;\n    box-shadow: none;\n}\n\n.notification-popup {\n    background-color: "@ + c.background_color@ + ";\n    "@ + border_rule(c) + "\n    border-radius: "@ + decimal(
        c.corner_radius as nat,
    ) + "px;\n    padding: 14px 18px;\n    color: "@ + c.text_color@ + p4;
    let q = l5.subrange(2, l5.len() as int) + css_tail(c);
    lemma_infix(css_text(c), p, "font-family: \""@ + c.font_family@ + "\";"@, q);
}

/// Each configured value stands in the stylesheet right after the property it
/// sets: the background color, the border rule, the corner radius in pixels,
/// the text color and the font family.
pub proof fn law_css_sets_configured_values(c: Config)
    ensures
        has_infix(css_text(c), "background-color: "@ + c.background_color@ + ";"@),
        has_infix(css_text(c), border_rule(c)),
        has_infix(css_text(c), "border-radius: "@ + decimal(c.corner_radius as nat) + "px;"@),
        has_infix(css_text(c), "color: "@ + c.text_color@ + ";"@),
        has_infix(css_text(c), "font-family: \""@ + c.font_family@ + "\";"@),
{
    lemma_css_background(c);
    lemma_css_border(c);
    lemma_css_radius(c);
    lemma_css_text_color(c);
    lemma_css_font(c);
}

fn border_rule_string(config: &Config) -> (rule: String)
    ensures
        rule@ == border_rule(*config),
{
    if config.border_width == 0 {
        let rule = String::from_str("border: none;");
        rule
    } else {
        let mut rule = String::from_str("border: ");
        push_decimal(&mut rule, config.border_width);
        rule.append("px solid ");
        rule.append(config.border_color.as_str());
        rule.append(";");
        assert(rule@ =~= border_rule(*config));
        rule
    }
}

/// Builds the stylesheet text from the configuration values.
pub fn build_css(config: &Config) -> (css: String)
    ensures
        css@ == css_text(*config),
{
    let border = border_rule_string(config);
    let mut css = String::from_str(
        "\n.lucent-window {\n    background-color: transparent;\n    box-shadow: none;\n}\n\n.notification-popup {\n    background-color: ",
    );
    css.append(config.background_color.as_str());
    css.append(";\n    ");
    css.append(border.as_str());
    css.append("\n    border-radius: ");
    push_decimal(&mut css, config.corner_radius);
    css.append("px;\n    padding: 14px 18px;\n    color: ");
    css.append(config.text_color.as_str());
    css.append(
        ";\n}\n\n.notification-summary {\n    font-weight: 700;\n    font-size: 15px;\n    line-height: 1.25;\n    font-family: \"",
    );
    css.append(config.font_family.as_str());
    css.append("\";\n    color: ");
    css.append(config.text_color.as_str());
    css.append(
        ";\n}\n\n.notification-body {\n    font-size: 13px;\n    line-height: 1.3;\n    font-family: \"",
    );
    css.append(config.font_family.as_str());
    css.append("\";\n    color: ");
    css.append(config.text_color.as_str());
    css.append(
        ";\n    opacity: 0.88;\n}\n\n.notification-app-name {\n    font-size: 11px;\n    font-weight: 600;\n    font-family: \"",
    );
    css.append(config.font_family.as_str());
    css.append("\";\n    color: ");
    css.append(config.text_color.as_str());
    css.append(";\n    opacity: 0.68;\n}\n");
    assert(css@ =~= css_text(*config));
    css
}

} // verus!
