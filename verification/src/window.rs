//! The content and placement of a single notification popup.

use vstd::prelude::*;

use crate::notification::Notification;

verus! {

/// Margin from the screen edges, in pixels.
pub const SCREEN_MARGIN: i32 = 12;

/// Vertical travel of the enter and exit animations, in pixels.
pub const ENTRY_OFFSET_PX: i32 = 14;

/// Maximum line width, in characters, of the wrapped summary and body labels.
pub const LABEL_MAX_WIDTH_CHARS: i32 = 40;

/// The part of a notification that a popup label shows.
#[derive(Debug, Clone, Copy, PartialEq, Eq, Structural)]
pub enum LabelRole {
    /// The sending application's name.
    AppName,
    /// The summary line, wrapped.
    Summary,
    /// The body text, wrapped and read as pango markup.
    Body,
}

/// A label of a popup: its role and its text.
#[derive(Debug)]
pub struct PopupLabel {
    pub role: LabelRole,
    pub text: String,
}

/// The labels of the popup of `n`, top to bottom: the application name, the
/// summary and the body, each only when it is not empty.
pub open spec fn popup_label_spec(n: Notification) -> Seq<(LabelRole, Seq<char>)> {
    (if n.app_name@.len() > 0 {
        seq![(LabelRole::AppName, n.app_name@)]
    } else {
        Seq::empty()
    }) + (if n.summary@.len() > 0 {
        seq![(LabelRole::Summary, n.summary@)]
    } else {
        Seq::empty()
    }) + (if n.body@.len() > 0 {
        seq![(LabelRole::Body, n.body@)]
    } else {
        Seq::empty()
    })
}

/// Where a role's label stands among the labels of a popup.
pub open spec fn role_rank(r: LabelRole) -> int {
    match r {
        LabelRole::AppName => 0,
        LabelRole::Summary => 1,
        LabelRole::Body => 2,
    }
}

/// Each part of a notification has a label exactly when it is not empty,
/// whatever the other parts are; a label shows the text of its own part; and
/// the labels run application name, summary, body, each at most once.
pub proof fn law_popup_labels(n: Notification)
    ensures
        popup_label_spec(n).contains((LabelRole::AppName, n.app_name@)) <==> n.app_name@.len() > 0,
        popup_label_spec(n).contains((LabelRole::Summary, n.summary@)) <==> n.summary@.len() > 0,
        popup_label_spec(n).contains((LabelRole::Body, n.body@)) <==> n.body@.len() > 0,
        popup_label_spec(n).len() == (if n.app_name@.len() > 0 {
            1int
        } else {
            0int
        }) + (if n.summary@.len() > 0 {
            1int
        } else {
            0int
        }) + (if n.body@.len() > 0 {
            1int
        } else {
            0int
        }),
        forall|i: int|
            0 <= i < popup_label_spec(n).len() ==> {
                let l = #[trigger] popup_label_spec(n)[i];
                &&& l.0 == LabelRole::AppName ==> l.1 == n.app_name@
                &&& l.0 == LabelRole::Summary ==> l.1 == n.summary@
                &&& l.0 == LabelRole::Body ==> l.1 == n.body@
                &&& l.1.len() > 0
            },
        forall|i: int, j: int|
            0 <= i < j < popup_label_spec(n).len() ==> role_rank(popup_label_spec(n)[i].0)
                < role_rank(popup_label_spec(n)[j].0),
{
    let a = if n.app_name@.len() > 0 {
        seq![(LabelRole::AppName, n.app_name@)]
    } else {
        Seq::<(LabelRole, Seq<char>)>::empty()
    };
    let b = if n.summary@.len() > 0 {
        seq![(LabelRole::Summary, n.summary@)]
    } else {
        Seq::<(LabelRole, Seq<char>)>::empty()
    };
    let c = if n.body@.len() > 0 {
        seq![(LabelRole::Body, n.body@)]
    } else {
        Seq::<(LabelRole, Seq<char>)>::empty()
    };
    let s = popup_label_spec(n);
    assert(s == a + b + c);
    assert forall|i: int| 0 <= i < s.len() implies #[trigger] s[i] == if i < a.len() {
        a[i]
    } else if i < a.len() + b.len() {
        b[i - a.len()]
    } else {
        c[i - a.len() - b.len()]
    } by {
        if i < a.len() + b.len() {
            assert((a + b)[i] == s[i]);
        }
    }
    if n.app_name@.len() > 0 {
        assert(s[0] == (LabelRole::AppName, n.app_name@));
    }
    if n.summary@.len() > 0 {
        assert(s[a.len() as int] == (LabelRole::Summary, n.summary@));
    }
    if n.body@.len() > 0 {
        assert(s[(a.len() + b.len()) as int] == (LabelRole::Body, n.body@));
    }
}

/// A label taken as its role and the characters of its text.
pub open spec fn label_view(l: PopupLabel) -> (LabelRole, Seq<char>) {
    (l.role, l.text@)
}

/// The labels that the popup of `n` shows, top to bottom.
pub fn popup_labels(n: &Notification) -> (labels: Vec<PopupLabel>)
    ensures
        labels@.map_values(|l: PopupLabel| label_view(l)) == popup_label_spec(*n),
{
    let mut labels: Vec<PopupLabel> = Vec::new();
    let ghost mut expected: Seq<(LabelRole, Seq<char>)> = Seq::empty();
    if !n.app_name.as_str().is_empty() {
        labels.push(PopupLabel { role: LabelRole::AppName, text: n.app_name.clone() });
        proof {
            expected = expected.push((LabelRole::AppName, n.app_name@));
        }
    }
    assert(labels@.map_values(|l: PopupLabel| label_view(l)) =~= expected);
    if !n.summary.as_str().is_empty() {
        labels.push(PopupLabel { role: LabelRole::Summary, text: n.summary.clone() });
        proof {
            expected = expected.push((LabelRole::Summary, n.summary@));
        }
    }
    assert(labels@.map_values(|l: PopupLabel| label_view(l)) =~= expected);
    if !n.body.as_str().is_empty() {
        labels.push(PopupLabel { role: LabelRole::Body, text: n.body.clone() });
        proof {
            expected = expected.push((LabelRole::Body, n.body@));
        }
    }
    assert(labels@.map_values(|l: PopupLabel| label_view(l)) =~= expected);
    assert(expected =~= popup_label_spec(*n));
    labels
}

/// The top margin at which a popup for stack offset `top_offset` appears:
/// below the screen margin, shifted down by the entry travel, from where it
/// slides up into place.
pub fn entry_top_margin(top_offset: i32) -> (margin: i32)
    requires
        SCREEN_MARGIN + top_offset + ENTRY_OFFSET_PX <= i32::MAX,
        SCREEN_MARGIN + top_offset + ENTRY_OFFSET_PX >= i32::MIN,
    ensures
        margin == SCREEN_MARGIN + top_offset + ENTRY_OFFSET_PX,
{
    SCREEN_MARGIN + top_offset + ENTRY_OFFSET_PX
}

/// The width for which a popup's height is measured: its current width once
/// it has one, else `-1` (no constraint).
pub fn measure_for_size(width: i32) -> (for_size: i32)
    ensures
        width > 0 ==> for_size == width,
        width <= 0 ==> for_size == -1,
{
    if width > 0 {
        width
    } else {
        -1
    }
}

} // verus!
