//! What the popup stack promises across commands.

use vstd::prelude::*;

use super::model::{
    command_effects, lemma_close_displayed, lemma_pending_without,
    lemma_position, lemma_show, lemma_windows_single, lemma_without_popup, order_without,
    pending_without, popup_generation_is, position, schedules_expiry_of, stack_well_formed,
    with_pending, without_popup, ActionView, StackEffects, StateView,
};
use crate::notification::{DbusSignal, Notification, UiCommand};

verus! {

/// Every command keeps the stack well formed (no id twice, at most
/// `max_visible_notifications` popups, one generation per popup) and leaves
/// the configuration alone; and carrying out its actions on the set of live
/// windows, which matched the ids on screen, makes it match them again.
pub proof fn law_command_keeps_windows_in_step(s: StateView, heights: Seq<i32>, cmd: UiCommand)
    requires
        stack_well_formed(s),
    ensures
        ({
            let e = command_effects(s, heights, cmd);
            &&& stack_well_formed(e.state)
            &&& e.state.config == s.config
            &&& super::model::windows_after(s.order.to_set(), e.actions) == e.state.order.to_set()
        }),
{
    match cmd {
        UiCommand::Show(n) => {
            lemma_show(s, heights, n);
        },
        UiCommand::Close { id, reason } => {
            lemma_close_displayed(with_pending(s, pending_without(s.pending, id)), heights, id, reason);
        },
        UiCommand::Expire { id, generation } => {
            lemma_close_displayed(s, heights, id, crate::notification::REASON_EXPIRED);
        },
        UiCommand::Reflow => {
            lemma_windows_single(s.order.to_set(), ActionView::Restack { order: s.order });
        },
    }
}

/// Closing a notification that is not on screen drops its queued copies and
/// does nothing else; with none queued it changes nothing at all.
pub proof fn law_close_off_screen_only_dequeues(
    s: StateView,
    heights: Seq<i32>,
    id: u32,
    reason: u32,
)
    requires
        !s.order.contains(id),
    ensures
        ({
            let e = command_effects(s, heights, UiCommand::Close { id, reason });
            &&& e.state == with_pending(s, pending_without(s.pending, id))
            &&& e.actions == Seq::<ActionView>::empty()
            &&& (forall|i: int| 0 <= i < s.pending.len() ==> #[trigger] s.pending[i].id != id)
                ==> e.state == s
        }),
{
    lemma_pending_without(s.pending, id);
    if forall|i: int| 0 <= i < s.pending.len() ==> #[trigger] s.pending[i].id != id {
        assert(with_pending(s, pending_without(s.pending, id)) =~= s);
    }
}

/// Closing a notification on screen emits `Closed` for it exactly once, as
/// the first action, then destroys its popup and restacks the others; with
/// nothing else queued the stack then holds one popup fewer.
pub proof fn law_close_emits_closed_once(s: StateView, heights: Seq<i32>, id: u32, reason: u32)
    requires
        stack_well_formed(s),
        s.order.contains(id),
    ensures
        ({
            let e = command_effects(s, heights, UiCommand::Close { id, reason });
            &&& e.actions.len() >= 3
            &&& e.actions[0] == ActionView::Emit { signal: DbusSignal::Closed { id, reason } }
            &&& e.actions[1] == ActionView::DestroyWindow { id }
            &&& e.actions[2] == ActionView::Restack { order: order_without(s.order, id) }
            &&& forall|i: int| 1 <= i < e.actions.len() ==> !(#[trigger] e.actions[i] is Emit)
            &&& pending_without(s.pending, id).len() == 0 ==> e.state.order == order_without(
                s.order,
                id,
            ) && e.state.order.len() == s.order.len() - 1
        }),
{
    let s1 = with_pending(s, pending_without(s.pending, id));
    lemma_close_displayed(s1, heights, id, reason);
    let j = choose|j: int| 0 <= j < s.order.len() && s.order[j] == id;
    lemma_without_popup(s1, j);
}

/// After a close, the notification is neither on screen nor queued.
pub proof fn law_close_removes_every_copy(s: StateView, heights: Seq<i32>, id: u32, reason: u32)
    requires
        stack_well_formed(s),
    ensures
        ({
            let e = command_effects(s, heights, UiCommand::Close { id, reason });
            &&& !e.state.order.contains(id)
            &&& forall|i: int| 0 <= i < e.state.pending.len() ==> #[trigger] e.state.pending[i].id != id
        }),
{
    let q = pending_without(s.pending, id);
    let s1 = with_pending(s, q);
    lemma_pending_without(s.pending, id);
    if s.order.contains(id) {
        let j = choose|j: int| 0 <= j < s.order.len() && s.order[j] == id;
        lemma_without_popup(s1, j);
        let k = position(s.order, id);
        let s2 = without_popup(s1, k);
        if s2.order.len() < s.config.max_visible_notifications && q.len() > 0 {
            let p = q[0];
            let s3 = with_pending(s2, q.drop_first());
            lemma_show(s3, heights.remove(k), p);
            let rest = order_without(s2.order, p.id);
            assert(rest.to_set().contains(id) ==> s2.order.to_set().contains(id));
            assert forall|i: int| 0 <= i < q.drop_first().len() implies #[trigger] q.drop_first()[i].id
                != id by {
                assert(q.drop_first()[i] == q[i + 1]);
            }
            assert(!rest.push(p.id).to_set().contains(id) ==> !rest.push(p.id).contains(id));
            assert(rest.push(p.id).contains(id) ==> rest.contains(id) || p.id == id) by {
                if rest.push(p.id).contains(id) {
                    let i = choose|i: int| 0 <= i < rest.push(p.id).len() && rest.push(p.id)[i] == id;
                    if i < rest.len() {
                        assert(rest[i] == rest.push(p.id)[i]);
                    }
                }
            }
        }
    }
}

/// When a popup closes while other notifications are queued, the first of
/// them takes the freed slot at the bottom of the stack, and the rest of the
/// queue keeps its order.
pub proof fn law_close_promotes_first_queued(
    s: StateView,
    heights: Seq<i32>,
    id: u32,
    reason: u32,
)
    requires
        stack_well_formed(s),
        s.order.contains(id),
        pending_without(s.pending, id).len() > 0,
    ensures
        ({
            let e = command_effects(s, heights, UiCommand::Close { id, reason });
            let q = pending_without(s.pending, id);
            &&& e.state.pending == q.drop_first()
            &&& e.state.order.len() > 0
            &&& e.state.order.last() == q[0].id
        }),
{
    let q = pending_without(s.pending, id);
    let s1 = with_pending(s, q);
    let j = choose|j: int| 0 <= j < s.order.len() && s.order[j] == id;
    lemma_without_popup(s1, j);
    let k = position(s.order, id);
    let s2 = without_popup(s1, k);
    lemma_show(with_pending(s2, q.drop_first()), heights.remove(k), q[0]);
}

/// A second close of the same notification, or a timer of it that fires
/// after the close, changes nothing and sends nothing: each notification
/// yields at most one `Closed`.
pub proof fn law_second_close_is_ignored(
    s: StateView,
    heights: Seq<i32>,
    id: u32,
    first_reason: u32,
    later_heights: Seq<i32>,
    second_reason: u32,
    generation: u64,
)
    requires
        stack_well_formed(s),
    ensures
        ({
            let e1 = command_effects(s, heights, UiCommand::Close { id, reason: first_reason });
            &&& command_effects(
                e1.state,
                later_heights,
                UiCommand::Close { id, reason: second_reason },
            ) == (StackEffects { state: e1.state, actions: Seq::empty() })
            &&& command_effects(e1.state, later_heights, UiCommand::Expire { id, generation })
                == (StackEffects { state: e1.state, actions: Seq::empty() })
        }),
{
    let e1 = command_effects(s, heights, UiCommand::Close { id, reason: first_reason });
    law_close_removes_every_copy(s, heights, id, first_reason);
    lemma_pending_without(e1.state.pending, id);
    assert(with_pending(e1.state, pending_without(e1.state.pending, id)) =~= e1.state);
}

/// Showing a notification removes, silently, a popup that it replaces; then
/// it goes to the bottom of the stack if there is room, and to the back of the
/// queue otherwise; it is never both shown and queued.
pub proof fn law_show_displays_or_queues(s: StateView, heights: Seq<i32>, n: Notification)
    requires
        stack_well_formed(s),
    ensures
        ({
            let e = command_effects(s, heights, UiCommand::Show(n));
            let rest = order_without(s.order, n.id);
            &&& !rest.contains(n.id)
            &&& forall|i: int| 0 <= i < e.actions.len() ==> !(#[trigger] e.actions[i] is Emit)
            &&& s.order.contains(n.id) ==> e.actions[0] == ActionView::DestroyWindow { id: n.id }
            &&& rest.len() < s.config.max_visible_notifications ==> e.state.order == rest.push(n.id)
                && e.state.pending == s.pending
            &&& rest.len() >= s.config.max_visible_notifications ==> e.state.order == rest
                && e.state.pending == s.pending.push(n) && forall|i: int|
                0 <= i < e.actions.len() ==> !(#[trigger] e.actions[i] is CreateWindow)
        }),
{
    lemma_show(s, heights, n);
}

/// A notification shown without replacing anything gets a popup placed
/// below the whole current stack, and only the new popup is created.
pub proof fn law_new_popup_goes_below_stack(s: StateView, heights: Seq<i32>, n: Notification)
    requires
        stack_well_formed(s),
        !s.order.contains(n.id),
        s.order.len() < s.config.max_visible_notifications,
    ensures
        ({
            let e = command_effects(s, heights, UiCommand::Show(n));
            &&& e.actions.len() >= 3
            &&& e.actions[0] == ActionView::CreateWindow {
                notification: n,
                top_offset: super::layout::stack_extent(heights),
            }
            &&& e.actions[1] == ActionView::Restack { order: s.order.push(n.id) }
            &&& e.state.order == s.order.push(n.id)
        }),
{
    lemma_show(s, heights, n);
    let e = command_effects(s, heights, UiCommand::Show(n));
    assert(e.actions[0] == ActionView::CreateWindow {
        notification: n,
        top_offset: super::layout::stack_extent(heights),
    });
}

/// A reflow changes nothing and asks only that the popups on screen be moved
/// to their offsets, in display order.
pub proof fn law_reflow_only_restacks(s: StateView, heights: Seq<i32>)
    ensures
        command_effects(s, heights, UiCommand::Reflow) == (StackEffects {
            state: s,
            actions: seq![ActionView::Restack { order: s.order }],
        }),
{
}

/// A shown notification with timeout 0 never expires; a negative timeout
/// expires it after the configured default seconds, a positive one after that
/// many milliseconds; the timer names the generation the popup is shown as.
pub proof fn law_expiry(s: StateView, heights: Seq<i32>, n: Notification)
    requires
        stack_well_formed(s),
        order_without(s.order, n.id).len() < s.config.max_visible_notifications,
    ensures
        ({
            let e = command_effects(s, heights, UiCommand::Show(n));
            &&& n.expire_timeout == 0 ==> forall|i: int|
                0 <= i < e.actions.len() ==> !schedules_expiry_of(#[trigger] e.actions[i], n.id)
            &&& n.expire_timeout < 0 ==> e.actions.last() == ActionView::Schedule {
                delay_ms: s.config.timeout_seconds * 1000,
                command: UiCommand::Expire { id: n.id, generation: s.next_generation },
            }
            &&& n.expire_timeout > 0 ==> e.actions.last() == ActionView::Schedule {
                delay_ms: n.expire_timeout as int,
                command: UiCommand::Expire { id: n.id, generation: s.next_generation },
            }
        }),
{
    let e = command_effects(s, heights, UiCommand::Show(n));
    lemma_show(s, heights, n);
    if n.expire_timeout == 0 {
        let removal = if s.order.contains(n.id) {
            seq![ActionView::DestroyWindow { id: n.id }]
        } else {
            Seq::<ActionView>::empty()
        };
        assert(e.actions.len() == removal.len() + 3);
        assert forall|i: int| 0 <= i < e.actions.len() implies !schedules_expiry_of(
            #[trigger] e.actions[i],
            n.id,
        ) by {
            if i < removal.len() {
                assert(e.actions[i] == removal[i]);
            }
        }
    }
}

/// The expiry timer of any popup on screen, wherever it stands in the stack,
/// closes it: the popup of `order[k]` is live for its own generation and no
/// other, and its timer emits `Closed` with reason "expired", destroys the
/// popup and restacks the rest; with no copy of it queued it is then gone.
pub proof fn law_live_expiry_closes_any_popup(s: StateView, heights: Seq<i32>, k: int)
    requires
        stack_well_formed(s),
        0 <= k < s.order.len(),
    ensures
        forall|g: u64| popup_generation_is(s, s.order[k], g) <==> g == s.generations[k],
        ({
            let id = s.order[k];
            let e = command_effects(
                s,
                heights,
                UiCommand::Expire { id, generation: s.generations[k] },
            );
            &&& e.actions.len() >= 3
            &&& e.actions[0] == ActionView::Emit {
                signal: DbusSignal::Closed { id, reason: crate::notification::REASON_EXPIRED },
            }
            &&& e.actions[1] == ActionView::DestroyWindow { id }
            &&& e.actions[2] == ActionView::Restack { order: s.order.remove(k) }
            &&& (forall|i: int| 0 <= i < s.pending.len() ==> #[trigger] s.pending[i].id != id)
                ==> !e.state.order.contains(id)
        }),
{
    let id = s.order[k];
    lemma_without_popup(s, k);
    lemma_close_displayed(s, heights, id, crate::notification::REASON_EXPIRED);
    lemma_pending_without(s.pending, id);
    if forall|i: int| 0 <= i < s.pending.len() ==> #[trigger] s.pending[i].id != id {
        assert(with_pending(s, pending_without(s.pending, id)) =~= s);
        law_close_removes_every_copy(s, heights, id, crate::notification::REASON_EXPIRED);
    }
}

/// Dropping the notifications of `id` from a queue works piece by piece: the
/// queue `p1 + p2` loses what `p1` loses and what `p2` loses, keeping the
/// order of everything else.
pub proof fn law_dequeue_concat(p1: Seq<Notification>, p2: Seq<Notification>, id: u32)
    ensures
        pending_without(p1 + p2, id) == pending_without(p1, id) + pending_without(p2, id),
    decreases p2.len(),
{
    if p2.len() == 0 {
        assert(p1 + p2 =~= p1);
        assert(pending_without(p1, id) + pending_without(p2, id) =~= pending_without(p1, id));
    } else {
        law_dequeue_concat(p1, p2.drop_last(), id);
        assert((p1 + p2).drop_last() =~= p1 + p2.drop_last());
        assert((p1 + p2).last() == p2.last());
        let x = p2.last();
        if x.id != id {
            assert(pending_without(p1, id) + pending_without(p2.drop_last(), id).push(x)
                =~= (pending_without(p1, id) + pending_without(p2.drop_last(), id)).push(x));
        }
    }
}

/// A single queued notification is dropped exactly when it has id `id`.
pub proof fn law_dequeue_single(x: Notification, id: u32)
    ensures
        pending_without(seq![x], id) == if x.id == id {
            Seq::<Notification>::empty()
        } else {
            seq![x]
        },
{
    let s = seq![x];
    assert(s.drop_last() =~= Seq::<Notification>::empty());
    assert(pending_without(s.drop_last(), id) == s.drop_last());
    assert(s.last() == x);
    assert(Seq::<Notification>::empty().push(x) =~= s);
}

/// An expiry timer of a popup that is no longer on screen as the generation
/// it was set for does nothing.
pub proof fn law_stale_expiry_is_ignored(s: StateView, heights: Seq<i32>, id: u32, generation: u64)
    requires
        !popup_generation_is(s, id, generation),
    ensures
        command_effects(s, heights, UiCommand::Expire { id, generation }) == (StackEffects {
            state: s,
            actions: Seq::empty(),
        }),
{
}

/// A replacement is shown as a new generation, so the expiry timer of the
/// popup it replaced does nothing to it (as long as the generation counter
/// has not reached `u64::MAX`).
pub proof fn law_replacement_ignores_old_timer(
    s: StateView,
    heights: Seq<i32>,
    n: Notification,
    later_heights: Seq<i32>,
)
    requires
        stack_well_formed(s),
        s.order.contains(n.id),
        s.next_generation < u64::MAX,
    ensures
        ({
            let old_generation = s.generations[position(s.order, n.id)];
            let e1 = command_effects(s, heights, UiCommand::Show(n));
            &&& e1.state.order.last() == n.id
            &&& command_effects(
                e1.state,
                later_heights,
                UiCommand::Expire { id: n.id, generation: old_generation },
            ) == (StackEffects { state: e1.state, actions: Seq::empty() })
        }),
{
    let j = choose|j: int| 0 <= j < s.order.len() && s.order[j] == n.id;
    lemma_position(s.order, j);
    let old_generation = s.generations[j];
    lemma_show(s, heights, n);
    let e1 = command_effects(s, heights, UiCommand::Show(n));
    let last = e1.state.order.len() - 1;
    lemma_position(e1.state.order, last);
    assert(e1.state.generations[last] == s.next_generation);
    assert(old_generation < s.next_generation);
}

} // verus!
