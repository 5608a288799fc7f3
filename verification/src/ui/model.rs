//! What each command does to the popup stack, as mathematical functions of
//! the stack, the measured popup heights and the command.

use vstd::prelude::*;

use super::layout::stack_extent;
use super::{UiAction, REFLOW_DELAY_MS};
use crate::config::Config;
use crate::notification::{DbusSignal, Notification, UiCommand, REASON_EXPIRED};

verus! {

/// `UiAction` with its values taken as mathematical ones.
pub enum ActionView {
    CreateWindow { notification: Notification, top_offset: int },
    DestroyWindow { id: u32 },
    Restack { order: Seq<u32> },
    Schedule { delay_ms: int, command: UiCommand },
    Emit { signal: DbusSignal },
}

impl View for UiAction {
    type V = ActionView;

    open spec fn view(&self) -> ActionView {
        match self {
            UiAction::CreateWindow { notification, top_offset } => ActionView::CreateWindow {
                notification: *notification,
                top_offset: *top_offset as int,
            },
            UiAction::DestroyWindow { id } => ActionView::DestroyWindow { id: *id },
            UiAction::Restack { order } => ActionView::Restack { order: order@ },
            UiAction::Schedule { delay_ms, command } => ActionView::Schedule {
                delay_ms: *delay_ms as int,
                command: *command,
            },
            UiAction::Emit { signal } => ActionView::Emit { signal: *signal },
        }
    }
}

/// The views of a list of actions.
pub open spec fn actions_view(s: Seq<UiAction>) -> Seq<ActionView> {
    s.map_values(|a: UiAction| a@)
}

/// The popup-side state: the configuration; the ids of the notifications on
/// screen, top to bottom, with the generation each popup was shown as; the
/// queue; and the generation the next popup gets.
#[verifier::ext_equal]
pub struct StateView {
    pub config: Config,
    pub order: Seq<u32>,
    pub generations: Seq<u64>,
    pub pending: Seq<Notification>,
    pub next_generation: u64,
}

/// The state a command leaves, and the work that it asks for.
pub struct StackEffects {
    pub state: StateView,
    pub actions: Seq<ActionView>,
}

/// The index at which `id` stands in `order`.
pub open spec fn position(order: Seq<u32>, id: u32) -> int {
    choose|k: int| 0 <= k < order.len() && order[k] == id
}

/// The generation after `g`; it stays at `u64::MAX` once there.
pub open spec fn next_generation_after(g: u64) -> u64 {
    if g == u64::MAX {
        g
    } else {
        (g + 1) as u64
    }
}

/// A well-formed stack: no id twice, no more popups than allowed, one
/// generation per popup, each older than the next one to be handed out.
pub open spec fn stack_well_formed(s: StateView) -> bool {
    &&& s.order.no_duplicates()
    &&& s.order.len() <= s.config.max_visible_notifications
    &&& s.generations.len() == s.order.len()
    &&& forall|i: int|
        #![trigger s.generations[i]]
        0 <= i < s.generations.len() ==> s.generations[i] < s.next_generation
            || s.next_generation == u64::MAX
}

/// The queue without the notifications whose id is `id`.
pub open spec fn pending_without(pending: Seq<Notification>, id: u32) -> Seq<Notification>
    decreases pending.len(),
{
    if pending.len() == 0 {
        pending
    } else {
        let rest = pending_without(pending.drop_last(), id);
        if pending.last().id == id {
            rest
        } else {
            rest.push(pending.last())
        }
    }
}

/// `s` without the popup at index `k`.
pub open spec fn without_popup(s: StateView, k: int) -> StateView {
    StateView {
        config: s.config,
        order: s.order.remove(k),
        generations: s.generations.remove(k),
        pending: s.pending,
        next_generation: s.next_generation,
    }
}

/// `s` with queue `pending`.
pub open spec fn with_pending(s: StateView, pending: Seq<Notification>) -> StateView {
    StateView {
        config: s.config,
        order: s.order,
        generations: s.generations,
        pending: pending,
        next_generation: s.next_generation,
    }
}

/// Stack `order` with `id` taken out, if it is there.
pub open spec fn order_without(order: Seq<u32>, id: u32) -> Seq<u32> {
    if order.contains(id) {
        order.remove(position(order, id))
    } else {
        order
    }
}

/// The timer that expires the popup of `n` shown as `generation`: after the
/// server default of `default_secs` seconds for a negative timeout, never for
/// a zero timeout, else after `expire_timeout` milliseconds.
pub open spec fn expiry_actions(n: Notification, generation: u64, default_secs: u32) -> Seq<
    ActionView,
> {
    if n.expire_timeout < 0 {
        seq![
            ActionView::Schedule {
                delay_ms: default_secs * 1000,
                command: UiCommand::Expire { id: n.id, generation: generation },
            },
        ]
    } else if n.expire_timeout == 0 {
        Seq::empty()
    } else {
        seq![
            ActionView::Schedule {
                delay_ms: n.expire_timeout as int,
                command: UiCommand::Expire { id: n.id, generation: generation },
            },
        ]
    }
}

/// Showing `n` (popup heights `heights`, in display order): a popup that `n`
/// replaces is removed silently; then `n` is queued if the stack is full,
/// else its popup is created below the others as a new generation, the stack
/// is restacked, a reflow is scheduled and so is its expiry.
pub open spec fn show_effects(s: StateView, heights: Seq<i32>, n: Notification) -> StackEffects {
    let replaced = s.order.contains(n.id);
    let k = position(s.order, n.id);
    let s1 = if replaced {
        without_popup(s, k)
    } else {
        s
    };
    let heights1 = if replaced {
        heights.remove(k)
    } else {
        heights
    };
    let removal = if replaced {
        seq![ActionView::DestroyWindow { id: n.id }]
    } else {
        Seq::empty()
    };
    if s1.order.len() >= s.config.max_visible_notifications {
        StackEffects { state: with_pending(s1, s1.pending.push(n)), actions: removal }
    } else {
        let g = s1.next_generation;
        let order2 = s1.order.push(n.id);
        StackEffects {
            state: StateView {
                config: s1.config,
                order: order2,
                generations: s1.generations.push(g),
                pending: s1.pending,
                next_generation: next_generation_after(g),
            },
            actions: removal + seq![
                ActionView::CreateWindow { notification: n, top_offset: stack_extent(heights1) },
                ActionView::Restack { order: order2 },
                ActionView::Schedule { delay_ms: REFLOW_DELAY_MS as int, command: UiCommand::Reflow },
            ] + expiry_actions(n, g, s.config.timeout_seconds),
        }
    }
}

/// Showing the first queued notification when a slot is free; nothing
/// otherwise.
pub open spec fn next_pending_effects(s: StateView, heights: Seq<i32>) -> StackEffects {
    if s.order.len() < s.config.max_visible_notifications && s.pending.len() > 0 {
        show_effects(with_pending(s, s.pending.drop_first()), heights, s.pending[0])
    } else {
        StackEffects { state: s, actions: Seq::empty() }
    }
}

/// Closing the popup of `id` with `reason`: nothing happens if it is not on
/// screen; else it is removed, `Closed` is emitted, the popup destroyed, the
/// stack restacked, and the first queued notification shown.
pub open spec fn close_displayed_effects(
    s: StateView,
    heights: Seq<i32>,
    id: u32,
    reason: u32,
) -> StackEffects {
    if !s.order.contains(id) {
        StackEffects { state: s, actions: Seq::empty() }
    } else {
        let k = position(s.order, id);
        let s1 = without_popup(s, k);
        let closing = seq![
            ActionView::Emit { signal: DbusSignal::Closed { id: id, reason: reason } },
            ActionView::DestroyWindow { id: id },
            ActionView::Restack { order: s1.order },
        ];
        let e = next_pending_effects(s1, heights.remove(k));
        StackEffects { state: e.state, actions: closing + e.actions }
    }
}

/// Closing notification `id` with `reason`: every queued notification with
/// that id is dropped, and its popup, if on screen, is closed.
pub open spec fn close_effects(s: StateView, heights: Seq<i32>, id: u32, reason: u32) -> StackEffects {
    close_displayed_effects(with_pending(s, pending_without(s.pending, id)), heights, id, reason)
}

/// Whether the popup of `id` is on screen as generation `generation`.
pub open spec fn popup_generation_is(s: StateView, id: u32, generation: u64) -> bool {
    s.order.contains(id) && s.generations[position(s.order, id)] == generation
}

/// An expiry timer of notification `id` set for generation `generation`: it
/// closes the popup, with reason "expired", only if the popup on screen is
/// that generation; a timer of an earlier popup does nothing.
pub open spec fn expire_effects(s: StateView, heights: Seq<i32>, id: u32, generation: u64) -> StackEffects {
    if popup_generation_is(s, id, generation) {
        close_displayed_effects(s, heights, id, REASON_EXPIRED)
    } else {
        StackEffects { state: s, actions: Seq::empty() }
    }
}

/// What `cmd` does to the stack `s`, whose popups have measured heights
/// `heights` (in display order).
pub open spec fn command_effects(s: StateView, heights: Seq<i32>, cmd: UiCommand) -> StackEffects {
    match cmd {
        UiCommand::Show(n) => show_effects(s, heights, n),
        UiCommand::Close { id, reason } => close_effects(s, heights, id, reason),
        UiCommand::Expire { id, generation } => expire_effects(s, heights, id, generation),
        UiCommand::Reflow => StackEffects {
            state: s,
            actions: seq![ActionView::Restack { order: s.order }],
        },
    }
}

/// The set of live popup windows after `a` is carried out.
pub open spec fn window_step(ws: Set<u32>, a: ActionView) -> Set<u32> {
    match a {
        ActionView::CreateWindow { notification, .. } => ws.insert(notification.id),
        ActionView::DestroyWindow { id } => ws.remove(id),
        _ => ws,
    }
}

/// The set of live popup windows after `acts` are carried out in order,
/// starting from `ws`.
pub open spec fn windows_after(ws: Set<u32>, acts: Seq<ActionView>) -> Set<u32>
    decreases acts.len(),
{
    if acts.len() == 0 {
        ws
    } else {
        window_step(windows_after(ws, acts.drop_last()), acts.last())
    }
}

/// Whether `a` schedules an expiry of notification `id`.
pub open spec fn schedules_expiry_of(a: ActionView, id: u32) -> bool {
    a matches ActionView::Schedule { command: UiCommand::Expire { id: expiring, .. }, .. }
        && expiring == id
}

pub(crate) proof fn lemma_remove_index<T>(s: Seq<T>, k: int)
    requires
        0 <= k < s.len(),
    ensures
        s.remove(k).len() == s.len() - 1,
        forall|i: int| 0 <= i < k ==> #[trigger] s.remove(k)[i] == s[i],
        forall|i: int| k <= i < s.len() - 1 ==> #[trigger] s.remove(k)[i] == s[i + 1],
{
}

/// In a list without duplicates, `position` finds the one index of `id`.
pub(crate) proof fn lemma_position(s: Seq<u32>, k: int)
    requires
        s.no_duplicates(),
        0 <= k < s.len(),
    ensures
        position(s, s[k]) == k,
        s.contains(s[k]),
{
    let id = s[k];
    assert(0 <= k < s.len() && s[k] == id);
    let p = position(s, id);
    assert(0 <= p < s.len() && s[p] == id);
}

/// Removing an entry of a list without duplicates keeps it so, drops exactly
/// that value, and removes it from the set of values.
pub(crate) proof fn lemma_remove_distinct(s: Seq<u32>, k: int)
    requires
        s.no_duplicates(),
        0 <= k < s.len(),
    ensures
        s.remove(k).no_duplicates(),
        !s.remove(k).contains(s[k]),
        s.remove(k).to_set() == s.to_set().remove(s[k]),
{
    let r = s.remove(k);
    lemma_remove_index(s, k);
    assert forall|i: int, j: int| 0 <= i < r.len() && 0 <= j < r.len() && i != j implies r[i]
        != r[j] by {
        let si = if i < k {
            i
        } else {
            i + 1
        };
        let sj = if j < k {
            j
        } else {
            j + 1
        };
        assert(r[i] == s[si]);
        assert(r[j] == s[sj]);
    }
    assert forall|x: u32| r.contains(x) implies s.contains(x) && x != s[k] by {
        let i = choose|i: int| 0 <= i < r.len() && r[i] == x;
        let si = if i < k {
            i
        } else {
            i + 1
        };
        assert(r[i] == s[si]);
    }
    assert forall|x: u32| s.contains(x) && x != s[k] implies r.contains(x) by {
        let j = choose|j: int| 0 <= j < s.len() && s[j] == x;
        let i = if j < k {
            j
        } else {
            j - 1
        };
        assert(r[i] == x);
    }
    assert(r.to_set() =~= s.to_set().remove(s[k]));
}

pub(crate) proof fn lemma_push_distinct(s: Seq<u32>, x: u32)
    requires
        s.no_duplicates(),
        !s.contains(x),
    ensures
        s.push(x).no_duplicates(),
        s.push(x).to_set() == s.to_set().insert(x),
{
    let t = s.push(x);
    assert forall|i: int, j: int| 0 <= i < t.len() && 0 <= j < t.len() && i != j implies t[i]
        != t[j] by {
        if i == s.len() {
            assert(s[j] == t[j]);
        } else if j == s.len() {
            assert(s[i] == t[i]);
        }
    }
    assert forall|y: u32| t.contains(y) implies s.contains(y) || y == x by {
        let i = choose|i: int| 0 <= i < t.len() && t[i] == y;
        if i < s.len() {
            assert(s[i] == y);
        }
    }
    assert forall|y: u32| s.contains(y) implies t.contains(y) by {
        let i = choose|i: int| 0 <= i < s.len() && s[i] == y;
        assert(t[i] == y);
    }
    assert(t[s.len() as int] == x);
    assert(t.to_set() =~= s.to_set().insert(x));
}

pub(crate) proof fn lemma_windows_concat(ws: Set<u32>, a: Seq<ActionView>, b: Seq<ActionView>)
    ensures
        windows_after(ws, a + b) == windows_after(windows_after(ws, a), b),
    decreases b.len(),
{
    if b.len() == 0 {
        assert(a + b =~= a);
    } else {
        lemma_windows_concat(ws, a, b.drop_last());
        assert((a + b).drop_last() =~= a + b.drop_last());
    }
}

pub(crate) proof fn lemma_windows_single(ws: Set<u32>, a: ActionView)
    ensures
        windows_after(ws, seq![a]) == window_step(ws, a),
{
    let s = seq![a];
    assert(s.drop_last() =~= Seq::<ActionView>::empty());
    assert(windows_after(ws, s.drop_last()) == ws);
    assert(s.last() == a);
}

/// Actions that neither create nor destroy a popup leave the windows alone.
pub(crate) proof fn lemma_windows_inert(ws: Set<u32>, acts: Seq<ActionView>)
    requires
        forall|i: int|
            0 <= i < acts.len() ==> !(#[trigger] acts[i] is CreateWindow) && !(
            acts[i] is DestroyWindow),
    ensures
        windows_after(ws, acts) == ws,
    decreases acts.len(),
{
    if acts.len() > 0 {
        assert(acts.drop_last().len() == acts.len() - 1);
        assert forall|i: int| 0 <= i < acts.drop_last().len() implies !(
        #[trigger] acts.drop_last()[i] is CreateWindow) && !(
        acts.drop_last()[i] is DestroyWindow) by {
            assert(acts.drop_last()[i] == acts[i]);
        }
        lemma_windows_inert(ws, acts.drop_last());
        assert(acts[acts.len() - 1] == acts.last());
    }
}

pub(crate) proof fn lemma_pending_without(pending: Seq<Notification>, id: u32)
    ensures
        forall|i: int|
            0 <= i < pending_without(pending, id).len() ==> #[trigger] pending_without(
                pending,
                id,
            )[i].id != id,
        (forall|i: int| 0 <= i < pending.len() ==> #[trigger] pending[i].id != id)
            ==> pending_without(pending, id) == pending,
    decreases pending.len(),
{
    if pending.len() > 0 {
        lemma_pending_without(pending.drop_last(), id);
        let rest = pending_without(pending.drop_last(), id);
        if pending.last().id != id {
            assert forall|i: int|
                0 <= i < rest.push(pending.last()).len() implies #[trigger] rest.push(
                pending.last(),
            )[i].id != id by {
                if i < rest.len() {
                    assert(rest.push(pending.last())[i] == rest[i]);
                }
            }
        }
        if forall|i: int| 0 <= i < pending.len() ==> #[trigger] pending[i].id != id {
            assert forall|i: int| 0 <= i < pending.drop_last().len() implies #[trigger] pending.drop_last()[i].id
                != id by {
                assert(pending.drop_last()[i] == pending[i]);
            }
            assert(pending[pending.len() - 1].id != id);
            assert(rest.push(pending.last()) =~= pending);
        }
    }
}

/// Taking out a popup of a well-formed stack keeps it well formed and drops
/// that id from the windows.
pub(crate) proof fn lemma_without_popup(s: StateView, k: int)
    requires
        stack_well_formed(s),
        0 <= k < s.order.len(),
    ensures
        stack_well_formed(without_popup(s, k)),
        !without_popup(s, k).order.contains(s.order[k]),
        without_popup(s, k).order.to_set() == s.order.to_set().remove(s.order[k]),
        without_popup(s, k).order.len() == s.order.len() - 1,
        position(s.order, s.order[k]) == k,
        s.order.contains(s.order[k]),
{
    lemma_position(s.order, k);
    lemma_remove_distinct(s.order, k);
    lemma_remove_index(s.generations, k);
    let g = s.generations.remove(k);
    assert forall|i: int| 0 <= i < g.len() implies #[trigger] g[i] < s.next_generation
        || s.next_generation == u64::MAX by {
        if i < k {
            assert(g[i] == s.generations[i]);
        } else {
            assert(g[i] == s.generations[i + 1]);
        }
    }
}

/// What showing a notification does, in the terms the laws and the state's
/// invariant need.
pub(crate) proof fn lemma_show(s: StateView, heights: Seq<i32>, n: Notification)
    requires
        stack_well_formed(s),
    ensures
        ({
            let e = show_effects(s, heights, n);
            let rest = order_without(s.order, n.id);
            &&& stack_well_formed(e.state)
            &&& e.state.config == s.config
            &&& windows_after(s.order.to_set(), e.actions) == e.state.order.to_set()
            &&& forall|i: int| 0 <= i < e.actions.len() ==> !(#[trigger] e.actions[i] is Emit)
            &&& s.order.contains(n.id) ==> e.actions.len() >= 1 && e.actions[0]
                == ActionView::DestroyWindow { id: n.id } && rest.len() == s.order.len() - 1
            &&& rest.no_duplicates()
            &&& !rest.contains(n.id)
            &&& rest.to_set() == s.order.to_set().remove(n.id)
            &&& rest.len() <= s.order.len()
            &&& rest.len() < s.config.max_visible_notifications ==> {
                &&& e.state.order == rest.push(n.id)
                &&& e.state.pending == s.pending
                &&& e.state.generations.last() == s.next_generation
                &&& e.state.next_generation == next_generation_after(s.next_generation)
            }
            &&& rest.len() >= s.config.max_visible_notifications ==> {
                &&& e.state.order == rest
                &&& e.state.pending == s.pending.push(n)
                &&& forall|i: int|
                    0 <= i < e.actions.len() ==> !(#[trigger] e.actions[i] is CreateWindow)
            }
        }),
{
    let e = show_effects(s, heights, n);
    let replaced = s.order.contains(n.id);
    let ws = s.order.to_set();
    let k = position(s.order, n.id);
    let s1 = if replaced {
        without_popup(s, k)
    } else {
        s
    };
    let removal = if replaced {
        seq![ActionView::DestroyWindow { id: n.id }]
    } else {
        Seq::<ActionView>::empty()
    };
    if replaced {
        let j = choose|j: int| 0 <= j < s.order.len() && s.order[j] == n.id;
        lemma_without_popup(s, j);
        lemma_windows_single(ws, ActionView::DestroyWindow { id: n.id });
    }
    assert(windows_after(ws, removal) == s1.order.to_set());
    assert(s1.order == order_without(s.order, n.id));
    if !replaced {
        assert(s.order.to_set() =~= s.order.to_set().remove(n.id));
    }
    if s1.order.len() < s.config.max_visible_notifications {
        let g = s1.next_generation;
        let order2 = s1.order.push(n.id);
        let heights1 = if replaced {
            heights.remove(k)
        } else {
            heights
        };
        let create = seq![
            ActionView::CreateWindow { notification: n, top_offset: stack_extent(heights1) },
        ];
        let inert = seq![
            ActionView::Restack { order: order2 },
            ActionView::Schedule { delay_ms: REFLOW_DELAY_MS as int, command: UiCommand::Reflow },
        ];
        let tail = expiry_actions(n, g, s.config.timeout_seconds);
        assert(create + inert =~= seq![
            ActionView::CreateWindow { notification: n, top_offset: stack_extent(heights1) },
            ActionView::Restack { order: order2 },
            ActionView::Schedule { delay_ms: REFLOW_DELAY_MS as int, command: UiCommand::Reflow },
        ]);
        assert(e.actions =~= removal + create + inert + tail);
        lemma_push_distinct(s1.order, n.id);
        lemma_windows_concat(ws, removal + create + inert, tail);
        lemma_windows_concat(ws, removal + create, inert);
        lemma_windows_concat(ws, removal, create);
        lemma_windows_single(s1.order.to_set(), create[0]);
        lemma_windows_inert(order2.to_set(), inert);
        lemma_windows_inert(order2.to_set(), tail);
        let gens = s1.generations.push(g);
        assert forall|i: int| 0 <= i < gens.len() implies #[trigger] gens[i]
            < next_generation_after(g) || next_generation_after(g) == u64::MAX by {
            if i < s1.generations.len() {
                assert(gens[i] == s1.generations[i]);
            }
        }
        assert forall|i: int| 0 <= i < e.actions.len() implies !(#[trigger] e.actions[i] is Emit) by {
            let a = removal + create + inert;
            if i < a.len() {
                assert(e.actions[i] == a[i]);
                let b = removal + create;
                if i < b.len() {
                    assert(a[i] == b[i]);
                    if i < removal.len() {
                        assert(b[i] == removal[i]);
                    } else {
                        assert(b[i] == create[i - removal.len()]);
                    }
                } else {
                    assert(a[i] == inert[i - b.len()]);
                }
            } else {
                assert(e.actions[i] == tail[i - a.len()]);
            }
        }
        if replaced {
            assert(e.actions[0] == removal[0]);
        }
    } else {
        if replaced {
            assert(e.actions[0] == removal[0]);
        }
    }
}

/// Showing the first queued notification keeps the stack well formed and the
/// windows in step with it, and emits nothing.
pub(crate) proof fn lemma_next_pending(s: StateView, heights: Seq<i32>)
    requires
        stack_well_formed(s),
    ensures
        ({
            let e = next_pending_effects(s, heights);
            &&& stack_well_formed(e.state)
            &&& e.state.config == s.config
            &&& windows_after(s.order.to_set(), e.actions) == e.state.order.to_set()
            &&& forall|i: int| 0 <= i < e.actions.len() ==> !(#[trigger] e.actions[i] is Emit)
        }),
{
    if s.order.len() < s.config.max_visible_notifications && s.pending.len() > 0 {
        lemma_show(with_pending(s, s.pending.drop_first()), heights, s.pending[0]);
    }
}

/// Closing a popup on screen keeps the stack well formed and the windows in
/// step with it; `Closed` is emitted once, first.
pub(crate) proof fn lemma_close_displayed(s: StateView, heights: Seq<i32>, id: u32, reason: u32)
    requires
        stack_well_formed(s),
    ensures
        ({
            let e = close_displayed_effects(s, heights, id, reason);
            &&& stack_well_formed(e.state)
            &&& e.state.config == s.config
            &&& windows_after(s.order.to_set(), e.actions) == e.state.order.to_set()
            &&& s.order.contains(id) ==> {
                &&& e.actions.len() >= 3
                &&& e.actions[0] == ActionView::Emit { signal: DbusSignal::Closed { id, reason } }
                &&& e.actions[1] == ActionView::DestroyWindow { id }
                &&& e.actions[2] == ActionView::Restack { order: order_without(s.order, id) }
                &&& forall|i: int|
                    1 <= i < e.actions.len() ==> !(#[trigger] e.actions[i] is Emit)
            }
        }),
{
    if s.order.contains(id) {
        let j = choose|j: int| 0 <= j < s.order.len() && s.order[j] == id;
        lemma_without_popup(s, j);
        let k = position(s.order, id);
        let s1 = without_popup(s, k);
        let closing = seq![
            ActionView::Emit { signal: DbusSignal::Closed { id: id, reason: reason } },
            ActionView::DestroyWindow { id: id },
            ActionView::Restack { order: s1.order },
        ];
        let ne = next_pending_effects(s1, heights.remove(k));
        lemma_next_pending(s1, heights.remove(k));
        let ws = s.order.to_set();
        lemma_windows_concat(ws, closing, ne.actions);
        let emit = seq![closing[0]];
        let rest = seq![closing[1], closing[2]];
        assert(closing =~= emit + rest);
        lemma_windows_concat(ws, emit, rest);
        lemma_windows_single(ws, closing[0]);
        let one = seq![closing[1]];
        let two = seq![closing[2]];
        assert(rest =~= one + two);
        lemma_windows_concat(ws, one, two);
        lemma_windows_single(ws, closing[1]);
        lemma_windows_single(ws.remove(id), closing[2]);
        let e = close_displayed_effects(s, heights, id, reason);
        assert(e.actions == closing + ne.actions);
        assert forall|i: int| 1 <= i < e.actions.len() implies !(#[trigger] e.actions[i] is Emit) by {
            if i >= 3 {
                assert(e.actions[i] == ne.actions[i - 3]);
            }
        }
    }
}

} // verus!
