//! The popup stack: which notifications are on screen, in what order, which
//! wait in the queue, and where each popup sits.
//!
//! `State::handle_command` decides what a command does to the stack and
//! returns the work that the window system and the timers must carry out, as
//! a list of `UiAction`s in the order in which they are to be performed.

pub mod laws;
pub mod layout;
pub mod model;

use std::collections::VecDeque;
use vstd::prelude::*;

use self::layout::{lemma_extent_remove, stack_extent};
use self::model::{
    actions_view, close_displayed_effects, command_effects, expire_effects, expiry_actions, lemma_close_displayed,
    lemma_next_pending, lemma_pending_without, lemma_position, lemma_show, next_pending_effects,
    pending_without, popup_generation_is, position, show_effects, stack_well_formed, with_pending,
    without_popup, ActionView, StateView,
};
use crate::config::Config;
use crate::notification::{DbusSignal, Notification, UiCommand, REASON_EXPIRED};

verus! {

/// Delay after which a freshly shown popup is restacked once more, when its
/// first layout pass has given it its final height.
pub const REFLOW_DELAY_MS: u64 = 30;

/// Work that a command asks of the window system, the timers and the bus.
#[derive(Debug)]
pub enum UiAction {
    /// Create and present the popup of `notification`, `top_offset` pixels
    /// below the top of the stack.
    CreateWindow { notification: Notification, top_offset: i32 },
    /// Fade out and destroy the popup of notification `id`.
    DestroyWindow { id: u32 },
    /// Move the popups of `order` (top to bottom) to their stack offsets.
    Restack { order: Vec<u32> },
    /// Hand `command` back to the popup side after `delay_ms` milliseconds.
    Schedule { delay_ms: u64, command: UiCommand },
    /// Emit `signal` on the bus.
    Emit { signal: DbusSignal },
}

/// The stack proper, apart from the configuration.
struct Stack {
    order: Vec<u32>,
    generations: Vec<u64>,
    pending: VecDeque<Notification>,
    next_generation: u64,
}

spec fn stack_view(stack: Stack, config: Config) -> StateView {
    StateView {
        config: config,
        order: stack.order@,
        generations: stack.generations@,
        pending: stack.pending@,
        next_generation: stack.next_generation,
    }
}

/// The popup-side state: the configuration, the notifications on screen from
/// top to bottom (each with the generation it was shown as), and the
/// notifications queued for a free slot.
pub struct State {
    config: Config,
    stack: Stack,
}

impl View for State {
    type V = StateView;

    closed spec fn view(&self) -> StateView {
        stack_view(self.stack, self.config)
    }
}

proof fn lemma_view_push(s: Seq<UiAction>, a: UiAction)
    ensures
        actions_view(s.push(a)) == actions_view(s).push(a@),
{
    assert(actions_view(s.push(a)) =~= actions_view(s).push(a@));
}

fn find_position(order: &Vec<u32>, id: u32) -> (r: Option<usize>)
    ensures
        match r {
            Some(k) => k < order@.len() && order@[k as int] == id,
            None => !order@.contains(id),
        },
{
    let mut i: usize = 0;
    while i < order.len()
        invariant
            i <= order@.len(),
            forall|j: int| 0 <= j < i ==> order@[j] != id,
        decreases order.len() - i,
    {
        if order[i] == id {
            return Some(i);
        }
        i = i + 1;
    }
    None
}

fn copy_order(order: &Vec<u32>) -> (c: Vec<u32>)
    ensures
        c@ == order@,
{
    let mut c: Vec<u32> = Vec::new();
    let mut i: usize = 0;
    while i < order.len()
        invariant
            i <= order@.len(),
            c@ == order@.take(i as int),
        decreases order.len() - i,
    {
        c.push(order[i]);
        i = i + 1;
        assert(c@ =~= order@.take(i as int));
    }
    assert(order@.take(i as int) =~= order@);
    c
}

fn push_action(actions: &mut Vec<UiAction>, a: UiAction)
    ensures
        actions_view(final(actions)@) == actions_view(old(actions)@).push(a@),
{
    proof {
        lemma_view_push(old(actions)@, a);
    }
    actions.push(a);
}

/// Takes the popup at index `k` out of the stack, with its height.
fn remove_popup(stack: &mut Stack, heights: &mut Vec<i32>, k: usize, config: &Config)
    requires
        stack_well_formed(stack_view(*old(stack), *config)),
        old(heights)@.len() == old(stack).order@.len(),
        k < old(stack).order@.len(),
    ensures
        stack_view(*final(stack), *config) == without_popup(stack_view(*old(stack), *config), k as int),
        final(heights)@ == old(heights)@.remove(k as int),
{
    stack.order.remove(k);
    stack.generations.remove(k);
    heights.remove(k);
    assert(stack_view(*stack, *config) =~= without_popup(
        stack_view(*old(stack), *config),
        k as int,
    ));
}

/// Shows `n`, or queues it when the stack is full.
fn show_notification(
    config: &Config,
    stack: &mut Stack,
    heights: &mut Vec<i32>,
    n: Notification,
    actions: &mut Vec<UiAction>,
)
    requires
        stack_well_formed(stack_view(*old(stack), *config)),
        old(heights)@.len() == old(stack).order@.len(),
        stack_extent(old(heights)@) <= i32::MAX,
    ensures
        stack_view(*final(stack), *config) == show_effects(
            stack_view(*old(stack), *config),
            old(heights)@,
            n,
        ).state,
        actions_view(final(actions)@) == actions_view(old(actions)@) + show_effects(
            stack_view(*old(stack), *config),
            old(heights)@,
            n,
        ).actions,
        stack_well_formed(stack_view(*final(stack), *config)),
{
    let ghost s0 = stack_view(*stack, *config);
    let ghost h0 = heights@;
    let ghost acts0 = actions_view(actions@);
    proof {
        lemma_show(s0, h0, n);
    }
    let id = n.id;
    let found = find_position(&stack.order, id);
    match found {
        Some(k) => {
            proof {
                lemma_position(s0.order, k as int);
                lemma_extent_remove(h0, k as int);
            }
            remove_popup(stack, heights, k, config);
            push_action(actions, UiAction::DestroyWindow { id });
        },
        None => {},
    }
    let ghost s1 = stack_view(*stack, *config);
    assert(s1 == (if s0.order.contains(id) {
        without_popup(s0, position(s0.order, id))
    } else {
        s0
    }));
    assert(heights@ == (if s0.order.contains(id) {
        h0.remove(position(s0.order, id))
    } else {
        h0
    }));
    assert(actions_view(actions@) =~= acts0 + (if s0.order.contains(id) {
        seq![ActionView::DestroyWindow { id: id }]
    } else {
        Seq::<ActionView>::empty()
    }));
    if stack.order.len() >= config.max_visible_notifications as usize {
        stack.pending.push_back(n);
        assert(stack_view(*stack, *config) =~= with_pending(s1, s1.pending.push(n)));
        return ;
    }
    let ghost acts1 = actions_view(actions@);
    let top_offset = State::next_top_offset(heights);
    let generation = stack.next_generation;
    let expire_timeout = n.expire_timeout;
    push_action(actions, UiAction::CreateWindow { notification: n, top_offset });
    stack.order.push(id);
    stack.generations.push(generation);
    stack.next_generation = if generation == u64::MAX {
        generation
    } else {
        generation + 1
    };
    let snapshot = copy_order(&stack.order);
    push_action(actions, UiAction::Restack { order: snapshot });
    push_action(
        actions,
        UiAction::Schedule { delay_ms: REFLOW_DELAY_MS, command: UiCommand::Reflow },
    );
    if expire_timeout < 0 {
        let delay_ms = config.timeout_seconds as u64 * 1000;
        push_action(
            actions,
            UiAction::Schedule { delay_ms, command: UiCommand::Expire { id, generation } },
        );
    } else if expire_timeout > 0 {
        push_action(
            actions,
            UiAction::Schedule {
                delay_ms: expire_timeout as u64,
                command: UiCommand::Expire { id, generation },
            },
        );
    }
    assert(actions_view(actions@) =~= acts1 + seq![
        ActionView::CreateWindow { notification: n, top_offset: top_offset as int },
        ActionView::Restack { order: s1.order.push(id) },
        ActionView::Schedule { delay_ms: REFLOW_DELAY_MS as int, command: UiCommand::Reflow },
    ] + expiry_actions(n, generation, config.timeout_seconds));
    let ghost e = show_effects(s0, h0, n);
    assert(stack_view(*stack, *config) =~= e.state);
    assert(actions_view(actions@) =~= acts0 + e.actions);
}

/// Shows the first queued notification if a slot is free.
fn show_next_pending(
    config: &Config,
    stack: &mut Stack,
    heights: &mut Vec<i32>,
    actions: &mut Vec<UiAction>,
)
    requires
        stack_well_formed(stack_view(*old(stack), *config)),
        old(heights)@.len() == old(stack).order@.len(),
        stack_extent(old(heights)@) <= i32::MAX,
    ensures
        stack_view(*final(stack), *config) == next_pending_effects(
            stack_view(*old(stack), *config),
            old(heights)@,
        ).state,
        actions_view(final(actions)@) == actions_view(old(actions)@) + next_pending_effects(
            stack_view(*old(stack), *config),
            old(heights)@,
        ).actions,
        stack_well_formed(stack_view(*final(stack), *config)),
{
    let ghost s0 = stack_view(*stack, *config);
    if stack.order.len() < config.max_visible_notifications as usize {
        let next = stack.pending.pop_front();
        match next {
            Some(n) => {
                assert(stack_view(*stack, *config) =~= with_pending(s0, s0.pending.drop_first()));
                show_notification(config, stack, heights, n, actions);
                return ;
            },
            None => {},
        }
    }
    assert(actions_view(actions@) =~= actions_view(old(actions)@) + Seq::<ActionView>::empty());
}

/// Closes the popup of `id`, if it is on screen, with `reason`.
fn close_displayed(
    config: &Config,
    stack: &mut Stack,
    heights: &mut Vec<i32>,
    id: u32,
    reason: u32,
    actions: &mut Vec<UiAction>,
)
    requires
        stack_well_formed(stack_view(*old(stack), *config)),
        old(heights)@.len() == old(stack).order@.len(),
        stack_extent(old(heights)@) <= i32::MAX,
    ensures
        stack_view(*final(stack), *config) == close_displayed_effects(
            stack_view(*old(stack), *config),
            old(heights)@,
            id,
            reason,
        ).state,
        actions_view(final(actions)@) == actions_view(old(actions)@) + close_displayed_effects(
            stack_view(*old(stack), *config),
            old(heights)@,
            id,
            reason,
        ).actions,
        stack_well_formed(stack_view(*final(stack), *config)),
{
    let ghost s0 = stack_view(*stack, *config);
    let ghost h0 = heights@;
    let ghost acts0 = actions_view(actions@);
    proof {
        lemma_close_displayed(s0, h0, id, reason);
    }
    let found = find_position(&stack.order, id);
    match found {
        None => {
            assert(actions_view(actions@) =~= acts0 + Seq::<ActionView>::empty());
        },
        Some(k) => {
            proof {
                lemma_position(s0.order, k as int);
                lemma_extent_remove(h0, k as int);
                model::lemma_without_popup(s0, k as int);
            }
            remove_popup(stack, heights, k, config);
            push_action(actions, UiAction::Emit { signal: DbusSignal::Closed { id, reason } });
            push_action(actions, UiAction::DestroyWindow { id });
            let snapshot = copy_order(&stack.order);
            push_action(actions, UiAction::Restack { order: snapshot });
            let ghost acts1 = actions_view(actions@);
            show_next_pending(config, stack, heights, actions);
            assert(actions_view(actions@) =~= acts0 + (seq![
                ActionView::Emit { signal: DbusSignal::Closed { id: id, reason: reason } },
                ActionView::DestroyWindow { id: id },
                ActionView::Restack { order: without_popup(s0, k as int).order },
            ] + next_pending_effects(without_popup(s0, k as int), h0.remove(k as int)).actions));
        },
    }
}

/// Drops every queued notification whose id is `id`.
fn drop_queued(pending: &mut VecDeque<Notification>, id: u32)
    ensures
        final(pending)@ == pending_without(old(pending)@, id),
{
    let ghost orig = pending@;
    let mut kept: VecDeque<Notification> = VecDeque::new();
    let count = pending.len();
    let mut i: usize = 0;
    while i < count
        invariant
            count == orig.len(),
            i <= count,
            pending@ == orig.skip(i as int),
            kept@ == pending_without(orig.take(i as int), id),
        decreases count - i,
    {
        let ghost before = pending@;
        let item = pending.pop_front();
        proof {
            assert(orig.take(i + 1).drop_last() =~= orig.take(i as int));
            assert(orig.take(i + 1).last() == orig[i as int]);
            assert(before[0] == orig[i as int]);
            assert(pending@ =~= orig.skip(i + 1));
        }
        match item {
            Some(n) => {
                if n.id != id {
                    kept.push_back(n);
                }
            },
            None => {},
        }
        i = i + 1;
    }
    assert(orig.take(count as int) =~= orig);
    *pending = kept;
}

impl State {
    #[verifier::type_invariant]
    spec fn well_formed(self) -> bool {
        stack_well_formed(stack_view(self.stack, self.config))
    }

    /// An empty stack with an empty queue.
    pub fn new(config: Config) -> (s: Self)
        ensures
            s@.config == config,
            s@.order == Seq::<u32>::empty(),
            s@.generations == Seq::<u64>::empty(),
            s@.pending == Seq::<Notification>::empty(),
            s@.next_generation == 0,
    {
        State {
            config,
            stack: Stack {
                order: Vec::new(),
                generations: Vec::new(),
                pending: VecDeque::new(),
                next_generation: 0,
            },
        }
    }

    /// The configuration the stack was made with.
    pub fn config(&self) -> (c: &Config)
        ensures
            *c == self@.config,
    {
        &self.config
    }

    /// The ids of the notifications on screen, top to bottom.
    pub fn display_order(&self) -> (order: &Vec<u32>)
        ensures
            order@ == self@.order,
    {
        &self.stack.order
    }

    /// The number of notifications waiting for a free slot.
    pub fn pending_len(&self) -> (len: usize)
        ensures
            len == self@.pending.len(),
    {
        self.stack.pending.len()
    }

    /// Processes a command from the bus side or from a timer.
    ///
    /// `heights` holds the measured heights of the popups on screen, in
    /// display order. The returned actions are to be carried out in order.
    pub fn handle_command(&mut self, cmd: UiCommand, heights: Vec<i32>) -> (actions: Vec<
        UiAction,
    >)
        requires
            heights@.len() == old(self)@.order.len(),
            stack_extent(heights@) <= i32::MAX,
        ensures
            final(self)@ == command_effects(old(self)@, heights@, cmd).state,
            actions_view(actions@) == command_effects(old(self)@, heights@, cmd).actions,
            final(self)@.config == old(self)@.config,
            stack_well_formed(final(self)@),
    {
        proof {
            use_type_invariant(&*self);
        }
        let ghost s0 = self@;
        let ghost h0 = heights@;
        let mut stack = Stack {
            order: Vec::new(),
            generations: Vec::new(),
            pending: VecDeque::new(),
            next_generation: 0,
        };
        std::mem::swap(&mut stack, &mut self.stack);
        assert(stack_view(stack, self.config) == s0);
        let mut heights = heights;
        let mut actions: Vec<UiAction> = Vec::new();
        match cmd {
            UiCommand::Show(n) => {
                show_notification(&self.config, &mut stack, &mut heights, n, &mut actions);
                assert(actions_view(actions@) =~= show_effects(s0, h0, n).actions);
            },
            UiCommand::Close { id, reason } => {
                drop_queued(&mut stack.pending, id);
                assert(stack_view(stack, self.config) =~= with_pending(
                    s0,
                    pending_without(s0.pending, id),
                ));
                close_displayed(&self.config, &mut stack, &mut heights, id, reason, &mut actions);
                assert(actions_view(actions@) =~= command_effects(s0, h0, cmd).actions);
            },
            UiCommand::Expire { id, generation } => {
                let found = find_position(&stack.order, id);
                let live = match found {
                    Some(k) => {
                        proof {
                            lemma_position(s0.order, k as int);
                        }
                        stack.generations[k] == generation
                    },
                    None => false,
                };
                assert(live == popup_generation_is(s0, id, generation));
                if live {
                    close_displayed(
                        &self.config,
                        &mut stack,
                        &mut heights,
                        id,
                        REASON_EXPIRED,
                        &mut actions,
                    );
                }
                assert(actions_view(actions@) =~= expire_effects(s0, h0, id, generation).actions);
            },
            UiCommand::Reflow => {
                let snapshot = copy_order(&stack.order);
                push_action(&mut actions, UiAction::Restack { order: snapshot });
                assert(actions_view(actions@) =~= seq![ActionView::Restack { order: s0.order }]);
            },
        }
        self.stack = stack;
        actions
    }
}

} // verus!
