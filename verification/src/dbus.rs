//! The `org.freedesktop.Notifications` server (spec v1.3): id allocation and
//! the decoding of requests into popup commands.

use vstd::arithmetic::div_mod::{lemma_fundamental_div_mod, lemma_fundamental_div_mod_converse};
use std::collections::HashMap;
use vstd::prelude::*;
use zbus::zvariant::OwnedValue;

use crate::notification::{
    instant_now, DbusSignal, Notification, UiCommand, REASON_CLOSED_BY_CALL,
};

verus! {

/// The id that follows `id` in allocation order: ids count up from 1 and
/// skip 0 when the counter wraps, so that no notification ever gets id 0.
pub open spec fn next_id_after(id: u32) -> u32 {
    if id == u32::MAX {
        1
    } else {
        (id + 1) as u32
    }
}

/// The id handed out by the `k`-th fresh allocation (counting from 0) of a
/// server whose next fresh id is `start`.
pub open spec fn nth_fresh_id(start: u32, k: nat) -> u32
    decreases k,
{
    if k == 0 {
        start
    } else {
        next_id_after(nth_fresh_id(start, (k - 1) as nat))
    }
}

/// Fresh ids run through 1, 2, ..., `u32::MAX` and then start again at 1:
/// the `k`-th fresh id after `start` is `((start - 1 + k) mod u32::MAX) + 1`.
pub proof fn law_fresh_id_sequence(start: u32, k: nat)
    requires
        start != 0,
    ensures
        nth_fresh_id(start, k) as int == (start - 1 + k) % (u32::MAX as int) + 1,
    decreases k,
{
    let m = u32::MAX as int;
    if k == 0 {
        lemma_fundamental_div_mod_converse(start - 1, m, 0, start - 1);
    } else {
        law_fresh_id_sequence(start, (k - 1) as nat);
        let a = start - 1 + (k - 1);
        let q = a / m;
        let r = a % m;
        lemma_fundamental_div_mod(a, m);
        assert(a == q * m + r) by (nonlinear_arith)
            requires
                a == m * (a / m) + (a % m),
                q == a / m,
                r == a % m,
        ;
        if r == m - 1 {
            assert(a + 1 == (q + 1) * m + 0) by (nonlinear_arith)
                requires
                    a == q * m + r,
                    r == m - 1,
            ;
            lemma_fundamental_div_mod_converse(a + 1, m, q + 1, 0);
        } else {
            lemma_fundamental_div_mod_converse(a + 1, m, q, r + 1);
        }
    }
}

/// Fresh ids count up one by one from the first until the counter reaches
/// `u32::MAX`.
pub proof fn law_fresh_ids_count_up(start: u32, k: nat)
    requires
        start != 0,
        start + k <= u32::MAX,
    ensures
        nth_fresh_id(start, k) == start + k,
{
    law_fresh_id_sequence(start, k);
    lemma_fundamental_div_mod_converse(start - 1 + k, u32::MAX as int, 0, start - 1 + k);
}

/// No fresh id is 0, and any `u32::MAX` consecutive fresh ids are pairwise
/// distinct.
pub proof fn law_fresh_ids_distinct(start: u32, i: nat, j: nat)
    requires
        start != 0,
        i < j,
        j - i < u32::MAX,
    ensures
        nth_fresh_id(start, i) != 0,
        nth_fresh_id(start, i) != nth_fresh_id(start, j),
{
    let m = u32::MAX as int;
    law_fresh_id_sequence(start, i);
    law_fresh_id_sequence(start, j);
    let a = start - 1 + i;
    let b = start - 1 + j;
    lemma_fundamental_div_mod(a, m);
    lemma_fundamental_div_mod(b, m);
    if a % m == b % m {
        let qa = a / m;
        let qb = b / m;
        assert(false) by (nonlinear_arith)
            requires
                a == m * qa + (a % m),
                b == m * qb + (b % m),
                a % m == b % m,
                0 < b - a < m,
                m > 0,
        ;
    }
}

/// The D-Bus action list `[key, label, key, label, ...]` read as pairs; an odd
/// trailing entry is dropped.
pub open spec fn action_pairs_spec(actions: Seq<String>) -> Seq<(String, String)> {
    Seq::new(actions.len() / 2, |i: int| (actions[2 * i], actions[2 * i + 1]))
}

/// Every complete `(key, label)` pair of the action list is kept, in order,
/// however many there are: there are `len / 2` pairs, pair `i` is made of
/// entries `2i` and `2i + 1`, appending a pair to the list appends it to the
/// pairs, and a single trailing entry adds nothing.
pub proof fn law_action_pairs(actions: Seq<String>, key: String, label: String)
    ensures
        action_pairs_spec(actions).len() == actions.len() / 2,
        forall|i: int|
            0 <= i < actions.len() / 2 ==> #[trigger] action_pairs_spec(actions)[i] == (
                actions[2 * i],
                actions[2 * i + 1],
            ),
        actions.len() % 2 == 0 ==> action_pairs_spec(actions + seq![key, label])
            == action_pairs_spec(actions).push((key, label)),
        actions.len() % 2 == 0 ==> action_pairs_spec(actions.push(key)) == action_pairs_spec(
            actions,
        ),
{
    if actions.len() % 2 == 0 {
        let longer = actions + seq![key, label];
        assert(longer.len() / 2 == actions.len() / 2 + 1);
        assert forall|i: int| 0 <= i < actions.len() / 2 implies #[trigger] longer[2 * i]
            == actions[2 * i] && longer[2 * i + 1] == actions[2 * i + 1] by {}
        assert(longer[actions.len() as int] == key);
        assert(longer[actions.len() as int + 1] == label);
        assert(action_pairs_spec(longer) =~= action_pairs_spec(actions).push((key, label)));
        let one_more = actions.push(key);
        assert(one_more.len() / 2 == actions.len() / 2);
        assert(action_pairs_spec(one_more) =~= action_pairs_spec(actions));
    }
}

/// Reads a D-Bus action list `[key, label, key, label, ...]` into pairs.
pub fn action_pairs(actions: &Vec<String>) -> (pairs: Vec<(String, String)>)
    ensures
        pairs@ == action_pairs_spec(actions@),
{
    let mut pairs: Vec<(String, String)> = Vec::new();
    let mut i: usize = 0;
    while i + 1 < actions.len()
        invariant
            i % 2 == 0,
            i <= actions.len(),
            pairs@.len() == i / 2,
            forall|j: int|
                0 <= j < pairs@.len() ==> #[trigger] pairs@[j] == (
                    actions@[2 * j],
                    actions@[2 * j + 1],
                ),
        decreases actions.len() - i,
    {
        let key = actions[i].clone();
        let label = actions[i + 1].clone();
        pairs.push((key, label));
        i = i + 2;
    }
    assert(pairs@ =~= action_pairs_spec(actions@));
    pairs
}

/// The notification server: allocates notification ids (starting at 1) and
/// turns bus requests into popup commands.
pub struct NotificationServer {
    next_id: u32,
}

impl NotificationServer {
    #[verifier::type_invariant]
    spec fn id_is_nonzero(self) -> bool {
        self.next_id != 0
    }

    /// The id that the next fresh allocation hands out.
    pub closed spec fn next_fresh_id(&self) -> u32 {
        self.next_id
    }

    /// A server whose first fresh id is 1.
    pub fn new() -> (s: Self)
        ensures
            s.next_fresh_id() == 1,
    {
        NotificationServer { next_id: 1 }
    }

    /// The capabilities supported by this server.
    pub fn get_capabilities(&self) -> (caps: Vec<String>)
        ensures
            caps@.len() == 3,
            caps@[0]@ == "body"@,
            caps@[1]@ == "body-markup"@,
            caps@[2]@ == "icon-static"@,
    {
        let mut caps: Vec<String> = Vec::new();
        caps.push(String::from_str("body"));
        caps.push(String::from_str("body-markup"));
        caps.push(String::from_str("icon-static"));
        caps
    }

    /// Server identity and specification version: name, vendor, the given
    /// server version, and the specification version `1.3`.
    pub fn get_server_information(&self, version: &str) -> (info: (String, String, String, String))
        ensures
            info.0@ == "Lucent"@,
            info.1@ == "lucent"@,
            info.2@ == version@,
            info.3@ == "1.3"@,
    {
        (
            String::from_str("Lucent"),
            String::from_str("lucent"),
            String::from_str(version),
            String::from_str("1.3"),
        )
    }

    /// Decodes a `Notify` request into the notification to display.
    ///
    /// The notification's id is `replaces_id` when that is non-zero (the
    /// notification with that id is then replaced), else a fresh id.
    pub fn notify(
        &mut self,
        app_name: &str,
        replaces_id: u32,
        app_icon: &str,
        summary: &str,
        body: &str,
        actions: Vec<String>,
        hints: HashMap<String, OwnedValue>,
        expire_timeout: i32,
    ) -> (n: Notification)
        ensures
            replaces_id != 0 ==> n.id == replaces_id && final(self).next_fresh_id() == old(
                self,
            ).next_fresh_id(),
            replaces_id == 0 ==> n.id == old(self).next_fresh_id() && final(self).next_fresh_id()
                == next_id_after(old(self).next_fresh_id()),
            n.id != 0,
            n.app_name@ == app_name@,
            n.app_icon@ == app_icon@,
            n.summary@ == summary@,
            n.body@ == body@,
            n.actions@ == action_pairs_spec(actions@),
            n.hints == hints,
            n.expire_timeout == expire_timeout,
    {
        proof {
            use_type_invariant(&*self);
        }
        let id = if replaces_id != 0 {
            replaces_id
        } else {
            let fresh = self.next_id;
            self.next_id = if fresh == u32::MAX {
                1
            } else {
                fresh + 1
            };
            fresh
        };
        let action_list = action_pairs(&actions);
        Notification {
            id,
            app_name: String::from_str(app_name),
            app_icon: String::from_str(app_icon),
            summary: String::from_str(summary),
            body: String::from_str(body),
            actions: action_list,
            hints,
            expire_timeout,
            created_at: instant_now(),
        }
    }

    /// Decodes a `CloseNotification` request: the popup side is told to close
    /// the notification, and `NotificationClosed` is emitted, both with the
    /// reason "closed by a call" (3).
    pub fn close_notification(&self, id: u32) -> (out: (UiCommand, DbusSignal))
        ensures
            out.0 == (UiCommand::Close { id, reason: REASON_CLOSED_BY_CALL }),
            out.1 == (DbusSignal::Closed { id, reason: REASON_CLOSED_BY_CALL }),
    {
        (
            UiCommand::Close { id, reason: REASON_CLOSED_BY_CALL },
            DbusSignal::Closed { id, reason: REASON_CLOSED_BY_CALL },
        )
    }
}

} // verus!
