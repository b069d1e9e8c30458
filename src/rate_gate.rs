//! The rate gate: at most `quota` requests per window of `window` milliseconds,
//! granted strictly in the order in which callers queued.
//!
//! The rate gate only decides. Whoever drives it hands it the time and performs
//! what it decides: a caller takes a ticket with [`RateGate::enqueue`], then
//! polls with that ticket until it is granted, sleeping until the instant
//! given when told to wait for the window and until another grant when told
//! to wait for its turn.
use vstd::prelude::*;

verus! {

/// What a caller holding a ticket is to do now.
#[derive(Debug, Clone, Copy, PartialEq, Eq, Structural)]
pub enum Decision {
    /// Send now: this caller holds the permit for exactly one request.
    Grant,
    /// This caller is next, but the window's quota is spent: poll again at
    /// the given instant.
    WaitUntil(u64),
    /// Callers that queued earlier are still waiting: poll again after the
    /// next grant.
    WaitTurn,
}

/// The rate gate's state.
#[derive(Debug, Clone, Copy, PartialEq, Eq, Structural)]
pub struct RateGate {
    /// Requests allowed per window.
    pub quota: u64,
    /// Length of a window, in milliseconds.
    pub window: u64,
    /// The instant at which the current window ends.
    pub window_end: u64,
    /// Permits granted in the current window.
    pub used: u64,
    /// The ticket that the next caller to queue gets.
    pub next_ticket: u64,
    /// The ticket whose turn it is.
    pub serving: u64,
}

impl RateGate {
    /// The rate gate's invariant: a quota and a window of at least one, no more
    /// permits than the quota in the current window, and no turn given to a
    /// ticket that was not handed out.
    pub open spec fn wf(self) -> bool {
        &&& self.quota >= 1
        &&& self.window >= 1
        &&& self.used <= self.quota
        &&& self.serving <= self.next_ticket
    }

    /// The end of a window that opens at `now`.
    pub open spec fn window_from(self, now: u64) -> u64 {
        if now as int + self.window as int > u64::MAX as int {
            u64::MAX
        } else {
            (now + self.window) as u64
        }
    }

    /// What polling with `ticket` at `now` decides, and the state after it.
    pub open spec fn poll_spec(self, ticket: u64, now: u64) -> (RateGate, Decision) {
        if ticket != self.serving {
            (self, Decision::WaitTurn)
        } else {
            let opened = if now >= self.window_end {
                RateGate { window_end: self.window_from(now), used: 0, ..self }
            } else {
                self
            };
            if opened.used < opened.quota {
                (
                    RateGate { used: (opened.used + 1) as u64, serving: (opened.serving + 1) as u64, ..opened },
                    Decision::Grant,
                )
            } else {
                (opened, Decision::WaitUntil(opened.window_end))
            }
        }
    }

    /// A fresh gate: nobody queued, and the first window opening with the
    /// first request.
    pub open spec fn new_spec(quota: u64, window: u64) -> RateGate {
        RateGate { quota, window, window_end: 0, used: 0, next_ticket: 0, serving: 0 }
    }

    /// A gate for `quota` requests per `window` milliseconds; the first
    /// window opens with the first request.
    pub fn new(quota: u64, window: u64) -> (r: RateGate)
        requires
            quota >= 1,
            window >= 1,
        ensures
            r.wf(),
            r == RateGate::new_spec(quota, window),
    {
        RateGate { quota, window, window_end: 0, used: 0, next_ticket: 0, serving: 0 }
    }

    /// Queues a caller: its ticket is the one after the previous caller's.
    pub fn enqueue(&mut self) -> (ticket: u64)
        requires
            old(self).wf(),
            old(self).next_ticket < u64::MAX,
        ensures
            final(self).wf(),
            ticket == old(self).next_ticket,
            *final(self) == (RateGate { next_ticket: (old(self).next_ticket + 1) as u64, ..*old(self) }),
    {
        let ticket = self.next_ticket;
        self.next_ticket = self.next_ticket + 1;
        ticket
    }

    /// Decides for the holder of `ticket` at the instant `now`.
    pub fn poll(&mut self, ticket: u64, now: u64) -> (d: Decision)
        requires
            old(self).wf(),
            ticket < old(self).next_ticket,
        ensures
            final(self).wf(),
            (*final(self), d) == old(self).poll_spec(ticket, now),
    {
        if ticket != self.serving {
            return Decision::WaitTurn;
        }
        if now >= self.window_end {
            self.window_end = if now > u64::MAX - self.window {
                u64::MAX
            } else {
                now + self.window
            };
            self.used = 0;
        }
        if self.used < self.quota {
            self.used = self.used + 1;
            self.serving = self.serving + 1;
            Decision::Grant
        } else {
            Decision::WaitUntil(self.window_end)
        }
    }
}

/// Every poll keeps the rate gate's invariant; in particular no window ever sees
/// more grants than the quota.
pub proof fn lemma_poll_keeps_quota(g: RateGate, ticket: u64, now: u64)
    requires
        g.wf(),
        ticket < g.next_ticket,
    ensures
        g.poll_spec(ticket, now).0.wf(),
        g.poll_spec(ticket, now).0.used <= g.quota,
{
}

/// Permits go in queue order: only the ticket whose turn it is is granted,
/// and the turn then passes to the next ticket.
pub proof fn lemma_grants_in_ticket_order(g: RateGate, ticket: u64, now: u64)
    requires
        g.wf(),
        ticket < g.next_ticket,
        g.poll_spec(ticket, now).1 == Decision::Grant,
    ensures
        ticket == g.serving,
        g.poll_spec(ticket, now).0.serving == ticket + 1,
{
}

/// No request is dropped: once its window has ended, the caller whose turn
/// it is is granted.
pub proof fn lemma_head_is_granted_after_window(g: RateGate, now: u64)
    requires
        g.wf(),
        g.serving < g.next_ticket,
        now >= g.window_end,
    ensures
        g.poll_spec(g.serving, now).1 == Decision::Grant,
{
}

/// Whoever waits for the window is told to come back when it ends, and is
/// granted then.
pub proof fn lemma_wait_until_window_end(g: RateGate, ticket: u64, now: u64, t: u64)
    requires
        g.wf(),
        ticket < g.next_ticket,
        g.poll_spec(ticket, now).1 == Decision::WaitUntil(t),
    ensures
        ticket == g.serving,
        g.poll_spec(ticket, now).0.poll_spec(ticket, t).1 == Decision::Grant,
{
}

/// The state after polling with each `(ticket, now)` of `events` in turn,
/// and how many of those polls were granted.
pub open spec fn run(g: RateGate, events: Seq<(u64, u64)>) -> (RateGate, nat)
    decreases events.len(),
{
    if events.len() == 0 {
        (g, 0)
    } else {
        let (next, d) = g.poll_spec(events[0].0, events[0].1);
        let (last, n) = run(next, events.drop_first());
        (last, if d == Decision::Grant { n + 1 } else { n })
    }
}

/// Within one window at most `quota` requests are granted, however many
/// of the queued callers poll and in whatever order: polls that all come
/// before the window ends grant no more than what is left of its quota.
pub proof fn lemma_window_grants_within_quota(g: RateGate, events: Seq<(u64, u64)>)
    requires
        g.wf(),
        forall|i: int| 0 <= i < events.len() ==> #[trigger] events[i].0 < g.next_ticket,
        forall|i: int| 0 <= i < events.len() ==> #[trigger] events[i].1 < g.window_end,
    ensures
        run(g, events).1 <= g.quota - g.used,
        run(g, events).0.window_end == g.window_end,
        run(g, events).0.next_ticket == g.next_ticket,
    decreases events.len(),
{
    if events.len() > 0 {
        let (next, d) = g.poll_spec(events[0].0, events[0].1);
        assert(events[0].1 < g.window_end);
        assert(events[0].0 < g.next_ticket);
        let rest = events.drop_first();
        assert forall|i: int| 0 <= i < rest.len() implies #[trigger] rest[i].1 < next.window_end by {
            assert(rest[i] == events[i + 1]);
        }
        assert forall|i: int| 0 <= i < rest.len() implies #[trigger] rest[i].0 < next.next_ticket by {
            assert(rest[i] == events[i + 1]);
        }
        lemma_window_grants_within_quota(next, rest);
    }
}

} // verus!
