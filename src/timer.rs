//! The timer controller: at most one live reminder/expiry chain per lobby.
//!
//! Every installed chain carries a generation number. The chain that runs in
//! the host reports `ReminderDue(generation)` and `ExpireDue(generation)`;
//! the controller accepts a report only from the live chain, so a chain that
//! was replaced can never deliver a stale reminder or expiry.
use vstd::prelude::*;

verus! {

/// How long before the scheduled time the roster is reminded, in seconds.
pub const REMINDER_LEAD_SECS: u32 = 600;

/// How long after the scheduled time the lobby stays open, in seconds.
pub const GRACE_PERIOD_SECS: u32 = 0;

/// `x` clamped into the range of `i64`.
pub open spec fn clamp_time(x: int) -> i64 {
    if x < i64::MIN {
        i64::MIN
    } else if x > i64::MAX {
        i64::MAX
    } else {
        x as i64
    }
}

/// `b - a` when `a < b`, else zero.
pub open spec fn time_until(a: int, b: int) -> int {
    if a < b {
        b - a
    } else {
        0
    }
}

/// One installed delayed-action chain.
#[derive(Clone, Copy, Debug, PartialEq, Eq, Structural)]
pub struct TimerPlan {
    /// Tag carried by the events the chain emits.
    pub generation: u64,
    /// Unix time (seconds) at which `ReminderDue` is emitted.
    pub reminder_at: i64,
    /// Unix time (seconds) at which `ExpireDue` is emitted.
    pub expire_at: i64,
}

/// The plan that `install` computes for a schedule.
pub open spec fn plan_for(generation: u64, schedule: i64, lead: u32, grace: u32) -> TimerPlan {
    TimerPlan {
        generation,
        reminder_at: clamp_time(schedule - lead),
        expire_at: clamp_time(schedule + grace),
    }
}

impl TimerPlan {
    /// Seconds to wait, from `now`, before emitting `ReminderDue`
    /// (zero when the reminder time has already passed).
    pub fn reminder_delay(&self, now: i64) -> (r: u64)
        ensures
            r == time_until(now as int, self.reminder_at as int),
    {
        if now < self.reminder_at {
            (self.reminder_at as i128 - now as i128) as u64
        } else {
            0
        }
    }

    /// Seconds to wait, from `now`, before emitting `ExpireDue`
    /// (zero when the expiry time has already passed).
    pub fn expire_delay(&self, now: i64) -> (r: u64)
        ensures
            r == time_until(now as int, self.expire_at as int),
    {
        if now < self.expire_at {
            (self.expire_at as i128 - now as i128) as u64
        } else {
            0
        }
    }
}

/// The per-lobby timer controller.
#[derive(Clone, Copy, Debug, PartialEq, Eq, Structural)]
pub struct TimerController {
    /// Generation of the most recently installed chain (zero: none yet).
    pub generation: u64,
    /// The chain that is currently live, if any.
    pub live: Option<TimerPlan>,
    /// Whether the live chain's reminder has been accepted.
    pub reminder_sent: bool,
}

impl TimerController {
    /// The live chain, when there is one, is the latest installed one.
    pub open spec fn wf(self) -> bool {
        match self.live {
            Some(p) => p.generation == self.generation && self.generation > 0,
            None => !self.reminder_sent,
        }
    }

    /// The controller after installing a chain for `schedule`.
    pub open spec fn installed(self, schedule: i64, lead: u32, grace: u32) -> TimerController {
        TimerController {
            generation: (self.generation + 1) as u64,
            live: Some(plan_for((self.generation + 1) as u64, schedule, lead, grace)),
            reminder_sent: false,
        }
    }

    /// Whether a `ReminderDue(g)` report is accepted.
    pub open spec fn accepts_reminder(self, g: u64) -> bool {
        match self.live {
            Some(p) => p.generation == g && !self.reminder_sent,
            None => false,
        }
    }

    /// Whether an `ExpireDue(g)` report is accepted.
    pub open spec fn accepts_expiry(self, g: u64) -> bool {
        match self.live {
            Some(p) => p.generation == g,
            None => false,
        }
    }

    /// A controller with no chain.
    pub fn new() -> (r: TimerController)
        ensures
            r.wf(),
            r.generation == 0,
            r.live.is_none(),
            !r.reminder_sent,
    {
        TimerController { generation: 0, live: None, reminder_sent: false }
    }

    /// Whether another chain can still be installed.
    pub fn can_install(&self) -> (r: bool)
        ensures
            r == (self.generation < u64::MAX),
    {
        self.generation < u64::MAX
    }

    /// Cancels the live chain (if any) and installs a new one:
    /// `reminder_at = schedule - lead`, `expire_at = schedule + grace`.
    pub fn install(&mut self, schedule: i64, lead: u32, grace: u32) -> (plan: TimerPlan)
        requires
            old(self).generation < u64::MAX,
        ensures
            *final(self) == old(self).installed(schedule, lead, grace),
            plan == plan_for(final(self).generation, schedule, lead, grace),
            final(self).wf(),
    {
        let generation = self.generation + 1;
        let reminder_at = match schedule.checked_sub(lead as i64) {
            Some(t) => t,
            None => i64::MIN,
        };
        let expire_at = match schedule.checked_add(grace as i64) {
            Some(t) => t,
            None => i64::MAX,
        };
        let plan = TimerPlan { generation, reminder_at, expire_at };
        self.generation = generation;
        self.live = Some(plan);
        self.reminder_sent = false;
        plan
    }

    /// Aborts the live chain; no further report of it is accepted.
    pub fn cancel(&mut self)
        requires
            old(self).wf(),
        ensures
            final(self).wf(),
            final(self).generation == old(self).generation,
            final(self).live.is_none(),
    {
        self.live = None;
        self.reminder_sent = false;
    }

    /// Accepts `ReminderDue(g)` from the live chain, once.
    pub fn take_reminder(&mut self, g: u64) -> (r: bool)
        requires
            old(self).wf(),
        ensures
            r == old(self).accepts_reminder(g),
            final(self).wf(),
            r ==> *final(self) == (TimerController { reminder_sent: true, ..*old(self) }),
            !r ==> *final(self) == *old(self),
    {
        match self.live {
            Some(p) => {
                if p.generation == g && !self.reminder_sent {
                    self.reminder_sent = true;
                    true
                } else {
                    false
                }
            },
            None => false,
        }
    }

    /// Accepts `ExpireDue(g)` from the live chain; the chain is then over.
    pub fn take_expiry(&mut self, g: u64) -> (r: bool)
        requires
            old(self).wf(),
        ensures
            r == old(self).accepts_expiry(g),
            final(self).wf(),
            final(self).generation == old(self).generation,
            r ==> final(self).live.is_none(),
            !r ==> *final(self) == *old(self),
    {
        match self.live {
            Some(p) => {
                if p.generation == g {
                    self.live = None;
                    self.reminder_sent = false;
                    true
                } else {
                    false
                }
            },
            None => false,
        }
    }
}

/// The controller after installing one chain for each schedule, in order.
pub open spec fn install_all(t: TimerController, schedules: Seq<i64>, lead: u32, grace: u32) -> TimerController
    decreases schedules.len(),
{
    if schedules.len() == 0 {
        t
    } else {
        install_all(t, schedules.drop_last(), lead, grace).installed(schedules.last(), lead, grace)
    }
}

/// Each installation advances the generation by one.
pub proof fn lemma_install_all_generation(t: TimerController, schedules: Seq<i64>)
    requires
        t.generation + schedules.len() <= u64::MAX,
    ensures
        install_all(t, schedules, REMINDER_LEAD_SECS, GRACE_PERIOD_SECS).generation == (t.generation
            + schedules.len()) as u64,
    decreases schedules.len(),
{
    if schedules.len() > 0 {
        lemma_install_all_generation(t, schedules.drop_last());
    }
}

/// Replacing the schedule any number of times leaves exactly one live chain,
/// the one for the last schedule: reports tagged with any other generation
/// are refused, the live chain's reminder is accepted once, and after its
/// expiry nothing more is accepted.
pub proof fn lemma_replaced_schedule_single_chain(
    t: TimerController,
    schedules: Seq<i64>,
    lead: u32,
    grace: u32,
)
    requires
        t.wf(),
        schedules.len() > 0,
        t.generation + schedules.len() <= u64::MAX,
    ensures
        ({
            let f = install_all(t, schedules, lead, grace);
            let g = (t.generation + schedules.len()) as u64;
            &&& f.wf()
            &&& f.generation == g
            &&& f.live == Some(plan_for(g, schedules.last(), lead, grace))
            &&& forall|h: u64| #[trigger] f.accepts_reminder(h) ==> h == g
            &&& forall|h: u64| #[trigger] f.accepts_expiry(h) ==> h == g
            &&& f.accepts_reminder(g)
            &&& !(TimerController { reminder_sent: true, ..f }).accepts_reminder(g)
            &&& forall|h: u64|
                !(#[trigger] (TimerController { live: None, reminder_sent: false, ..f }).accepts_reminder(h))
            &&& forall|h: u64|
                !(#[trigger] (TimerController { live: None, reminder_sent: false, ..f }).accepts_expiry(h))
        }),
    decreases schedules.len(),
{
    let prev = install_all(t, schedules.drop_last(), lead, grace);
    if schedules.len() > 1 {
        lemma_replaced_schedule_single_chain(t, schedules.drop_last(), lead, grace);
    } else {
        assert(schedules.drop_last().len() == 0);
        assert(prev == t);
    }
    assert(prev.generation == t.generation + schedules.len() - 1);
    assert(install_all(t, schedules, lead, grace) == prev.installed(schedules.last(), lead, grace));
}

} // verus!
