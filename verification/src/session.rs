//! What every interactive session has in common: how the result of a
//! transition is classed, what it asks of the ledger, and the loop that
//! collects one interaction at a time until the session ends or nobody
//! answers in time.
//!
//! The loop itself neither waits nor sends. It is told what happened (an
//! event arrived, the deadline passed, the state machine answered, the
//! render went out) and says what is to be done next.

use vstd::prelude::*;

verus! {

/// The three kinds of result that a transition of a session can have.
#[derive(Clone, Copy, PartialEq, Eq, Structural, Debug)]
pub enum OutcomeClass {
    /// The state changed and the session goes on.
    Progress,
    /// The session reached an end that settles what was at stake.
    Settlement,
    /// The move was not legal; the state is as it was.
    Rejected,
}

/// What a transition asks of the ledger before the next render.
#[derive(Clone, Copy, PartialEq, Eq, Structural, Debug)]
pub enum LedgerAction {
    Nothing,
    /// Pay `amount` into the player's account.
    Credit { amount: i64 },
    /// Undo the debit that was logged as `transaction_id`.
    Compensate { transaction_id: i32 },
}

/// Where the loop of a session stands.
#[derive(Clone, Copy, PartialEq, Eq, Structural, Debug)]
pub enum LoopState {
    /// Suspended until an event arrives or the deadline passes.
    Waiting,
    /// An event is with the state machine.
    Dispatching,
    /// The state is being rendered.
    Rendering,
    /// The session is over.
    Terminal,
}

/// How the deadline of a session moves.
#[derive(Clone, Copy, PartialEq, Eq, Structural, Debug)]
pub enum DeadlinePolicy {
    /// Every move that made progress gives the players the whole window
    /// again.
    Sliding,
    /// The deadline is fixed when the session starts.
    Ceiling,
}

/// Whose events reach the loop.
#[derive(Clone, Copy, PartialEq, Eq, Structural, Debug)]
pub enum Audience {
    /// Only the events of the one player; those of others are never
    /// delivered.
    Owner(u64),
    /// The events of everyone; the state machine tells the players from the
    /// rest and enforces the turns.
    Everyone,
}

/// The sessions that the loop drives.
#[derive(Clone, Copy, PartialEq, Eq, Structural, Debug)]
pub enum SessionKind {
    Mines,
    Memory,
    Race,
    JoKenPoSolo,
    JoKenPoVersus,
    Confirmation,
    Lobby,
    Rewards,
    Pagination,
}

/// What the driver of the loop is to do next.
#[derive(Clone, Copy, PartialEq, Eq, Structural, Debug)]
pub enum LoopAction {
    /// Nothing: the call came at the wrong time and changed nothing.
    Nothing,
    /// Suspend until an event arrives or the instant `until` has come.
    Wait { until: u64 },
    /// Hand the event to the state machine.
    Dispatch,
    /// Tell the one who clicked, and nobody else, that the move was not
    /// legal.
    Notify,
    /// Render the state, with the controls enabled.
    Render,
    /// Do what the outcome asks of the ledger, then render for the last time,
    /// with the controls disabled.
    SettleAndRender,
    /// Mark the session abandoned, do the compensation that the game defines
    /// for that, and render for the last time, with the controls disabled.
    AbandonAndRender,
    /// Drop the session.
    Stop,
}

/// The loop of one session.
#[derive(Clone, Copy, PartialEq, Eq, Structural, Debug)]
pub struct CollectorLoop {
    pub state: LoopState,
    pub policy: DeadlinePolicy,
    /// The seconds that the players are given.
    pub window_secs: u64,
    /// The instant at which the waiting ends, on the driver's clock.
    pub deadline: u64,
    /// The render under way is the last one.
    pub closing: bool,
    /// The session ended because nobody answered in time.
    pub abandoned: bool,
    /// How many final renders were asked for.
    pub final_renders: u64,
}

impl LoopAction {
    /// Whether the render that the action asks for leaves the controls
    /// enabled; nothing for an action that asks for no render. Every last
    /// render disables them.
    pub open spec fn controls_enabled_spec(self) -> Option<bool> {
        match self {
            LoopAction::Render => Some(true),
            LoopAction::SettleAndRender | LoopAction::AbandonAndRender => Some(false),
            _ => None,
        }
    }

    /// Whether the render that the action asks for leaves the controls
    /// enabled; nothing for an action that asks for no render.
    pub fn controls_enabled(&self) -> (enabled: Option<bool>)
        ensures
            enabled == self.controls_enabled_spec(),
    {
        match self {
            LoopAction::Render => Some(true),
            LoopAction::SettleAndRender => Some(false),
            LoopAction::AbandonAndRender => Some(false),
            _ => None,
        }
    }
}

/// The instant `window_secs` after `now`, or the last instant there is.
pub open spec fn deadline_after(now: u64, window_secs: u64) -> u64 {
    if now + window_secs > u64::MAX {
        u64::MAX
    } else {
        (now + window_secs) as u64
    }
}

impl Audience {
    /// Whether an event of `actor` reaches the loop.
    pub open spec fn admits_spec(self, actor: u64) -> bool {
        match self {
            Audience::Owner(owner) => actor == owner,
            Audience::Everyone => true,
        }
    }

    /// Whether an event of `actor` reaches the loop.
    pub fn admits(&self, actor: u64) -> (admitted: bool)
        ensures
            admitted == self.admits_spec(actor),
    {
        match self {
            Audience::Owner(owner) => actor == *owner,
            Audience::Everyone => true,
        }
    }
}

impl SessionKind {
    /// How the deadline of such a session moves: a game or a single exchange
    /// has one deadline, a panel that is browsed keeps sliding.
    pub open spec fn policy_spec(self) -> DeadlinePolicy {
        match self {
            SessionKind::Lobby | SessionKind::Rewards | SessionKind::Pagination => DeadlinePolicy::Sliding,
            _ => DeadlinePolicy::Ceiling,
        }
    }

    /// The seconds that the players of such a session are given.
    pub open spec fn window_spec(self) -> u64 {
        match self {
            SessionKind::Mines => 180,
            SessionKind::Memory => 300,
            SessionKind::Race => 120,
            SessionKind::JoKenPoSolo => 30,
            SessionKind::JoKenPoVersus => 60,
            SessionKind::Confirmation => 45,
            SessionKind::Lobby => 120,
            SessionKind::Rewards => 90,
            SessionKind::Pagination => 180,
        }
    }

    /// How the deadline of such a session moves.
    pub fn policy(self) -> (policy: DeadlinePolicy)
        ensures
            policy == self.policy_spec(),
    {
        match self {
            SessionKind::Lobby => DeadlinePolicy::Sliding,
            SessionKind::Rewards => DeadlinePolicy::Sliding,
            SessionKind::Pagination => DeadlinePolicy::Sliding,
            _ => DeadlinePolicy::Ceiling,
        }
    }

    /// The seconds that the players of such a session are given.
    pub fn window_secs(self) -> (window: u64)
        ensures
            window == self.window_spec(),
    {
        match self {
            SessionKind::Mines => 180,
            SessionKind::Memory => 300,
            SessionKind::Race => 120,
            SessionKind::JoKenPoSolo => 30,
            SessionKind::JoKenPoVersus => 60,
            SessionKind::Confirmation => 45,
            SessionKind::Lobby => 120,
            SessionKind::Rewards => 90,
            SessionKind::Pagination => 180,
        }
    }
}

impl CollectorLoop {
    /// The last render is asked for exactly once: when the session is settled
    /// or abandoned. Only a session that is over can have been abandoned.
    pub open spec fn wf(self) -> bool {
        &&& self.final_renders == if self.state == LoopState::Terminal || self.closing {
            1u64
        } else {
            0u64
        }
        &&& self.closing ==> self.state == LoopState::Rendering
        &&& self.abandoned ==> self.state == LoopState::Terminal
    }

    /// The loop as it starts waiting at `now`.
    pub open spec fn started(policy: DeadlinePolicy, window_secs: u64, now: u64) -> CollectorLoop {
        CollectorLoop {
            state: LoopState::Waiting,
            policy,
            window_secs,
            deadline: deadline_after(now, window_secs),
            closing: false,
            abandoned: false,
            final_renders: 0,
        }
    }

    /// An event has arrived: it is dispatched if the loop was waiting and
    /// ignored otherwise.
    pub open spec fn event(self) -> (CollectorLoop, LoopAction) {
        if self.state == LoopState::Waiting {
            (CollectorLoop { state: LoopState::Dispatching, ..self }, LoopAction::Dispatch)
        } else {
            (self, LoopAction::Nothing)
        }
    }

    /// The deadline has passed without an event: a waiting loop ends, and
    /// the session is abandoned.
    pub open spec fn expired(self) -> (CollectorLoop, LoopAction) {
        if self.state == LoopState::Waiting {
            (
                CollectorLoop {
                    state: LoopState::Terminal,
                    abandoned: true,
                    final_renders: (self.final_renders + 1) as u64,
                    ..self
                },
                LoopAction::AbandonAndRender,
            )
        } else {
            (self, LoopAction::Nothing)
        }
    }

    /// The state machine has answered the event that was dispatched.
    pub open spec fn answered(self, class: OutcomeClass, now: u64) -> (CollectorLoop, LoopAction) {
        if self.state == LoopState::Dispatching {
            match class {
                OutcomeClass::Progress => (
                    CollectorLoop {
                        state: LoopState::Rendering,
                        deadline: match self.policy {
                            DeadlinePolicy::Sliding => deadline_after(now, self.window_secs),
                            DeadlinePolicy::Ceiling => self.deadline,
                        },
                        ..self
                    },
                    LoopAction::Render,
                ),
                OutcomeClass::Settlement => (
                    CollectorLoop {
                        state: LoopState::Rendering,
                        closing: true,
                        final_renders: (self.final_renders + 1) as u64,
                        ..self
                    },
                    LoopAction::SettleAndRender,
                ),
                OutcomeClass::Rejected => (
                    CollectorLoop { state: LoopState::Waiting, ..self },
                    LoopAction::Notify,
                ),
            }
        } else {
            (self, LoopAction::Nothing)
        }
    }

    /// The render has gone out: the loop waits again, or ends if that was the
    /// last render.
    pub open spec fn rendered(self) -> (CollectorLoop, LoopAction) {
        if self.state == LoopState::Rendering {
            if self.closing {
                (
                    CollectorLoop { state: LoopState::Terminal, closing: false, ..self },
                    LoopAction::Stop,
                )
            } else {
                (
                    CollectorLoop { state: LoopState::Waiting, ..self },
                    LoopAction::Wait { until: self.deadline },
                )
            }
        } else {
            (self, LoopAction::Nothing)
        }
    }

    /// Starts the loop of a session at `now`.
    pub fn start(policy: DeadlinePolicy, window_secs: u64, now: u64) -> (started: CollectorLoop)
        ensures
            started == CollectorLoop::started(policy, window_secs, now),
            started.wf(),
    {
        let deadline: u64 = if now > u64::MAX - window_secs {
            u64::MAX
        } else {
            now + window_secs
        };
        CollectorLoop {
            state: LoopState::Waiting,
            policy,
            window_secs,
            deadline,
            closing: false,
            abandoned: false,
            final_renders: 0,
        }
    }

    /// Starts the loop of a session of the given kind at `now`.
    pub fn start_for(kind: SessionKind, now: u64) -> (started: CollectorLoop)
        ensures
            started == CollectorLoop::started(kind.policy_spec(), kind.window_spec(), now),
            started.wf(),
    {
        CollectorLoop::start(kind.policy(), kind.window_secs(), now)
    }

    /// Whether the session is over.
    pub fn is_terminal(&self) -> (terminal: bool)
        ensures
            terminal == (self.state == LoopState::Terminal),
    {
        self.state == LoopState::Terminal
    }

    /// What a loop that waits is to do: suspend until its deadline.
    pub fn next_wait(&self) -> (action: LoopAction)
        ensures
            action == if self.state == LoopState::Waiting {
                LoopAction::Wait { until: self.deadline }
            } else {
                LoopAction::Nothing
            },
    {
        if self.state == LoopState::Waiting {
            LoopAction::Wait { until: self.deadline }
        } else {
            LoopAction::Nothing
        }
    }

    /// Tells the loop that an event has arrived.
    pub fn on_event(&mut self) -> (action: LoopAction)
        requires
            old(self).wf(),
        ensures
            final(self).wf(),
            (*final(self), action) == old(self).event(),
    {
        if self.state == LoopState::Waiting {
            self.state = LoopState::Dispatching;
            LoopAction::Dispatch
        } else {
            LoopAction::Nothing
        }
    }

    /// Tells the loop that its deadline has passed without an event.
    pub fn on_deadline(&mut self) -> (action: LoopAction)
        requires
            old(self).wf(),
        ensures
            final(self).wf(),
            (*final(self), action) == old(self).expired(),
    {
        if self.state == LoopState::Waiting {
            self.state = LoopState::Terminal;
            self.abandoned = true;
            self.final_renders += 1;
            LoopAction::AbandonAndRender
        } else {
            LoopAction::Nothing
        }
    }

    /// Tells the loop how the state machine answered the event.
    pub fn on_outcome(&mut self, class: OutcomeClass, now: u64) -> (action: LoopAction)
        requires
            old(self).wf(),
        ensures
            final(self).wf(),
            (*final(self), action) == old(self).answered(class, now),
    {
        if self.state != LoopState::Dispatching {
            return LoopAction::Nothing;
        }
        match class {
            OutcomeClass::Progress => {
                self.state = LoopState::Rendering;
                match self.policy {
                    DeadlinePolicy::Sliding => {
                        self.deadline = if now > u64::MAX - self.window_secs {
                            u64::MAX
                        } else {
                            now + self.window_secs
                        };
                    },
                    DeadlinePolicy::Ceiling => {},
                }
                LoopAction::Render
            },
            OutcomeClass::Settlement => {
                self.state = LoopState::Rendering;
                self.closing = true;
                self.final_renders += 1;
                LoopAction::SettleAndRender
            },
            OutcomeClass::Rejected => {
                self.state = LoopState::Waiting;
                LoopAction::Notify
            },
        }
    }

    /// Tells the loop that the render has gone out.
    pub fn on_rendered(&mut self) -> (action: LoopAction)
        requires
            old(self).wf(),
        ensures
            final(self).wf(),
            (*final(self), action) == old(self).rendered(),
    {
        if self.state != LoopState::Rendering {
            return LoopAction::Nothing;
        }
        if self.closing {
            self.state = LoopState::Terminal;
            self.closing = false;
            LoopAction::Stop
        } else {
            self.state = LoopState::Waiting;
            LoopAction::Wait { until: self.deadline }
        }
    }
}

/// A session that hears nothing before its deadline ends at once: it is
/// abandoned, and one last render is asked for, with the controls disabled.
pub proof fn lemma_silence_ends_the_session(policy: DeadlinePolicy, window_secs: u64, now: u64)
    ensures
        ({
            let (ended, action) = CollectorLoop::started(policy, window_secs, now).expired();
            &&& ended.state == LoopState::Terminal
            &&& ended.abandoned
            &&& ended.final_renders == 1
            &&& action == LoopAction::AbandonAndRender
            &&& action.controls_enabled_spec() == Some(false)
            &&& ended.wf()
        }),
{
}

/// Whatever the loop is told, it asks for at most one last render in all:
/// the count of last renders never falls and never passes one.
pub proof fn lemma_one_last_render(session: CollectorLoop, class: OutcomeClass, now: u64)
    requires
        session.wf(),
    ensures
        session.event().0.wf() && session.event().0.final_renders >= session.final_renders,
        session.expired().0.wf() && session.expired().0.final_renders >= session.final_renders,
        session.answered(class, now).0.wf() && session.answered(class, now).0.final_renders
            >= session.final_renders,
        session.rendered().0.wf() && session.rendered().0.final_renders >= session.final_renders,
        session.final_renders <= 1,
{
}

/// A session that is over stays over: whatever the loop is told, it changes
/// nothing and asks for nothing, so no deadline is armed again and no
/// further render goes out.
pub proof fn lemma_terminal_is_final(ended: CollectorLoop, class: OutcomeClass, now: u64)
    requires
        ended.state == LoopState::Terminal,
    ensures
        ended.event() == (ended, LoopAction::Nothing),
        ended.expired() == (ended, LoopAction::Nothing),
        ended.answered(class, now) == (ended, LoopAction::Nothing),
        ended.rendered() == (ended, LoopAction::Nothing),
{
}

/// Only a move that made progress under a sliding deadline moves the
/// deadline, and only forward from the instant of the move.
pub proof fn lemma_deadline_moves_on_progress_only(
    waiting: CollectorLoop,
    class: OutcomeClass,
    now: u64,
)
    requires
        waiting.state == LoopState::Dispatching,
    ensures
        waiting.answered(class, now).0.deadline == if class == OutcomeClass::Progress
            && waiting.policy == DeadlinePolicy::Sliding {
            deadline_after(now, waiting.window_secs)
        } else {
            waiting.deadline
        },
{
}

} // verus!
