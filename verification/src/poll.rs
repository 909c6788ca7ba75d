//! The watcher's decisions: what to do next, given what just happened.
//!
//! The watcher itself waits, fetches and sends; it reports each outcome to
//! a [`Poller`] as a [`PollEvent`] and carries out the [`PollAction`] it gets
//! back.

use crate::calendar::{LocalDateTime, LocalDateTimeView};
use crate::fvs::{FvsPublishMessage, PublishMessageView};
use crate::notify::{format_notification, BotMessage, BotMessageView};
use crate::schedule::PollPolicy;
use vstd::prelude::*;

verus! {

/// Where a watcher stands in its cycle.
#[derive(Clone, Copy, Debug, PartialEq, Eq, Structural)]
pub enum PollPhase {
    /// Nothing has been seen yet: the first fetch is due.
    Idle,
    /// A version is held; the next tick is awaited.
    Waiting,
    /// A tick led to a fetch whose outcome is awaited.
    Fetching,
    /// The first fetch gave no version: the watcher cannot go on.
    Failed,
}

/// What happened since the last action.
#[derive(Debug, Clone, PartialEq)]
pub enum PollEvent {
    /// The timer fired. The moment is the local time at which the wait for
    /// this tick began.
    Tick(LocalDateTime),
    /// The marketplace answered.
    Fetched(FvsPublishMessage),
    /// The fetch failed, in transport or in decoding.
    FetchFailed,
    /// The webhook took the card.
    Sent,
    /// The card did not reach the webhook, or the webhook refused it.
    SendFailed,
}

/// What a [`PollEvent`] stands for.
pub enum PollEventView {
    Tick(LocalDateTimeView),
    Fetched(PublishMessageView),
    FetchFailed,
    Sent,
    SendFailed,
}

impl View for PollEvent {
    type V = PollEventView;

    open spec fn view(&self) -> PollEventView {
        match self {
            PollEvent::Tick(now) => PollEventView::Tick(now@),
            PollEvent::Fetched(message) => PollEventView::Fetched(message@),
            PollEvent::FetchFailed => PollEventView::FetchFailed,
            PollEvent::Sent => PollEventView::Sent,
            PollEvent::SendFailed => PollEventView::SendFailed,
        }
    }
}

/// What the watcher is to do next.
#[derive(Debug, Clone, PartialEq)]
pub enum PollAction {
    /// Ask the marketplace, and report the outcome.
    Fetch,
    /// Wait for the next tick.
    Sleep,
    /// Note that the version has not changed, and wait for the next tick.
    ReportUnchanged,
    /// Send the card, whether or not it arrives, and wait for the next tick.
    Notify(BotMessage),
    /// Give up.
    Abort,
}

/// What a [`PollAction`] stands for.
pub enum PollActionView {
    Fetch,
    Sleep,
    ReportUnchanged,
    Notify(BotMessageView),
    Abort,
}

impl View for PollAction {
    type V = PollActionView;

    open spec fn view(&self) -> PollActionView {
        match self {
            PollAction::Fetch => PollActionView::Fetch,
            PollAction::Sleep => PollActionView::Sleep,
            PollAction::ReportUnchanged => PollActionView::ReportUnchanged,
            PollAction::Notify(card) => PollActionView::Notify(card@),
            PollAction::Abort => PollActionView::Abort,
        }
    }
}

/// The decisions of one watcher: its policy, its phase, and the version it
/// saw last.
#[derive(Debug, Clone)]
pub struct Poller {
    policy: PollPolicy,
    phase: PollPhase,
    version: String,
}

/// What a [`Poller`] stands for.
pub struct PollerView {
    pub policy: PollPolicy,
    pub phase: PollPhase,
    pub version: Seq<char>,
}

impl View for Poller {
    type V = PollerView;

    closed spec fn view(&self) -> PollerView {
        PollerView { policy: self.policy, phase: self.phase, version: self.version@ }
    }
}

impl PollerView {
    /// A watcher that has seen nothing yet.
    pub open spec fn initial(policy: PollPolicy) -> PollerView {
        PollerView { policy, phase: PollPhase::Idle, version: Seq::empty() }
    }

    /// What a watcher in this state is due to do when an event changes
    /// nothing.
    pub open spec fn pending(self) -> PollActionView {
        match self.phase {
            PollPhase::Idle => PollActionView::Fetch,
            PollPhase::Waiting => PollActionView::Sleep,
            PollPhase::Fetching => PollActionView::Fetch,
            PollPhase::Failed => PollActionView::Abort,
        }
    }

    /// The state with another phase.
    pub open spec fn at(self, phase: PollPhase) -> PollerView {
        PollerView { phase, ..self }
    }

    /// The state that waits for the next tick, holding `version`.
    pub open spec fn holding(self, version: Seq<char>) -> PollerView {
        PollerView { phase: PollPhase::Waiting, version, ..self }
    }

    /// The state after `event`, and what the watcher is to do next.
    ///
    /// - The first answer seeds the held version; without one, or without a
    ///   version in it, the watcher fails.
    /// - A tick leads to a fetch where the policy permits, and to another
    ///   wait where it does not.
    /// - An answer with a version other than the held one replaces it and
    ///   is announced; any other outcome of a fetch leaves the held version.
    /// - An event that the phase does not await changes nothing. The
    ///   outcome of a send is never awaited: a card that was not delivered
    ///   is not sent again, and its version stays held.
    pub open spec fn step(self, event: PollEventView) -> (PollerView, PollActionView) {
        match (self.phase, event) {
            (PollPhase::Idle, PollEventView::Fetched(message)) => match message.latest() {
                Some(plugin) => (self.holding(plugin.pluginversion), PollActionView::Sleep),
                None => (self.at(PollPhase::Failed), PollActionView::Abort),
            },
            (PollPhase::Idle, PollEventView::FetchFailed) => (
                self.at(PollPhase::Failed),
                PollActionView::Abort,
            ),
            (PollPhase::Waiting, PollEventView::Tick(now)) => if self.policy.spec_is_active(now) {
                (self.at(PollPhase::Fetching), PollActionView::Fetch)
            } else {
                (self, PollActionView::Sleep)
            },
            (PollPhase::Fetching, PollEventView::Fetched(message)) => match message.latest() {
                Some(plugin) => if plugin.pluginversion == self.version {
                    (self.at(PollPhase::Waiting), PollActionView::ReportUnchanged)
                } else {
                    (
                        self.holding(plugin.pluginversion),
                        PollActionView::Notify(BotMessageView::of_plugin(plugin)),
                    )
                },
                None => (self.at(PollPhase::Waiting), PollActionView::Sleep),
            },
            (PollPhase::Fetching, PollEventView::FetchFailed) => (
                self.at(PollPhase::Waiting),
                PollActionView::Sleep,
            ),
            _ => (self, self.pending()),
        }
    }
}

impl Poller {
    /// A watcher that has seen nothing yet. Its first action is a fetch.
    pub fn new(policy: PollPolicy) -> (poller: Poller)
        ensures
            poller@ == PollerView::initial(policy),
    {
        Poller { policy, phase: PollPhase::Idle, version: String::new() }
    }

    /// The policy the watcher follows.
    pub fn policy(&self) -> (policy: PollPolicy)
        ensures
            policy == self@.policy,
    {
        self.policy
    }

    /// Where the watcher stands in its cycle.
    pub fn phase(&self) -> (phase: PollPhase)
        ensures
            phase == self@.phase,
    {
        self.phase
    }

    /// The version seen last; empty until the first answer.
    pub fn version(&self) -> (version: &str)
        ensures
            version@ == self@.version,
    {
        self.version.as_str()
    }

    /// Takes in `event` and says what to do next.
    pub fn step(&mut self, event: PollEvent) -> (action: PollAction)
        ensures
            (final(self)@, action@) == old(self)@.step(event@),
    {
        match self.phase {
            PollPhase::Idle => match event {
                PollEvent::Fetched(message) => match message.latest() {
                    Some(plugin) => {
                        self.version = plugin.pluginversion.clone();
                        self.phase = PollPhase::Waiting;
                        PollAction::Sleep
                    },
                    None => {
                        self.phase = PollPhase::Failed;
                        PollAction::Abort
                    },
                },
                PollEvent::FetchFailed => {
                    self.phase = PollPhase::Failed;
                    PollAction::Abort
                },
                _ => PollAction::Fetch,
            },
            PollPhase::Waiting => match event {
                PollEvent::Tick(now) => if self.policy.is_active(&now) {
                    self.phase = PollPhase::Fetching;
                    PollAction::Fetch
                } else {
                    PollAction::Sleep
                },
                _ => PollAction::Sleep,
            },
            PollPhase::Fetching => match event {
                PollEvent::Fetched(message) => match message.latest() {
                    Some(plugin) => {
                        self.phase = PollPhase::Waiting;
                        if plugin.pluginversion == self.version {
                            PollAction::ReportUnchanged
                        } else {
                            self.version = plugin.pluginversion.clone();
                            PollAction::Notify(format_notification(plugin))
                        }
                    },
                    None => {
                        self.phase = PollPhase::Waiting;
                        PollAction::Sleep
                    },
                },
                PollEvent::FetchFailed => {
                    self.phase = PollPhase::Waiting;
                    PollAction::Sleep
                },
                _ => PollAction::Fetch,
            },
            PollPhase::Failed => PollAction::Abort,
        }
    }
}

/// Two answers in a row: the first is taken in by a watcher that awaits
/// one, the second after the next tick that leads to a fetch. If both name
/// the same version, nothing is sent and the held version stays; if they
/// differ, the second is announced, once, and its version is held from
/// then on.
pub proof fn lemma_version_change_detection(
    poller: PollerView,
    first: PublishMessageView,
    now: LocalDateTimeView,
    second: PublishMessageView,
)
    requires
        poller.phase == PollPhase::Idle || poller.phase == PollPhase::Fetching,
        first.latest() is Some,
        second.latest() is Some,
    ensures
        ({
            let held = first.latest()->0.pluginversion;
            let seen = second.latest()->0.pluginversion;
            let after_first = poller.step(PollEventView::Fetched(first)).0;
            let fetching = after_first.at(PollPhase::Fetching);
            let (after_second, action) = fetching.step(PollEventView::Fetched(second));
            &&& after_first.phase == PollPhase::Waiting
            &&& after_first.version == held
            &&& poller.policy.spec_is_active(now) ==> after_first.step(PollEventView::Tick(now)) == (
                fetching,
                PollActionView::Fetch,
            )
            &&& after_second.phase == PollPhase::Waiting
            &&& seen == held ==> action == PollActionView::ReportUnchanged && after_second.version
                == held
            &&& seen != held ==> action == PollActionView::Notify(
                BotMessageView::of_plugin(second.latest()->0),
            ) && after_second.version == seen
        }),
{
}

/// Only an announcement changes the held version of a watcher that holds
/// one: after any other action it is what it was.
pub proof fn lemma_version_changes_only_with_notify(poller: PollerView, event: PollEventView)
    requires
        poller.phase != PollPhase::Idle,
    ensures
        !(poller.step(event).1 is Notify) ==> poller.step(event).0.version == poller.version,
        poller.step(event).0.policy == poller.policy,
{
}

/// Once a watcher holds a version, nothing stops it: no event makes it
/// give up, and a failed fetch or an answer without versions leaves it
/// waiting for the next tick with the version it held.
pub proof fn lemma_failures_after_seed_are_swallowed(poller: PollerView, event: PollEventView)
    requires
        poller.phase == PollPhase::Waiting || poller.phase == PollPhase::Fetching,
    ensures
        ({
            let (after, action) = poller.step(event);
            let fruitless = match event {
                PollEventView::Fetched(message) => message.latest() is None,
                PollEventView::FetchFailed => true,
                _ => false,
            };
            &&& after.phase == PollPhase::Waiting || after.phase == PollPhase::Fetching
            &&& action != PollActionView::Abort
            &&& poller.phase == PollPhase::Fetching && fruitless ==> {
                &&& after == poller.at(PollPhase::Waiting)
                &&& action == PollActionView::Sleep
            }
        }),
{
}

/// Whether or not a card arrives, the watcher goes on as it was: the
/// version that the card announced stays held.
pub proof fn lemma_send_outcome_changes_nothing(poller: PollerView, event: PollEventView)
    requires
        event is Sent || event is SendFailed,
    ensures
        poller.step(event) == (poller, poller.pending()),
{
}

} // verus!
