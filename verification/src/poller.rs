//! The background of the console: on each tick of a timer it opens a
//! session with the card in the reader, reads the card's identifier, asks
//! the registry for the name under that identifier, and delivers the
//! message to show together with the identifier.
//!
//! The poller does no input or output and keeps no time. The driver hands
//! it each [`PollEvent`] and carries out the [`PollAction`]. A session lives
//! within one tick: it is opened anew on each, and none is kept from one
//! tick to the next.

use vstd::prelude::*;
use vstd::string::StringExecFns;
use crate::card_operations::{
    Action, ActionView, CardManager, DEFAULT_KEY, Event, EventView, OperationView, Outcome,
    OutcomeView, SessionView, TransportError, begin, lemma_read_is_unconditional, open_error,
    step,
};
use crate::frame::{authenticate_frame, block_data, load_key_frame, read_frame};
use crate::coordinator::{Delivery, DeliveryView};
use crate::utils::{decimals_to_hex, identifier_text};

verus! {

/// The block that holds the identifier of a card.
pub const IDENTIFIER_BLOCK: u8 = 0;

/// The time from one tick of the poller to the next, in seconds.
pub const POLL_PERIOD_SECONDS: u64 = 3;

/// What arrives at the poller.
#[derive(Clone, Debug, PartialEq, Eq)]
pub enum PollEvent {
    /// The timer ticked.
    Tick,
    /// The transport was asked for a session: it listed `readers` readers,
    /// and the attempt on the first of them ended with `status`.
    Opened { readers: usize, status: u32 },
    /// The transport reported on the frame last handed out.
    Card(Event),
    /// The registry answered: the name under the identifier, or none.
    Looked(Option<String>),
}

/// What the driver has to do for the poller.
#[derive(Clone, Debug, PartialEq, Eq)]
pub enum PollAction {
    /// Nothing: the event was not awaited and is dropped.
    Wait,
    /// Ask the transport for a session.
    Open,
    /// Transmit this frame and report what came back.
    Transmit(Vec<u8>),
    /// Ask the registry for the name under this identifier.
    Lookup(String),
    /// Hand this delivery to the foreground; the poll is over.
    Deliver(Delivery),
    /// The transport failed: the poll is given up until the next tick.
    Skip(TransportError),
}

/// Mathematical form of a [`PollEvent`].
#[verifier::ext_equal]
pub enum PollEventView {
    Tick,
    Opened { readers: usize, status: u32 },
    Card(EventView),
    Looked(Option<Seq<char>>),
}

/// Mathematical form of a [`PollAction`].
#[verifier::ext_equal]
pub enum PollActionView {
    Wait,
    Open,
    Transmit(Seq<u8>),
    Lookup(Seq<char>),
    Deliver(DeliveryView),
    Skip(TransportError),
}

/// Mathematical form of a [`Poller`]: where it stands in a poll.
#[verifier::ext_equal]
pub enum PollerView {
    /// Between two polls.
    Idle,
    /// It has asked for a session.
    Opening,
    /// It reads the identifier through this session.
    Reading(SessionView),
    /// It has asked the registry about this identifier.
    LookingUp(Seq<char>),
}

impl View for PollEvent {
    type V = PollEventView;

    open spec fn view(&self) -> PollEventView {
        match *self {
            PollEvent::Tick => PollEventView::Tick,
            PollEvent::Opened { readers, status } => PollEventView::Opened { readers, status },
            PollEvent::Card(event) => PollEventView::Card(event@),
            PollEvent::Looked(found) => PollEventView::Looked(
                match found {
                    Some(name) => Some(name@),
                    None => None,
                },
            ),
        }
    }
}

impl View for PollAction {
    type V = PollActionView;

    open spec fn view(&self) -> PollActionView {
        match *self {
            PollAction::Wait => PollActionView::Wait,
            PollAction::Open => PollActionView::Open,
            PollAction::Transmit(frame) => PollActionView::Transmit(frame@),
            PollAction::Lookup(identifier) => PollActionView::Lookup(identifier@),
            PollAction::Deliver(delivery) => PollActionView::Deliver(delivery@),
            PollAction::Skip(error) => PollActionView::Skip(error),
        }
    }
}

/// The message for a card: a welcome by name for a card that the registry
/// knows, and a notice for one that it does not know.
pub open spec fn greeting(found: Option<Seq<char>>) -> Seq<char> {
    match found {
        Some(name) => "Bienvenue "@ + name + " !"@,
        None => "Carte non configuré"@,
    }
}

/// Where the poll stands when the session has come to `session` and
/// answered with `action`: a frame is passed on to the driver, the block
/// read is turned into the identifier to look up, and a transport failure
/// ends the poll.
pub open spec fn after_card(session: SessionView, action: ActionView) -> (
    PollerView,
    PollActionView,
) {
    match action {
        ActionView::Transmit(frame) => (
            PollerView::Reading(session),
            PollActionView::Transmit(frame),
        ),
        ActionView::Finished(OutcomeView::Block(data)) => (
            PollerView::LookingUp(identifier_text(data)),
            PollActionView::Lookup(identifier_text(data)),
        ),
        ActionView::Finished(OutcomeView::Failed(error)) => (
            PollerView::Idle,
            PollActionView::Skip(error),
        ),
        _ => (PollerView::Idle, PollActionView::Wait),
    }
}

/// The poller and the action after `event` arrives at `before`.
///
/// A tick starts a poll only between two polls: a tick that comes during a
/// poll is dropped, not kept for later. Any other event counts only where
/// the poll awaits it.
pub open spec fn poll_step(before: PollerView, event: PollEventView) -> (
    PollerView,
    PollActionView,
) {
    match (before, event) {
        (PollerView::Idle, PollEventView::Tick) => (PollerView::Opening, PollActionView::Open),
        (PollerView::Opening, PollEventView::Opened { readers, status }) => match open_error(
            readers,
            status,
        ) {
            Some(error) => (PollerView::Idle, PollActionView::Skip(error)),
            None => {
                let started = begin(OperationView::Read { block: IDENTIFIER_BLOCK });
                after_card(started.0, started.1)
            },
        },
        (PollerView::Reading(session), PollEventView::Card(event)) => {
            let next = step(session, event);
            after_card(next.0, next.1)
        },
        (PollerView::LookingUp(identifier), PollEventView::Looked(found)) => (
            PollerView::Idle,
            PollActionView::Deliver(DeliveryView { message: greeting(found), identifier }),
        ),
        _ => (before, PollActionView::Wait),
    }
}

/// Writes the message for a card.
pub fn greet(found: Option<String>) -> (message: String)
    ensures
        message@ == greeting(
            match found {
                Some(name) => Some(name@),
                None => None,
            },
        ),
{
    match found {
        Some(name) => {
            let mut message = String::from_str("Bienvenue ");
            message.append(name.as_str());
            message.append(" !");
            message
        },
        None => String::from_str("Carte non configuré"),
    }
}

/// Where the poller stands in a poll.
#[derive(Debug)]
enum Stage {
    Idle,
    Opening,
    Reading(CardManager),
    LookingUp(String),
}

/// The background of the console.
#[derive(Debug)]
pub struct Poller {
    stage: Stage,
}

impl View for Poller {
    type V = PollerView;

    closed spec fn view(&self) -> PollerView {
        match self.stage {
            Stage::Idle => PollerView::Idle,
            Stage::Opening => PollerView::Opening,
            Stage::Reading(manager) => PollerView::Reading(manager@),
            Stage::LookingUp(identifier) => PollerView::LookingUp(identifier@),
        }
    }
}

impl Poller {
    /// The poller between two polls.
    pub fn new() -> (poller: Poller)
        ensures
            poller@ == PollerView::Idle,
    {
        Poller { stage: Stage::Idle }
    }

    /// Tells whether the poller is between two polls.
    pub fn is_idle(&self) -> (yes: bool)
        ensures
            yes == (self@ is Idle),
    {
        match self.stage {
            Stage::Idle => true,
            _ => false,
        }
    }

    /// Goes on with the poll after the session answered with `action`.
    fn follow(&mut self, manager: CardManager, action: Action) -> (todo: PollAction)
        ensures
            final(self)@ =~~= after_card(manager@, action@).0,
            todo@ =~~= after_card(manager@, action@).1,
    {
        match action {
            Action::Transmit(frame) => {
                self.stage = Stage::Reading(manager);
                PollAction::Transmit(frame)
            },
            Action::Finished(Outcome::Block(data)) => {
                let identifier = decimals_to_hex(data);
                self.stage = Stage::LookingUp(identifier.clone());
                PollAction::Lookup(identifier)
            },
            Action::Finished(Outcome::Failed(error)) => {
                self.stage = Stage::Idle;
                PollAction::Skip(error)
            },
            _ => {
                self.stage = Stage::Idle;
                PollAction::Wait
            },
        }
    }

    /// Takes `event` and tells what the driver has to do next.
    pub fn poll(&mut self, event: PollEvent) -> (todo: PollAction)
        ensures
            final(self)@ =~~= poll_step(old(self)@, event@).0,
            todo@ =~~= poll_step(old(self)@, event@).1,
    {
        let mut stage = Stage::Idle;
        core::mem::swap(&mut self.stage, &mut stage);
        match (stage, event) {
            (Stage::Idle, PollEvent::Tick) => {
                self.stage = Stage::Opening;
                PollAction::Open
            },
            (Stage::Opening, PollEvent::Opened { readers, status }) => {
                match CardManager::loadreader(readers, status) {
                    Err(error) => PollAction::Skip(error),
                    Ok(manager) => {
                        let mut manager = manager;
                        let action = manager.read(IDENTIFIER_BLOCK);
                        self.follow(manager, action)
                    },
                }
            },
            (Stage::Reading(manager), PollEvent::Card(event)) => {
                let mut manager = manager;
                let action = manager.advance(event);
                self.follow(manager, action)
            },
            (Stage::LookingUp(identifier), PollEvent::Looked(found)) => {
                PollAction::Deliver(Delivery { message: greet(found), identifier })
            },
            (stage, _) => {
                self.stage = stage;
                PollAction::Wait
            },
        }
    }
}

/// A poll of a card that answers: after the tick a session is asked for;
/// through it the default key is loaded, block 0 is authenticated and then
/// read, whatever the card answers to the first two; the block read is the
/// identifier that is looked up; and the delivery carries the message for
/// what the registry found, together with that identifier. The poller is
/// then between two polls again.
pub proof fn lemma_poll_of_a_card(
    readers: usize,
    status: u32,
    loaded: Seq<u8>,
    authenticated: Seq<u8>,
    answer: Seq<u8>,
    found: Option<Seq<char>>,
)
    requires
        open_error(readers, status) is None,
    ensures
        ({
            let ticked = poll_step(PollerView::Idle, PollEventView::Tick);
            let opened = poll_step(ticked.0, PollEventView::Opened { readers, status });
            let second = poll_step(opened.0, PollEventView::Card(EventView::Response(loaded)));
            let third = poll_step(
                second.0,
                PollEventView::Card(EventView::Response(authenticated)),
            );
            let read = poll_step(third.0, PollEventView::Card(EventView::Response(answer)));
            let looked = poll_step(read.0, PollEventView::Looked(found));
            let identifier = identifier_text(block_data(answer));
            &&& ticked.1 == PollActionView::Open
            &&& opened.1 == PollActionView::Transmit(load_key_frame(DEFAULT_KEY@))
            &&& second.1 == PollActionView::Transmit(authenticate_frame(IDENTIFIER_BLOCK))
            &&& third.1 == PollActionView::Transmit(read_frame(IDENTIFIER_BLOCK))
            &&& read.1 == PollActionView::Lookup(identifier)
            &&& looked.1 == PollActionView::Deliver(
                DeliveryView { message: greeting(found), identifier },
            )
            &&& looked.0 == PollerView::Idle
        }),
{
    lemma_read_is_unconditional(IDENTIFIER_BLOCK, loaded, authenticated, answer);
}

/// A poll that meets a transport failure is given up: when no session
/// opens, or when a frame cannot be transmitted, the poll is skipped with
/// the error, nothing is delivered, and the poller is between two polls
/// again, so that the next tick starts a new poll.
pub proof fn lemma_poll_is_skipped_on_failure(
    readers: usize,
    status: u32,
    session: SessionView,
    error: TransportError,
)
    ensures
        open_error(readers, status) == Some(error) ==> poll_step(
            PollerView::Opening,
            PollEventView::Opened { readers, status },
        ) == (PollerView::Idle, PollActionView::Skip(error)),
        session.pending is Some ==> poll_step(
            PollerView::Reading(session),
            PollEventView::Card(EventView::TransmissionFailed),
        ) == (PollerView::Idle, PollActionView::Skip(TransportError::TransmissionFailed)),
        poll_step(PollerView::Idle, PollEventView::Tick) == (
            PollerView::Opening,
            PollActionView::Open,
        ),
{
}

} // verus!
