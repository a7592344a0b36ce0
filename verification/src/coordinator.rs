//! The foreground of the console: it takes the deliveries of the poller and
//! the lines of the user, one at a time, and decides what is shown, what is
//! changed in the registry, and when the console stops.
//!
//! The coordinator does no input or output. The driver hands it each
//! [`Input`] as it arrives and carries out the [`Reaction`].

use vstd::prelude::*;
use crate::command::{Command, CommandView, Usage, parse};
use crate::ledger::Transaction;

verus! {

/// The result of one poll: the message to show and the identifier of the
/// card that was read.
#[derive(Clone, Debug, PartialEq, Eq)]
pub struct Delivery {
    pub message: String,
    pub identifier: String,
}

/// An administrative command that waits for the identifier of a card.
#[derive(Clone, Debug, PartialEq, Eq)]
pub enum Admin {
    /// Register the card under this name.
    Add(String),
    /// Forget the card.
    Reset,
}

/// What the coordinator is doing.
#[derive(Clone, Debug, PartialEq, Eq)]
pub enum Phase {
    /// It takes deliveries and lines, whichever comes.
    AwaitingCommand,
    /// An administrative command waits for the next delivery; no line is
    /// taken until it has come.
    ReconcilingAdmin(Admin),
    /// The console has stopped.
    Stopped,
}

/// What arrives at the coordinator.
#[derive(Clone, Debug, PartialEq, Eq)]
pub enum Input {
    /// The poller delivered the result of a poll.
    Delivery(Delivery),
    /// The user entered a line.
    Line(String),
    /// The input of the user has ended, or could not be read.
    EndOfInput,
    /// The poller has stopped: no delivery will come any more.
    PollerStopped,
}

/// What the driver has to do about an input.
#[derive(Clone, Debug, PartialEq, Eq)]
pub enum Reaction {
    /// Nothing: the delivery repeats the one shown last.
    Nothing,
    /// Show this delivery.
    Display(Delivery),
    /// The command was taken and waits for the next delivery.
    AwaitCard,
    /// Register the identifier under the name.
    Register { identifier: String, name: String },
    /// Delete the identifier from the registry.
    Unregister { identifier: String },
    /// The command that waited is given up: no card will be read any more.
    Abandoned(Admin),
    /// The input was not taken: a command waits for a delivery. It is to be
    /// handed in again later.
    Busy,
    /// Show the list of commands.
    Help,
    /// Show the usage of a command.
    Usage(Usage),
    /// Tell that the command is not known.
    Unknown(String),
    /// Carry out the transaction on the balance.
    Transact(Transaction),
    /// Stop the console.
    Stop,
}

/// Mathematical form of a [`Delivery`].
#[verifier::ext_equal]
pub struct DeliveryView {
    pub message: Seq<char>,
    pub identifier: Seq<char>,
}

/// Mathematical form of an [`Admin`].
#[verifier::ext_equal]
pub enum AdminView {
    Add(Seq<char>),
    Reset,
}

/// Mathematical form of a [`Phase`].
#[verifier::ext_equal]
pub enum PhaseView {
    AwaitingCommand,
    ReconcilingAdmin(AdminView),
    Stopped,
}

/// Mathematical form of an [`Input`].
#[verifier::ext_equal]
pub enum InputView {
    Delivery(DeliveryView),
    Line(Seq<char>),
    EndOfInput,
    PollerStopped,
}

/// Mathematical form of a [`Reaction`].
#[verifier::ext_equal]
pub enum ReactionView {
    Nothing,
    Display(DeliveryView),
    AwaitCard,
    Register { identifier: Seq<char>, name: Seq<char> },
    Unregister { identifier: Seq<char> },
    Abandoned(AdminView),
    Busy,
    Help,
    Usage(Usage),
    Unknown(Seq<char>),
    Transact(Transaction),
    Stop,
}

/// Mathematical form of a [`Coordinator`]: the delivery shown last, if any
/// was shown, and the phase.
#[verifier::ext_equal]
pub struct CoordinatorView {
    pub last_displayed: Option<DeliveryView>,
    pub phase: PhaseView,
}

impl View for Delivery {
    type V = DeliveryView;

    open spec fn view(&self) -> DeliveryView {
        DeliveryView { message: self.message@, identifier: self.identifier@ }
    }
}

impl View for Admin {
    type V = AdminView;

    open spec fn view(&self) -> AdminView {
        match *self {
            Admin::Add(name) => AdminView::Add(name@),
            Admin::Reset => AdminView::Reset,
        }
    }
}

impl View for Phase {
    type V = PhaseView;

    open spec fn view(&self) -> PhaseView {
        match *self {
            Phase::AwaitingCommand => PhaseView::AwaitingCommand,
            Phase::ReconcilingAdmin(admin) => PhaseView::ReconcilingAdmin(admin@),
            Phase::Stopped => PhaseView::Stopped,
        }
    }
}

impl View for Input {
    type V = InputView;

    open spec fn view(&self) -> InputView {
        match *self {
            Input::Delivery(delivery) => InputView::Delivery(delivery@),
            Input::Line(line) => InputView::Line(line@),
            Input::EndOfInput => InputView::EndOfInput,
            Input::PollerStopped => InputView::PollerStopped,
        }
    }
}

impl View for Reaction {
    type V = ReactionView;

    open spec fn view(&self) -> ReactionView {
        match *self {
            Reaction::Nothing => ReactionView::Nothing,
            Reaction::Display(delivery) => ReactionView::Display(delivery@),
            Reaction::AwaitCard => ReactionView::AwaitCard,
            Reaction::Register { identifier, name } => ReactionView::Register {
                identifier: identifier@,
                name: name@,
            },
            Reaction::Unregister { identifier } => ReactionView::Unregister {
                identifier: identifier@,
            },
            Reaction::Abandoned(admin) => ReactionView::Abandoned(admin@),
            Reaction::Busy => ReactionView::Busy,
            Reaction::Help => ReactionView::Help,
            Reaction::Usage(usage) => ReactionView::Usage(usage),
            Reaction::Unknown(line) => ReactionView::Unknown(line@),
            Reaction::Transact(transaction) => ReactionView::Transact(transaction),
            Reaction::Stop => ReactionView::Stop,
        }
    }
}

/// The coordinator of a console that has just started: nothing was shown
/// yet, and it awaits a command.
pub open spec fn initial() -> CoordinatorView {
    CoordinatorView { last_displayed: None, phase: PhaseView::AwaitingCommand }
}

/// The coordinator `before` in another phase.
pub open spec fn in_phase(before: CoordinatorView, phase: PhaseView) -> CoordinatorView {
    CoordinatorView { last_displayed: before.last_displayed, phase }
}

/// What a delivery does while a command is awaited: it is shown and
/// remembered, unless it repeats the delivery shown last.
pub open spec fn on_delivery(before: CoordinatorView, delivery: DeliveryView) -> (
    CoordinatorView,
    ReactionView,
) {
    if before.last_displayed == Some(delivery) {
        (before, ReactionView::Nothing)
    } else {
        (
            CoordinatorView { last_displayed: Some(delivery), phase: before.phase },
            ReactionView::Display(delivery),
        )
    }
}

/// What a command does while a command is awaited.
pub open spec fn on_command(before: CoordinatorView, command: CommandView) -> (
    CoordinatorView,
    ReactionView,
) {
    match command {
        CommandView::Exit => (in_phase(before, PhaseView::Stopped), ReactionView::Stop),
        CommandView::Add(name) => (
            in_phase(before, PhaseView::ReconcilingAdmin(AdminView::Add(name))),
            ReactionView::AwaitCard,
        ),
        CommandView::Reset => (
            in_phase(before, PhaseView::ReconcilingAdmin(AdminView::Reset)),
            ReactionView::AwaitCard,
        ),
        CommandView::Help => (before, ReactionView::Help),
        CommandView::Transact(transaction) => (before, ReactionView::Transact(transaction)),
        CommandView::Usage(usage) => (before, ReactionView::Usage(usage)),
        CommandView::Unknown(line) => (before, ReactionView::Unknown(line)),
    }
}

/// What the command `admin` does with the identifier it waited for.
pub open spec fn reconcile(admin: AdminView, identifier: Seq<char>) -> ReactionView {
    match admin {
        AdminView::Add(name) => ReactionView::Register { identifier, name },
        AdminView::Reset => ReactionView::Unregister { identifier },
    }
}

/// The coordinator and the reaction after `input` arrives at `before`.
///
/// While a command is awaited, a delivery goes to the display and a line is
/// read as a command. While an administrative command waits, the next
/// delivery goes to that command and to nothing else: it is not shown and
/// not remembered. A line or the end of the input is not taken meanwhile.
pub open spec fn reaction_to(before: CoordinatorView, input: InputView) -> (
    CoordinatorView,
    ReactionView,
) {
    match before.phase {
        PhaseView::Stopped => (before, ReactionView::Stop),
        PhaseView::AwaitingCommand => match input {
            InputView::Delivery(delivery) => on_delivery(before, delivery),
            InputView::Line(line) => on_command(before, parse(line)),
            InputView::EndOfInput => (in_phase(before, PhaseView::Stopped), ReactionView::Stop),
            InputView::PollerStopped => (before, ReactionView::Nothing),
        },
        PhaseView::ReconcilingAdmin(admin) => match input {
            InputView::Delivery(delivery) => (
                in_phase(before, PhaseView::AwaitingCommand),
                reconcile(admin, delivery.identifier),
            ),
            InputView::PollerStopped => (
                in_phase(before, PhaseView::AwaitingCommand),
                ReactionView::Abandoned(admin),
            ),
            _ => (before, ReactionView::Busy),
        },
    }
}

/// The foreground of the console.
#[derive(Debug)]
pub struct Coordinator {
    last_displayed: Option<Delivery>,
    phase: Phase,
}

impl View for Coordinator {
    type V = CoordinatorView;

    closed spec fn view(&self) -> CoordinatorView {
        CoordinatorView {
            last_displayed: match self.last_displayed {
                None => None,
                Some(delivery) => Some(delivery@),
            },
            phase: self.phase@,
        }
    }
}

impl Coordinator {
    /// The coordinator of a console that has just started.
    pub fn new() -> (coordinator: Coordinator)
        ensures
            coordinator@ == initial(),
    {
        Coordinator { last_displayed: None, phase: Phase::AwaitingCommand }
    }

    /// Tells whether an administrative command waits for a delivery, so
    /// that neither a line nor the end of the input would be taken.
    pub fn awaits_card(&self) -> (yes: bool)
        ensures
            yes == (self@.phase is ReconcilingAdmin),
    {
        match self.phase {
            Phase::ReconcilingAdmin(_) => true,
            _ => false,
        }
    }

    /// Tells whether the console has stopped.
    pub fn is_stopped(&self) -> (yes: bool)
        ensures
            yes == (self@.phase is Stopped),
    {
        match self.phase {
            Phase::Stopped => true,
            _ => false,
        }
    }

    /// Tells whether `delivery` repeats the delivery shown last.
    fn repeats(&self, delivery: &Delivery) -> (yes: bool)
        ensures
            yes == (self@.last_displayed == Some(delivery@)),
    {
        match &self.last_displayed {
            None => false,
            Some(last) => last.message == delivery.message && last.identifier
                == delivery.identifier,
        }
    }

    /// Takes `input` and tells what the driver has to do about it.
    pub fn react(&mut self, input: Input) -> (reaction: Reaction)
        ensures
            final(self)@ =~~= reaction_to(old(self)@, input@).0,
            reaction@ =~~= reaction_to(old(self)@, input@).1,
    {
        let mut phase = Phase::Stopped;
        core::mem::swap(&mut self.phase, &mut phase);
        match phase {
            Phase::Stopped => Reaction::Stop,
            Phase::AwaitingCommand => {
                self.phase = Phase::AwaitingCommand;
                match input {
                    Input::Delivery(delivery) => {
                        if self.repeats(&delivery) {
                            Reaction::Nothing
                        } else {
                            self.last_displayed = Some(
                                Delivery {
                                    message: delivery.message.clone(),
                                    identifier: delivery.identifier.clone(),
                                },
                            );
                            Reaction::Display(delivery)
                        }
                    },
                    Input::Line(line) => match Command::parse(line.as_str()) {
                        Command::Exit => {
                            self.phase = Phase::Stopped;
                            Reaction::Stop
                        },
                        Command::Add(name) => {
                            self.phase = Phase::ReconcilingAdmin(Admin::Add(name));
                            Reaction::AwaitCard
                        },
                        Command::Reset => {
                            self.phase = Phase::ReconcilingAdmin(Admin::Reset);
                            Reaction::AwaitCard
                        },
                        Command::Help => Reaction::Help,
                        Command::Transact(transaction) => Reaction::Transact(transaction),
                        Command::Usage(usage) => Reaction::Usage(usage),
                        Command::Unknown(line) => Reaction::Unknown(line),
                    },
                    Input::EndOfInput => {
                        self.phase = Phase::Stopped;
                        Reaction::Stop
                    },
                    Input::PollerStopped => Reaction::Nothing,
                }
            },
            Phase::ReconcilingAdmin(admin) => match input {
                Input::Delivery(delivery) => {
                    self.phase = Phase::AwaitingCommand;
                    match admin {
                        Admin::Add(name) => Reaction::Register {
                            identifier: delivery.identifier,
                            name,
                        },
                        Admin::Reset => Reaction::Unregister { identifier: delivery.identifier },
                    }
                },
                Input::PollerStopped => {
                    self.phase = Phase::AwaitingCommand;
                    Reaction::Abandoned(admin)
                },
                _ => {
                    self.phase = Phase::ReconcilingAdmin(admin);
                    Reaction::Busy
                },
            },
        }
    }
}

/// Deduplication: when a delivery arrives twice in a row while a command
/// is awaited, the second is never shown. Of the two, one is shown if the
/// delivery differs from the one shown before them, and none if it does
/// not; on a console that has just started, exactly one.
pub proof fn lemma_repeated_delivery_is_shown_once(before: CoordinatorView, delivery: DeliveryView)
    requires
        before.phase is AwaitingCommand,
    ensures
        ({
            let first = reaction_to(before, InputView::Delivery(delivery));
            let second = reaction_to(first.0, InputView::Delivery(delivery));
            &&& second.1 == ReactionView::Nothing
            &&& second.0 == first.0
            &&& first.0.last_displayed == Some(delivery)
            &&& before.last_displayed != Some(delivery) ==> first.1 == ReactionView::Display(
                delivery,
            )
            &&& before.last_displayed == Some(delivery) ==> first.1 == ReactionView::Nothing
        }),
        reaction_to(initial(), InputView::Delivery(delivery)).1 == ReactionView::Display(delivery),
{
}

/// A delivery is used once: it goes either to the display or to the
/// administrative command that waits, never to both. While a command is
/// awaited it is shown or suppressed, and no registration comes of it.
/// While an administrative command waits it gives the registration or the
/// deletion of its identifier, and the display neither shows nor remembers
/// it.
pub proof fn lemma_delivery_is_used_once(before: CoordinatorView, delivery: DeliveryView)
    ensures
        ({
            let after = reaction_to(before, InputView::Delivery(delivery));
            match before.phase {
                PhaseView::AwaitingCommand => {
                    &&& after.1 == ReactionView::Display(delivery) || after.1
                        == ReactionView::Nothing
                    &&& after.0.phase == before.phase
                },
                PhaseView::ReconcilingAdmin(admin) => {
                    &&& after.1 == reconcile(admin, delivery.identifier)
                    &&& after.1 is Register || after.1 is Unregister
                    &&& after.0.last_displayed == before.last_displayed
                    &&& after.0.phase == PhaseView::AwaitingCommand
                },
                PhaseView::Stopped => after == (before, ReactionView::Stop),
            }
        }),
{
}

/// Admin pairing: a line `add <name>` registers nothing by itself. The
/// command waits, whatever else arrives, and the next delivery gives the
/// one registration, of the identifier that this delivery carries under
/// that name. The delivery is used up by the command: it is not shown, and
/// the delivery shown last stays what it was.
pub proof fn lemma_add_waits_for_delivery(
    before: CoordinatorView,
    line: Seq<char>,
    name: Seq<char>,
    other: InputView,
    delivery: DeliveryView,
)
    requires
        before.phase is AwaitingCommand,
        parse(line) == CommandView::Add(name),
    ensures
        ({
            let taken = reaction_to(before, InputView::Line(line));
            let waiting = reaction_to(taken.0, other);
            let paired = reaction_to(taken.0, InputView::Delivery(delivery));
            &&& taken.1 == ReactionView::AwaitCard
            &&& taken.0.phase == PhaseView::ReconcilingAdmin(AdminView::Add(name))
            &&& !(other is Delivery) ==> !(waiting.1 is Register)
            &&& (other is Line || other is EndOfInput) ==> waiting.0 == taken.0
            &&& paired.1 == ReactionView::Register { identifier: delivery.identifier, name }
            &&& paired.0 == before
        }),
{
}

/// Admin pairing, repeated: when `add <name>` is entered twice in a row and
/// each time the same card is delivered, each of the two gives one
/// registration of that card's identifier, and the coordinator is then
/// where it was before.
pub proof fn lemma_add_twice_registers_twice(
    before: CoordinatorView,
    line: Seq<char>,
    name: Seq<char>,
    delivery: DeliveryView,
)
    requires
        before.phase is AwaitingCommand,
        parse(line) == CommandView::Add(name),
    ensures
        ({
            let first = reaction_to(
                reaction_to(before, InputView::Line(line)).0,
                InputView::Delivery(delivery),
            );
            let second = reaction_to(
                reaction_to(first.0, InputView::Line(line)).0,
                InputView::Delivery(delivery),
            );
            &&& first.1 == ReactionView::Register { identifier: delivery.identifier, name }
            &&& second.1 == first.1
            &&& second.0 == before
        }),
{
}

} // verus!
