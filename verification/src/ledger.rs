//! The balance kept on the card, and the two transactions that change it.
//!
//! The balance lives in one block of the card and nowhere else. A deposit or
//! a withdrawal is worked out from the block as it was read, and gives the
//! block to write back, or a refusal, in which case nothing is written.
//!
//! The [`Teller`] takes one transaction through: it opens a session, reads
//! the balance block, and writes the new balance back if the transaction is
//! accepted. Like the session it does no input or output: the driver hands
//! it each [`TellerEvent`] and carries out the [`TellerAction`].

use vstd::prelude::*;
use crate::card_operations::{
    Action, ActionView, CardManager, Event, EventView, OperationView, Outcome, OutcomeView,
    SessionView, TransportError, WriteStatus, begin, lemma_read_is_unconditional, open_error,
    step,
};
use crate::frame::{Instruction, block_data, status_accepts, write_frame};
use crate::utils::{
    balance_limit, be_bytes, be_value, encode, hexa_to_decimal, lemma_be_value_of_be_bytes,
    lemma_radix_power_of_block,
};
use vstd::arithmetic::div_mod::lemma_small_mod;

verus! {

/// The block that holds the balance.
pub const BALANCE_BLOCK: u8 = 4;

/// A change of the balance, with its amount.
#[derive(Clone, Copy, Debug, PartialEq, Eq, Structural)]
pub enum Transaction {
    /// Adds the amount to the balance.
    Depot(u128),
    /// Takes the amount from the balance.
    Retrait(u128),
}

/// What became of a transaction.
#[derive(Clone, Copy, Debug, PartialEq, Eq)]
pub enum Settlement {
    /// The balance changed: `block` is to be written to the balance block.
    Accepted { balance: u128, block: [u8; 16] },
    /// The balance stays as it is, and nothing is to be written.
    Refused { balance: u128 },
}

/// The balance that a block holds.
pub open spec fn balance_of(block: Seq<u8>) -> nat {
    be_value(block) % balance_limit()
}

/// The balance after `transaction`, or `None` where it is refused: a
/// withdrawal of more than the balance, or a deposit that takes the balance
/// out of the range that a block can hold.
pub open spec fn balance_after(balance: nat, transaction: Transaction) -> Option<nat> {
    match transaction {
        Transaction::Depot(amount) => if balance + amount < balance_limit() {
            Some((balance + amount) as nat)
        } else {
            None
        },
        Transaction::Retrait(amount) => if amount <= balance {
            Some((balance - amount) as nat)
        } else {
            None
        },
    }
}

/// Applies `transaction` to the balance that `block` holds.
pub fn settle(block: Vec<u8>, transaction: Transaction) -> (settlement: Settlement)
    ensures
        match balance_after(balance_of(block@), transaction) {
            Some(after) => settlement matches Settlement::Accepted { balance, block: written }
                && balance == after && written@ == be_bytes(after, 16) && be_value(written@)
                == after,
            None => settlement == (Settlement::Refused { balance: balance_of(block@) as u128 }),
        },
{
    let balance = hexa_to_decimal(block);
    let after = match transaction {
        Transaction::Depot(amount) => balance.checked_add(amount),
        Transaction::Retrait(amount) => balance.checked_sub(amount),
    };
    match after {
        Some(after) => Settlement::Accepted { balance: after, block: encode(after) },
        None => Settlement::Refused { balance },
    }
}

/// How a transaction ended.
#[derive(Clone, Copy, Debug, PartialEq, Eq, Structural)]
pub enum Receipt {
    /// The new balance was written to the card.
    Settled { balance: u128 },
    /// The transaction was refused; the balance on the card is untouched.
    Refused { balance: u128 },
    /// The card did not accept the write of the new balance.
    Rejected,
    /// The transport failed.
    Failed(TransportError),
}

/// What arrives at the teller.
#[derive(Clone, Debug, PartialEq, Eq)]
pub enum TellerEvent {
    /// The transport was asked for a session: it listed `readers` readers,
    /// and `status` is that of the first call that failed, or success.
    Opened { readers: usize, status: u32 },
    /// The transport reported on the frame last handed out.
    Card(Event),
}

/// What the driver has to do for the teller.
#[derive(Clone, Debug, PartialEq, Eq)]
pub enum TellerAction {
    /// Nothing: the event was not awaited and is dropped.
    Wait,
    /// Transmit this frame and report what came back.
    Transmit(Vec<u8>),
    /// The transaction has ended.
    Done(Receipt),
}

/// Mathematical form of a [`TellerEvent`].
#[verifier::ext_equal]
pub enum TellerEventView {
    Opened { readers: usize, status: u32 },
    Card(EventView),
}

/// Mathematical form of a [`TellerAction`].
#[verifier::ext_equal]
pub enum TellerActionView {
    Wait,
    Transmit(Seq<u8>),
    Done(Receipt),
}

/// Mathematical form of a [`Teller`]: where the transaction stands.
#[verifier::ext_equal]
pub enum TellerView {
    /// A session has been asked for.
    Opening(Transaction),
    /// The balance block is read through this session.
    Reading(Transaction, SessionView),
    /// The block of this new balance is written through this session.
    Writing(u128, SessionView),
    /// The transaction has ended.
    Done,
}

impl View for TellerEvent {
    type V = TellerEventView;

    open spec fn view(&self) -> TellerEventView {
        match *self {
            TellerEvent::Opened { readers, status } => TellerEventView::Opened {
                readers,
                status,
            },
            TellerEvent::Card(event) => TellerEventView::Card(event@),
        }
    }
}

impl View for TellerAction {
    type V = TellerActionView;

    open spec fn view(&self) -> TellerActionView {
        match *self {
            TellerAction::Wait => TellerActionView::Wait,
            TellerAction::Transmit(frame) => TellerActionView::Transmit(frame@),
            TellerAction::Done(receipt) => TellerActionView::Done(receipt),
        }
    }
}

/// Where the transaction stands when the read of the balance block has
/// come to `session` and answered with `action`. Once the block is read the
/// transaction is decided: refused, it ends with nothing written; accepted,
/// the write of the new balance is started.
pub open spec fn after_read(transaction: Transaction, session: SessionView, action: ActionView) -> (
    TellerView,
    TellerActionView,
) {
    match action {
        ActionView::Transmit(frame) => (
            TellerView::Reading(transaction, session),
            TellerActionView::Transmit(frame),
        ),
        ActionView::Finished(OutcomeView::Block(block)) => match balance_after(
            balance_of(block),
            transaction,
        ) {
            None => (
                TellerView::Done,
                TellerActionView::Done(Receipt::Refused { balance: balance_of(block) as u128 }),
            ),
            Some(after) => {
                let written = begin(
                    OperationView::Write { block: BALANCE_BLOCK, data: be_bytes(after, 16) },
                );
                after_write(after as u128, written.0, written.1)
            },
        },
        ActionView::Finished(OutcomeView::Failed(error)) => (
            TellerView::Done,
            TellerActionView::Done(Receipt::Failed(error)),
        ),
        _ => (TellerView::Done, TellerActionView::Wait),
    }
}

/// Where the transaction stands when the write of the new balance has come
/// to `session` and answered with `action`.
pub open spec fn after_write(balance: u128, session: SessionView, action: ActionView) -> (
    TellerView,
    TellerActionView,
) {
    match action {
        ActionView::Transmit(frame) => (
            TellerView::Writing(balance, session),
            TellerActionView::Transmit(frame),
        ),
        ActionView::Finished(OutcomeView::Written(WriteStatus::Accepted)) => (
            TellerView::Done,
            TellerActionView::Done(Receipt::Settled { balance }),
        ),
        ActionView::Finished(OutcomeView::Written(_)) => (
            TellerView::Done,
            TellerActionView::Done(Receipt::Rejected),
        ),
        ActionView::Finished(OutcomeView::Failed(error)) => (
            TellerView::Done,
            TellerActionView::Done(Receipt::Failed(error)),
        ),
        _ => (TellerView::Done, TellerActionView::Wait),
    }
}

/// The teller and the action after `event` arrives at `before`.
pub open spec fn teller_step(before: TellerView, event: TellerEventView) -> (
    TellerView,
    TellerActionView,
) {
    match (before, event) {
        (TellerView::Opening(transaction), TellerEventView::Opened { readers, status }) => {
            match open_error(readers, status) {
                Some(error) => (TellerView::Done, TellerActionView::Done(Receipt::Failed(error))),
                None => {
                    let started = begin(OperationView::Read { block: BALANCE_BLOCK });
                    after_read(transaction, started.0, started.1)
                },
            }
        },
        (TellerView::Reading(transaction, session), TellerEventView::Card(event)) => {
            let next = step(session, event);
            after_read(transaction, next.0, next.1)
        },
        (TellerView::Writing(balance, session), TellerEventView::Card(event)) => {
            let next = step(session, event);
            after_write(balance, next.0, next.1)
        },
        _ => (before, TellerActionView::Wait),
    }
}

/// Where the teller stands once a session is open and the card has
/// answered the three frames of the read of the balance block with
/// `loaded`, `authenticated` and `answer`.
pub open spec fn after_balance_is_read(
    transaction: Transaction,
    loaded: Seq<u8>,
    authenticated: Seq<u8>,
    answer: Seq<u8>,
) -> (TellerView, TellerActionView) {
    let opened = teller_step(
        TellerView::Opening(transaction),
        TellerEventView::Opened { readers: 1, status: 0 },
    );
    let second = teller_step(opened.0, TellerEventView::Card(EventView::Response(loaded)));
    let third = teller_step(second.0, TellerEventView::Card(EventView::Response(authenticated)));
    teller_step(third.0, TellerEventView::Card(EventView::Response(answer)))
}

/// Where a transaction stands.
#[derive(Debug)]
enum Stage {
    Opening(Transaction),
    Reading(Transaction, CardManager),
    Writing(u128, CardManager),
    Done,
}

/// Takes one transaction from the command through to the card.
#[derive(Debug)]
pub struct Teller {
    stage: Stage,
}

impl View for Teller {
    type V = TellerView;

    closed spec fn view(&self) -> TellerView {
        match self.stage {
            Stage::Opening(transaction) => TellerView::Opening(transaction),
            Stage::Reading(transaction, manager) => TellerView::Reading(transaction, manager@),
            Stage::Writing(balance, manager) => TellerView::Writing(balance, manager@),
            Stage::Done => TellerView::Done,
        }
    }
}

impl Teller {
    /// The teller for `transaction`. It awaits a session.
    pub fn new(transaction: Transaction) -> (teller: Teller)
        ensures
            teller@ == TellerView::Opening(transaction),
    {
        Teller { stage: Stage::Opening(transaction) }
    }

    /// Tells whether the transaction has ended.
    pub fn is_done(&self) -> (yes: bool)
        ensures
            yes == (self@ is Done),
    {
        match self.stage {
            Stage::Done => true,
            _ => false,
        }
    }

    /// Goes on after the session answered with `action` to the write.
    fn follow_write(&mut self, balance: u128, manager: CardManager, action: Action) -> (todo:
        TellerAction)
        ensures
            final(self)@ =~~= after_write(balance, manager@, action@).0,
            todo@ =~~= after_write(balance, manager@, action@).1,
    {
        match action {
            Action::Transmit(frame) => {
                self.stage = Stage::Writing(balance, manager);
                TellerAction::Transmit(frame)
            },
            Action::Finished(Outcome::Written(WriteStatus::Accepted)) => {
                self.stage = Stage::Done;
                TellerAction::Done(Receipt::Settled { balance })
            },
            Action::Finished(Outcome::Written(_)) => {
                self.stage = Stage::Done;
                TellerAction::Done(Receipt::Rejected)
            },
            Action::Finished(Outcome::Failed(error)) => {
                self.stage = Stage::Done;
                TellerAction::Done(Receipt::Failed(error))
            },
            _ => {
                self.stage = Stage::Done;
                TellerAction::Wait
            },
        }
    }

    /// Goes on after the session answered with `action` to the read.
    fn follow_read(&mut self, transaction: Transaction, manager: CardManager, action: Action) -> (todo:
        TellerAction)
        ensures
            final(self)@ =~~= after_read(transaction, manager@, action@).0,
            todo@ =~~= after_read(transaction, manager@, action@).1,
    {
        match action {
            Action::Transmit(frame) => {
                self.stage = Stage::Reading(transaction, manager);
                TellerAction::Transmit(frame)
            },
            Action::Finished(Outcome::Block(block)) => match settle(block, transaction) {
                Settlement::Refused { balance } => {
                    self.stage = Stage::Done;
                    TellerAction::Done(Receipt::Refused { balance })
                },
                Settlement::Accepted { balance, block } => {
                    let mut manager = manager;
                    let action = manager.write(BALANCE_BLOCK, block);
                    self.follow_write(balance, manager, action)
                },
            },
            Action::Finished(Outcome::Failed(error)) => {
                self.stage = Stage::Done;
                TellerAction::Done(Receipt::Failed(error))
            },
            _ => {
                self.stage = Stage::Done;
                TellerAction::Wait
            },
        }
    }

    /// Takes `event` and tells what the driver has to do next.
    pub fn attend(&mut self, event: TellerEvent) -> (todo: TellerAction)
        ensures
            final(self)@ =~~= teller_step(old(self)@, event@).0,
            todo@ =~~= teller_step(old(self)@, event@).1,
    {
        let mut stage = Stage::Done;
        core::mem::swap(&mut self.stage, &mut stage);
        match (stage, event) {
            (Stage::Opening(transaction), TellerEvent::Opened { readers, status }) => {
                match CardManager::loadreader(readers, status) {
                    Err(error) => TellerAction::Done(Receipt::Failed(error)),
                    Ok(manager) => {
                        let mut manager = manager;
                        let action = manager.read(BALANCE_BLOCK);
                        self.follow_read(transaction, manager, action)
                    },
                }
            },
            (Stage::Reading(transaction, manager), TellerEvent::Card(event)) => {
                let mut manager = manager;
                let action = manager.advance(event);
                self.follow_read(transaction, manager, action)
            },
            (Stage::Writing(balance, manager), TellerEvent::Card(event)) => {
                let mut manager = manager;
                let action = manager.advance(event);
                self.follow_write(balance, manager, action)
            },
            (stage, _) => {
                self.stage = stage;
                TellerAction::Wait
            },
        }
    }
}

/// An accepted transaction writes the new balance to the balance block:
/// once the block is read, the next frame is the write frame for block 4
/// that carries the new balance as 16 big-endian bytes, and when the card
/// accepts it the transaction is settled with that balance.
pub proof fn lemma_accepted_transaction_writes_the_balance(
    transaction: Transaction,
    loaded: Seq<u8>,
    authenticated: Seq<u8>,
    answer: Seq<u8>,
    written: Seq<u8>,
)
    requires
        balance_after(balance_of(block_data(answer)), transaction) is Some,
    ensures
        ({
            let after = balance_after(balance_of(block_data(answer)), transaction)->0;
            let read = after_balance_is_read(transaction, loaded, authenticated, answer);
            let last = teller_step(read.0, TellerEventView::Card(EventView::Response(written)));
            &&& read.1 == TellerActionView::Transmit(
                write_frame(BALANCE_BLOCK, be_bytes(after, 16)),
            )
            &&& be_value(be_bytes(after, 16)) == after
            &&& last.0 == TellerView::Done
            &&& status_accepts(Instruction::WriteBinary, written) ==> last.1
                == TellerActionView::Done(Receipt::Settled { balance: after as u128 })
            &&& !status_accepts(Instruction::WriteBinary, written) ==> last.1
                == TellerActionView::Done(Receipt::Rejected)
        }),
{
    lemma_read_is_unconditional(BALANCE_BLOCK, loaded, authenticated, answer);
    let after = balance_after(balance_of(block_data(answer)), transaction)->0;
    lemma_be_value_of_be_bytes(after, 16);
    lemma_radix_power_of_block();
    lemma_small_mod(after, balance_limit());
}

/// A refused transaction leaves the card as it is: once the block is read
/// the transaction ends as refused, with the balance that the block holds,
/// and no frame is transmitted after that, whatever is reported.
pub proof fn lemma_refused_transaction_writes_nothing(
    transaction: Transaction,
    loaded: Seq<u8>,
    authenticated: Seq<u8>,
    answer: Seq<u8>,
    later: TellerEventView,
)
    requires
        balance_after(balance_of(block_data(answer)), transaction) is None,
    ensures
        ({
            let read = after_balance_is_read(transaction, loaded, authenticated, answer);
            &&& read.1 == TellerActionView::Done(
                Receipt::Refused { balance: balance_of(block_data(answer)) as u128 },
            )
            &&& read.0 == TellerView::Done
            &&& teller_step(read.0, later) == (TellerView::Done, TellerActionView::Wait)
        }),
{
    lemma_read_is_unconditional(BALANCE_BLOCK, loaded, authenticated, answer);
}

} // verus!
