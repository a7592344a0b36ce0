//! The session with one card: which frames an operation puts on the wire, in
//! which order, and what it makes of the answers.
//!
//! The manager does no input or output. An operation is started by one of
//! `keyload`, `auth`, `read`, `write`, `read_sector`, `write_sector`, each of
//! which answers with an [`Action`]: a frame to transmit, or the finished
//! [`Outcome`]. The driver transmits the frame and hands what came back to
//! `advance`, until the operation is finished.

use vstd::prelude::*;
use crate::frame::{
    CLASS, INS_WRITE_BINARY, Instruction, authenticate_frame, block_data, build_authenticate,
    build_load_key, build_read, build_write, load_key_frame, read_data, read_frame,
    status_accepts, status_ok, write_frame,
};

verus! {

/// The only key this system ever loads.
pub const DEFAULT_KEY: [u8; 6] = [0xFF, 0xFF, 0xFF, 0xFF, 0xFF, 0xFF];

/// Number of blocks in a sector.
pub const BLOCKS_PER_SECTOR: u8 = 4;

/// The lowest block number that may be written. The blocks below it form
/// the reserved sector, which holds the card's identifier.
pub const FIRST_WRITABLE_BLOCK: u8 = 4;

/// Number of blocks that `read_sector` reads: the data blocks of a sector,
/// without its trailer.
pub const SECTOR_DATA_BLOCKS: u8 = 3;

/// Number of sectors that 8-bit block numbers can address.
pub const SECTOR_LIMIT: u8 = 64;

/// Transport status: the call succeeded.
pub const SCARD_S_SUCCESS: u32 = 0x0000_0000;

/// Transport status: the reader name is not known.
pub const SCARD_E_UNKNOWN_READER: u32 = 0x8010_0009;

/// Transport status: no card is in the reader.
pub const SCARD_E_NO_SMARTCARD: u32 = 0x8010_000C;

/// Transport status: the reader is not available for use.
pub const SCARD_E_READER_UNAVAILABLE: u32 = 0x8010_0017;

/// Transport status: no reader is attached.
pub const SCARD_E_NO_READERS_AVAILABLE: u32 = 0x8010_002E;

/// Transport status: the card does not answer a reset.
pub const SCARD_W_UNRESPONSIVE_CARD: u32 = 0x8010_0066;

/// Transport status: the card has no power.
pub const SCARD_W_UNPOWERED_CARD: u32 = 0x8010_0067;

/// Transport status: the card was taken out of the reader.
pub const SCARD_W_REMOVED_CARD: u32 = 0x8010_0069;

/// Failures of the reader transport. They end the operation in progress;
/// a failure that the card itself reports is no error and never appears
/// here.
#[derive(Clone, Copy, Debug, PartialEq, Eq, Structural)]
pub enum TransportError {
    NoReaderAvailable,
    NoCardPresent,
    ConnectionFailed,
    TransmissionFailed,
}

/// What became of the write of one block.
#[derive(Clone, Copy, Debug, PartialEq, Eq, Structural)]
pub enum WriteStatus {
    /// The block lies in the reserved sector: nothing was transmitted.
    Refused,
    /// The frame was transmitted and the card accepted it.
    Accepted,
    /// The frame was transmitted and the card reported a failure.
    Rejected,
}

/// An operation on the card, with its arguments.
#[derive(Clone, Debug, PartialEq, Eq)]
pub enum Operation {
    KeyLoad { key: [u8; 6] },
    Auth { block: u8 },
    Read { block: u8 },
    Write { block: u8, data: [u8; 16] },
    ReadSector { sector: u8 },
    WriteSector { sector: u8, blocks: Vec<[u8; 16]> },
}

/// The result of a finished operation.
#[derive(Clone, Debug, PartialEq, Eq)]
pub enum Outcome {
    /// Of `keyload` and `auth`: 1 if the card accepted, 0 if it did not.
    Status(u8),
    /// Of `read`: the 16 bytes of the block.
    Block(Vec<u8>),
    /// Of `write`.
    Written(WriteStatus),
    /// Of `read_sector`: the data blocks of the sector, lowest first.
    Sector(Vec<Vec<u8>>),
    /// Of `write_sector`: one status for each block handed in, in order.
    SectorWritten(Vec<WriteStatus>),
    /// The transport failed; the operation was given up.
    Failed(TransportError),
}

/// What the driver has to do next.
#[derive(Clone, Debug, PartialEq, Eq)]
pub enum Action {
    /// Transmit this frame and report what came back.
    Transmit(Vec<u8>),
    /// The operation is finished.
    Finished(Outcome),
    /// No operation is in progress: the event was dropped.
    Idle,
}

/// What the transport did with the last frame.
#[derive(Clone, Debug, PartialEq, Eq)]
pub enum Event {
    /// The card answered with these bytes.
    Response(Vec<u8>),
    /// The frame could not be transmitted, or no answer came back.
    TransmissionFailed,
}

/// Mathematical form of an [`Operation`].
#[verifier::ext_equal]
pub enum OperationView {
    KeyLoad { key: Seq<u8> },
    Auth { block: u8 },
    Read { block: u8 },
    Write { block: u8, data: Seq<u8> },
    ReadSector { sector: u8 },
    WriteSector { sector: u8, blocks: Seq<Seq<u8>> },
}

/// Mathematical form of an [`Outcome`].
#[verifier::ext_equal]
pub enum OutcomeView {
    Status(u8),
    Block(Seq<u8>),
    Written(WriteStatus),
    Sector(Seq<Seq<u8>>),
    SectorWritten(Seq<WriteStatus>),
    Failed(TransportError),
}

/// Mathematical form of an [`Action`].
#[verifier::ext_equal]
pub enum ActionView {
    Transmit(Seq<u8>),
    Finished(OutcomeView),
    Idle,
}

/// Mathematical form of an [`Event`].
#[verifier::ext_equal]
pub enum EventView {
    Response(Seq<u8>),
    TransmissionFailed,
}

/// Mathematical form of a [`CardManager`]: the operation in progress, if
/// any, and the answers it has received so far.
#[verifier::ext_equal]
pub struct SessionView {
    pub pending: Option<OperationView>,
    pub replies: Seq<Seq<u8>>,
}

/// The bytes of each frame or block of a list.
pub open spec fn bytes_of(list: Seq<Vec<u8>>) -> Seq<Seq<u8>> {
    Seq::new(list.len(), |i: int| list[i]@)
}

/// The bytes of each 16-byte block of a list.
pub open spec fn blocks_of(list: Seq<[u8; 16]>) -> Seq<Seq<u8>> {
    Seq::new(list.len(), |i: int| list[i]@)
}

impl View for Operation {
    type V = OperationView;

    open spec fn view(&self) -> OperationView {
        match *self {
            Operation::KeyLoad { key } => OperationView::KeyLoad { key: key@ },
            Operation::Auth { block } => OperationView::Auth { block },
            Operation::Read { block } => OperationView::Read { block },
            Operation::Write { block, data } => OperationView::Write { block, data: data@ },
            Operation::ReadSector { sector } => OperationView::ReadSector { sector },
            Operation::WriteSector { sector, blocks } => OperationView::WriteSector {
                sector,
                blocks: blocks_of(blocks@),
            },
        }
    }
}

impl View for Outcome {
    type V = OutcomeView;

    open spec fn view(&self) -> OutcomeView {
        match *self {
            Outcome::Status(flag) => OutcomeView::Status(flag),
            Outcome::Block(data) => OutcomeView::Block(data@),
            Outcome::Written(status) => OutcomeView::Written(status),
            Outcome::Sector(blocks) => OutcomeView::Sector(bytes_of(blocks@)),
            Outcome::SectorWritten(statuses) => OutcomeView::SectorWritten(statuses@),
            Outcome::Failed(error) => OutcomeView::Failed(error),
        }
    }
}

impl View for Action {
    type V = ActionView;

    open spec fn view(&self) -> ActionView {
        match *self {
            Action::Transmit(frame) => ActionView::Transmit(frame@),
            Action::Finished(outcome) => ActionView::Finished(outcome@),
            Action::Idle => ActionView::Idle,
        }
    }
}

impl View for Event {
    type V = EventView;

    open spec fn view(&self) -> EventView {
        match *self {
            Event::Response(bytes) => EventView::Response(bytes@),
            Event::TransmissionFailed => EventView::TransmissionFailed,
        }
    }
}

/// The number of the block at `offset` in `sector`.
pub open spec fn sector_block(sector: u8, offset: int) -> int {
    BLOCKS_PER_SECTOR * sector + offset
}

/// The frames of a read of `block`: the default key is loaded and the block
/// authenticated before the read itself, whatever the card answers to the
/// first two.
pub open spec fn read_frames(block: u8) -> Seq<Seq<u8>> {
    seq![load_key_frame(DEFAULT_KEY@), authenticate_frame(block), read_frame(block)]
}

/// The frames of a write of `block`: none for a block of the reserved
/// sector, else the one write frame, with no authentication before it.
pub open spec fn write_frames(block: u8, data: Seq<u8>) -> Seq<Seq<u8>> {
    if block < FIRST_WRITABLE_BLOCK {
        Seq::empty()
    } else {
        seq![write_frame(block, data)]
    }
}

/// The frames of a read of the first `count` blocks of `sector`: those of
/// a read of each block, lowest block first.
pub open spec fn read_sector_frames(sector: u8, count: nat) -> Seq<Seq<u8>>
    decreases count,
{
    if count == 0 {
        Seq::empty()
    } else {
        read_sector_frames(sector, (count - 1) as nat) + read_frames(
            sector_block(sector, count - 1) as u8,
        )
    }
}

/// The frames of a write of `data` to the blocks of `sector` and those that
/// follow: those of a write of each block, lowest block first.
pub open spec fn write_sector_frames(sector: u8, data: Seq<Seq<u8>>) -> Seq<Seq<u8>>
    decreases data.len(),
{
    if data.len() == 0 {
        Seq::empty()
    } else {
        write_sector_frames(sector, data.drop_last()) + write_frames(
            sector_block(sector, data.len() - 1) as u8,
            data.last(),
        )
    }
}

/// Every frame that `operation` puts on the wire when the transport never
/// fails, in the order of transmission.
pub open spec fn frames(operation: OperationView) -> Seq<Seq<u8>> {
    match operation {
        OperationView::KeyLoad { key } => seq![load_key_frame(key)],
        OperationView::Auth { block } => seq![authenticate_frame(block)],
        OperationView::Read { block } => read_frames(block),
        OperationView::Write { block, data } => write_frames(block, data),
        OperationView::ReadSector { sector } => read_sector_frames(
            sector,
            SECTOR_DATA_BLOCKS as nat,
        ),
        OperationView::WriteSector { sector, blocks } => write_sector_frames(sector, blocks),
    }
}

/// The flag that `keyload` and `auth` report.
pub open spec fn status_flag(accepted: bool) -> u8 {
    if accepted {
        1
    } else {
        0
    }
}

/// The status of the write of `block`, whose frame, if it has one, was
/// answered by `replies[at]`.
pub open spec fn write_status(block: u8, replies: Seq<Seq<u8>>, at: int) -> WriteStatus {
    if block < FIRST_WRITABLE_BLOCK {
        WriteStatus::Refused
    } else if status_accepts(Instruction::WriteBinary, replies[at]) {
        WriteStatus::Accepted
    } else {
        WriteStatus::Rejected
    }
}

/// The blocks that a read of the first `count` blocks of a sector gives:
/// each is taken from the answer to its read frame, the third of the three
/// frames of its block.
pub open spec fn sector_blocks(replies: Seq<Seq<u8>>, count: nat) -> Seq<Seq<u8>> {
    Seq::new(count, |i: int| block_data(replies[3 * i + 2]))
}

/// The statuses of a write of `data` from the first block of `sector` on.
/// A block's status is read from the answer to its own frame, which comes
/// after the answers to the frames of the blocks before it.
pub open spec fn sector_statuses(sector: u8, data: Seq<Seq<u8>>, replies: Seq<Seq<u8>>) -> Seq<
    WriteStatus,
>
    decreases data.len(),
{
    if data.len() == 0 {
        Seq::empty()
    } else {
        sector_statuses(sector, data.drop_last(), replies).push(
            write_status(
                sector_block(sector, data.len() - 1) as u8,
                replies,
                write_sector_frames(sector, data.drop_last()).len() as int,
            ),
        )
    }
}

/// The result of `operation` once the card has answered each of its frames
/// with the reply at the same place in `replies`.
pub open spec fn outcome_of(operation: OperationView, replies: Seq<Seq<u8>>) -> OutcomeView {
    match operation {
        OperationView::KeyLoad { key } => OutcomeView::Status(
            status_flag(status_accepts(Instruction::LoadKey, replies[0])),
        ),
        OperationView::Auth { block } => OutcomeView::Status(
            status_flag(status_accepts(Instruction::Authenticate, replies[0])),
        ),
        OperationView::Read { block } => OutcomeView::Block(block_data(replies[2])),
        OperationView::Write { block, data } => OutcomeView::Written(
            write_status(block, replies, 0),
        ),
        OperationView::ReadSector { sector } => OutcomeView::Sector(
            sector_blocks(replies, SECTOR_DATA_BLOCKS as nat),
        ),
        OperationView::WriteSector { sector, blocks } => OutcomeView::SectorWritten(
            sector_statuses(sector, blocks, replies),
        ),
    }
}

/// The session in which no operation is in progress.
pub open spec fn idle() -> SessionView {
    SessionView { pending: None, replies: Seq::empty() }
}

/// Where `operation` stands once it has `replies`: the next frame of its
/// plan while one is left, else its result.
pub open spec fn resume(operation: OperationView, replies: Seq<Seq<u8>>) -> (
    SessionView,
    ActionView,
) {
    if replies.len() < frames(operation).len() {
        (
            SessionView { pending: Some(operation), replies },
            ActionView::Transmit(frames(operation)[replies.len() as int]),
        )
    } else {
        (idle(), ActionView::Finished(outcome_of(operation, replies)))
    }
}

/// The session and the action after `operation` is started.
pub open spec fn begin(operation: OperationView) -> (SessionView, ActionView) {
    resume(operation, Seq::empty())
}

/// The session and the action after `event` is reported in `session`.
///
/// An answer is added to those of the operation in progress. A transport
/// failure ends the operation at once: none of its remaining frames is
/// transmitted.
pub open spec fn step(session: SessionView, event: EventView) -> (SessionView, ActionView) {
    match session.pending {
        None => (session, ActionView::Idle),
        Some(operation) => match event {
            EventView::Response(bytes) => resume(operation, session.replies.push(bytes)),
            EventView::TransmissionFailed => (
                idle(),
                ActionView::Finished(OutcomeView::Failed(TransportError::TransmissionFailed)),
            ),
        },
    }
}

/// Whether `status` says that a reader is missing.
pub open spec fn reader_missing(status: u32) -> bool {
    status == SCARD_E_NO_READERS_AVAILABLE || status == SCARD_E_UNKNOWN_READER || status
        == SCARD_E_READER_UNAVAILABLE
}

/// Whether `status` says that the reader holds no card that answers.
pub open spec fn card_missing(status: u32) -> bool {
    status == SCARD_E_NO_SMARTCARD || status == SCARD_W_REMOVED_CARD || status
        == SCARD_W_UNRESPONSIVE_CARD || status == SCARD_W_UNPOWERED_CARD
}

/// What opening a session gives when the transport listed `readers`
/// readers and `status` is the status of the first call that failed, or
/// success if none did: `None` for an open session, else the error.
///
/// A failure is told by its status. Without a failure the session is open
/// if there was a reader to connect to, the first one listed.
pub open spec fn open_error(readers: usize, status: u32) -> Option<TransportError> {
    if status == SCARD_S_SUCCESS {
        if readers == 0 {
            Some(TransportError::NoReaderAvailable)
        } else {
            None
        }
    } else if reader_missing(status) {
        Some(TransportError::NoReaderAvailable)
    } else if card_missing(status) {
        Some(TransportError::NoCardPresent)
    } else {
        Some(TransportError::ConnectionFailed)
    }
}

/// Whether the blocks that `operation` names have 8-bit numbers.
pub open spec fn in_range(operation: OperationView) -> bool {
    match operation {
        OperationView::ReadSector { sector } => sector < SECTOR_LIMIT,
        OperationView::WriteSector { sector, blocks } => sector_block(
            sector,
            blocks.len() as int,
        ) <= 256,
        _ => true,
    }
}

/// The frames that are transmitted when an operation has reached `action`
/// in `session` and the transport then reports `events`, one for each
/// frame handed out. Events that come after the operation has finished
/// are dropped.
pub open spec fn transmitted(session: SessionView, action: ActionView, events: Seq<EventView>) -> Seq<
    Seq<u8>,
>
    decreases events.len(),
{
    match action {
        ActionView::Transmit(frame) => if events.len() == 0 {
            seq![frame]
        } else {
            let next = step(session, events[0]);
            seq![frame] + transmitted(next.0, next.1, events.drop_first())
        },
        _ => Seq::empty(),
    }
}

/// The frames that are transmitted when `operation` is started and the
/// transport reports `events`.
pub open spec fn wire_trace(operation: OperationView, events: Seq<EventView>) -> Seq<Seq<u8>> {
    transmitted(begin(operation).0, begin(operation).1, events)
}

/// The number of blocks among the first `count` of `sector` that lie in
/// the reserved sector.
pub open spec fn refused_blocks(sector: u8, count: nat) -> nat {
    if sector > 0 {
        0
    } else if count < FIRST_WRITABLE_BLOCK {
        count
    } else {
        FIRST_WRITABLE_BLOCK as nat
    }
}

/// Whether `frame` is a write frame.
pub open spec fn is_write_frame(frame: Seq<u8>) -> bool {
    frame.len() >= 5 && frame[0] == CLASS && frame[1] == INS_WRITE_BINARY
}

/// The session with one card.
///
/// It holds the operation in progress, the frames of that operation and
/// the answers received so far. While an operation is in progress it has
/// fewer answers than frames.
#[derive(Debug)]
pub struct CardManager {
    pending: Option<Operation>,
    plan: Vec<Vec<u8>>,
    replies: Vec<Vec<u8>>,
}

impl View for CardManager {
    type V = SessionView;

    closed spec fn view(&self) -> SessionView {
        SessionView {
            pending: match self.pending {
                None => None,
                Some(operation) => Some(operation@),
            },
            replies: bytes_of(self.replies@),
        }
    }
}

impl CardManager {
    /// While an operation is in progress, the plan holds its frames and
    /// at least one of them is unanswered.
    #[verifier::type_invariant]
    spec fn well_formed(&self) -> bool {
        match self.pending {
            None => self.plan@.len() == 0 && self.replies@.len() == 0,
            Some(operation) => {
                &&& in_range(operation@)
                &&& bytes_of(self.plan@) == frames(operation@)
                &&& self.replies@.len() < self.plan@.len()
            },
        }
    }

    /// Opens the session, going by what the transport reported: the number
    /// of readers it listed, and the status of the first call that failed
    /// while it set itself up, listed the readers and connected to the card
    /// in the first of them, or success if none failed.
    ///
    /// The error is `NoReaderAvailable` if no reader is attached,
    /// `NoCardPresent` if the reader holds no card that answers, and
    /// `ConnectionFailed` for every other failure.
    pub fn loadreader(readers: usize, status: u32) -> (opened: Result<CardManager, TransportError>)
        ensures
            match opened {
                Ok(manager) => open_error(readers, status) is None && manager@ =~~= idle(),
                Err(error) => open_error(readers, status) == Some(error),
            },
    {
        if status == SCARD_S_SUCCESS {
            if readers == 0 {
                Err(TransportError::NoReaderAvailable)
            } else {
                Ok(CardManager { pending: None, plan: Vec::new(), replies: Vec::new() })
            }
        } else if status == SCARD_E_NO_READERS_AVAILABLE || status == SCARD_E_UNKNOWN_READER
            || status == SCARD_E_READER_UNAVAILABLE {
            Err(TransportError::NoReaderAvailable)
        } else if status == SCARD_E_NO_SMARTCARD || status == SCARD_W_REMOVED_CARD || status
            == SCARD_W_UNRESPONSIVE_CARD || status == SCARD_W_UNPOWERED_CARD {
            Err(TransportError::NoCardPresent)
        } else {
            Err(TransportError::ConnectionFailed)
        }
    }

    /// Tells whether no operation is in progress.
    pub fn is_idle(&self) -> (idle: bool)
        ensures
            idle == (self@.pending is None),
    {
        self.pending.is_none()
    }

    /// Takes up `operation` with the answers it has so far.
    fn proceed(&mut self, operation: Operation, plan: Vec<Vec<u8>>, replies: Vec<Vec<u8>>) -> (action:
        Action)
        requires
            in_range(operation@),
            bytes_of(plan@) == frames(operation@),
            replies.len() <= plan.len(),
        ensures
            final(self)@ =~~= resume(operation@, bytes_of(replies@)).0,
            action@ =~~= resume(operation@, bytes_of(replies@)).1,
    {
        if replies.len() < plan.len() {
            let frame = plan[replies.len()].clone();
            *self = CardManager { pending: Some(operation), plan, replies };
            Action::Transmit(frame)
        } else {
            let outcome = finish(&operation, &replies);
            *self = CardManager { pending: None, plan: Vec::new(), replies: Vec::new() };
            Action::Finished(outcome)
        }
    }

    /// Starts `operation`, giving up the one in progress, if any.
    fn start(&mut self, operation: Operation) -> (action: Action)
        requires
            in_range(operation@),
        ensures
            final(self)@ =~~= begin(operation@).0,
            action@ =~~= begin(operation@).1,
    {
        let plan = plan_of(&operation);
        let replies: Vec<Vec<u8>> = Vec::new();
        assert(bytes_of(replies@) =~= Seq::empty());
        self.proceed(operation, plan, replies)
    }

    /// Starts loading `key` into the reader.
    ///
    /// The operation has one frame. Its result is `Status(1)` if the answer
    /// starts with the status word 0x90 0x00, else `Status(0)`.
    pub fn keyload(&mut self, key: [u8; 6]) -> (action: Action)
        ensures
            final(self)@ =~~= begin(OperationView::KeyLoad { key: key@ }).0,
            action@ =~~= begin(OperationView::KeyLoad { key: key@ }).1,
            action@ == ActionView::Transmit(load_key_frame(key@)),
    {
        self.start(Operation::KeyLoad { key })
    }

    /// Starts authenticating against the sector of `block`.
    ///
    /// The operation has one frame. Its result is `Status(1)` if the answer
    /// begins with 0x90, else `Status(0)`.
    pub fn auth(&mut self, block: u8) -> (action: Action)
        ensures
            final(self)@ =~~= begin(OperationView::Auth { block }).0,
            action@ =~~= begin(OperationView::Auth { block }).1,
            action@ == ActionView::Transmit(authenticate_frame(block)),
    {
        self.start(Operation::Auth { block })
    }

    /// Starts reading `block`.
    ///
    /// The default key is loaded and the block authenticated first. The read
    /// frame follows whatever the card answered to those two, and the result
    /// is the block in the answer to the read frame.
    pub fn read(&mut self, block: u8) -> (action: Action)
        ensures
            final(self)@ =~~= begin(OperationView::Read { block }).0,
            action@ =~~= begin(OperationView::Read { block }).1,
            action@ == ActionView::Transmit(load_key_frame(DEFAULT_KEY@)),
    {
        self.start(Operation::Read { block })
    }

    /// Starts writing `data` to `block`.
    ///
    /// A block of the reserved sector is refused at once, with nothing to
    /// transmit. Any other block has the one write frame, without
    /// authentication before it.
    pub fn write(&mut self, block: u8, data: [u8; 16]) -> (action: Action)
        ensures
            final(self)@ =~~= begin(OperationView::Write { block, data: data@ }).0,
            action@ =~~= begin(OperationView::Write { block, data: data@ }).1,
            block < FIRST_WRITABLE_BLOCK ==> final(self)@ == idle() && action@
                == ActionView::Finished(OutcomeView::Written(WriteStatus::Refused)),
            block >= FIRST_WRITABLE_BLOCK ==> action@ == ActionView::Transmit(
                write_frame(block, data@),
            ),
    {
        self.start(Operation::Write { block, data })
    }

    /// Starts reading the data blocks of `sector`, lowest block first: the
    /// blocks 4s, 4s+1 and 4s+2, each as `read` reads it.
    ///
    /// The sector must be one that 8-bit block numbers reach.
    pub fn read_sector(&mut self, sector: u8) -> (action: Action)
        requires
            sector < SECTOR_LIMIT,
        ensures
            final(self)@ =~~= begin(OperationView::ReadSector { sector }).0,
            action@ =~~= begin(OperationView::ReadSector { sector }).1,
            action@ == ActionView::Transmit(load_key_frame(DEFAULT_KEY@)),
    {
        proof {
            lemma_read_sector_frames(sector);
        }
        self.start(Operation::ReadSector { sector })
    }

    /// Starts writing `data`, block after block, from the first block of
    /// `sector` on: the block at place `i` goes to block 4s+i. Each block is
    /// treated as `write` treats it, so that those of the reserved sector
    /// are refused one by one.
    ///
    /// The blocks written must have 8-bit numbers.
    pub fn write_sector(&mut self, sector: u8, data: Vec<[u8; 16]>) -> (action: Action)
        requires
            sector_block(sector, data.len() as int) <= 256,
        ensures
            final(self)@ =~~= begin(
                OperationView::WriteSector { sector, blocks: blocks_of(data@) },
            ).0,
            action@ =~~= begin(
                OperationView::WriteSector { sector, blocks: blocks_of(data@) },
            ).1,
    {
        self.start(Operation::WriteSector { sector, blocks: data })
    }

    /// Takes what the transport reported on the frame last handed out, and
    /// tells what to do next.
    pub fn advance(&mut self, event: Event) -> (action: Action)
        ensures
            final(self)@ =~~= step(old(self)@, event@).0,
            action@ =~~= step(old(self)@, event@).1,
    {
        proof {
            use_type_invariant(&*self);
        }
        let mut taken = CardManager { pending: None, plan: Vec::new(), replies: Vec::new() };
        core::mem::swap(self, &mut taken);
        let CardManager { pending, plan, replies } = taken;
        match pending {
            None => Action::Idle,
            Some(operation) => match event {
                Event::Response(bytes) => {
                    let mut replies = replies;
                    let ghost before = bytes_of(replies@);
                    replies.push(bytes);
                    assert(bytes_of(replies@) =~= before.push(bytes@));
                    self.proceed(operation, plan, replies)
                },
                Event::TransmissionFailed => Action::Finished(
                    Outcome::Failed(TransportError::TransmissionFailed),
                ),
            },
        }
    }
}

/// Appends the frames of a read of `block` to `plan`.
fn plan_read(plan: &mut Vec<Vec<u8>>, block: u8)
    ensures
        bytes_of(final(plan)@) == bytes_of(old(plan)@) + read_frames(block),
{
    plan.push(build_load_key(DEFAULT_KEY));
    plan.push(build_authenticate(block));
    plan.push(build_read(block));
}

/// Appends the frames of a write of `block` to `plan`.
fn plan_write(plan: &mut Vec<Vec<u8>>, block: u8, data: [u8; 16])
    ensures
        bytes_of(final(plan)@) == bytes_of(old(plan)@) + write_frames(block, data@),
{
    if block >= FIRST_WRITABLE_BLOCK {
        plan.push(build_write(block, data));
    }
}

/// Lays out every frame of `operation`, in the order of transmission.
fn plan_of(operation: &Operation) -> (plan: Vec<Vec<u8>>)
    requires
        in_range(operation@),
    ensures
        bytes_of(plan@) == frames(operation@),
{
    let mut plan: Vec<Vec<u8>> = Vec::new();
    match operation {
        Operation::KeyLoad { key } => {
            plan.push(build_load_key(*key));
        },
        Operation::Auth { block } => {
            plan.push(build_authenticate(*block));
        },
        Operation::Read { block } => {
            plan_read(&mut plan, *block);
        },
        Operation::Write { block, data } => {
            plan_write(&mut plan, *block, *data);
        },
        Operation::ReadSector { sector } => {
            let first: u8 = BLOCKS_PER_SECTOR * *sector;
            let mut offset: u8 = 0;
            while offset < SECTOR_DATA_BLOCKS
                invariant
                    offset <= SECTOR_DATA_BLOCKS,
                    *sector < SECTOR_LIMIT,
                    first == BLOCKS_PER_SECTOR * *sector,
                    bytes_of(plan@) == read_sector_frames(*sector, offset as nat),
                decreases SECTOR_DATA_BLOCKS - offset,
            {
                plan_read(&mut plan, first + offset);
                offset += 1;
            }
        },
        Operation::WriteSector { sector, blocks } => {
            let ghost data = blocks_of(blocks@);
            let mut i: usize = 0;
            while i < blocks.len()
                invariant
                    i <= blocks.len(),
                    data == blocks_of(blocks@),
                    sector_block(*sector, blocks.len() as int) <= 256,
                    bytes_of(plan@) == write_sector_frames(*sector, data.take(i as int)),
                decreases blocks.len() - i,
            {
                let block: u8 = BLOCKS_PER_SECTOR * *sector + (i as u8);
                proof {
                    assert(data.take(i + 1).drop_last() == data.take(i as int));
                }
                plan_write(&mut plan, block, blocks[i]);
                i += 1;
            }
            proof {
                assert(data.take(blocks.len() as int) == data);
            }
        },
    }
    plan
}

/// Reads the status of the write of `block` from the answers.
fn write_status_of(block: u8, replies: &Vec<Vec<u8>>, at: usize) -> (status: WriteStatus)
    requires
        block >= FIRST_WRITABLE_BLOCK ==> at < replies.len(),
    ensures
        status == write_status(block, bytes_of(replies@), at as int),
{
    if block < FIRST_WRITABLE_BLOCK {
        WriteStatus::Refused
    } else if status_ok(Instruction::WriteBinary, &replies[at]) {
        WriteStatus::Accepted
    } else {
        WriteStatus::Rejected
    }
}

/// The flag for a status, as `keyload` and `auth` report it.
fn flag_of(accepted: bool) -> (flag: u8)
    ensures
        flag == status_flag(accepted),
{
    if accepted {
        1
    } else {
        0
    }
}

/// Takes the blocks of a sector out of the answers to its nine frames.
fn sector_blocks_of(replies: &Vec<Vec<u8>>) -> (blocks: Vec<Vec<u8>>)
    requires
        replies.len() == 3 * SECTOR_DATA_BLOCKS,
    ensures
        bytes_of(blocks@) == sector_blocks(bytes_of(replies@), SECTOR_DATA_BLOCKS as nat),
{
    let ghost answers = bytes_of(replies@);
    let mut blocks: Vec<Vec<u8>> = Vec::new();
    let mut i: usize = 0;
    while i < 3
        invariant
            i <= 3,
            replies.len() == 9,
            answers == bytes_of(replies@),
            blocks.len() == i,
            bytes_of(blocks@) =~= sector_blocks(answers, i as nat),
        decreases 3 - i,
    {
        let block = read_data(&replies[3 * i + 2]);
        let ghost before = blocks@;
        blocks.push(block);
        i += 1;
        proof {
            assert forall|j: int| 0 <= j < i implies bytes_of(blocks@)[j] == sector_blocks(
                answers,
                i as nat,
            )[j] by {
                if j < i - 1 {
                    assert(bytes_of(before)[j] == sector_blocks(answers, (i - 1) as nat)[j]);
                }
            }
        }
    }
    blocks
}

/// Reads the status of each block of a sector write from the answers.
fn sector_statuses_of(sector: u8, data: &Vec<[u8; 16]>, replies: &Vec<Vec<u8>>) -> (statuses: Vec<
    WriteStatus,
>)
    requires
        sector_block(sector, data.len() as int) <= 256,
        replies.len() == write_sector_frames(sector, blocks_of(data@)).len(),
    ensures
        statuses@ == sector_statuses(sector, blocks_of(data@), bytes_of(replies@)),
{
    let ghost blocks = blocks_of(data@);
    let ghost answers = bytes_of(replies@);
    let mut statuses: Vec<WriteStatus> = Vec::new();
    let mut used: usize = 0;
    let mut i: usize = 0;
    while i < data.len()
        invariant
            i <= data.len(),
            blocks == blocks_of(data@),
            answers == bytes_of(replies@),
            sector_block(sector, data.len() as int) <= 256,
            replies.len() == write_sector_frames(sector, blocks).len(),
            used == write_sector_frames(sector, blocks.take(i as int)).len(),
            statuses@ == sector_statuses(sector, blocks.take(i as int), answers),
        decreases data.len() - i,
    {
        let block: u8 = BLOCKS_PER_SECTOR * sector + (i as u8);
        proof {
            assert(blocks.take(i + 1).drop_last() == blocks.take(i as int));
            lemma_write_sector_frames_prefix(sector, blocks, i + 1);
        }
        statuses.push(write_status_of(block, replies, used));
        if block >= FIRST_WRITABLE_BLOCK {
            used += 1;
        }
        i += 1;
    }
    proof {
        assert(blocks.take(data.len() as int) == blocks);
    }
    statuses
}

/// Works out the result of `operation` from the answers to all its frames.
fn finish(operation: &Operation, replies: &Vec<Vec<u8>>) -> (outcome: Outcome)
    requires
        in_range(operation@),
        replies.len() == frames(operation@).len(),
    ensures
        outcome@ == outcome_of(operation@, bytes_of(replies@)),
{
    match operation {
        Operation::KeyLoad { key } => Outcome::Status(
            flag_of(status_ok(Instruction::LoadKey, &replies[0])),
        ),
        Operation::Auth { block } => Outcome::Status(
            flag_of(status_ok(Instruction::Authenticate, &replies[0])),
        ),
        Operation::Read { block } => Outcome::Block(read_data(&replies[2])),
        Operation::Write { block, data } => Outcome::Written(write_status_of(*block, replies, 0)),
        Operation::ReadSector { sector } => {
            proof {
                lemma_read_sector_frames_len(*sector, SECTOR_DATA_BLOCKS as nat);
            }
            Outcome::Sector(sector_blocks_of(replies))
        },
        Operation::WriteSector { sector, blocks } => Outcome::SectorWritten(
            sector_statuses_of(*sector, blocks, replies),
        ),
    }
}

/// Sector protection: a write to a block below 4 is finished at once as
/// refused, and whatever the transport reports nothing is ever transmitted
/// for it. A write to any other block transmits exactly one frame first, the
/// write frame whose second parameter is that block.
pub proof fn lemma_write_protects_reserved_sector(
    block: u8,
    data: Seq<u8>,
    events: Seq<EventView>,
)
    ensures
        block < FIRST_WRITABLE_BLOCK ==> {
            &&& begin(OperationView::Write { block, data }).0 == idle()
            &&& begin(OperationView::Write { block, data }).1 == ActionView::Finished(
                OutcomeView::Written(WriteStatus::Refused),
            )
            &&& wire_trace(OperationView::Write { block, data }, events) == Seq::<Seq<u8>>::empty()
        },
        block >= FIRST_WRITABLE_BLOCK ==> {
            &&& begin(OperationView::Write { block, data }).1 == ActionView::Transmit(
                write_frame(block, data),
            )
            &&& is_write_frame(write_frame(block, data))
            &&& write_frame(block, data)[3] == block
            &&& wire_trace(OperationView::Write { block, data }, events).len() == 1
            &&& wire_trace(OperationView::Write { block, data }, events)[0] == write_frame(
                block,
                data,
            )
        },
{
    let operation = OperationView::Write { block, data };
    if block >= FIRST_WRITABLE_BLOCK {
        if events.len() > 0 {
            let next = step(begin(operation).0, events[0]);
            assert(transmitted(next.0, next.1, events.drop_first()) == Seq::<Seq<u8>>::empty());
        }
    }
}

/// No operation ever writes to the reserved sector: among the frames of any
/// operation, each write frame names a block from 4 up.
pub proof fn lemma_reserved_sector_is_never_written(operation: OperationView, i: int)
    requires
        in_range(operation),
        0 <= i < frames(operation).len(),
    ensures
        is_write_frame(frames(operation)[i]) ==> frames(operation)[i][3] >= FIRST_WRITABLE_BLOCK,
{
    match operation {
        OperationView::ReadSector { sector } => {
            lemma_read_sector_frames(sector);
        },
        OperationView::WriteSector { sector, blocks } => {
            lemma_write_sector_frames(sector, blocks);
        },
        _ => {},
    }
}

/// Whatever the transport reports, the frames that an operation transmits
/// are the first frames of its plan, in the order of the plan.
pub proof fn lemma_wire_trace_follows_plan(operation: OperationView, events: Seq<EventView>)
    ensures
        wire_trace(operation, events).len() <= frames(operation).len(),
        wire_trace(operation, events) == frames(operation).take(
            wire_trace(operation, events).len() as int,
        ),
{
    lemma_transmitted_follows_plan(operation, Seq::empty(), events);
}

/// Order of a sector read: the blocks 4s, 4s+1 and 4s+2 are read in that
/// order and no other block is. Each has its three frames: key load,
/// authentication, read.
pub proof fn lemma_read_sector_frames(sector: u8)
    requires
        sector < SECTOR_LIMIT,
    ensures
        frames(OperationView::ReadSector { sector }) == read_frames((4 * sector) as u8)
            + read_frames((4 * sector + 1) as u8) + read_frames((4 * sector + 2) as u8),
        frames(OperationView::ReadSector { sector }).len() == 9,
        forall|k: int|
            0 <= k < 3 ==> #[trigger] frames(OperationView::ReadSector { sector })[3 * k + 2]
                == read_frame((4 * sector + k) as u8),
{
    reveal_with_fuel(read_sector_frames, 4);
}

/// Order of a sector write: the blocks handed in go to the block numbers
/// 4s, 4s+1, ... in that order. Those that fall in the reserved sector have
/// no frame; each of the others has its one write frame, and the frames
/// keep the order of the blocks.
pub proof fn lemma_write_sector_frames(sector: u8, data: Seq<Seq<u8>>)
    requires
        sector_block(sector, data.len() as int) <= 256,
    ensures
        write_sector_frames(sector, data).len() == data.len() - refused_blocks(
            sector,
            data.len(),
        ),
        forall|j: int|
            0 <= j < write_sector_frames(sector, data).len() ==> #[trigger] write_sector_frames(
                sector,
                data,
            )[j] == write_frame(
                (4 * sector + refused_blocks(sector, data.len()) + j) as u8,
                data[refused_blocks(sector, data.len()) + j],
            ),
    decreases data.len(),
{
    if data.len() > 0 {
        lemma_write_sector_frames(sector, data.drop_last());
    }
}

/// Order of a sector write behind the reserved sector: from sector 1 on
/// every block handed in is written. There are as many frames as blocks,
/// and the frame at place `i` is the write frame of block 4s+i that carries
/// the block at place `i` of the data.
pub proof fn lemma_write_sector_writes_each_block(sector: u8, data: Seq<Seq<u8>>)
    requires
        sector > 0,
        sector_block(sector, data.len() as int) <= 256,
    ensures
        frames(OperationView::WriteSector { sector, blocks: data }).len() == data.len(),
        forall|i: int|
            0 <= i < data.len() ==> #[trigger] frames(
                OperationView::WriteSector { sector, blocks: data },
            )[i] == write_frame((4 * sector + i) as u8, data[i]),
{
    lemma_write_sector_frames(sector, data);
}

/// Statuses of a sector write: block `i` of those handed in is refused if
/// its number is below 4; if not, its status is read from the answer to its
/// own frame.
pub proof fn lemma_sector_statuses(sector: u8, data: Seq<Seq<u8>>, replies: Seq<Seq<u8>>)
    requires
        sector_block(sector, data.len() as int) <= 256,
    ensures
        sector_statuses(sector, data, replies).len() == data.len(),
        forall|i: int|
            0 <= i < data.len() ==> #[trigger] sector_statuses(sector, data, replies)[i]
                == write_status(
                (4 * sector + i) as u8,
                replies,
                i - refused_blocks(sector, i as nat),
            ),
    decreases data.len(),
{
    if data.len() > 0 {
        lemma_sector_statuses(sector, data.drop_last(), replies);
        lemma_write_sector_frames(sector, data.drop_last());
    }
}

/// A read does not depend on what the card answers to the key load and to
/// the authentication: whatever the two answers are, the read frame is
/// transmitted after them, and the block is taken from the answer to it.
pub proof fn lemma_read_is_unconditional(
    block: u8,
    loaded: Seq<u8>,
    authenticated: Seq<u8>,
    answer: Seq<u8>,
)
    ensures
        ({
            let started = begin(OperationView::Read { block });
            let second = step(started.0, EventView::Response(loaded));
            let third = step(second.0, EventView::Response(authenticated));
            let last = step(third.0, EventView::Response(answer));
            &&& started.1 == ActionView::Transmit(load_key_frame(DEFAULT_KEY@))
            &&& second.1 == ActionView::Transmit(authenticate_frame(block))
            &&& third.1 == ActionView::Transmit(read_frame(block))
            &&& last.1 == ActionView::Finished(OutcomeView::Block(block_data(answer)))
            &&& last.0 == idle()
        }),
{
}

/// A failure that the card reports is a flag and no error: whatever the
/// card answers to a key load or to an authentication, the operation
/// finishes with a status, which is 1 for the answer that reports success
/// and 0 for any other.
pub proof fn lemma_card_failure_is_a_flag(key: Seq<u8>, block: u8, answer: Seq<u8>)
    ensures
        step(begin(OperationView::KeyLoad { key }).0, EventView::Response(answer)).1
            == ActionView::Finished(
            OutcomeView::Status(status_flag(status_accepts(Instruction::LoadKey, answer))),
        ),
        step(begin(OperationView::Auth { block }).0, EventView::Response(answer)).1
            == ActionView::Finished(
            OutcomeView::Status(status_flag(status_accepts(Instruction::Authenticate, answer))),
        ),
{
}

/// The induction behind `lemma_wire_trace_follows_plan`: from any point of
/// an operation on, the frames transmitted are the next frames of its plan.
pub proof fn lemma_transmitted_follows_plan(
    operation: OperationView,
    replies: Seq<Seq<u8>>,
    events: Seq<EventView>,
)
    requires
        replies.len() <= frames(operation).len(),
    ensures
        ({
            let from = resume(operation, replies);
            let sent = transmitted(from.0, from.1, events);
            &&& replies.len() + sent.len() <= frames(operation).len()
            &&& sent == frames(operation).subrange(
                replies.len() as int,
                (replies.len() + sent.len()) as int,
            )
        }),
    decreases events.len(),
{
    let from = resume(operation, replies);
    let sent = transmitted(from.0, from.1, events);
    let plan = frames(operation);
    let at = replies.len() as int;
    if at < plan.len() && events.len() > 0 {
        let next = step(from.0, events[0]);
        let rest = transmitted(next.0, next.1, events.drop_first());
        assert(sent == seq![plan[at]] + rest);
        match events[0] {
            EventView::Response(bytes) => {
                lemma_transmitted_follows_plan(operation, replies.push(bytes), events.drop_first());
            },
            EventView::TransmissionFailed => {
                assert(rest == Seq::<Seq<u8>>::empty());
            },
        }
    }
    assert(sent =~= plan.subrange(at, at + sent.len()));
}

/// A read of `count` blocks takes three frames for each block.
pub proof fn lemma_read_sector_frames_len(sector: u8, count: nat)
    ensures
        read_sector_frames(sector, count).len() == 3 * count,
    decreases count,
{
    if count > 0 {
        lemma_read_sector_frames_len(sector, (count - 1) as nat);
    }
}

/// The frames of the first `count` blocks of a write come first among the
/// frames of the whole write.
pub proof fn lemma_write_sector_frames_prefix(sector: u8, data: Seq<Seq<u8>>, count: int)
    requires
        0 <= count <= data.len(),
    ensures
        write_sector_frames(sector, data.take(count)).len() <= write_sector_frames(
            sector,
            data,
        ).len(),
    decreases data.len(),
{
    if count < data.len() {
        assert(data.drop_last().take(count) == data.take(count));
        lemma_write_sector_frames_prefix(sector, data.drop_last(), count);
    } else {
        assert(data.take(count) == data);
    }
}

} // verus!
