//! One command on the wire, byte by byte.
//!
//! A transaction never touches the bus. It names the next thing for the
//! host to do: drive chip select, or exchange one byte. The host does it and
//! reports what happened. Every wait is bounded by a count of bytes.

use crate::command::{
    command_frame,
    is_response,
    response_clean,
    spec_command_frame,
    Command,
    Payload,
    DATA_START_TOKEN,
    IDLE_BYTE,
};
use crate::error::Error;
use crate::sector::Sector;
use vstd::prelude::*;

verus! {

/// What the host is to do next.
#[derive(Clone, Copy, Debug, PartialEq, Eq, Structural)]
pub enum BusAction {
    /// Assert chip select.
    Select,
    /// Release chip select.
    Deselect,
    /// Send this byte and hand back the byte that came in meanwhile.
    Exchange(u8),
    /// Nothing: the transaction is over.
    Finish,
}

/// What came of the action.
#[derive(Clone, Copy, Debug, PartialEq, Eq, Structural)]
pub enum BusEvent {
    /// Chip select was driven as asked.
    Done,
    /// The byte was sent, and this one came in.
    Byte(u8),
    /// The link failed.
    Fault,
}

/// How far a transaction has come. Each phase but the last waits for the
/// outcome of one action.
#[derive(Clone, Copy, Debug, PartialEq, Eq, Structural)]
#[allow(inconsistent_fields)]
pub enum Phase {
    /// Power-up: chip select is being released, `clocks` idle bytes follow.
    Parking { clocks: u8 },
    /// Power-up: idle bytes go out with chip select released; `left` of
    /// them remain, the one under way included.
    Clocking { left: u8 },
    /// Chip select is being asserted.
    Selecting,
    /// The byte `sent` of the frame is under way.
    Sending { sent: u8 },
    /// Waiting for the response; `left` more bytes may be spent on it, the
    /// one under way included.
    Polling { left: u32 },
    /// The byte `got` of a register is under way.
    Register { got: u8 },
    /// Waiting for the token that starts a data block; `left` more bytes
    /// may be spent on it.
    Token { left: u32 },
    /// The byte `got` of a data block is under way.
    Data { got: u16 },
    /// The byte `got` of the two CRC bytes of a data block is under way;
    /// they are read and dropped.
    Crc { got: u8 },
    /// The idle byte that ends a transaction is under way.
    Trailing,
    /// Chip select is being released.
    Releasing,
    /// Over.
    Finished,
}

/// The part of a transaction that changes at every step.
#[derive(Clone, Copy, Debug, PartialEq, Eq, Structural)]
pub struct Control {
    pub phase: Phase,
    /// Whether chip select is asserted.
    pub selected: bool,
    /// The response, once it has come.
    pub response: Option<u8>,
    /// The first failure, if there was one.
    pub error: Option<Error>,
    /// The number of payload bytes that have come.
    pub filled: u16,
}

/// What a card answered: its response byte, and the register that followed
/// it, highest byte first, or zero where none was asked for or came.
#[derive(Clone, Copy, Debug, PartialEq, Eq, Structural)]
pub struct Reply {
    pub r1: u8,
    pub register: u32,
}

/// A transaction as plain values.
pub struct TransactionModel {
    pub command: Command,
    /// How many bytes may be spent waiting for the response.
    pub response_polls: u32,
    /// How many bytes may be spent waiting for the start of a data block.
    pub token_polls: u32,
    pub control: Control,
    /// The payload bytes that have come so far.
    pub data: Seq<u8>,
}

impl TransactionModel {
    /// A transaction that sends `command`.
    pub open spec fn begin(command: Command, response_polls: u32, token_polls: u32) -> Self {
        TransactionModel {
            command,
            response_polls,
            token_polls,
            control: Control {
                phase: Phase::Selecting,
                selected: false,
                response: None,
                error: None,
                filled: 0,
            },
            data: Seq::empty(),
        }
    }

    /// The transaction that wakes a card: `clocks` idle bytes with chip
    /// select released.
    pub open spec fn power_up(clocks: u8) -> Self {
        TransactionModel {
            command: Command { index: 0, argument: 0, payload: Payload::Nothing },
            response_polls: 0,
            token_polls: 0,
            control: Control {
                phase: Phase::Parking { clocks },
                selected: false,
                response: None,
                error: None,
                filled: 0,
            },
            data: Seq::empty(),
        }
    }

    /// What holds of every transaction: its counters lie within their
    /// bounds, the payload bytes that have come are counted, and chip select
    /// is asserted exactly while a command is under way.
    pub open spec fn wf(self) -> bool {
        let c = self.control;
        let payload = self.command.payload;
        &&& self.data.len() == c.filled <= payload.spec_len()
        &&& (c.phase is Parking || c.phase is Clocking || c.phase is Selecting || c.phase is Sending
            || c.phase is Polling || c.phase is Token) ==> self.data.len() == 0
        &&& match c.phase {
            Phase::Parking { clocks } => !c.selected,
            Phase::Clocking { left } => left >= 1 && !c.selected,
            Phase::Selecting => !c.selected,
            Phase::Sending { sent } => sent < 6 && c.selected,
            Phase::Polling { left } => left >= 1 && c.selected,
            Phase::Register { got } => {
                &&& c.selected
                &&& payload == Payload::Register
                &&& got < 4
                &&& self.data.len() == got
            },
            Phase::Token { left } => left >= 1 && c.selected && payload.spec_is_block(),
            Phase::Data { got } => {
                &&& c.selected
                &&& payload.spec_is_block()
                &&& got < payload.spec_len()
                &&& self.data.len() == got
            },
            Phase::Crc { got } => {
                &&& c.selected
                &&& payload.spec_is_block()
                &&& got < 2
                &&& self.data.len() == payload.spec_len()
            },
            Phase::Trailing => c.selected,
            Phase::Releasing => c.selected,
            Phase::Finished => c.error is None ==> !c.selected,
        }
        &&& c.error is None && (c.phase is Trailing || c.phase is Releasing || c.phase is Finished)
            && self.data.len() > 0 ==> self.data.len() == payload.spec_len()
    }

    /// What the host is to do next. While the host waits for the card it
    /// sends idle bytes.
    pub open spec fn action(self) -> BusAction {
        match self.control.phase {
            Phase::Parking { clocks } => BusAction::Deselect,
            Phase::Clocking { left } => BusAction::Exchange(IDLE_BYTE),
            Phase::Selecting => BusAction::Select,
            Phase::Sending { sent } => BusAction::Exchange(
                spec_command_frame(self.command.index, self.command.argument)[sent as int],
            ),
            Phase::Releasing => BusAction::Deselect,
            Phase::Finished => BusAction::Finish,
            _ => BusAction::Exchange(IDLE_BYTE),
        }
    }

    /// The control after a failure. The first failure is the one that is
    /// reported. With chip select asserted it is released next; else the
    /// transaction is over.
    pub open spec fn abort(self, error: Error) -> Control {
        let c = self.control;
        Control {
            phase: if c.selected {
                Phase::Releasing
            } else {
                Phase::Finished
            },
            selected: c.selected,
            response: c.response,
            error: if c.error is Some {
                c.error
            } else {
                Some(error)
            },
            filled: c.filled,
        }
    }

    /// The same control in another phase.
    pub open spec fn enter(self, phase: Phase) -> Control {
        Control {
            phase,
            selected: self.control.selected,
            response: self.control.response,
            error: self.control.error,
            filled: self.control.filled,
        }
    }

    /// The control after the response `r1` has come. A response that
    /// reports an error, or a command without payload, leaves only the
    /// closing idle byte; else the payload follows.
    pub open spec fn after_response(self, r1: u8) -> Control {
        let with = TransactionModel {
            command: self.command,
            response_polls: self.response_polls,
            token_polls: self.token_polls,
            control: Control {
                phase: self.control.phase,
                selected: self.control.selected,
                response: Some(r1),
                error: self.control.error,
                filled: self.control.filled,
            },
            data: self.data,
        };
        if !response_clean(r1) || self.command.payload == Payload::Nothing {
            with.enter(Phase::Trailing)
        } else if self.command.payload == Payload::Register {
            with.enter(Phase::Register { got: 0 })
        } else if self.token_polls == 0 {
            with.abort(Error::NoResponse)
        } else {
            with.enter(Phase::Token { left: self.token_polls })
        }
    }

    /// The control after `byte` came in.
    pub open spec fn on_byte(self, byte: u8) -> Control {
        match self.control.phase {
            Phase::Clocking { left } => {
                if left > 1 {
                    self.enter(Phase::Clocking { left: (left - 1) as u8 })
                } else {
                    self.enter(Phase::Finished)
                }
            },
            Phase::Sending { sent } => {
                if sent < 5 {
                    self.enter(Phase::Sending { sent: (sent + 1) as u8 })
                } else if self.response_polls == 0 {
                    self.abort(Error::NoResponse)
                } else {
                    self.enter(Phase::Polling { left: self.response_polls })
                }
            },
            Phase::Polling { left } => {
                if is_response(byte) {
                    self.after_response(byte)
                } else if left > 1 {
                    self.enter(Phase::Polling { left: (left - 1) as u32 })
                } else {
                    self.abort(Error::NoResponse)
                }
            },
            Phase::Register { got } => {
                if got < 3 {
                    self.enter(Phase::Register { got: (got + 1) as u8 })
                } else {
                    self.enter(Phase::Trailing)
                }
            },
            Phase::Token { left } => {
                if byte == DATA_START_TOKEN {
                    self.enter(Phase::Data { got: 0 })
                } else if byte != IDLE_BYTE {
                    self.abort(Error::Protocol)
                } else if left > 1 {
                    self.enter(Phase::Token { left: (left - 1) as u32 })
                } else {
                    self.abort(Error::NoResponse)
                }
            },
            Phase::Data { got } => {
                if got + 1 < self.command.payload.spec_len() {
                    self.enter(Phase::Data { got: (got + 1) as u16 })
                } else {
                    self.enter(Phase::Crc { got: 0 })
                }
            },
            Phase::Crc { got } => {
                if got == 0 {
                    self.enter(Phase::Crc { got: 1 })
                } else {
                    self.enter(Phase::Trailing)
                }
            },
            Phase::Trailing => self.enter(Phase::Releasing),
            Phase::Finished => self.control,
            _ => self.on_fault(),
        }
    }

    /// The control after chip select was driven.
    pub open spec fn on_done(self) -> Control {
        let c = self.control;
        match c.phase {
            Phase::Parking { clocks } => Control {
                phase: if clocks == 0 {
                    Phase::Finished
                } else {
                    Phase::Clocking { left: clocks }
                },
                selected: false,
                response: c.response,
                error: c.error,
                filled: c.filled,
            },
            Phase::Selecting => Control {
                phase: Phase::Sending { sent: 0 },
                selected: true,
                response: c.response,
                error: c.error,
                filled: c.filled,
            },
            Phase::Releasing => Control {
                phase: Phase::Finished,
                selected: false,
                response: c.response,
                error: c.error,
                filled: c.filled,
            },
            Phase::Finished => c,
            _ => self.abort(Error::Transport),
        }
    }

    /// The control after the link failed. A failure to release chip select
    /// ends the transaction.
    pub open spec fn on_fault(self) -> Control {
        match self.control.phase {
            Phase::Releasing => Control {
                phase: Phase::Finished,
                selected: self.control.selected,
                response: self.control.response,
                error: self.abort(Error::Transport).error,
                filled: self.control.filled,
            },
            Phase::Finished => self.control,
            _ => self.abort(Error::Transport),
        }
    }

    /// Whether a byte that comes in now belongs to the payload.
    pub open spec fn stores(self) -> bool {
        self.control.phase is Register || self.control.phase is Data
    }

    /// The control after the host reported `event`, with the payload byte
    /// counted if one came.
    pub open spec fn next_control(self, event: BusEvent) -> Control {
        match event {
            BusEvent::Done => self.on_done(),
            BusEvent::Byte(b) => {
                let c = self.on_byte(b);
                Control {
                    phase: c.phase,
                    selected: c.selected,
                    response: c.response,
                    error: c.error,
                    filled: if self.stores() {
                        (c.filled + 1) as u16
                    } else {
                        c.filled
                    },
                }
            },
            BusEvent::Fault => self.on_fault(),
        }
    }

    /// The transaction after the host reported `event`.
    pub open spec fn advance(self, event: BusEvent) -> TransactionModel {
        TransactionModel {
            command: self.command,
            response_polls: self.response_polls,
            token_polls: self.token_polls,
            control: self.next_control(event),
            data: match event {
                BusEvent::Byte(b) => if self.stores() {
                    self.data.push(b)
                } else {
                    self.data
                },
                _ => self.data,
            },
        }
    }

    /// The register that the first four payload bytes hold, highest first.
    pub open spec fn register(self) -> u32 {
        if self.command.payload == Payload::Register && self.data.len() == 4 {
            (self.data[0] * 0x100_0000 + self.data[1] * 0x1_0000 + self.data[2] * 0x100
                + self.data[3]) as u32
        } else {
            0
        }
    }

    /// What came of the transaction: `None` while it runs, then the first
    /// failure, or the reply. A transaction that sent no command replies
    /// with an idle byte.
    pub open spec fn outcome(self) -> Option<Result<Reply, Error>> {
        if self.control.phase is Finished {
            Some(
                match self.control.error {
                    Some(e) => Err(e),
                    None => Ok(
                        Reply {
                            r1: match self.control.response {
                                Some(r1) => r1,
                                None => IDLE_BYTE,
                            },
                            register: self.register(),
                        },
                    ),
                },
            )
        } else {
            None
        }
    }

    /// Whether the transaction ended well and brought a whole data block.
    pub open spec fn has_block(self, payload: Payload) -> bool {
        &&& self.control.phase is Finished
        &&& self.control.error is None
        &&& self.command.payload == payload
        &&& self.data.len() == payload.spec_len()
    }

    /// The steps that a payload can take, the wait for its start included.
    pub open spec fn payload_cost(self) -> int {
        match self.command.payload {
            Payload::Nothing => 0,
            Payload::Register => 4,
            _ => self.token_polls + self.command.payload.spec_len() + 2,
        }
    }

    /// A bound on the number of steps that the transaction can still take.
    pub open spec fn measure(self) -> int {
        match self.control.phase {
            Phase::Parking { clocks } => clocks + 1,
            Phase::Clocking { left } => left as int,
            Phase::Selecting => 9 + self.response_polls + self.payload_cost(),
            Phase::Sending { sent } => 8 - sent + self.response_polls + self.payload_cost(),
            Phase::Polling { left } => 2 + left + self.payload_cost(),
            Phase::Register { got } => 6 - got,
            Phase::Token { left } => 4 + left + self.command.payload.spec_len(),
            Phase::Data { got } => 4 + self.command.payload.spec_len() - got,
            Phase::Crc { got } => 4 - got,
            Phase::Trailing => 2,
            Phase::Releasing => 1,
            Phase::Finished => 0,
        }
    }

    /// A step keeps the transaction well formed and brings its end nearer,
    /// whatever the card sends: no wait is unbounded.
    pub proof fn lemma_advance_progress(self, event: BusEvent)
        requires
            self.wf(),
            !(self.control.phase is Finished),
        ensures
            self.advance(event).wf(),
            0 <= self.advance(event).measure() < self.measure(),
    {
    }

    /// The transaction after the host reported the events of `events` in
    /// turn.
    pub open spec fn run(self, events: Seq<BusEvent>) -> TransactionModel
        decreases events.len(),
    {
        if events.len() == 0 {
            self
        } else {
            self.advance(events[0]).run(events.skip(1))
        }
    }

    /// Whatever the card sends and whatever the link does, a transaction is
    /// over after as many steps as its measure: a command and its payload,
    /// and the bytes that the budget allows for each of the two waits.
    pub proof fn lemma_run_ends(self, events: Seq<BusEvent>)
        requires
            self.wf(),
            events.len() >= self.measure(),
        ensures
            self.run(events).control.phase is Finished,
            self.run(events).wf(),
        decreases events.len(),
    {
        if events.len() == 0 {
            if !(self.control.phase is Finished) {
                self.lemma_advance_progress(BusEvent::Done);
            }
        } else {
            if self.control.phase is Finished {
                self.lemma_finished_is_final(events[0]);
            } else {
                self.lemma_advance_progress(events[0]);
            }
            self.advance(events[0]).lemma_run_ends(events.skip(1));
        }
    }

    /// Chip select brackets every command: a byte of a command goes out
    /// only while chip select is asserted, the bytes that wake the card only
    /// while it is released, and a transaction that ends without failure
    /// has released it.
    pub proof fn lemma_chip_select_discipline(self)
        requires
            self.wf(),
        ensures
            self.action() is Exchange ==> (self.control.selected <==> !(self.control.phase
                is Clocking)),
            self.action() is Select ==> !self.control.selected,
            self.outcome() matches Some(Ok(_)) ==> !self.control.selected,
    {
    }

    /// A transaction that is over stays as it is.
    pub proof fn lemma_finished_is_final(self, event: BusEvent)
        requires
            self.control.phase is Finished,
        ensures
            self.advance(event) == self,
            self.action() == BusAction::Finish,
    {
    }
}

/// One command on its way over the bus, or the bytes that wake a card.
#[derive(Clone, Copy, Debug)]
pub struct Transaction {
    command: Command,
    frame: [u8; 6],
    response_polls: u32,
    token_polls: u32,
    control: Control,
    data: [u8; 512],
}

impl View for Transaction {
    type V = TransactionModel;

    closed spec fn view(&self) -> TransactionModel {
        TransactionModel {
            command: self.command,
            response_polls: self.response_polls,
            token_polls: self.token_polls,
            control: self.control,
            data: self.data@.take(self.control.filled as int),
        }
    }
}

impl Transaction {
    #[verifier::type_invariant]
    spec fn well_formed(self) -> bool {
        &&& self.control.filled <= 512
        &&& self@.wf()
        &&& self.frame@ == spec_command_frame(self.command.index, self.command.argument)
    }

    /// A transaction that sends `command`, spends at most `response_polls`
    /// bytes waiting for the response and at most `token_polls` waiting for
    /// the start of a data block.
    pub fn begin(command: Command, response_polls: u32, token_polls: u32) -> (t: Transaction)
        ensures
            t@ == TransactionModel::begin(command, response_polls, token_polls),
            t@.wf(),
    {
        let t = Transaction {
            command,
            frame: command_frame(command.index, command.argument),
            response_polls,
            token_polls,
            control: Control {
                phase: Phase::Selecting,
                selected: false,
                response: None,
                error: None,
                filled: 0,
            },
            data: [0u8;512],
        };
        assert(t@.data =~= Seq::<u8>::empty());
        t
    }

    /// The transaction that wakes a card after power-up: chip select is
    /// released and `clocks` idle bytes are sent.
    pub fn power_up(clocks: u8) -> (t: Transaction)
        ensures
            t@ == TransactionModel::power_up(clocks),
            t@.wf(),
    {
        let t = Transaction {
            command: Command { index: 0, argument: 0, payload: Payload::Nothing },
            frame: command_frame(0, 0),
            response_polls: 0,
            token_polls: 0,
            control: Control {
                phase: Phase::Parking { clocks },
                selected: false,
                response: None,
                error: None,
                filled: 0,
            },
            data: [0u8;512],
        };
        assert(t@.data =~= Seq::<u8>::empty());
        t
    }

    /// What the host is to do next.
    pub fn action(&self) -> (a: BusAction)
        ensures
            a == self@.action(),
    {
        proof {
            use_type_invariant(self);
        }
        match self.control.phase {
            Phase::Parking { clocks: _ } => BusAction::Deselect,
            Phase::Selecting => BusAction::Select,
            Phase::Sending { sent } => BusAction::Exchange(self.frame[sent as usize]),
            Phase::Releasing => BusAction::Deselect,
            Phase::Finished => BusAction::Finish,
            _ => BusAction::Exchange(IDLE_BYTE),
        }
    }

    /// Whether the transaction is over.
    pub fn finished(&self) -> (b: bool)
        ensures
            b == (self@.control.phase is Finished),
            b == (self@.action() is Finish),
    {
        match self.control.phase {
            Phase::Finished => true,
            _ => false,
        }
    }

    /// Whether chip select is asserted.
    pub fn is_selected(&self) -> (b: bool)
        ensures
            b == self@.control.selected,
    {
        self.control.selected
    }

    /// Takes what came of the action that `action` named.
    pub fn advance(&mut self, event: BusEvent)
        ensures
            final(self)@ == old(self)@.advance(event),
    {
        proof {
            use_type_invariant(&*self);
            if !(self@.control.phase is Finished) {
                self@.lemma_advance_progress(event);
            }
        }
        let next = self.next_control(event);
        let ghost before = self.data@;
        let filled = self.control.filled as usize;
        let storing = match self.control.phase {
            Phase::Register { got: _ } => true,
            Phase::Data { got: _ } => true,
            _ => false,
        };
        if storing {
            if let BusEvent::Byte(b) = event {
                self.data[filled] = b;
                assert(self.data@.take(filled as int) =~= before.take(filled as int));
                assert(self.data@.take(filled + 1) =~= before.take(filled as int).push(b));
            }
        }
        self.control = next;
    }

    /// What came of the transaction: `None` while it runs, then the first
    /// failure, or the reply of the card.
    pub fn outcome(&self) -> (r: Option<Result<Reply, Error>>)
        ensures
            r == self@.outcome(),
    {
        proof {
            use_type_invariant(self);
        }
        match self.control.phase {
            Phase::Finished => {},
            _ => {
                return None;
            },
        }
        if let Some(e) = self.control.error {
            return Some(Err(e));
        }
        let r1 = match self.control.response {
            Some(r1) => r1,
            None => IDLE_BYTE,
        };
        let register: u32 = match self.command.payload {
            Payload::Register => {
                if self.control.filled == 4 {
                    self.data[0] as u32 * 0x100_0000 + self.data[1] as u32 * 0x1_0000
                        + self.data[2] as u32 * 0x100 + self.data[3] as u32
                } else {
                    0
                }
            },
            _ => 0,
        };
        Some(Ok(Reply { r1, register }))
    }

    /// The sector that the transaction read, tagged with `lba`: `None`
    /// unless it has ended without failure and brought a whole sector.
    pub fn sector(&self, lba: u32) -> (r: Option<Sector>)
        ensures
            r is Some <==> self@.has_block(Payload::Sector),
            r matches Some(s) ==> s.lba == lba && s.data@ == self@.data,
    {
        proof {
            use_type_invariant(self);
        }
        let whole = match (self.control.phase, self.control.error, self.command.payload) {
            (Phase::Finished, None, Payload::Sector) => self.control.filled == 512,
            _ => false,
        };
        if whole {
            assert(self.data@.take(512) =~= self.data@);
            Some(Sector { lba, data: self.data })
        } else {
            None
        }
    }

    /// The card-specific data that the transaction read: `None` unless it
    /// has ended without failure and brought all sixteen bytes.
    pub fn csd(&self) -> (r: Option<[u8; 16]>)
        ensures
            r is Some <==> self@.has_block(Payload::Csd),
            r matches Some(c) ==> c@ == self@.data,
    {
        proof {
            use_type_invariant(self);
        }
        let whole = match (self.control.phase, self.control.error, self.command.payload) {
            (Phase::Finished, None, Payload::Csd) => self.control.filled == 16,
            _ => false,
        };
        if !whole {
            return None;
        }
        let mut out: [u8; 16] = [0u8;16];
        let mut i: usize = 0;
        while i < 16
            invariant
                i <= 16,
                forall|k: int| 0 <= k < i ==> out@[k] == self.data@[k],
            decreases 16 - i,
        {
            out[i] = self.data[i];
            i += 1;
        }
        assert(out@ =~= self.data@.take(16));
        Some(out)
    }

    fn next_control(&self, event: BusEvent) -> (c: Control)
        requires
            self@.wf(),
        ensures
            c == self@.next_control(event),
    {
        match event {
            BusEvent::Done => self.on_done(),
            BusEvent::Fault => self.on_fault(),
            BusEvent::Byte(b) => {
                let c = self.on_byte(b);
                let stores = match self.control.phase {
                    Phase::Register { got: _ } => true,
                    Phase::Data { got: _ } => true,
                    _ => false,
                };
                Control {
                    phase: c.phase,
                    selected: c.selected,
                    response: c.response,
                    error: c.error,
                    filled: if stores {
                        c.filled + 1
                    } else {
                        c.filled
                    },
                }
            },
        }
    }

    fn enter(&self, phase: Phase) -> (c: Control)
        ensures
            c == self@.enter(phase),
    {
        Control {
            phase,
            selected: self.control.selected,
            response: self.control.response,
            error: self.control.error,
            filled: self.control.filled,
        }
    }

    fn abort(&self, error: Error) -> (c: Control)
        ensures
            c == self@.abort(error),
    {
        let c = self.control;
        Control {
            phase: if c.selected {
                Phase::Releasing
            } else {
                Phase::Finished
            },
            selected: c.selected,
            response: c.response,
            error: match c.error {
                Some(e) => Some(e),
                None => Some(error),
            },
            filled: c.filled,
        }
    }

    fn on_done(&self) -> (c: Control)
        ensures
            c == self@.on_done(),
    {
        let c = self.control;
        match c.phase {
            Phase::Parking { clocks } => Control {
                phase: if clocks == 0 {
                    Phase::Finished
                } else {
                    Phase::Clocking { left: clocks }
                },
                selected: false,
                response: c.response,
                error: c.error,
                filled: c.filled,
            },
            Phase::Selecting => Control {
                phase: Phase::Sending { sent: 0 },
                selected: true,
                response: c.response,
                error: c.error,
                filled: c.filled,
            },
            Phase::Releasing => Control {
                phase: Phase::Finished,
                selected: false,
                response: c.response,
                error: c.error,
                filled: c.filled,
            },
            Phase::Finished => c,
            _ => self.abort(Error::Transport),
        }
    }

    fn on_fault(&self) -> (c: Control)
        ensures
            c == self@.on_fault(),
    {
        match self.control.phase {
            Phase::Releasing => Control {
                phase: Phase::Finished,
                selected: self.control.selected,
                response: self.control.response,
                error: self.abort(Error::Transport).error,
                filled: self.control.filled,
            },
            Phase::Finished => self.control,
            _ => self.abort(Error::Transport),
        }
    }

    fn after_response(&self, r1: u8) -> (c: Control)
        ensures
            c == self@.after_response(r1),
    {
        let with = Control {
            phase: self.control.phase,
            selected: self.control.selected,
            response: Some(r1),
            error: self.control.error,
            filled: self.control.filled,
        };
        let phase = if !response_clean(r1) {
            Phase::Trailing
        } else {
            match self.command.payload {
                Payload::Nothing => Phase::Trailing,
                Payload::Register => Phase::Register { got: 0 },
                _ => {
                    if self.token_polls == 0 {
                        return Control {
                            phase: if with.selected {
                                Phase::Releasing
                            } else {
                                Phase::Finished
                            },
                            selected: with.selected,
                            response: with.response,
                            error: match with.error {
                                Some(e) => Some(e),
                                None => Some(Error::NoResponse),
                            },
                            filled: with.filled,
                        };
                    }
                    Phase::Token { left: self.token_polls }
                },
            }
        };
        Control {
            phase,
            selected: with.selected,
            response: with.response,
            error: with.error,
            filled: with.filled,
        }
    }

    fn on_byte(&self, byte: u8) -> (c: Control)
        requires
            self@.wf(),
        ensures
            c == self@.on_byte(byte),
    {
        match self.control.phase {
            Phase::Clocking { left } => {
                if left > 1 {
                    self.enter(Phase::Clocking { left: left - 1 })
                } else {
                    self.enter(Phase::Finished)
                }
            },
            Phase::Sending { sent } => {
                if sent < 5 {
                    self.enter(Phase::Sending { sent: sent + 1 })
                } else if self.response_polls == 0 {
                    self.abort(Error::NoResponse)
                } else {
                    self.enter(Phase::Polling { left: self.response_polls })
                }
            },
            Phase::Polling { left } => {
                if is_response(byte) {
                    self.after_response(byte)
                } else if left > 1 {
                    self.enter(Phase::Polling { left: left - 1 })
                } else {
                    self.abort(Error::NoResponse)
                }
            },
            Phase::Register { got } => {
                if got < 3 {
                    self.enter(Phase::Register { got: got + 1 })
                } else {
                    self.enter(Phase::Trailing)
                }
            },
            Phase::Token { left } => {
                if byte == DATA_START_TOKEN {
                    self.enter(Phase::Data { got: 0 })
                } else if byte != IDLE_BYTE {
                    self.abort(Error::Protocol)
                } else if left > 1 {
                    self.enter(Phase::Token { left: left - 1 })
                } else {
                    self.abort(Error::NoResponse)
                }
            },
            Phase::Data { got } => {
                if got + 1 < self.command.payload.len() {
                    self.enter(Phase::Data { got: got + 1 })
                } else {
                    self.enter(Phase::Crc { got: 0 })
                }
            },
            Phase::Crc { got } => {
                if got == 0 {
                    self.enter(Phase::Crc { got: 1 })
                } else {
                    self.enter(Phase::Trailing)
                }
            },
            Phase::Trailing => self.enter(Phase::Releasing),
            Phase::Finished => self.control,
            _ => self.on_fault(),
        }
    }
}

} // verus!
