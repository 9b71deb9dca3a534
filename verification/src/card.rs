//! Bringing a card from power-on to a state in which it can be read, and
//! reading it.
//!
//! The steps here are whole commands. The host runs the transaction of each
//! on the bus and reports what came of it.

use crate::command::{
    response_clean,
    Command,
    Payload,
    ACMD_SEND_OP_COND,
    CMD_APP,
    CMD_GO_IDLE,
    CMD_READ_OCR,
    CMD_READ_SINGLE_BLOCK,
    CMD_SEND_CSD,
    CMD_SEND_IF_COND,
    HIGH_CAPACITY_SUPPORT,
    IF_COND_ARGUMENT,
    R1_IDLE,
    R1_READY,
    VOLTAGE_WINDOW,
};
use crate::error::Error;
use crate::sector::Sector;
use crate::transaction::{Reply, Transaction, TransactionModel};
use vstd::prelude::*;

verus! {

/// The idle bytes that wake a card: eighty clock cycles, where the protocol
/// asks for seventy-four.
pub const POWER_UP_CLOCKS: u8 = 10;

/// How often each wait may be repeated. There is no clock to time a wait
/// by, so every wait is a count.
#[derive(Clone, Copy, Debug, PartialEq, Eq, Structural)]
pub struct RetryBudget {
    /// How often the reset command may be sent.
    pub idle_attempts: u32,
    /// How often the card may be asked whether it has started.
    pub busy_rounds: u32,
    /// How many bytes may be spent waiting for the response to a command.
    pub response_polls: u32,
    /// How many bytes may be spent waiting for the start of a data block.
    pub token_polls: u32,
    /// How often the read of one block may be tried.
    pub read_attempts: u32,
}

impl RetryBudget {
    /// Counts that have served well on real cards.
    pub fn standard() -> (b: RetryBudget)
        ensures
            b == (RetryBudget {
                idle_attempts: 32,
                busy_rounds: 32000,
                response_polls: 512,
                token_polls: 32000,
                read_attempts: 3,
            }),
    {
        RetryBudget {
            idle_attempts: 32,
            busy_rounds: 32000,
            response_polls: 512,
            token_polls: 32000,
            read_attempts: 3,
        }
    }
}

/// How a card takes the address of a block.
#[derive(Clone, Copy, Debug, PartialEq, Eq, Structural)]
pub enum Addressing {
    /// By the number of its first byte: cards of standard capacity.
    Byte,
    /// By its number: cards of high capacity.
    Block,
}

/// How far the initialization has come.
#[derive(Clone, Copy, Debug, PartialEq, Eq, Structural)]
pub enum InitStage {
    /// The card is to be woken with idle bytes.
    PowerUp,
    /// The card is to be reset; the reset may be sent `attempts_left` more
    /// times, this one included.
    GoIdle { attempts_left: u32 },
    /// The card is to be asked whether it knows the second version of the
    /// protocol.
    InterfaceCheck,
    /// The escape that precedes the start command is to be sent.
    AppCommand { version2: bool, rounds_left: u32 },
    /// The start command is to be sent; the card may be asked `rounds_left`
    /// more times, this one included.
    OpCond { version2: bool, rounds_left: u32 },
    /// The operating conditions are to be read, for the addressing.
    ReadOcr,
    /// The card is ready.
    Ready(Addressing),
    /// The initialization has failed.
    Failed(Error),
}

/// An initialization as plain values.
pub struct InitModel {
    pub budget: RetryBudget,
    pub stage: InitStage,
}

impl InitModel {
    pub open spec fn start(budget: RetryBudget) -> InitModel {
        InitModel { budget, stage: InitStage::PowerUp }
    }

    /// The same initialization at another stage.
    pub open spec fn at(self, stage: InitStage) -> InitModel {
        InitModel { budget: self.budget, stage }
    }

    /// The command to send at this stage, if there is one.
    pub open spec fn command(self) -> Option<Command> {
        match self.stage {
            InitStage::GoIdle { attempts_left } => Some(
                Command { index: CMD_GO_IDLE, argument: 0, payload: Payload::Nothing },
            ),
            InitStage::InterfaceCheck => Some(
                Command {
                    index: CMD_SEND_IF_COND,
                    argument: IF_COND_ARGUMENT,
                    payload: Payload::Register,
                },
            ),
            InitStage::AppCommand { version2, rounds_left } => Some(
                Command { index: CMD_APP, argument: 0, payload: Payload::Nothing },
            ),
            InitStage::OpCond { version2, rounds_left } => Some(
                Command {
                    index: ACMD_SEND_OP_COND,
                    argument: if version2 {
                        (VOLTAGE_WINDOW + HIGH_CAPACITY_SUPPORT) as u32
                    } else {
                        VOLTAGE_WINDOW
                    },
                    payload: Payload::Nothing,
                },
            ),
            InitStage::ReadOcr => Some(
                Command { index: CMD_READ_OCR, argument: 0, payload: Payload::Register },
            ),
            _ => None,
        }
    }

    /// The transaction to run at this stage: the idle bytes that wake the
    /// card, then one command per stage; `None` once the initialization is
    /// over.
    pub open spec fn transaction(self) -> Option<TransactionModel> {
        match self.stage {
            InitStage::PowerUp => Some(TransactionModel::power_up(POWER_UP_CLOCKS)),
            _ => match self.command() {
                Some(command) => Some(
                    TransactionModel::begin(
                        command,
                        self.budget.response_polls,
                        self.budget.token_polls,
                    ),
                ),
                None => None,
            },
        }
    }

    /// The stage at which the card is started: failed at once where the
    /// budget allows no round.
    pub open spec fn negotiate(self, version2: bool) -> InitStage {
        if self.budget.busy_rounds == 0 {
            InitStage::Failed(Error::InitTimeout)
        } else {
            InitStage::AppCommand { version2, rounds_left: self.budget.busy_rounds }
        }
    }

    /// The stage after the transaction of this stage came to `outcome`.
    ///
    /// A failure of the link ends the initialization wherever it happens.
    /// The reset is repeated until the card answers that it is idle, and
    /// gives `InitTimeout` when the attempts run out. The interface check
    /// shows a card of the second version by a clean response and the echo
    /// of the argument; a response with an error, or none, shows a legacy
    /// card; a wrong echo is a `Protocol` failure. The card is then asked
    /// to start, each time after the escape command, until it answers that
    /// it is ready; while it answers that it is idle the question is
    /// repeated, and the rounds running out gives `InitTimeout`. A legacy
    /// card is then ready and addressed by bytes. A card of the second
    /// version is asked for its operating conditions, and is addressed by
    /// blocks where they show that it has started and is of high capacity.
    /// Any other response is a `Protocol` failure.
    pub open spec fn report(self, outcome: Result<Reply, Error>) -> InitModel {
        self.at(
            match self.stage {
                InitStage::PowerUp => match outcome {
                    Ok(_) => if self.budget.idle_attempts == 0 {
                        InitStage::Failed(Error::InitTimeout)
                    } else {
                        InitStage::GoIdle { attempts_left: self.budget.idle_attempts }
                    },
                    Err(e) => InitStage::Failed(e),
                },
                InitStage::GoIdle { attempts_left } => {
                    if outcome == Err::<Reply, Error>(Error::Transport) {
                        InitStage::Failed(Error::Transport)
                    } else if outcome is Ok && outcome->Ok_0.r1 == R1_IDLE {
                        InitStage::InterfaceCheck
                    } else if attempts_left > 1 {
                        InitStage::GoIdle { attempts_left: (attempts_left - 1) as u32 }
                    } else {
                        InitStage::Failed(Error::InitTimeout)
                    }
                },
                InitStage::InterfaceCheck => match outcome {
                    Err(Error::Transport) => InitStage::Failed(Error::Transport),
                    Err(_) => self.negotiate(false),
                    Ok(reply) => if !response_clean(reply.r1) {
                        self.negotiate(false)
                    } else if reply.register % 0x1000 == IF_COND_ARGUMENT {
                        self.negotiate(true)
                    } else {
                        InitStage::Failed(Error::Protocol)
                    },
                },
                InitStage::AppCommand { version2, rounds_left } => match outcome {
                    Err(e) => InitStage::Failed(e),
                    Ok(reply) => if response_clean(reply.r1) {
                        InitStage::OpCond { version2, rounds_left }
                    } else {
                        InitStage::Failed(Error::Protocol)
                    },
                },
                InitStage::OpCond { version2, rounds_left } => match outcome {
                    Err(e) => InitStage::Failed(e),
                    Ok(reply) => if reply.r1 == R1_READY {
                        if version2 {
                            InitStage::ReadOcr
                        } else {
                            InitStage::Ready(Addressing::Byte)
                        }
                    } else if reply.r1 != R1_IDLE {
                        InitStage::Failed(Error::Protocol)
                    } else if rounds_left > 1 {
                        InitStage::AppCommand { version2, rounds_left: (rounds_left - 1) as u32 }
                    } else {
                        InitStage::Failed(Error::InitTimeout)
                    },
                },
                InitStage::ReadOcr => match outcome {
                    Err(e) => InitStage::Failed(e),
                    Ok(reply) => if reply.r1 != R1_READY {
                        InitStage::Failed(Error::Protocol)
                    } else if reply.register / 0x4000_0000 == 3 {
                        InitStage::Ready(Addressing::Block)
                    } else {
                        InitStage::Ready(Addressing::Byte)
                    },
                },
                InitStage::Ready(a) => InitStage::Ready(a),
                InitStage::Failed(e) => InitStage::Failed(e),
            },
        )
    }

    /// Whether the initialization is over.
    pub open spec fn over(self) -> bool {
        self.stage is Ready || self.stage is Failed
    }

    /// A bound on the number of transactions that the initialization can
    /// still take.
    pub open spec fn measure(self) -> int {
        match self.stage {
            InitStage::PowerUp => self.budget.idle_attempts + 2 * self.budget.busy_rounds + 6,
            InitStage::GoIdle { attempts_left } => attempts_left + 2 * self.budget.busy_rounds + 5,
            InitStage::InterfaceCheck => 2 * self.budget.busy_rounds + 4,
            InitStage::AppCommand { version2, rounds_left } => 2 * rounds_left + 3,
            InitStage::OpCond { version2, rounds_left } => 2 * rounds_left + 2,
            InitStage::ReadOcr => 1,
            InitStage::Ready(_) => 0,
            InitStage::Failed(_) => 0,
        }
    }

    /// How many rounds the start of the card may still take; no more than
    /// the budget allows.
    pub open spec fn rounds_within_budget(self) -> bool {
        match self.stage {
            InitStage::AppCommand { version2, rounds_left } => rounds_left
                <= self.budget.busy_rounds,
            InitStage::OpCond { version2, rounds_left } => rounds_left <= self.budget.busy_rounds,
            _ => true,
        }
    }

    /// Every report brings the end of the initialization nearer, whatever
    /// the card answers: the initialization ends after a number of
    /// transactions that the budget bounds.
    pub proof fn lemma_report_progress(self, outcome: Result<Reply, Error>)
        requires
            !self.over(),
            self.rounds_within_budget(),
        ensures
            0 <= self.report(outcome).measure() < self.measure(),
            self.report(outcome).rounds_within_budget(),
            self.report(outcome).budget == self.budget,
    {
    }

    /// The initialization after the transactions came to the outcomes of
    /// `outcomes` in turn.
    pub open spec fn run(self, outcomes: Seq<Result<Reply, Error>>) -> InitModel
        decreases outcomes.len(),
    {
        if outcomes.len() == 0 {
            self
        } else {
            self.report(outcomes[0]).run(outcomes.skip(1))
        }
    }

    /// Whatever the card answers, the initialization is over after six
    /// transactions, one more for each attempt at the reset and two more
    /// for each round of the start that the budget allows.
    pub proof fn lemma_run_ends(budget: RetryBudget, outcomes: Seq<Result<Reply, Error>>)
        requires
            outcomes.len() >= budget.idle_attempts + 2 * budget.busy_rounds + 6,
        ensures
            Self::start(budget).run(outcomes).over(),
    {
        Self::start(budget).lemma_run_from_ends(outcomes);
    }

    /// An initialization is over after as many transactions as its measure.
    pub proof fn lemma_run_from_ends(self, outcomes: Seq<Result<Reply, Error>>)
        requires
            self.rounds_within_budget(),
            outcomes.len() >= self.measure(),
        ensures
            self.run(outcomes).over(),
        decreases outcomes.len(),
    {
        if outcomes.len() > 0 {
            if self.over() {
                self.lemma_over_is_final(outcomes[0]);
            } else {
                self.lemma_report_progress(outcomes[0]);
            }
            self.report(outcomes[0]).lemma_run_from_ends(outcomes.skip(1));
        }
    }

    /// An initialization that is over stays as it is.
    pub proof fn lemma_over_is_final(self, outcome: Result<Reply, Error>)
        requires
            self.over(),
        ensures
            self.report(outcome) == self,
            self.transaction() is None,
    {
    }

    /// A card comes to be addressed by blocks in one way only: it passed
    /// the interface check, and its operating conditions, read after it had
    /// started, show high capacity. A legacy card is never asked for them.
    pub proof fn lemma_block_addressing(self, outcome: Result<Reply, Error>)
        requires
            !self.over(),
        ensures
            self.report(outcome).stage == InitStage::Ready(Addressing::Block) ==> self.stage
                is ReadOcr && outcome is Ok && outcome->Ok_0.register / 0x4000_0000 == 3,
            self.report(outcome).stage is ReadOcr ==> self.second_version(),
            self.stage is InterfaceCheck && (outcome is Err || !response_clean(outcome->Ok_0.r1))
                ==> !self.report(outcome).second_version(),
            (self.stage is AppCommand || self.stage is OpCond) && !self.second_version()
                ==> !self.report(outcome).second_version() && !(self.report(outcome).stage
                is ReadOcr),
    {
    }

    /// Whether the card is being started as one of the second version.
    pub open spec fn second_version(self) -> bool {
        match self.stage {
            InitStage::AppCommand { version2, rounds_left } => version2,
            InitStage::OpCond { version2, rounds_left } => version2,
            _ => false,
        }
    }
}

/// A card that has been initialized. Only a finished initialization hands
/// one out.
#[derive(Clone, Copy, Debug, PartialEq, Eq)]
pub struct CardHandle {
    addressing: Addressing,
}

impl View for CardHandle {
    type V = Addressing;

    closed spec fn view(&self) -> Addressing {
        self.addressing
    }
}

impl CardHandle {
    /// How the card takes block addresses.
    pub fn addressing(&self) -> (a: Addressing)
        ensures
            a == self@,
    {
        self.addressing
    }

    /// The argument of a read of the block `index`: the number of the block
    /// where the card addresses blocks, else the number of its first byte.
    /// `None` where that number does not fit the 32 bits of an argument.
    pub open spec fn spec_block_argument(addressing: Addressing, index: u32) -> Option<u32> {
        match addressing {
            Addressing::Block => Some(index),
            Addressing::Byte => if index * 512 <= u32::MAX {
                Some((index * 512) as u32)
            } else {
                None
            },
        }
    }

    /// The command that reads the block `index`, if the card can address it.
    pub fn read_command(&self, index: u32) -> (c: Option<Command>)
        ensures
            c == (match Self::spec_block_argument(self@, index) {
                Some(argument) => Some(
                    Command { index: CMD_READ_SINGLE_BLOCK, argument, payload: Payload::Sector },
                ),
                None => None,
            }),
    {
        let argument = match self.addressing {
            Addressing::Block => index,
            Addressing::Byte => {
                if index > u32::MAX / 512 {
                    return None;
                }
                index * 512
            },
        };
        Some(Command { index: CMD_READ_SINGLE_BLOCK, argument, payload: Payload::Sector })
    }

    /// The command that reads the card-specific data.
    pub fn csd_command(&self) -> (c: Command)
        ensures
            c == (Command { index: CMD_SEND_CSD, argument: 0, payload: Payload::Csd }),
    {
        Command { index: CMD_SEND_CSD, argument: 0, payload: Payload::Csd }
    }

    /// The size of the card in bytes, from its card-specific data.
    pub fn card_size_bytes(&self, csd: &[u8; 16]) -> (size: u64)
        ensures
            size == card_capacity(self@, csd@),
    {
        match self.addressing {
            Addressing::Byte => {
                let device_size: u64 = (csd[6] % 4) as u64 * 1024 + csd[7] as u64 * 4 + (csd[8]
                    / 64) as u64;
                let shift: u8 = (csd[9] % 4) * 2 + csd[10] / 128 + csd[5] % 16 + 2;
                let mut unit: u64 = 1;
                let mut i: u8 = 0;
                while i < shift
                    invariant
                        i <= shift <= 24,
                        unit == two_to(i as nat),
                    decreases shift - i,
                {
                    proof {
                        lemma_two_to_grows((i + 1) as nat, 24);
                        lemma_two_to_24();
                    }
                    unit = unit * 2;
                    i += 1;
                }
                proof {
                    lemma_two_to_grows(shift as nat, 24);
                    lemma_two_to_24();
                    assert((device_size + 1) * unit <= 4096 * 0x100_0000) by (nonlinear_arith)
                        requires
                            device_size + 1 <= 4096,
                            unit <= 0x100_0000,
                    ;
                }
                (device_size + 1) * unit
            },
            Addressing::Block => {
                let device_size: u64 = (csd[7] % 64) as u64 * 65536 + csd[8] as u64 * 256
                    + csd[9] as u64;
                (device_size + 1) * 1024 * 512
            },
        }
    }

    /// The size of the card from the transaction that read its
    /// card-specific data: the failure of the transaction, or `Protocol`
    /// where it has not brought the data.
    pub fn card_size_from(&self, transaction: &Transaction) -> (r: Result<u64, Error>)
        ensures
            r == (if transaction@.has_block(Payload::Csd) {
                Ok::<u64, Error>(card_capacity(self@, transaction@.data) as u64)
            } else {
                Err::<u64, Error>(failure_of(transaction@))
            }),
    {
        match transaction.csd() {
            Some(csd) => Ok(self.card_size_bytes(&csd)),
            None => Err(transaction_failure(transaction)),
        }
    }
}

/// Two to the power `n`.
pub open spec fn two_to(n: nat) -> nat
    decreases n,
{
    if n == 0 {
        1
    } else {
        2 * two_to((n - 1) as nat)
    }
}

proof fn lemma_two_to_grows(n: nat, m: nat)
    requires
        n <= m,
    ensures
        two_to(n) <= two_to(m),
    decreases m,
{
    if n < m {
        lemma_two_to_grows(n, (m - 1) as nat);
    }
}

proof fn lemma_two_to_24()
    ensures
        two_to(24) == 0x100_0000,
{
    reveal_with_fuel(two_to, 25);
}

/// The device size that the card-specific data of a card of standard
/// capacity holds: twelve bits that start with the low two of byte 6.
pub open spec fn csd_standard_device_size(csd: Seq<u8>) -> int {
    (csd[6] % 4) * 1024 + csd[7] * 4 + csd[8] / 64
}

/// The power of two by which the device size of a card of standard capacity
/// is multiplied: its size multiplier, three bits that start with the low
/// two of byte 9, the length of its blocks, the low four bits of byte 5,
/// and two.
pub open spec fn csd_standard_shift(csd: Seq<u8>) -> int {
    (csd[9] % 4) * 2 + csd[10] / 128 + csd[5] % 16 + 2
}

/// The device size that the card-specific data of a card of high capacity
/// holds: twenty-two bits that start with the low six of byte 7.
pub open spec fn csd_high_device_size(csd: Seq<u8>) -> int {
    (csd[7] % 64) * 65536 + csd[8] * 256 + csd[9]
}

/// The capacity in bytes that the card-specific data `csd` gives. A card
/// addressed by blocks counts units of 1024 blocks of 512 bytes; one
/// addressed by bytes gives its size as a number of bytes at once.
pub open spec fn card_capacity(addressing: Addressing, csd: Seq<u8>) -> int {
    match addressing {
        Addressing::Byte => (csd_standard_device_size(csd) + 1) * two_to(
            csd_standard_shift(csd) as nat,
        ),
        Addressing::Block => (csd_high_device_size(csd) + 1) * 1024 * 512,
    }
}

/// The failure to report for a transaction that did not bring what it was
/// run for: its own failure, or `Protocol` where it has none.
pub open spec fn failure_of(transaction: TransactionModel) -> Error {
    match transaction.outcome() {
        Some(Err(e)) => e,
        _ => Error::Protocol,
    }
}

fn transaction_failure(transaction: &Transaction) -> (e: Error)
    ensures
        e == failure_of(transaction@),
{
    match transaction.outcome() {
        Some(Err(e)) => e,
        _ => Error::Protocol,
    }
}

/// How far the read of a block has come.
#[derive(Clone, Copy, Debug, PartialEq, Eq, Structural)]
pub enum ReadStage {
    /// The block is to be read; it may be tried `attempts_left` more times,
    /// this one included.
    Pending { attempts_left: u32 },
    /// The block has been read and handed out.
    Done,
    /// The read has failed.
    Failed(Error),
}

/// The read of a block as plain values.
pub struct ReadModel {
    pub addressing: Addressing,
    pub budget: RetryBudget,
    /// The number of the block.
    pub index: u32,
    pub stage: ReadStage,
}

impl ReadModel {
    /// The read of the block `index`. It fails at once with `Protocol`
    /// where the card cannot address the block, and with `NoResponse` where
    /// the budget allows no attempt.
    pub open spec fn start(addressing: Addressing, index: u32, budget: RetryBudget) -> ReadModel {
        ReadModel {
            addressing,
            budget,
            index,
            stage: if CardHandle::spec_block_argument(addressing, index) is None {
                ReadStage::Failed(Error::Protocol)
            } else if budget.read_attempts == 0 {
                ReadStage::Failed(Error::NoResponse)
            } else {
                ReadStage::Pending { attempts_left: budget.read_attempts }
            },
        }
    }

    /// The same read at another stage.
    pub open spec fn at(self, stage: ReadStage) -> ReadModel {
        ReadModel {
            addressing: self.addressing,
            budget: self.budget,
            index: self.index,
            stage,
        }
    }

    /// The transaction to run next; `None` once the read is over.
    pub open spec fn transaction(self) -> Option<TransactionModel> {
        match (self.stage, CardHandle::spec_block_argument(self.addressing, self.index)) {
            (ReadStage::Pending { attempts_left }, Some(argument)) => Some(
                TransactionModel::begin(
                    Command { index: CMD_READ_SINGLE_BLOCK, argument, payload: Payload::Sector },
                    self.budget.response_polls,
                    self.budget.token_polls,
                ),
            ),
            _ => None,
        }
    }

    /// The read after the transaction `done` was run for it. A transaction
    /// that brought the sector ends the read. A failure that may pass, a
    /// missing or malformed token, is tried again while attempts are left;
    /// any other failure, or the last attempt failing, ends the read with
    /// that failure.
    pub open spec fn report(self, done: TransactionModel) -> ReadModel {
        match self.stage {
            ReadStage::Pending { attempts_left } => {
                if done.has_block(Payload::Sector) {
                    self.at(ReadStage::Done)
                } else if failure_of(done).is_transient() && attempts_left > 1 {
                    self.at(ReadStage::Pending { attempts_left: (attempts_left - 1) as u32 })
                } else {
                    self.at(ReadStage::Failed(failure_of(done)))
                }
            },
            _ => self,
        }
    }

    /// A bound on the number of transactions that the read can still take.
    pub open spec fn measure(self) -> int {
        match self.stage {
            ReadStage::Pending { attempts_left } => attempts_left as int,
            _ => 0,
        }
    }

    /// Every report brings the end of the read nearer: a block is tried no
    /// more often than the budget allows.
    pub proof fn lemma_report_progress(self, done: TransactionModel)
        requires
            self.stage matches ReadStage::Pending { attempts_left } && attempts_left >= 1,
        ensures
            0 <= self.report(done).measure() < self.measure(),
            self.report(done).stage matches ReadStage::Pending { attempts_left } ==> attempts_left
                >= 1,
    {
    }
}

/// The read of one block, with its retries.
#[derive(Clone, Copy, Debug)]
pub struct BlockRead {
    handle: CardHandle,
    budget: RetryBudget,
    index: u32,
    stage: ReadStage,
}

impl View for BlockRead {
    type V = ReadModel;

    closed spec fn view(&self) -> ReadModel {
        ReadModel {
            addressing: self.handle@,
            budget: self.budget,
            index: self.index,
            stage: self.stage,
        }
    }
}

impl BlockRead {
    /// The read of the block `index` of the card `handle`.
    pub fn start(handle: &CardHandle, index: u32, budget: RetryBudget) -> (read: BlockRead)
        ensures
            read@ == ReadModel::start(handle@, index, budget),
    {
        let stage = if handle.read_command(index).is_none() {
            ReadStage::Failed(Error::Protocol)
        } else if budget.read_attempts == 0 {
            ReadStage::Failed(Error::NoResponse)
        } else {
            ReadStage::Pending { attempts_left: budget.read_attempts }
        };
        BlockRead { handle: *handle, budget, index, stage }
    }

    /// The transaction to run next, or `None` once the read is over.
    pub fn next_transaction(&self) -> (t: Option<Transaction>)
        ensures
            match t {
                Some(transaction) => Some(transaction@) == self@.transaction()
                    && transaction@.wf(),
                None => self@.transaction() is None,
            },
    {
        match self.stage {
            ReadStage::Pending { attempts_left: _ } => {
                match self.handle.read_command(self.index) {
                    Some(command) => Some(
                        Transaction::begin(
                            command,
                            self.budget.response_polls,
                            self.budget.token_polls,
                        ),
                    ),
                    None => None,
                }
            },
            _ => None,
        }
    }

    /// Takes the transaction that was run, and hands out the sector if it
    /// has brought it.
    pub fn report(&mut self, done: &Transaction) -> (sector: Option<Sector>)
        ensures
            final(self)@ == old(self)@.report(done@),
            sector is Some <==> old(self)@.stage is Pending && done@.has_block(Payload::Sector),
            sector matches Some(s) ==> s.lba == old(self)@.index && s.data@ == done@.data,
    {
        match self.stage {
            ReadStage::Pending { attempts_left } => {
                match done.sector(self.index) {
                    Some(sector) => {
                        self.stage = ReadStage::Done;
                        Some(sector)
                    },
                    None => {
                        let failure = transaction_failure(done);
                        if failure.is_transient() && attempts_left > 1 {
                            self.stage = ReadStage::Pending { attempts_left: attempts_left - 1 };
                        } else {
                            self.stage = ReadStage::Failed(failure);
                        }
                        None
                    },
                }
            },
            _ => None,
        }
    }

    /// The failure that ended the read, if one did.
    pub fn error(&self) -> (e: Option<Error>)
        ensures
            e == (match self@.stage {
                ReadStage::Failed(err) => Some(err),
                _ => None,
            }),
    {
        match self.stage {
            ReadStage::Failed(err) => Some(err),
            _ => None,
        }
    }
}

/// The initialization of a card.
#[derive(Clone, Copy, Debug)]
pub struct CardInit {
    budget: RetryBudget,
    stage: InitStage,
}

impl View for CardInit {
    type V = InitModel;

    closed spec fn view(&self) -> InitModel {
        InitModel { budget: self.budget, stage: self.stage }
    }
}

impl CardInit {
    /// An initialization that has not begun.
    pub fn start(budget: RetryBudget) -> (init: CardInit)
        ensures
            init@ == InitModel::start(budget),
    {
        CardInit { budget, stage: InitStage::PowerUp }
    }

    /// The transaction to run next, or `None` once the initialization is
    /// over.
    pub fn next_transaction(&self) -> (t: Option<Transaction>)
        ensures
            t is Some <==> !self@.over(),
            t matches Some(transaction) ==> Some(transaction@) == self@.transaction()
                && transaction@.wf(),
    {
        let command = match self.stage {
            InitStage::PowerUp => {
                return Some(Transaction::power_up(POWER_UP_CLOCKS));
            },
            InitStage::GoIdle { attempts_left: _ } => Command {
                index: CMD_GO_IDLE,
                argument: 0,
                payload: Payload::Nothing,
            },
            InitStage::InterfaceCheck => Command {
                index: CMD_SEND_IF_COND,
                argument: IF_COND_ARGUMENT,
                payload: Payload::Register,
            },
            InitStage::AppCommand { version2: _, rounds_left: _ } => Command {
                index: CMD_APP,
                argument: 0,
                payload: Payload::Nothing,
            },
            InitStage::OpCond { version2, rounds_left: _ } => Command {
                index: ACMD_SEND_OP_COND,
                argument: if version2 {
                    VOLTAGE_WINDOW + HIGH_CAPACITY_SUPPORT
                } else {
                    VOLTAGE_WINDOW
                },
                payload: Payload::Nothing,
            },
            InitStage::ReadOcr => Command {
                index: CMD_READ_OCR,
                argument: 0,
                payload: Payload::Register,
            },
            InitStage::Ready(_) => {
                return None;
            },
            InitStage::Failed(_) => {
                return None;
            },
        };
        Some(Transaction::begin(command, self.budget.response_polls, self.budget.token_polls))
    }

    /// Takes what came of the transaction that `next_transaction` handed
    /// out.
    pub fn report(&mut self, outcome: Result<Reply, Error>)
        ensures
            final(self)@ == old(self)@.report(outcome),
    {
        let stage = match self.stage {
            InitStage::PowerUp => match outcome {
                Ok(_) => {
                    if self.budget.idle_attempts == 0 {
                        InitStage::Failed(Error::InitTimeout)
                    } else {
                        InitStage::GoIdle { attempts_left: self.budget.idle_attempts }
                    }
                },
                Err(e) => InitStage::Failed(e),
            },
            InitStage::GoIdle { attempts_left } => {
                let again = if attempts_left > 1 {
                    InitStage::GoIdle { attempts_left: attempts_left - 1 }
                } else {
                    InitStage::Failed(Error::InitTimeout)
                };
                match outcome {
                    Err(Error::Transport) => InitStage::Failed(Error::Transport),
                    Err(_) => again,
                    Ok(reply) => {
                        if reply.r1 == R1_IDLE {
                            InitStage::InterfaceCheck
                        } else {
                            again
                        }
                    },
                }
            },
            InitStage::InterfaceCheck => match outcome {
                Err(Error::Transport) => InitStage::Failed(Error::Transport),
                Err(_) => self.negotiate(false),
                Ok(reply) => {
                    if !response_clean(reply.r1) {
                        self.negotiate(false)
                    } else if reply.register % 0x1000 == IF_COND_ARGUMENT {
                        self.negotiate(true)
                    } else {
                        InitStage::Failed(Error::Protocol)
                    }
                },
            },
            InitStage::AppCommand { version2, rounds_left } => match outcome {
                Err(e) => InitStage::Failed(e),
                Ok(reply) => {
                    if response_clean(reply.r1) {
                        InitStage::OpCond { version2, rounds_left }
                    } else {
                        InitStage::Failed(Error::Protocol)
                    }
                },
            },
            InitStage::OpCond { version2, rounds_left } => match outcome {
                Err(e) => InitStage::Failed(e),
                Ok(reply) => {
                    if reply.r1 == R1_READY {
                        if version2 {
                            InitStage::ReadOcr
                        } else {
                            InitStage::Ready(Addressing::Byte)
                        }
                    } else if reply.r1 != R1_IDLE {
                        InitStage::Failed(Error::Protocol)
                    } else if rounds_left > 1 {
                        InitStage::AppCommand { version2, rounds_left: rounds_left - 1 }
                    } else {
                        InitStage::Failed(Error::InitTimeout)
                    }
                },
            },
            InitStage::ReadOcr => match outcome {
                Err(e) => InitStage::Failed(e),
                Ok(reply) => {
                    if reply.r1 != R1_READY {
                        InitStage::Failed(Error::Protocol)
                    } else if reply.register / 0x4000_0000 == 3 {
                        InitStage::Ready(Addressing::Block)
                    } else {
                        InitStage::Ready(Addressing::Byte)
                    }
                },
            },
            InitStage::Ready(a) => InitStage::Ready(a),
            InitStage::Failed(e) => InitStage::Failed(e),
        };
        self.stage = stage;
    }

    /// What came of the initialization: `None` while it runs, then the
    /// handle of the card or the failure.
    pub fn result(&self) -> (r: Option<Result<CardHandle, Error>>)
        ensures
            match self@.stage {
                InitStage::Ready(a) => r matches Some(Ok(handle)) && handle@ == a,
                InitStage::Failed(e) => r == Some(Err::<CardHandle, Error>(e)),
                _ => r is None,
            },
    {
        match self.stage {
            InitStage::Ready(addressing) => Some(Ok(CardHandle { addressing })),
            InitStage::Failed(e) => Some(Err(e)),
            _ => None,
        }
    }

    fn negotiate(&self, version2: bool) -> (s: InitStage)
        ensures
            s == self@.negotiate(version2),
    {
        if self.budget.busy_rounds == 0 {
            InitStage::Failed(Error::InitTimeout)
        } else {
            InitStage::AppCommand { version2, rounds_left: self.budget.busy_rounds }
        }
    }
}

} // verus!
