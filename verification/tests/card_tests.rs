use sdfat::card::{
    Addressing, BlockRead, CardHandle, CardInit, RetryBudget, POWER_UP_CLOCKS,
};
use sdfat::command::{
    command_frame, crc7, crc7_bit, is_response, response_clean, Command, Payload,
    ACMD_SEND_OP_COND, CMD_APP, CMD_GO_IDLE, CMD_READ_OCR, CMD_READ_SINGLE_BLOCK, CMD_SEND_CSD,
    CMD_SEND_IF_COND, HIGH_CAPACITY_SUPPORT, VOLTAGE_WINDOW,
};
use sdfat::error::Error;
use sdfat::transaction::{BusAction, BusEvent, Reply, Transaction};

/// A card on the other end of the bus, as far as these tests need one.
struct SimCard {
    selected: bool,
    /// Bytes that the card will send, first first.
    queue: Vec<u8>,
    /// The bytes of the frame that is coming in.
    frame: Vec<u8>,
    /// Every frame that has come in.
    frames: Vec<[u8; 6]>,
    /// Bytes that came in while chip select was released.
    clocks: usize,
    /// Every byte that came in, with the state of chip select.
    seen: Vec<(bool, u8)>,
    answers_if_cond: bool,
    high_capacity: bool,
    /// How often the card answers that it is still idle when asked to start.
    busy_rounds: u32,
    idle: bool,
    app: bool,
    /// Bytes of nothing before a response.
    delay: usize,
    /// Bytes of nothing before a data token.
    token_delay: usize,
    csd: [u8; 16],
    /// The link fails when this many bytes have been exchanged.
    fault_after: Option<usize>,
    /// Chip select cannot be driven.
    stuck_select: bool,
    /// The token that starts a data block.
    token: u8,
}

const CSD_STANDARD: [u8; 16] = [
    0x00, 0x26, 0x00, 0x32, 0x5f, 0x59, 0x83, 0xc8, 0xad, 0xdb, 0xcf, 0xff, 0xd2, 0x40, 0x40, 0xa5,
];

const CSD_HIGH: [u8; 16] = [
    0x40, 0x0e, 0x00, 0x32, 0x5b, 0x59, 0x00, 0x00, 0x1d, 0x69, 0x7f, 0x80, 0x0a, 0x40, 0x00, 0x8b,
];

impl SimCard {
    fn new() -> SimCard {
        SimCard {
            selected: false,
            queue: Vec::new(),
            frame: Vec::new(),
            frames: Vec::new(),
            clocks: 0,
            seen: Vec::new(),
            answers_if_cond: true,
            high_capacity: true,
            busy_rounds: 2,
            idle: false,
            app: false,
            delay: 1,
            token_delay: 3,
            csd: CSD_HIGH,
            fault_after: None,
            stuck_select: false,
            token: 0xFE,
        }
    }

    fn legacy() -> SimCard {
        let mut card = SimCard::new();
        card.answers_if_cond = false;
        card.high_capacity = false;
        card.csd = CSD_STANDARD;
        card
    }

    fn block(index: u32) -> [u8; 512] {
        let mut data = [0u8; 512];
        for (n, byte) in data.iter_mut().enumerate() {
            *byte = (index as usize * 31 + n * 7) as u8;
        }
        data
    }

    fn respond(&mut self, r1: u8, payload: &[u8]) {
        for _ in 0..self.delay {
            self.queue.push(0xFF);
        }
        self.queue.push(r1);
        self.queue.extend_from_slice(payload);
    }

    fn send_block(&mut self, data: &[u8]) {
        for _ in 0..self.token_delay {
            self.queue.push(0xFF);
        }
        self.queue.push(self.token);
        self.queue.extend_from_slice(data);
        self.queue.push(0x12);
        self.queue.push(0x34);
    }

    fn execute(&mut self, frame: [u8; 6]) {
        let index = frame[0] & 0x3F;
        let argument = u32::from_be_bytes([frame[1], frame[2], frame[3], frame[4]]);
        let app = self.app;
        self.app = false;
        let idle = if self.idle { 0x01 } else { 0x00 };
        match (app, index) {
            (_, 0) => {
                self.idle = true;
                self.respond(0x01, &[]);
            }
            (_, 8) => {
                if self.answers_if_cond {
                    self.respond(idle, &[0x00, 0x00, frame[3] & 0x0F, frame[4]]);
                }
            }
            (_, 55) => {
                self.app = true;
                self.respond(idle, &[]);
            }
            (true, 41) => {
                if self.busy_rounds > 0 {
                    self.busy_rounds -= 1;
                    self.respond(0x01, &[]);
                } else {
                    self.idle = false;
                    self.respond(0x00, &[]);
                }
            }
            (_, 58) => {
                let top = if self.high_capacity { 0xC0 } else { 0x80 };
                self.respond(idle, &[top, 0xFF, 0x80, 0x00]);
            }
            (_, 9) => {
                self.respond(0x00, &[]);
                let csd = self.csd;
                self.send_block(&csd);
            }
            (_, 17) => {
                let index = if self.high_capacity { argument } else { argument / 512 };
                if !self.high_capacity && argument % 512 != 0 {
                    self.respond(0x20, &[]);
                } else {
                    self.respond(0x00, &[]);
                    let data = SimCard::block(index);
                    self.send_block(&data);
                }
            }
            _ => self.respond(0x04 | idle, &[]),
        }
    }

    fn exchange(&mut self, out: u8) -> u8 {
        self.seen.push((self.selected, out));
        if !self.selected {
            self.clocks += 1;
            return 0xFF;
        }
        let back = if self.queue.is_empty() { 0xFF } else { self.queue.remove(0) };
        if !self.frame.is_empty() || (out & 0xC0) == 0x40 {
            self.frame.push(out);
            if self.frame.len() == 6 {
                let mut frame = [0u8; 6];
                frame.copy_from_slice(&self.frame);
                self.frame.clear();
                self.frames.push(frame);
                self.execute(frame);
            }
        }
        back
    }

    /// Does what a host does with a transaction: performs each action and
    /// reports what came of it.
    fn run(&mut self, transaction: &mut Transaction) -> usize {
        let mut steps = 0;
        loop {
            let event = match transaction.action() {
                BusAction::Finish => return steps,
                BusAction::Select => {
                    if self.stuck_select {
                        BusEvent::Fault
                    } else {
                        self.selected = true;
                        BusEvent::Done
                    }
                }
                BusAction::Deselect => {
                    self.selected = false;
                    self.queue.clear();
                    self.frame.clear();
                    BusEvent::Done
                }
                BusAction::Exchange(out) => {
                    if self.fault_after == Some(self.seen.len()) {
                        BusEvent::Fault
                    } else {
                        BusEvent::Byte(self.exchange(out))
                    }
                }
            };
            transaction.advance(event);
            steps += 1;
            assert!(steps < 100_000);
        }
    }

    fn initialize(&mut self, budget: RetryBudget) -> Result<CardHandle, Error> {
        let mut init = CardInit::start(budget);
        let mut transactions = 0;
        while let Some(mut transaction) = init.next_transaction() {
            self.run(&mut transaction);
            init.report(transaction.outcome().unwrap());
            transactions += 1;
            assert!(transactions < 100_000);
        }
        init.result().unwrap()
    }

    fn read(&mut self, handle: &CardHandle, index: u32, budget: RetryBudget) -> Result<[u8; 512], Error> {
        let mut read = BlockRead::start(handle, index, budget);
        while let Some(mut transaction) = read.next_transaction() {
            self.run(&mut transaction);
            if let Some(sector) = read.report(&transaction) {
                assert_eq!(sector.lba, index);
                return Ok(sector.data);
            }
        }
        Err(read.error().unwrap())
    }
}

fn budget() -> RetryBudget {
    RetryBudget {
        idle_attempts: 4,
        busy_rounds: 5,
        response_polls: 8,
        token_polls: 8,
        read_attempts: 2,
    }
}

#[test]
fn crc7_of_known_frames() {
    assert_eq!(crc7(&[0x40, 0x00, 0x00, 0x00, 0x00]), 0x95);
    assert_eq!(crc7(&[0x48, 0x00, 0x00, 0x01, 0xAA]), 0x87);
    assert_eq!(crc7(&CSD_STANDARD[..15]), 0xA5);
    assert_eq!(crc7(&[]), 0x01);
    assert_eq!(crc7(&[0x77, 0x00, 0x00, 0x00, 0x00]), 0x65);
    assert_eq!(crc7(&[0x69, 0x40, 0x00, 0x00, 0x00]), 0x77);
}

#[test]
fn crc7_register_moves_bit_by_bit() {
    assert_eq!(crc7_bit(0, false), 0);
    assert_eq!(crc7_bit(0, true), 0x09);
    assert_eq!(crc7_bit(0x40, false), 0x09);
    assert_eq!(crc7_bit(0x40, true), 0x00);
    assert_eq!(crc7_bit(0x09, false), 0x12);
    assert_eq!(crc7_bit(0x3F, true), 0x7E ^ 0x09);
}

#[test]
fn command_frames_are_six_bytes() {
    assert_eq!(command_frame(CMD_GO_IDLE, 0), [0x40, 0, 0, 0, 0, 0x95]);
    assert_eq!(
        command_frame(CMD_SEND_IF_COND, 0x1AA),
        [0x48, 0x00, 0x00, 0x01, 0xAA, 0x87]
    );
    assert_eq!(
        command_frame(CMD_READ_SINGLE_BLOCK, 0x1234_5678),
        [0x51, 0x12, 0x34, 0x56, 0x78, crc7(&[0x51, 0x12, 0x34, 0x56, 0x78])]
    );
    assert_eq!(command_frame(CMD_APP, 0)[0], 0x77);
    assert_eq!(command_frame(CMD_READ_OCR, 0)[0], 0x7A);
    assert_eq!(command_frame(64 + 17, 0)[0], 0x51);
    for index in 0..=255u8 {
        let frame = command_frame(index, 0xFFFF_FFFF);
        assert_eq!(frame[0] & 0xC0, 0x40);
        assert_eq!(frame[5] & 1, 1);
    }
}

#[test]
fn response_tokens_have_the_top_bit_clear() {
    assert!(is_response(0x00));
    assert!(is_response(0x7F));
    assert!(!is_response(0x80));
    assert!(!is_response(0xFF));
    assert!(response_clean(0));
    assert!(response_clean(1));
    assert!(!response_clean(2));
    assert!(!response_clean(5));
}

#[test]
fn payloads_have_their_lengths() {
    assert_eq!(Payload::Nothing.len(), 0);
    assert_eq!(Payload::Register.len(), 4);
    assert_eq!(Payload::Csd.len(), 16);
    assert_eq!(Payload::Sector.len(), 512);
    assert!(!Payload::Nothing.is_block());
    assert!(!Payload::Register.is_block());
    assert!(Payload::Csd.is_block());
    assert!(Payload::Sector.is_block());
}

#[test]
fn transaction_brackets_a_command_with_chip_select() {
    let mut card = SimCard::new();
    let command = Command { index: CMD_GO_IDLE, argument: 0, payload: Payload::Nothing };
    let mut transaction = Transaction::begin(command, 8, 8);
    assert_eq!(transaction.action(), BusAction::Select);
    assert!(!transaction.is_selected());
    assert_eq!(transaction.outcome(), None);
    transaction.advance(BusEvent::Done);
    card.selected = true;
    assert!(transaction.is_selected());
    assert_eq!(transaction.action(), BusAction::Exchange(0x40));
    let steps = 1 + card.run(&mut transaction);
    assert!(!card.selected);
    assert!(transaction.finished());
    assert!(!transaction.is_selected());
    assert_eq!(transaction.outcome(), Some(Ok(Reply { r1: 0x01, register: 0 })));
    // select, six bytes out, one byte of nothing, the response, the closing
    // byte, deselect
    assert_eq!(steps, 1 + 6 + 1 + 1 + 1 + 1);
    transaction.advance(BusEvent::Byte(0x00));
    assert!(transaction.finished());
    assert_eq!(transaction.action(), BusAction::Finish);
}

#[test]
fn transaction_sends_the_frame_then_idle_bytes() {
    let mut card = SimCard::new();
    card.delay = 3;
    let command = Command { index: CMD_SEND_IF_COND, argument: 0x1AA, payload: Payload::Register };
    let mut transaction = Transaction::begin(command, 8, 8);
    card.run(&mut transaction);
    let sent: Vec<u8> = card.seen.iter().map(|(_, out)| *out).collect();
    let mut expected = vec![0x48, 0x00, 0x00, 0x01, 0xAA, 0x87];
    expected.extend_from_slice(&[0xFF; 3 + 1 + 4 + 1]);
    assert_eq!(sent, expected);
    assert!(card.seen.iter().all(|(selected, _)| *selected));
    assert_eq!(
        transaction.outcome(),
        Some(Ok(Reply { r1: 0x00, register: 0x0000_01AA }))
    );
}

#[test]
fn transaction_gives_up_after_its_response_budget() {
    let mut card = SimCard::new();
    card.answers_if_cond = false;
    let command = Command { index: CMD_SEND_IF_COND, argument: 0x1AA, payload: Payload::Register };
    let mut transaction = Transaction::begin(command, 8, 8);
    let steps = card.run(&mut transaction);
    assert_eq!(transaction.outcome(), Some(Err(Error::NoResponse)));
    assert_eq!(steps, 1 + 6 + 8 + 1);
    assert!(!card.selected);

    let mut card = SimCard::new();
    card.delay = 8;
    let mut transaction = Transaction::begin(command, 8, 8);
    card.run(&mut transaction);
    assert_eq!(transaction.outcome(), Some(Err(Error::NoResponse)));

    let mut card = SimCard::new();
    card.delay = 7;
    let mut transaction = Transaction::begin(command, 8, 8);
    card.run(&mut transaction);
    assert!(transaction.outcome().unwrap().is_ok());

    let mut card = SimCard::new();
    let mut transaction = Transaction::begin(command, 0, 8);
    card.run(&mut transaction);
    assert_eq!(transaction.outcome(), Some(Err(Error::NoResponse)));
}

#[test]
fn transaction_reads_a_sector() {
    let mut card = SimCard::new();
    let command = Command { index: CMD_READ_SINGLE_BLOCK, argument: 7, payload: Payload::Sector };
    let mut transaction = Transaction::begin(command, 8, 8);
    assert!(transaction.sector(7).is_none());
    let steps = card.run(&mut transaction);
    assert_eq!(steps, 1 + 6 + 2 + 3 + 1 + 512 + 2 + 1 + 1);
    assert_eq!(transaction.outcome(), Some(Ok(Reply { r1: 0, register: 0 })));
    let sector = transaction.sector(7).unwrap();
    assert_eq!(sector.lba, 7);
    assert_eq!(sector.data, SimCard::block(7));
    assert!(transaction.csd().is_none());
}

#[test]
fn transaction_reads_the_card_specific_data() {
    let mut card = SimCard::new();
    let command = Command { index: CMD_SEND_CSD, argument: 0, payload: Payload::Csd };
    let mut transaction = Transaction::begin(command, 8, 8);
    card.run(&mut transaction);
    assert_eq!(transaction.csd(), Some(CSD_HIGH));
    assert!(transaction.sector(0).is_none());
}

#[test]
fn data_token_has_its_own_budget() {
    let command = Command { index: CMD_READ_SINGLE_BLOCK, argument: 7, payload: Payload::Sector };
    let mut card = SimCard::new();
    card.token_delay = 8;
    let mut transaction = Transaction::begin(command, 8, 8);
    card.run(&mut transaction);
    assert_eq!(transaction.outcome(), Some(Err(Error::NoResponse)));
    assert!(transaction.sector(7).is_none());

    let mut card = SimCard::new();
    card.token_delay = 7;
    let mut transaction = Transaction::begin(command, 8, 8);
    card.run(&mut transaction);
    assert!(transaction.sector(7).is_some());

    let mut card = SimCard::new();
    let mut transaction = Transaction::begin(command, 8, 0);
    card.run(&mut transaction);
    assert_eq!(transaction.outcome(), Some(Err(Error::NoResponse)));
}

#[test]
fn wrong_data_token_is_a_protocol_failure() {
    let command = Command { index: CMD_READ_SINGLE_BLOCK, argument: 7, payload: Payload::Sector };
    let mut card = SimCard::new();
    card.token = 0x09;
    let mut transaction = Transaction::begin(command, 8, 8);
    card.run(&mut transaction);
    assert_eq!(transaction.outcome(), Some(Err(Error::Protocol)));
    assert!(!card.selected);
}

#[test]
fn response_with_an_error_ends_the_transaction_without_payload() {
    let mut card = SimCard::legacy();
    let command = Command { index: CMD_READ_SINGLE_BLOCK, argument: 3, payload: Payload::Sector };
    let mut transaction = Transaction::begin(command, 8, 8);
    card.run(&mut transaction);
    assert_eq!(transaction.outcome(), Some(Ok(Reply { r1: 0x20, register: 0 })));
    assert!(transaction.sector(0).is_none());
}

#[test]
fn link_failure_is_a_transport_failure() {
    let command = Command { index: CMD_GO_IDLE, argument: 0, payload: Payload::Nothing };
    for after in 0..9 {
        let mut card = SimCard::new();
        card.fault_after = Some(after);
        let mut transaction = Transaction::begin(command, 8, 8);
        card.run(&mut transaction);
        assert_eq!(transaction.outcome(), Some(Err(Error::Transport)));
        assert!(!card.selected);
    }
    let mut card = SimCard::new();
    card.stuck_select = true;
    let mut transaction = Transaction::begin(command, 8, 8);
    let steps = card.run(&mut transaction);
    assert_eq!(steps, 1);
    assert_eq!(transaction.outcome(), Some(Err(Error::Transport)));
    assert!(card.seen.is_empty());
}

#[test]
fn failure_to_release_chip_select_is_reported() {
    let command = Command { index: CMD_GO_IDLE, argument: 0, payload: Payload::Nothing };
    let mut transaction = Transaction::begin(command, 8, 8);
    transaction.advance(BusEvent::Done);
    for _ in 0..6 {
        transaction.advance(BusEvent::Byte(0xFF));
    }
    transaction.advance(BusEvent::Byte(0x01));
    transaction.advance(BusEvent::Byte(0xFF));
    assert_eq!(transaction.action(), BusAction::Deselect);
    transaction.advance(BusEvent::Fault);
    assert!(transaction.finished());
    assert!(transaction.is_selected());
    assert_eq!(transaction.outcome(), Some(Err(Error::Transport)));
}

#[test]
fn event_of_the_wrong_kind_is_a_transport_failure() {
    let command = Command { index: CMD_GO_IDLE, argument: 0, payload: Payload::Nothing };
    let mut transaction = Transaction::begin(command, 8, 8);
    transaction.advance(BusEvent::Byte(0x00));
    assert_eq!(transaction.outcome(), Some(Err(Error::Transport)));
    let mut transaction = Transaction::begin(command, 8, 8);
    transaction.advance(BusEvent::Done);
    transaction.advance(BusEvent::Done);
    assert_eq!(transaction.action(), BusAction::Deselect);
    transaction.advance(BusEvent::Byte(0));
    assert_eq!(transaction.outcome(), Some(Err(Error::Transport)));
}

#[test]
fn power_up_sends_idle_bytes_with_chip_select_released() {
    let mut card = SimCard::new();
    card.selected = true;
    let mut transaction = Transaction::power_up(POWER_UP_CLOCKS);
    assert_eq!(transaction.action(), BusAction::Deselect);
    let steps = card.run(&mut transaction);
    assert_eq!(steps, 11);
    assert_eq!(card.clocks, 10);
    assert!(card.seen.iter().all(|(selected, out)| !*selected && *out == 0xFF));
    assert_eq!(transaction.outcome(), Some(Ok(Reply { r1: 0xFF, register: 0 })));
    let mut none = Transaction::power_up(0);
    assert_eq!(card.run(&mut none), 1);
    assert!(none.outcome().unwrap().is_ok());
}

#[test]
fn high_capacity_card_is_addressed_by_blocks() {
    let mut card = SimCard::new();
    let handle = card.initialize(budget()).unwrap();
    assert_eq!(handle.addressing(), Addressing::Block);
    let indexes: Vec<u8> = card.frames.iter().map(|f| f[0] & 0x3F).collect();
    assert_eq!(indexes, vec![0, 8, 55, 41, 55, 41, 55, 41, 58]);
    assert_eq!(card.clocks, 10);
    let op_cond = card.frames[3];
    assert_eq!(
        u32::from_be_bytes([op_cond[1], op_cond[2], op_cond[3], op_cond[4]]),
        VOLTAGE_WINDOW | HIGH_CAPACITY_SUPPORT
    );
    assert_eq!(op_cond[0] & 0x3F, ACMD_SEND_OP_COND);
}

#[test]
fn card_without_interface_check_is_legacy() {
    let mut card = SimCard::legacy();
    let handle = card.initialize(budget()).unwrap();
    assert_eq!(handle.addressing(), Addressing::Byte);
    let indexes: Vec<u8> = card.frames.iter().map(|f| f[0] & 0x3F).collect();
    assert_eq!(indexes, vec![0, 8, 55, 41, 55, 41, 55, 41]);
    let op_cond = card.frames[3];
    assert_eq!(
        u32::from_be_bytes([op_cond[1], op_cond[2], op_cond[3], op_cond[4]]),
        VOLTAGE_WINDOW
    );

    let mut transaction = Transaction::begin(handle.csd_command(), 8, 8);
    card.run(&mut transaction);
    assert_eq!(handle.card_size_from(&transaction), Ok(1_015_808_000));
    assert_eq!(handle.card_size_bytes(&CSD_STANDARD), 1_015_808_000);
    assert_eq!(handle.card_size_bytes(&CSD_STANDARD), 3875u64 << 18);
}

#[test]
fn card_that_rejects_the_interface_check_is_legacy() {
    let mut init = CardInit::start(budget());
    init.report(Ok(Reply { r1: 0xFF, register: 0 }));
    init.report(Ok(Reply { r1: 0x01, register: 0 }));
    init.report(Ok(Reply { r1: 0x05, register: 0 }));
    let command = init.next_transaction().unwrap();
    assert_eq!(command.action(), BusAction::Select);
    init.report(Ok(Reply { r1: 0x01, register: 0 }));
    init.report(Ok(Reply { r1: 0x00, register: 0 }));
    assert_eq!(init.result().unwrap().unwrap().addressing(), Addressing::Byte);
    assert!(init.next_transaction().is_none());
}

#[test]
fn standard_capacity_card_of_the_second_version_is_addressed_by_bytes() {
    let mut card = SimCard::new();
    card.high_capacity = false;
    let handle = card.initialize(budget()).unwrap();
    assert_eq!(handle.addressing(), Addressing::Byte);
    assert_eq!(card.frames.last().unwrap()[0] & 0x3F, CMD_READ_OCR);
}

#[test]
fn wrong_echo_is_a_protocol_failure() {
    let mut init = CardInit::start(budget());
    init.report(Ok(Reply { r1: 0xFF, register: 0 }));
    init.report(Ok(Reply { r1: 0x01, register: 0 }));
    init.report(Ok(Reply { r1: 0x01, register: 0x0000_01AB }));
    assert_eq!(init.result(), Some(Err(Error::Protocol)));
    let mut init = CardInit::start(budget());
    init.report(Ok(Reply { r1: 0xFF, register: 0 }));
    init.report(Ok(Reply { r1: 0x01, register: 0 }));
    init.report(Ok(Reply { r1: 0x01, register: 0xABCD_E1AA }));
    assert_eq!(init.result(), None);
}

#[test]
fn card_that_never_goes_idle_times_out() {
    let mut init = CardInit::start(budget());
    init.report(Ok(Reply { r1: 0xFF, register: 0 }));
    for _ in 0..3 {
        init.report(Err(Error::NoResponse));
        assert_eq!(init.result(), None);
    }
    init.report(Ok(Reply { r1: 0x00, register: 0 }));
    assert_eq!(init.result(), Some(Err(Error::InitTimeout)));
    init.report(Ok(Reply { r1: 0x01, register: 0 }));
    assert_eq!(init.result(), Some(Err(Error::InitTimeout)));
}

#[test]
fn card_that_stays_busy_times_out() {
    let mut card = SimCard::new();
    card.busy_rounds = 5;
    assert_eq!(card.initialize(budget()), Err(Error::InitTimeout));
    let starts = card.frames.iter().filter(|f| f[0] & 0x3F == 41).count();
    assert_eq!(starts, 5);
    let mut card = SimCard::new();
    card.busy_rounds = 4;
    assert!(card.initialize(budget()).is_ok());
}

#[test]
fn budget_without_rounds_times_out_at_once() {
    let mut none = budget();
    none.idle_attempts = 0;
    let mut card = SimCard::new();
    assert_eq!(card.initialize(none), Err(Error::InitTimeout));
    assert!(card.frames.is_empty());
    let mut none = budget();
    none.busy_rounds = 0;
    let mut card = SimCard::new();
    assert_eq!(card.initialize(none), Err(Error::InitTimeout));
    assert_eq!(card.frames.len(), 2);
}

#[test]
fn absent_card_times_out() {
    let mut card = SimCard::new();
    card.stuck_select = false;
    card.delay = 100;
    assert_eq!(card.initialize(budget()), Err(Error::InitTimeout));
    assert_eq!(card.frames.len(), 4);
}

#[test]
fn link_failure_ends_the_initialization() {
    for after in [0usize, 5, 12, 20, 40, 60] {
        let mut card = SimCard::new();
        card.fault_after = Some(after);
        assert_eq!(card.initialize(budget()), Err(Error::Transport));
    }
}

#[test]
fn unexpected_responses_are_protocol_failures() {
    let start = || {
        let mut init = CardInit::start(budget());
        init.report(Ok(Reply { r1: 0xFF, register: 0 }));
        init.report(Ok(Reply { r1: 0x01, register: 0 }));
        init.report(Ok(Reply { r1: 0x01, register: 0x1AA }));
        init
    };
    let mut init = start();
    init.report(Ok(Reply { r1: 0x05, register: 0 }));
    assert_eq!(init.result(), Some(Err(Error::Protocol)));
    let mut init = start();
    init.report(Ok(Reply { r1: 0x01, register: 0 }));
    init.report(Ok(Reply { r1: 0x04, register: 0 }));
    assert_eq!(init.result(), Some(Err(Error::Protocol)));
    let mut init = start();
    init.report(Ok(Reply { r1: 0x01, register: 0 }));
    init.report(Ok(Reply { r1: 0x00, register: 0 }));
    init.report(Ok(Reply { r1: 0x01, register: 0xC0FF_8000 }));
    assert_eq!(init.result(), Some(Err(Error::Protocol)));
    let mut init = start();
    init.report(Ok(Reply { r1: 0x01, register: 0 }));
    init.report(Err(Error::NoResponse));
    assert_eq!(init.result(), Some(Err(Error::NoResponse)));
}

#[test]
fn operating_conditions_decide_the_addressing() {
    let ready = |register: u32| {
        let mut init = CardInit::start(budget());
        init.report(Ok(Reply { r1: 0xFF, register: 0 }));
        init.report(Ok(Reply { r1: 0x01, register: 0 }));
        init.report(Ok(Reply { r1: 0x01, register: 0x1AA }));
        init.report(Ok(Reply { r1: 0x01, register: 0 }));
        init.report(Ok(Reply { r1: 0x00, register: 0 }));
        init.report(Ok(Reply { r1: 0x00, register }));
        init.result().unwrap().unwrap().addressing()
    };
    assert_eq!(ready(0xC0FF_8000), Addressing::Block);
    assert_eq!(ready(0xFFFF_FFFF), Addressing::Block);
    assert_eq!(ready(0x80FF_8000), Addressing::Byte);
    assert_eq!(ready(0x40FF_8000), Addressing::Byte);
    assert_eq!(ready(0x0000_0000), Addressing::Byte);
}

#[test]
fn standard_budget() {
    let standard = RetryBudget::standard();
    assert_eq!(standard.idle_attempts, 32);
    assert_eq!(standard.busy_rounds, 32000);
    assert_eq!(standard.response_polls, 512);
    assert_eq!(standard.token_polls, 32000);
    assert_eq!(standard.read_attempts, 3);
}

#[test]
fn block_address_depends_on_the_addressing() {
    let mut card = SimCard::new();
    let block = card.initialize(budget()).unwrap();
    assert_eq!(
        block.read_command(9),
        Some(Command { index: CMD_READ_SINGLE_BLOCK, argument: 9, payload: Payload::Sector })
    );
    assert_eq!(block.read_command(u32::MAX).unwrap().argument, u32::MAX);
    let mut card = SimCard::legacy();
    let byte = card.initialize(budget()).unwrap();
    assert_eq!(
        byte.read_command(9),
        Some(Command { index: CMD_READ_SINGLE_BLOCK, argument: 9 * 512, payload: Payload::Sector })
    );
    assert_eq!(byte.read_command(0x7F_FFFF).unwrap().argument, 0xFFFF_FE00);
    assert_eq!(byte.read_command(0x80_0000), None);
    assert_eq!(
        byte.csd_command(),
        Command { index: CMD_SEND_CSD, argument: 0, payload: Payload::Csd }
    );
}

#[test]
fn blocks_are_read_from_both_kinds_of_card() {
    let mut card = SimCard::new();
    let handle = card.initialize(budget()).unwrap();
    assert_eq!(card.read(&handle, 0, budget()), Ok(SimCard::block(0)));
    assert_eq!(card.read(&handle, 1000, budget()), Ok(SimCard::block(1000)));
    let mut card = SimCard::legacy();
    let handle = card.initialize(budget()).unwrap();
    assert_eq!(card.read(&handle, 0, budget()), Ok(SimCard::block(0)));
    assert_eq!(card.read(&handle, 1000, budget()), Ok(SimCard::block(1000)));
    assert_eq!(card.read(&handle, 0x80_0000, budget()), Err(Error::Protocol));
}

#[test]
fn missed_token_is_tried_again() {
    let mut card = SimCard::new();
    let handle = card.initialize(budget()).unwrap();
    let before = card.frames.len();
    card.token_delay = 100;
    assert_eq!(card.read(&handle, 4, budget()), Err(Error::NoResponse));
    assert_eq!(card.frames.len() - before, 2);

    let mut read = BlockRead::start(&handle, 4, budget());
    let mut first = read.next_transaction().unwrap();
    card.run(&mut first);
    assert_eq!(read.report(&first), None);
    assert_eq!(read.error(), None);
    card.token_delay = 1;
    let mut second = read.next_transaction().unwrap();
    card.run(&mut second);
    let sector = read.report(&second).unwrap();
    assert_eq!(sector.data, SimCard::block(4));
    assert!(read.next_transaction().is_none());
    assert_eq!(read.report(&second), None);
}

#[test]
fn link_failure_is_not_tried_again() {
    let mut card = SimCard::new();
    let handle = card.initialize(budget()).unwrap();
    let before = card.frames.len();
    card.fault_after = Some(card.seen.len() + 10);
    assert_eq!(card.read(&handle, 4, budget()), Err(Error::Transport));
    assert_eq!(card.frames.len() - before, 1);
    assert!(!Error::Transport.is_transient());
    assert!(Error::Protocol.is_transient());
    assert!(Error::NoResponse.is_transient());
    assert!(!Error::InitTimeout.is_transient());
    assert!(!Error::InvalidBootSector.is_transient());
    assert!(!Error::UnsupportedVolume.is_transient());
    assert!(!Error::BrokenChain.is_transient());
}

#[test]
fn read_without_attempts_fails_at_once() {
    let mut card = SimCard::new();
    let handle = card.initialize(budget()).unwrap();
    let mut none = budget();
    none.read_attempts = 0;
    let read = BlockRead::start(&handle, 4, none);
    assert!(read.next_transaction().is_none());
    assert_eq!(read.error(), Some(Error::NoResponse));
}

#[test]
fn error_response_to_a_read_is_a_protocol_failure() {
    let mut card = SimCard::legacy();
    let handle = card.initialize(budget()).unwrap();
    let command = Command { index: CMD_READ_SINGLE_BLOCK, argument: 3, payload: Payload::Sector };
    let mut transaction = Transaction::begin(command, 8, 8);
    card.run(&mut transaction);
    let mut read = BlockRead::start(&handle, 0, budget());
    assert_eq!(read.report(&transaction), None);
    assert_eq!(read.error(), None);
    assert_eq!(read.report(&transaction), None);
    assert_eq!(read.error(), Some(Error::Protocol));
}

#[test]
fn card_size_of_a_high_capacity_card() {
    let mut card = SimCard::new();
    let handle = card.initialize(budget()).unwrap();
    let mut transaction = Transaction::begin(handle.csd_command(), 8, 8);
    card.run(&mut transaction);
    let device_size = 0x1D69u64;
    assert_eq!(
        handle.card_size_from(&transaction),
        Ok((device_size + 1) * 512 * 1024)
    );
    assert_eq!(handle.card_size_bytes(&CSD_HIGH), 3_947_888_640);
    let mut largest = [0u8; 16];
    largest[7] = 0xFF;
    largest[8] = 0xFF;
    largest[9] = 0xFF;
    assert_eq!(handle.card_size_bytes(&largest), (1u64 << 22) * 512 * 1024);
}

#[test]
fn card_size_of_a_standard_capacity_card() {
    let mut card = SimCard::legacy();
    let handle = card.initialize(budget()).unwrap();
    let mut csd = [0u8; 16];
    assert_eq!(handle.card_size_bytes(&csd), 4);
    csd[5] = 0x09;
    assert_eq!(handle.card_size_bytes(&csd), 4 * 512);
    csd[9] = 0x03;
    csd[10] = 0x80;
    assert_eq!(handle.card_size_bytes(&csd), 512 * 512);
    csd[6] = 0x03;
    csd[7] = 0xFF;
    csd[8] = 0xC0;
    assert_eq!(handle.card_size_bytes(&csd), 4096 * 512 * 512);
    let all = [0xFFu8; 16];
    assert_eq!(handle.card_size_bytes(&all), 4096u64 << 24);
}

#[test]
fn card_size_needs_the_card_specific_data() {
    let mut card = SimCard::new();
    let handle = card.initialize(budget()).unwrap();
    let mut transaction = Transaction::begin(handle.csd_command(), 8, 8);
    assert_eq!(handle.card_size_from(&transaction), Err(Error::Protocol));
    card.token_delay = 100;
    card.run(&mut transaction);
    assert_eq!(handle.card_size_from(&transaction), Err(Error::NoResponse));
    let mut sector = Transaction::begin(handle.read_command(0).unwrap(), 8, 8);
    card.token_delay = 1;
    card.run(&mut sector);
    assert_eq!(handle.card_size_from(&sector), Err(Error::Protocol));
}
