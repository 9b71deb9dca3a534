//! Command frames of the SD card protocol in SPI mode.

use vstd::prelude::*;

verus! {

/// GO_IDLE_STATE: resets the card.
pub const CMD_GO_IDLE: u8 = 0;

/// SEND_IF_COND: tells the card the supply voltage and asks for an echo.
pub const CMD_SEND_IF_COND: u8 = 8;

/// SEND_CSD: asks for the card-specific data register.
pub const CMD_SEND_CSD: u8 = 9;

/// READ_SINGLE_BLOCK.
pub const CMD_READ_SINGLE_BLOCK: u8 = 17;

/// APP_CMD: the next command is an application command.
pub const CMD_APP: u8 = 55;

/// READ_OCR: asks for the operating conditions register.
pub const CMD_READ_OCR: u8 = 58;

/// SD_SEND_OP_COND, an application command: starts the card and asks
/// whether it has finished.
pub const ACMD_SEND_OP_COND: u8 = 41;

/// The response of a card that is ready.
pub const R1_READY: u8 = 0x00;

/// The response of a card that is idle: reset and not yet started.
pub const R1_IDLE: u8 = 0x01;

/// The byte that a host sends while it only listens, and that a card sends
/// while it has nothing to say.
pub const IDLE_BYTE: u8 = 0xFF;

/// The token that starts a block of data.
pub const DATA_START_TOKEN: u8 = 0xFE;

/// The argument of SEND_IF_COND: a supply of 2.7 to 3.6 volts, and the check
/// pattern 0xAA.
pub const IF_COND_ARGUMENT: u32 = 0x0000_01AA;

/// The voltages that the host supplies, as a window of the operating
/// conditions register: 2.7 to 3.6 volts.
pub const VOLTAGE_WINDOW: u32 = 0x00FF_8000;

/// The bit by which a host says that it can address blocks.
pub const HIGH_CAPACITY_SUPPORT: u32 = 0x4000_0000;

/// The 7-bit register of the CRC after one more bit of the message: the
/// register moves up by one bit, and where the bit that leaves it differs
/// from the message bit, the polynomial x^7 + x^3 + 1 is added.
pub open spec fn spec_crc7_bit(reg: u8, bit: bool) -> u8 {
    let shifted = ((reg % 64) * 2) as u8;
    if (reg % 128 >= 64) != bit {
        shifted ^ 0x09
    } else {
        shifted
    }
}

#[verifier::when_used_as_spec(spec_crc7_bit)]
pub fn crc7_bit(reg: u8, bit: bool) -> (r: u8)
    ensures
        r == spec_crc7_bit(reg, bit),
{
    let shifted: u8 = (reg % 64) * 2;
    if (reg % 128 >= 64) != bit {
        shifted ^ 0x09
    } else {
        shifted
    }
}

/// The register after the top `bits` bits of `byte`, highest first.
pub open spec fn crc7_bits(reg: u8, byte: u8, bits: nat) -> u8
    decreases bits,
{
    if bits == 0 {
        reg
    } else {
        crc7_bits(spec_crc7_bit(reg, byte >= 128), ((byte % 128) * 2) as u8, (bits - 1) as nat)
    }
}

/// The register after all bytes of `data`, from a register of zero.
pub open spec fn crc7_register(data: Seq<u8>) -> u8
    decreases data.len(),
{
    if data.len() == 0 {
        0
    } else {
        crc7_bits(crc7_register(data.drop_last()), data.last(), 8)
    }
}

/// The last byte of a frame that starts with `data`: the seven bits of the
/// CRC, then the stop bit.
pub open spec fn spec_crc7(data: Seq<u8>) -> u8 {
    ((crc7_register(data) % 128) * 2 + 1) as u8
}

fn crc7_byte(reg: u8, byte: u8) -> (r: u8)
    ensures
        r == crc7_bits(reg, byte, 8),
{
    let mut r: u8 = reg;
    let mut b: u8 = byte;
    let mut n: u8 = 8;
    while n > 0
        invariant
            crc7_bits(reg, byte, 8) == crc7_bits(r, b, n as nat),
        decreases n,
    {
        r = crc7_bit(r, b >= 128);
        b = (b % 128) * 2;
        n -= 1;
    }
    r
}

/// The CRC byte of a frame that starts with `data`.
pub fn crc7(data: &[u8]) -> (c: u8)
    ensures
        c == spec_crc7(data@),
{
    let mut reg: u8 = 0;
    let mut i: usize = 0;
    while i < data.len()
        invariant
            i <= data.len(),
            reg == crc7_register(data@.take(i as int)),
        decreases data.len() - i,
    {
        assert(data@.take(i + 1).drop_last() =~= data@.take(i as int));
        reg = crc7_byte(reg, data[i]);
        i += 1;
    }
    assert(data@.take(data.len() as int) =~= data@);
    (reg % 128) * 2 + 1
}

/// The first five bytes of the frame of the command `index` with the
/// argument `argument`: a zero start bit, a one that marks the host as the
/// sender, and the six bits of the index; then the argument, highest byte
/// first.
pub open spec fn frame_head(index: u8, argument: u32) -> Seq<u8> {
    seq![
        (64 + index % 64) as u8,
        (argument / 0x100_0000) as u8,
        ((argument / 0x1_0000) % 256) as u8,
        ((argument / 0x100) % 256) as u8,
        (argument % 256) as u8,
    ]
}

/// The six bytes of a command frame: the head and its CRC byte.
pub open spec fn spec_command_frame(index: u8, argument: u32) -> Seq<u8> {
    frame_head(index, argument).push(spec_crc7(frame_head(index, argument)))
}

/// Builds the frame of a command.
pub fn command_frame(index: u8, argument: u32) -> (frame: [u8; 6])
    ensures
        frame@ == spec_command_frame(index, argument),
{
    let head: [u8; 5] = [
        64 + index % 64,
        (argument / 0x100_0000) as u8,
        ((argument / 0x1_0000) % 256) as u8,
        ((argument / 0x100) % 256) as u8,
        (argument % 256) as u8,
    ];
    assert(head@ =~= frame_head(index, argument));
    let crc = crc7(&head);
    let frame: [u8; 6] = [head[0], head[1], head[2], head[3], head[4], crc];
    assert(frame@ =~= spec_command_frame(index, argument));
    frame
}

/// Whether `byte` is a response: a card sends bytes with the top bit set
/// until it answers.
pub open spec fn spec_is_response(byte: u8) -> bool {
    byte < 128
}

#[verifier::when_used_as_spec(spec_is_response)]
pub fn is_response(byte: u8) -> (b: bool)
    ensures
        b == spec_is_response(byte),
{
    byte < 128
}

/// Whether the response `r1` reports no error: it is `R1_READY` or
/// `R1_IDLE`.
pub open spec fn spec_response_clean(r1: u8) -> bool {
    r1 <= 1
}

#[verifier::when_used_as_spec(spec_response_clean)]
pub fn response_clean(r1: u8) -> (b: bool)
    ensures
        b == spec_response_clean(r1),
{
    r1 <= 1
}

/// What follows the response of a command.
#[derive(Clone, Copy, Debug, PartialEq, Eq, Structural)]
pub enum Payload {
    /// Nothing.
    Nothing,
    /// The four bytes of a register.
    Register,
    /// A data block of the sixteen bytes of the card-specific data.
    Csd,
    /// A data block of one sector.
    Sector,
}

impl Payload {
    /// The number of payload bytes.
    pub open spec fn spec_len(&self) -> u16 {
        match self {
            Payload::Nothing => 0,
            Payload::Register => 4,
            Payload::Csd => 16,
            Payload::Sector => 512,
        }
    }

    #[verifier::when_used_as_spec(spec_len)]
    pub fn len(&self) -> (n: u16)
        ensures
            n == self.spec_len(),
    {
        match self {
            Payload::Nothing => 0,
            Payload::Register => 4,
            Payload::Csd => 16,
            Payload::Sector => 512,
        }
    }

    /// Whether the payload comes as a data block: after a start token, and
    /// followed by two CRC bytes.
    pub open spec fn spec_is_block(&self) -> bool {
        *self == Payload::Csd || *self == Payload::Sector
    }

    #[verifier::when_used_as_spec(spec_is_block)]
    pub fn is_block(&self) -> (b: bool)
        ensures
            b == self.spec_is_block(),
    {
        match self {
            Payload::Csd => true,
            Payload::Sector => true,
            _ => false,
        }
    }
}

/// A command to send, and what to expect after its response.
#[derive(Clone, Copy, Debug, PartialEq, Eq, Structural)]
pub struct Command {
    /// The index of the command; its low six bits are sent.
    pub index: u8,
    pub argument: u32,
    pub payload: Payload,
}

} // verus!
