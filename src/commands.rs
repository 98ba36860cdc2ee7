//! Command frames: who talks to whom, whether a register is read or written,
//! which register, and the bytes that go with it.
use vstd::prelude::*;

verus! {

/// Largest payload a frame can carry: the length byte counts the payload
/// plus the operation and attribute bytes, and must fit in eight bits.
pub const MAX_PAYLOAD_LEN: usize = 253;

/// Who sends a frame and who receives it.
#[derive(Clone, Copy, Debug, PartialEq, Eq, Structural)]
pub enum Direction {
    MasterToMotor,
    MasterToBattery,
    MotorToMaster,
    BatteryToMaster,
}

/// The wire code of a direction.
pub open spec fn direction_code(d: Direction) -> u8 {
    match d {
        Direction::MasterToMotor => 0x20,
        Direction::MasterToBattery => 0x22,
        Direction::MotorToMaster => 0x23,
        Direction::BatteryToMaster => 0x25,
    }
}

impl Direction {
    pub fn value(&self) -> (r: u8)
        ensures
            r == direction_code(*self),
    {
        match self {
            Direction::MasterToMotor => 0x20,
            Direction::MasterToBattery => 0x22,
            Direction::MotorToMaster => 0x23,
            Direction::BatteryToMaster => 0x25,
        }
    }
}

/// Whether a frame reads or writes its attribute.
#[derive(Clone, Copy, Debug, PartialEq, Eq, Structural)]
pub enum ReadWrite {
    Read,
    Write,
}

/// The wire code of an operation.
pub open spec fn operation_code(o: ReadWrite) -> u8 {
    match o {
        ReadWrite::Read => 0x01,
        ReadWrite::Write => 0x03,
    }
}

impl ReadWrite {
    pub fn value(&self) -> (r: u8)
        ensures
            r == operation_code(*self),
    {
        match self {
            ReadWrite::Read => 0x01,
            ReadWrite::Write => 0x03,
        }
    }
}

/// The device registers that frames address.
#[derive(Clone, Copy, Debug, PartialEq, Eq, Structural)]
pub enum Attribute {
    GeneralInfo,
    MotorInfo,
    DistanceLeft,
    Speed,
    TripDistance,
    BatteryVoltage,
    BatteryCurrent,
    BatteryPercent,
    BatteryCellVoltages,
    Supplementary,
    Cruise,
    TailLight,
    BatteryInfo,
    Kers,
}

/// The register number of an attribute.
pub open spec fn attribute_code(a: Attribute) -> u8 {
    match a {
        Attribute::GeneralInfo => 0x10,
        Attribute::DistanceLeft => 0x25,
        Attribute::Speed => 0xB5,
        Attribute::TripDistance => 0xB9,
        Attribute::BatteryVoltage => 0x34,
        Attribute::BatteryCurrent => 0x33,
        Attribute::BatteryPercent => 0x32,
        Attribute::MotorInfo => 0xB0,
        Attribute::BatteryCellVoltages => 0x40,
        Attribute::Supplementary => 0x7B,
        Attribute::Cruise => 0x7C,
        Attribute::TailLight => 0x7D,
        Attribute::BatteryInfo => 0x31,
        Attribute::Kers => 0x7E,
    }
}

impl Attribute {
    pub fn value(&self) -> (r: u8)
        ensures
            r == attribute_code(*self),
    {
        match self {
            Attribute::GeneralInfo => 0x10,
            Attribute::DistanceLeft => 0x25,
            Attribute::Speed => 0xB5,
            Attribute::TripDistance => 0xB9,
            Attribute::BatteryVoltage => 0x34,
            Attribute::BatteryCurrent => 0x33,
            Attribute::BatteryPercent => 0x32,
            Attribute::MotorInfo => 0xB0,
            Attribute::BatteryCellVoltages => 0x40,
            Attribute::Supplementary => 0x7B,
            Attribute::Cruise => 0x7C,
            Attribute::TailLight => 0x7D,
            Attribute::BatteryInfo => 0x31,
            Attribute::Kers => 0x7E,
        }
    }
}

/// One command frame before it is wrapped for the wire.
#[derive(Clone, Debug)]
pub struct ScooterCommand {
    pub direction: Direction,
    pub read_write: ReadWrite,
    pub attribute: Attribute,
    pub payload: Vec<u8>,
}

/// The frame body: the length byte (payload plus operation and attribute),
/// the direction, the operation, the attribute, then the payload.
pub open spec fn body_of(c: ScooterCommand) -> Seq<u8>
    recommends
        c.payload@.len() <= MAX_PAYLOAD_LEN,
{
    seq![
        (c.payload@.len() + 2) as u8,
        direction_code(c.direction),
        operation_code(c.read_write),
        attribute_code(c.attribute),
    ] + c.payload@
}

/// Name for what pretty-hex prints as the multi-line dump of some bytes.
pub uninterp spec fn pretty_hex_of(b: Seq<u8>) -> Seq<char>;

/// Relies on `pretty_hex::pretty_hex`: a dump (title line, address column,
/// hex digits and ASCII column) that depends on the bytes alone, and is the
/// text that the `Debug` form of `PrettyHex::hex_dump` writes.
#[verifier::external_body]
fn pretty_hex_dump(bytes: &Vec<u8>) -> (r: String)
    ensures
        r@ == pretty_hex_of(bytes@),
{
    pretty_hex::pretty_hex(bytes)
}

impl ScooterCommand {
    /// The frame body as bytes.
    pub fn as_bytes(&self) -> (r: Vec<u8>)
        requires
            self.payload@.len() <= MAX_PAYLOAD_LEN,
        ensures
            r@ == body_of(*self),
    {
        let mut bytes: Vec<u8> = vec![
            self.payload.len() as u8 + 2u8,
            self.direction.value(),
            self.read_write.value(),
            self.attribute.value(),
        ];
        let mut i: usize = 0;
        while i < self.payload.len()
            invariant
                i <= self.payload@.len(),
                bytes@ == body_of(*self).subrange(0, 4 + i as int),
                self.payload@.len() <= MAX_PAYLOAD_LEN,
            decreases self.payload@.len() - i,
        {
            bytes.push(self.payload[i]);
            i = i + 1;
        }
        assert(bytes@ =~= body_of(*self));
        bytes
    }

    /// A hex dump of the frame body, as the debugging form of a command.
    pub fn hex_dump(&self) -> (r: String)
        requires
            self.payload@.len() <= MAX_PAYLOAD_LEN,
        ensures
            r@ == pretty_hex_of(body_of(*self)),
    {
        let bytes = self.as_bytes();
        pretty_hex_dump(&bytes)
    }
}

} // verus!
