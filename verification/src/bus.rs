//! The command set, and the bus transactions that carry it.
//!
//! The driver never touches the bus. It says which transaction is to be
//! carried out, and the caller, who owns the bus, carries it out and hands
//! back what the bus returned.

use vstd::prelude::*;
use crate::user_register::UserRegister;

verus! {

/// Address of the sensor
pub const ADDRESS: u8 = 0x40;

/// Number of bytes in the reply to a measurement command: the raw word, high
/// byte first, and its checksum.
pub const READING_LENGTH: usize = 3;

/// Commands to read and write things
#[derive(Debug)]
pub enum Command {
    /// Measure temperature, holding the bus until the result is ready
    TemperatureHoldMaster,
    /// Measure temperature, leaving the bus free meanwhile
    Temperature,
    /// Measure humidity, holding the bus until the result is ready
    HumidityHoldMaster,
    /// Measure humidity, leaving the bus free meanwhile
    Humidity,
    /// Write the user register
    WriteUser(UserRegister),
    /// Read the user register
    ReadUser,
    /// Reset the sensor
    SoftReset,
}

/// One addressed transaction on the two-wire bus.
#[derive(Debug, Clone, PartialEq, Eq)]
pub enum Transaction {
    /// Write `bytes` to the device at `address`.
    Write { address: u8, bytes: Vec<u8> },
    /// Read `length` bytes from the device at `address`.
    Read { address: u8, length: usize },
    /// Write `bytes` to the device at `address`, then read `length` bytes
    /// from it without releasing the bus in between.
    WriteRead { address: u8, bytes: Vec<u8>, length: usize },
}

/// A transaction as a mathematical value.
pub enum TransactionView {
    Write { address: u8, bytes: Seq<u8> },
    Read { address: u8, length: nat },
    WriteRead { address: u8, bytes: Seq<u8>, length: nat },
}

impl View for Transaction {
    type V = TransactionView;

    open spec fn view(&self) -> TransactionView {
        match *self {
            Transaction::Write { address, bytes } => TransactionView::Write {
                address,
                bytes: bytes@,
            },
            Transaction::Read { address, length } => TransactionView::Read {
                address,
                length: length as nat,
            },
            Transaction::WriteRead { address, bytes, length } => TransactionView::WriteRead {
                address,
                bytes: bytes@,
                length: length as nat,
            },
        }
    }
}

impl Command {
    /// The byte that names the command on the wire.
    pub open spec fn code(&self) -> u8 {
        match *self {
            Command::TemperatureHoldMaster => 0xe3,
            Command::Temperature => 0xf3,
            Command::HumidityHoldMaster => 0xe5,
            Command::Humidity => 0xf5,
            Command::WriteUser(_) => 0xe6,
            Command::ReadUser => 0xe7,
            Command::SoftReset => 0xfe,
        }
    }

    /// The bytes written to the sensor: the opcode, followed for a register
    /// write by the register byte.
    pub open spec fn frame(&self) -> Seq<u8> {
        match *self {
            Command::WriteUser(register) => seq![self.code(), register.raw()],
            _ => seq![self.code()],
        }
    }

    /// The number of bytes with which the sensor answers within the same
    /// transaction: a reading for the measurements that hold the bus, one
    /// byte for the register, nothing otherwise.
    pub open spec fn reply_length(&self) -> nat {
        match *self {
            Command::TemperatureHoldMaster | Command::HumidityHoldMaster => READING_LENGTH as nat,
            Command::ReadUser => 1,
            _ => 0,
        }
    }

    /// The transaction that issues the command: a write where the sensor
    /// answers nothing at once, else a write followed by a read.
    pub open spec fn exchange(&self) -> TransactionView {
        if self.reply_length() == 0 {
            TransactionView::Write { address: ADDRESS, bytes: self.frame() }
        } else {
            TransactionView::WriteRead {
                address: ADDRESS,
                bytes: self.frame(),
                length: self.reply_length(),
            }
        }
    }

    /// Returns the byte that names the command on the wire
    pub fn opcode(&self) -> (code: u8)
        ensures
            code == self.code(),
    {
        match self {
            Command::TemperatureHoldMaster => 0xe3,
            Command::Temperature => 0xf3,
            Command::HumidityHoldMaster => 0xe5,
            Command::Humidity => 0xf5,
            Command::WriteUser(_) => 0xe6,
            Command::ReadUser => 0xe7,
            Command::SoftReset => 0xfe,
        }
    }

    /// Returns the transaction that issues the command
    pub fn transaction(&self) -> (transaction: Transaction)
        ensures
            transaction@ == self.exchange(),
    {
        let mut bytes: Vec<u8> = Vec::new();
        bytes.push(self.opcode());
        match self {
            Command::TemperatureHoldMaster | Command::HumidityHoldMaster => {
                assert(bytes@ =~= self.frame());
                Transaction::WriteRead { address: ADDRESS, bytes, length: READING_LENGTH }
            },
            Command::ReadUser => {
                assert(bytes@ =~= self.frame());
                Transaction::WriteRead { address: ADDRESS, bytes, length: 1 }
            },
            Command::WriteUser(register) => {
                bytes.push(register.to_raw());
                assert(bytes@ =~= self.frame());
                Transaction::Write { address: ADDRESS, bytes }
            },
            Command::Temperature | Command::Humidity | Command::SoftReset => {
                assert(bytes@ =~= self.frame());
                Transaction::Write { address: ADDRESS, bytes }
            },
        }
    }
}

} // verus!
