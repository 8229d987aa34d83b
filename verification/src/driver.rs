//! The acquisition protocol: what to send to the sensor, and what its replies mean.

use vstd::prelude::*;
use core::marker::PhantomData;
use crate::bus::{Command, Transaction, TransactionView, ADDRESS, READING_LENGTH};
use crate::crc::{
    crc_fold, crc_valid, lemma_checksum_appended_is_valid, lemma_single_bit_flip_is_detected, Crc,
};
use crate::reading::{decode_reading, Humidity, Measurement, Reading, Temperature};
use crate::user_register::UserRegister;

verus! {

/// An I2C or CRC error
#[derive(Debug)]
pub enum Error<E> {
    /// The I2C driver returned an error
    I2c(E),
    /// A message was received from the sensor with an invalid CRC checksum
    Crc,
}

impl<E> From<E> for Error<E> {
    fn from(inner: E) -> (error: Self) {
        Error::I2c(inner)
    }
}

impl<E> vstd::std_specs::convert::FromSpecImpl<E> for Error<E> {
    open spec fn obeys_from_spec() -> bool {
        true
    }

    open spec fn from_spec(inner: E) -> Self {
        Error::I2c(inner)
    }
}

/// Why a poll brought no reading.
#[derive(Debug)]
pub enum PollError<E> {
    /// The measurement failed
    Other(E),
    /// The sensor is still measuring: poll again later
    WouldBlock,
}

/// The raw word of a reply: its first byte is the high byte, its second the low byte.
pub open spec fn reply_word(bytes: Seq<u8>) -> u16 {
    (bytes[0] * 256 + bytes[1]) as u16
}

/// What a three-byte reply means: a reading, if the bytes pass the integrity
/// check, and a CRC error if they do not.
pub open spec fn checked_reading<E>(bytes: Seq<u8>) -> Result<Reading<u16>, Error<E>> {
    if crc_valid(bytes) {
        Ok(decode_reading(reply_word(bytes)))
    } else {
        Err(Error::Crc)
    }
}

/// Whether `got` is `expected`: the same error, or a reading with the same view.
pub open spec fn yields<M: Measurement, X>(
    got: Result<Reading<M>, X>,
    expected: Result<Reading<u16>, X>,
) -> bool {
    match expected {
        Ok(reading) => got matches Ok(g) && g@ == reading,
        Err(error) => got matches Err(e) && e == error,
    }
}

/// Checks the CRC of a 3-byte temperature or humidity reading and parses it as a `Reading` object
pub fn parse_and_check_reading<M, E>(bytes: &[u8; 3]) -> (result: Result<Reading<M>, Error<E>>) where
    M: Measurement,

    ensures
        yields(result, checked_reading::<E>(bytes@)),
{
    // Check CRC
    let mut crc = Crc::new();
    crc.add_all(bytes.as_slice());
    if crc.value() != 0 {
        return Err(Error::Crc);
    }
    // Parse reading

    let reading16: u16 = (u16::from(bytes[0]) << 8) | u16::from(bytes[1]);
    proof {
        let high = bytes[0];
        let low = bytes[1];
        assert(((high as u16) << 8) | (low as u16) == (high * 256 + low) as u16) by (bit_vector);
    }
    Ok(Reading::from_raw(reading16))
}

/// What a blocking read makes of what the bus returned: a transport error is
/// passed on, a reply is checked and decoded.
pub open spec fn blocking_outcome<E>(reply: Result<[u8; 3], E>) -> Result<Reading<u16>, Error<E>> {
    match reply {
        Ok(bytes) => checked_reading(bytes@),
        Err(error) => Err(Error::I2c(error)),
    }
}

/// What a poll makes of what the bus returned. A reply is checked and
/// decoded. A transport error means that the sensor is still measuring if it
/// is a negative acknowledge (`nak`), and is passed on if it is not.
pub open spec fn poll_outcome<E>(reply: Result<[u8; 3], E>, nak: bool) -> Result<
    Reading<u16>,
    PollError<Error<E>>,
> {
    match reply {
        Ok(bytes) => match checked_reading::<E>(bytes@) {
            Ok(reading) => Ok(reading),
            Err(error) => Err(PollError::Other(error)),
        },
        Err(error) => if nak {
            Err(PollError::WouldBlock)
        } else {
            Err(PollError::Other(Error::I2c(error)))
        },
    }
}

/// Whether a poll finds the sensor busy.
pub open spec fn busy<E>(reply: Result<[u8; 3], E>, nak: bool) -> bool {
    poll_outcome(reply, nak) matches Err(PollError::WouldBlock)
}

/// Whether a proxy is still pending after the polls of `polls`, made in
/// order. Each poll is what the bus returned together with whether the
/// caller's predicate takes the error, if it is one, for a negative
/// acknowledge. The proxy is pending as long as every poll found the sensor
/// busy.
pub open spec fn pending_after<E>(polls: Seq<(Result<[u8; 3], E>, bool)>) -> bool
    decreases polls.len(),
{
    polls.len() > 0 ==> pending_after(polls.drop_last()) && busy(polls.last().0, polls.last().1)
}

/// A poll finds the sensor busy exactly when the bus reports an error that
/// is a negative acknowledge; nothing else is ever reported as busy.
pub proof fn lemma_busy_iff_nak<E>(reply: Result<[u8; 3], E>, nak: bool)
    ensures
        busy(reply, nak) <==> reply is Err && nak,
{
}

/// Polling through any number of negative acknowledges reports busy each
/// time and leaves the proxy pending.
pub proof fn lemma_polls_while_busy<E>(polls: Seq<(Result<[u8; 3], E>, bool)>)
    requires
        forall|i: int| 0 <= i < polls.len() ==> (#[trigger] polls[i]).0 is Err && polls[i].1,
    ensures
        pending_after(polls),
        forall|i: int| 0 <= i < polls.len() ==> busy((#[trigger] polls[i]).0, polls[i].1),
    decreases polls.len(),
{
    if polls.len() > 0 {
        lemma_polls_while_busy(polls.drop_last());
    }
}

/// The poll that ends an acquisition. After any number of negative
/// acknowledges, a reply that passes the integrity check yields the reading
/// it encodes, one that does not yields a CRC error, and a transport error
/// that is no negative acknowledge yields that error; in each case the proxy
/// is pending no longer.
pub proof fn lemma_poll_that_ends<E>(
    polls: Seq<(Result<[u8; 3], E>, bool)>,
    reply: Result<[u8; 3], E>,
    nak: bool,
)
    requires
        forall|i: int| 0 <= i < polls.len() ==> (#[trigger] polls[i]).0 is Err && polls[i].1,
        !(reply is Err && nak),
    ensures
        !pending_after(polls.push((reply, nak))),
        match reply {
            Ok(bytes) => if crc_valid(bytes@) {
                poll_outcome(reply, nak) matches Ok(reading) && reading == decode_reading(
                    reply_word(bytes@),
                )
            } else {
                poll_outcome(reply, nak) matches Err(PollError::Other(Error::Crc))
            },
            Err(error) => poll_outcome(reply, nak) matches Err(PollError::Other(Error::I2c(e)))
                && e == error,
        },
{
    assert(polls.push((reply, nak)).last() == (reply, nak));
}

/// Both ways of acquisition make the same of the same reply: the reading
/// that polling yields for three bytes is the reading that a blocking read
/// yields for them, and where one reports an error the other reports it too.
pub proof fn lemma_blocking_agrees_with_polling<E>(bytes: [u8; 3], nak: bool)
    ensures
        match blocking_outcome::<E>(Ok(bytes)) {
            Ok(reading) => poll_outcome::<E>(Ok(bytes), nak) matches Ok(polled) && polled
                == reading,
            Err(error) => poll_outcome::<E>(Ok(bytes), nak) matches Err(PollError::Other(e)) && e
                == error,
        },
{
}

/// A reply made of a raw word and the checksum of its two bytes is accepted,
/// and read as that word.
pub proof fn lemma_reply_with_checksum_is_accepted<E>(high: u8, low: u8)
    ensures
        checked_reading::<E>(seq![high, low, crc_fold(0, seq![high, low])]) matches Ok(reading)
            && reading == decode_reading((high * 256 + low) as u16),
{
    let word = seq![high, low];
    lemma_checksum_appended_is_valid(word);
    assert(word.push(crc_fold(0, word)) =~= seq![high, low, crc_fold(0, word)]);
}

/// A reply in which a single bit was flipped on the way, in any of its
/// bytes, is rejected with a CRC error.
pub proof fn lemma_reply_with_flipped_bit_is_rejected<E>(bytes: Seq<u8>, index: int, bit: u8)
    requires
        crc_valid(bytes),
        0 <= index < bytes.len(),
        bit < 8,
    ensures
        checked_reading::<E>(bytes.update(index, bytes[index] ^ (1u8 << bit))) matches Err(
            Error::Crc,
        ),
{
    lemma_single_bit_flip_is_detected(bytes, index, bit);
}

/// HTU2XD driver that does not own the I2C bus
///
/// The driver does not touch the bus either. For each operation it names the
/// [`Transaction`] that the caller is to carry out on the bus, or takes what
/// the bus returned for that transaction and says what it means.
#[derive(Debug, Default)]
pub struct Htu2xd {}

impl Htu2xd {
    /// Creates a driver object, but does not perform any initialization
    pub fn new() -> Self {
        Htu2xd {  }
    }

    /// Resets the sensor and restores default settings, but does not restore the heater enable bit
    ///
    /// Returns the transaction that does so. After it has been carried out
    /// the sensor may take up to 15 ms to reset.
    pub fn soft_reset(&mut self) -> (transaction: Transaction)
        ensures
            transaction@ == (TransactionView::Write { address: ADDRESS, bytes: seq![0xfeu8] }),
    {
        Command::SoftReset.transaction()
    }

    /// Reads the current humidity
    ///
    /// In this mode, the sensor stretches the I2C clock while it takes a measurement: the
    /// transaction of [`Command::HumidityHoldMaster`] blocks until the measurement has finished
    /// and been read. `reply` is what that transaction returned.
    pub fn read_humidity_blocking<E>(&mut self, reply: Result<[u8; 3], E>) -> (result: Result<
        Reading<Humidity>,
        Error<E>,
    >)
        ensures
            yields(result, blocking_outcome(reply)),
    {
        match reply {
            Ok(buffer) => parse_and_check_reading(&buffer),
            Err(error) => Err(Error::from(error)),
        }
    }

    /// Reads the current temperature
    ///
    /// In this mode, the sensor stretches the I2C clock while it takes a measurement: the
    /// transaction of [`Command::TemperatureHoldMaster`] blocks until the measurement has
    /// finished and been read. `reply` is what that transaction returned.
    pub fn read_temperature_blocking<E>(&mut self, reply: Result<[u8; 3], E>) -> (result: Result<
        Reading<Temperature>,
        Error<E>,
    >)
        ensures
            yields(result, blocking_outcome(reply)),
    {
        match reply {
            Ok(buffer) => parse_and_check_reading(&buffer),
            Err(error) => Err(Error::from(error)),
        }
    }

    /// Reads the current humidity
    ///
    /// In this mode, the sensor does not stretch the I2C clock. `started` is what the
    /// transaction of [`Command::Humidity`], which starts the measurement, returned. If the
    /// command was sent, this function returns a proxy that can be polled to determine if the
    /// result is ready.
    pub fn read_humidity<'h, E>(&'h mut self, started: Result<(), E>) -> (result: Result<
        ResultReader<'h, Humidity>,
        E,
    >)
        ensures
            match started {
                Ok(_) => result matches Ok(reader) && reader.is_pending(),
                Err(error) => result matches Err(e) && e == error,
            },
    {
        match started {
            Ok(_) => Ok(ResultReader::started()),
            Err(error) => Err(error),
        }
    }

    /// Reads the current temperature
    ///
    /// In this mode, the sensor does not stretch the I2C clock. `started` is what the
    /// transaction of [`Command::Temperature`], which starts the measurement, returned. If the
    /// command was sent, this function returns a proxy that can be polled to determine if the
    /// result is ready.
    pub fn read_temperature<'h, E>(&'h mut self, started: Result<(), E>) -> (result: Result<
        ResultReader<'h, Temperature>,
        E,
    >)
        ensures
            match started {
                Ok(_) => result matches Ok(reader) && reader.is_pending(),
                Err(error) => result matches Err(e) && e == error,
            },
    {
        match started {
            Ok(_) => Ok(ResultReader::started()),
            Err(error) => Err(error),
        }
    }

    /// Reads the user register and returns its content
    ///
    /// `reply` is what the transaction of [`Command::ReadUser`] returned.
    pub fn read_user_register<E>(&mut self, reply: Result<u8, E>) -> (result: Result<
        UserRegister,
        E,
    >)
        ensures
            match reply {
                Ok(byte) => result matches Ok(register) && register.raw() == byte,
                Err(error) => result matches Err(e) && e == error,
            },
    {
        match reply {
            Ok(register_value) => Ok(UserRegister::from_raw(register_value)),
            Err(error) => Err(error),
        }
    }

    /// Writes the user register
    ///
    /// You must use the `read_user_register` function to get a `UserRegister` object that
    /// can be modified and then passed to this function, which returns the
    /// transaction that writes it.
    pub fn write_user_register(&mut self, register: UserRegister) -> (transaction: Transaction)
        ensures
            transaction@ == (TransactionView::Write {
                address: ADDRESS,
                bytes: seq![0xe6u8, register.raw()],
            }),
    {
        Command::WriteUser(register).transaction()
    }
}

/// A proxy used to read the result of a non-blocking measurement
///
/// It is pending from the moment the measurement was started until a poll
/// brings anything but [`PollError::WouldBlock`]. After that it must not be
/// polled again.
#[derive(Debug)]
pub struct ResultReader<'h, M> {
    pending: bool,
    _driver: PhantomData<&'h Htu2xd>,
    _reading: PhantomData<M>,
}

impl<'h, M> ResultReader<'h, M> where M: Measurement {
    /// Whether the measurement is still in flight, so that the proxy may be polled.
    pub closed spec fn is_pending(&self) -> bool {
        self.pending
    }

    fn started() -> (reader: Self)
        ensures
            reader.is_pending(),
    {
        ResultReader { pending: true, _driver: PhantomData, _reading: PhantomData }
    }

    /// Returns true once a poll has brought a reading or an error, after
    /// which the proxy must not be polled again
    pub fn is_done(&self) -> (done: bool)
        ensures
            done == !self.is_pending(),
    {
        !self.pending
    }

    /// Returns the transaction that polls the sensor: a plain read of one
    /// reading. The command is not sent again.
    pub fn poll(&self) -> (transaction: Transaction)
        ensures
            transaction@ == (TransactionView::Read {
                address: ADDRESS,
                length: READING_LENGTH as nat,
            }),
    {
        Transaction::Read { address: ADDRESS, length: READING_LENGTH }
    }

    /// Attempts to read a measurement result from the sensor
    ///
    /// `reply` is what the transaction of [`ResultReader::poll`] returned.
    ///
    /// is_nak must be a closure that returns true if the provided error is a NAK (negative
    /// acknowledge) error, or false otherwise.
    ///
    /// This function returns `Err(PollError::WouldBlock)` if the sensor does not acknowledge
    /// its address. This means that it is still performing the measurement. This function should
    /// be called again later to try again.
    ///
    /// On success, this function returns the sensor reading.
    ///
    /// After this function returns anything other than `Err(PollError::WouldBlock)`, this
    /// `ResultReader` must not be used again.
    pub fn read_result<E, F>(&mut self, reply: Result<[u8; 3], E>, is_nak: F) -> (result: Result<
        Reading<M>,
        PollError<Error<E>>,
    >) where F: FnOnce(&E) -> bool
        requires
            old(self).is_pending(),
            reply matches Err(error) ==> is_nak.requires((&error,)),
        ensures
            match reply {
                Ok(_) => yields(result, poll_outcome(reply, false)),
                Err(error) => exists|nak: bool|
                    is_nak.ensures((&error,), nak) && yields(result, poll_outcome(reply, nak)),
            },
            final(self).is_pending() <==> result matches Err(PollError::WouldBlock),
    {
        match reply {
            Ok(buffer) => {
                self.pending = false;
                match parse_and_check_reading::<M, E>(&buffer) {
                    Ok(reading) => Ok(reading),
                    Err(error) => Err(PollError::Other(error)),
                }
            },
            Err(e) => {
                let nak: bool = is_nak(&e);
                let result = if nak {
                    // Measurement is still in progress, try again later
                    Err(PollError::WouldBlock)
                } else {
                    // Some other error, not a NAK
                    self.pending = false;
                    Err(PollError::Other(Error::I2c(e)))
                };
                assert(is_nak.ensures((&e,), nak) && yields(result, poll_outcome(reply, nak)));
                result
            },
        }
    }
}

} // verus!
