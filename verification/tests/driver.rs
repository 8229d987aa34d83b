use htu2xd::crc::Crc;
use htu2xd::{
    parse_and_check_reading, Command, Error, Htu2xd, Humidity, PollError, Reading, ResultReader,
    Temperature, Transaction, ADDRESS,
};

#[derive(Debug, Clone, Copy, PartialEq)]
enum BusError {
    Nak,
    ArbitrationLoss,
}

fn is_nak(error: &BusError) -> bool {
    *error == BusError::Nak
}

fn never_asked(_: &BusError) -> bool {
    panic!("a reply is no error to classify")
}

fn with_checksum(word: u16) -> [u8; 3] {
    let [high, low] = word.to_be_bytes();
    let mut crc = Crc::new();
    crc.add_all(&[high, low]);
    [high, low, crc.value()]
}

fn raw_of_temperature(reading: Reading<Temperature>) -> Option<u16> {
    match reading {
        Reading::Normal(temperature) => Some(temperature.as_raw()),
        Reading::ErrorLow => None,
        Reading::ErrorHigh => None,
    }
}

fn started_temperature(htu: &mut Htu2xd) -> ResultReader<'_, Temperature> {
    htu.read_temperature::<BusError>(Ok(())).unwrap()
}

#[test]
fn address_is_fixed() {
    assert_eq!(ADDRESS, 0x40);
}

#[test]
fn opcodes() {
    assert_eq!(Command::TemperatureHoldMaster.opcode(), 0xe3);
    assert_eq!(Command::HumidityHoldMaster.opcode(), 0xe5);
    assert_eq!(Command::Temperature.opcode(), 0xf3);
    assert_eq!(Command::Humidity.opcode(), 0xf5);
    assert_eq!(Command::ReadUser.opcode(), 0xe7);
    assert_eq!(Command::SoftReset.opcode(), 0xfe);
    let register = Htu2xd::new().read_user_register::<()>(Ok(0x02)).unwrap();
    assert_eq!(Command::WriteUser(register).opcode(), 0xe6);
}

#[test]
fn transactions_of_the_commands() {
    assert_eq!(
        Command::TemperatureHoldMaster.transaction(),
        Transaction::WriteRead { address: 0x40, bytes: vec![0xe3], length: 3 }
    );
    assert_eq!(
        Command::HumidityHoldMaster.transaction(),
        Transaction::WriteRead { address: 0x40, bytes: vec![0xe5], length: 3 }
    );
    assert_eq!(
        Command::Temperature.transaction(),
        Transaction::Write { address: 0x40, bytes: vec![0xf3] }
    );
    assert_eq!(
        Command::Humidity.transaction(),
        Transaction::Write { address: 0x40, bytes: vec![0xf5] }
    );
    assert_eq!(
        Command::ReadUser.transaction(),
        Transaction::WriteRead { address: 0x40, bytes: vec![0xe7], length: 1 }
    );
    assert_eq!(
        Command::SoftReset.transaction(),
        Transaction::Write { address: 0x40, bytes: vec![0xfe] }
    );
    let register = Htu2xd::new().read_user_register::<()>(Ok(0x3a)).unwrap();
    assert_eq!(
        Command::WriteUser(register).transaction(),
        Transaction::Write { address: 0x40, bytes: vec![0xe6, 0x3a] }
    );
}

#[test]
fn soft_reset_is_one_write() {
    let mut htu = Htu2xd::new();
    assert_eq!(htu.soft_reset(), Transaction::Write { address: 0x40, bytes: vec![0xfe] });
}

#[test]
fn write_user_register_sends_the_register_byte() {
    let mut htu = Htu2xd::default();
    let mut register = htu.read_user_register::<BusError>(Ok(0b0000_0010)).unwrap();
    register.set_heater_enabled(true);
    assert_eq!(
        htu.write_user_register(register),
        Transaction::Write { address: 0x40, bytes: vec![0xe6, 0b0000_0110] }
    );
}

#[test]
fn read_user_register_passes_the_bus_error_on() {
    let mut htu = Htu2xd::new();
    let error = htu.read_user_register(Err(BusError::ArbitrationLoss)).unwrap_err();
    assert_eq!(error, BusError::ArbitrationLoss);
}

#[test]
fn parse_accepts_a_reply_with_its_checksum() {
    let reading = parse_and_check_reading::<Temperature, BusError>(&[0x4e, 0x85, 0x6b]).unwrap();
    assert_eq!(raw_of_temperature(reading), Some(0x4e84));
    let reading = parse_and_check_reading::<Humidity, BusError>(&[0x68, 0x3a, 0x7c]).unwrap();
    assert!(matches!(reading, Reading::Normal(humidity) if humidity.as_raw() == 0x6838));
}

#[test]
fn parse_takes_the_first_byte_as_the_high_byte() {
    let reading = parse_and_check_reading::<Temperature, BusError>(&with_checksum(0x0100)).unwrap();
    assert_eq!(raw_of_temperature(reading), Some(0x0100));
    let reading = parse_and_check_reading::<Temperature, BusError>(&with_checksum(0x00fc)).unwrap();
    assert_eq!(raw_of_temperature(reading), Some(0x00fc));
}

#[test]
fn parse_rejects_a_wrong_checksum() {
    let result = parse_and_check_reading::<Temperature, BusError>(&[0x4e, 0x85, 0x6a]);
    assert!(matches!(result, Err(Error::Crc)));
    let result = parse_and_check_reading::<Humidity, BusError>(&[0x68, 0x3b, 0x7c]);
    assert!(matches!(result, Err(Error::Crc)));
}

#[test]
fn parse_decodes_the_off_scale_marks() {
    let low = parse_and_check_reading::<Temperature, BusError>(&with_checksum(0x0000));
    assert!(matches!(low, Ok(Reading::ErrorLow)));
    let high = parse_and_check_reading::<Humidity, BusError>(&with_checksum(0xffff));
    assert!(matches!(high, Ok(Reading::ErrorHigh)));
}

#[test]
fn parse_checks_before_it_decodes() {
    let result = parse_and_check_reading::<Temperature, BusError>(&[0x00, 0x00, 0x01]);
    assert!(matches!(result, Err(Error::Crc)));
}

#[test]
fn parse_rejects_every_single_bit_flip() {
    let reply = [0x4eu8, 0x85, 0x6b];
    for index in 0..3 {
        for bit in 0..8 {
            let mut flipped = reply;
            flipped[index] ^= 1 << bit;
            let result = parse_and_check_reading::<Temperature, BusError>(&flipped);
            assert!(matches!(result, Err(Error::Crc)));
        }
    }
}

#[test]
fn error_from_wraps_the_bus_error() {
    let error: Error<BusError> = Error::from(BusError::Nak);
    assert!(matches!(error, Error::I2c(BusError::Nak)));
}

#[test]
fn blocking_read_wraps_the_bus_error() {
    let mut htu = Htu2xd::new();
    let result = htu.read_temperature_blocking(Err(BusError::ArbitrationLoss));
    assert!(matches!(result, Err(Error::I2c(BusError::ArbitrationLoss))));
    let result = htu.read_humidity_blocking(Err(BusError::Nak));
    assert!(matches!(result, Err(Error::I2c(BusError::Nak))));
}

#[test]
fn blocking_read_reports_a_wrong_checksum() {
    let mut htu = Htu2xd::new();
    let result = htu.read_humidity_blocking::<BusError>(Ok([0x68, 0x3a, 0x7d]));
    assert!(matches!(result, Err(Error::Crc)));
}

#[test]
fn blocking_read_decodes() {
    let mut htu = Htu2xd::new();
    let reading = htu.read_temperature_blocking::<BusError>(Ok([0x4e, 0x85, 0x6b])).unwrap();
    assert_eq!(raw_of_temperature(reading), Some(0x4e84));
    let reading = htu.read_humidity_blocking::<BusError>(Ok(with_checksum(0xffff))).unwrap();
    assert!(matches!(reading, Reading::ErrorHigh));
}

#[test]
fn start_that_fails_gives_no_proxy() {
    let mut htu = Htu2xd::new();
    let result = htu.read_temperature(Err(BusError::ArbitrationLoss));
    assert!(matches!(result, Err(BusError::ArbitrationLoss)));
    let result = htu.read_humidity(Err(BusError::Nak));
    assert!(matches!(result, Err(BusError::Nak)));
}

#[test]
fn proxy_starts_pending() {
    let mut htu = Htu2xd::new();
    assert!(!htu.read_humidity::<BusError>(Ok(())).unwrap().is_done());
    assert!(!started_temperature(&mut htu).is_done());
}

#[test]
fn poll_is_a_read_of_three_bytes() {
    let mut htu = Htu2xd::new();
    let reader = started_temperature(&mut htu);
    assert_eq!(reader.poll(), Transaction::Read { address: 0x40, length: 3 });
}

#[test]
fn nak_means_busy() {
    let mut htu = Htu2xd::new();
    let mut reader = started_temperature(&mut htu);
    let result = reader.read_result(Err(BusError::Nak), is_nak);
    assert!(matches!(result, Err(PollError::WouldBlock)));
    assert!(!reader.is_done());
}

#[test]
fn busy_for_any_number_of_naks_then_the_reading() {
    for naks in [0usize, 1, 2, 7, 100] {
        let mut htu = Htu2xd::new();
        let mut reader = started_temperature(&mut htu);
        for _ in 0..naks {
            let result = reader.read_result(Err(BusError::Nak), is_nak);
            assert!(matches!(result, Err(PollError::WouldBlock)));
            assert!(!reader.is_done());
            assert_eq!(reader.poll(), Transaction::Read { address: 0x40, length: 3 });
        }
        let reading = reader.read_result(Ok([0x4e, 0x85, 0x6b]), is_nak).unwrap();
        assert_eq!(raw_of_temperature(reading), Some(0x4e84));
        assert!(reader.is_done());
    }
}

#[test]
fn other_bus_error_ends_the_acquisition() {
    let mut htu = Htu2xd::new();
    let mut reader = started_temperature(&mut htu);
    let result = reader.read_result(Err(BusError::Nak), is_nak);
    assert!(matches!(result, Err(PollError::WouldBlock)));
    let result = reader.read_result(Err(BusError::ArbitrationLoss), is_nak);
    assert!(matches!(result, Err(PollError::Other(Error::I2c(BusError::ArbitrationLoss)))));
    assert!(reader.is_done());
}

#[test]
fn the_predicate_decides_what_is_busy() {
    let mut htu = Htu2xd::new();
    let mut reader = started_temperature(&mut htu);
    let result = reader.read_result(Err(BusError::Nak), |_: &BusError| false);
    assert!(matches!(result, Err(PollError::Other(Error::I2c(BusError::Nak)))));
    assert!(reader.is_done());
    let mut reader = started_temperature(&mut htu);
    let result = reader.read_result(Err(BusError::ArbitrationLoss), |_: &BusError| true);
    assert!(matches!(result, Err(PollError::WouldBlock)));
    assert!(!reader.is_done());
}

#[test]
fn wrong_checksum_ends_the_acquisition() {
    let mut htu = Htu2xd::new();
    let mut reader = htu.read_humidity::<BusError>(Ok(())).unwrap();
    let result = reader.read_result(Ok([0x68, 0x3a, 0x00]), never_asked);
    assert!(matches!(result, Err(PollError::Other(Error::Crc))));
    assert!(reader.is_done());
}

#[test]
fn a_reply_is_never_classified() {
    let mut htu = Htu2xd::new();
    let mut reader = htu.read_humidity::<BusError>(Ok(())).unwrap();
    let reading = reader.read_result(Ok([0x68, 0x3a, 0x7c]), never_asked).unwrap();
    assert!(matches!(reading, Reading::Normal(humidity) if humidity.as_raw() == 0x6838));
    assert!(reader.is_done());
}

#[test]
fn blocking_and_polling_agree() {
    for word in (0..=u16::MAX).step_by(251).chain([0xffff]) {
        for reply in [with_checksum(word), [0x12, 0x34, (word & 0xff) as u8]] {
            let mut htu = Htu2xd::new();
            let blocking = htu.read_temperature_blocking::<BusError>(Ok(reply));
            let mut reader = started_temperature(&mut htu);
            let polled = reader.read_result(Ok(reply), is_nak);
            match (blocking, polled) {
                (Ok(Reading::Normal(a)), Ok(Reading::Normal(b))) => {
                    assert_eq!(a.as_raw(), b.as_raw())
                }
                (Ok(Reading::ErrorLow), Ok(Reading::ErrorLow)) => assert_eq!(word, 0),
                (Ok(Reading::ErrorHigh), Ok(Reading::ErrorHigh)) => assert_eq!(word, 0xffff),
                (Err(Error::Crc), Err(PollError::Other(Error::Crc))) => {}
                (blocking, polled) => panic!("{:?} against {:?}", blocking, polled),
            }
        }
    }
}
