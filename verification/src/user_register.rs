//! Definitions for the user register

use vstd::prelude::*;

verus! {

/// Resolution for temperature and humidity measurements
///
/// Lower resolutions take less time to measure.
#[derive(Debug, Clone, Copy, PartialEq, Eq, Structural)]
pub enum Resolution {
    /// 12-bit humidity, 14-bit temperature
    Humidity12Temperature14,
    /// 8-bit humidity, 12-bit temperature
    Humidity8Temperature12,
    /// 10-bit humidity, 13-bit temperature
    Humidity10Temperature13,
    /// 11-bit humidity, 11-bit temperature
    Humidity11Temperature11,
}

/// Measurement of the power supply voltage
///
/// Note: The sensor's minimum power supply voltage is 1.5 V.
#[derive(Debug, Clone, Copy, PartialEq, Eq, Structural)]
pub enum SupplyVoltage {
    /// Greater than 2.25 +/- 0.1 V
    High,
    /// Less than 2.25 +/- 0.1 V
    Low,
}

/// What a register byte says, field by field. This is the view of a
/// [`UserRegister`]; together the five fields account for all eight bits.
pub struct RegisterFields {
    /// Bits 7 and 0.
    pub resolution: Resolution,
    /// Bit 6, set by the sensor when it takes a measurement.
    pub supply_voltage: SupplyVoltage,
    /// Bit 2.
    pub heater_enabled: bool,
    /// Bit 1, which is clear while the reload is enabled.
    pub otp_reload_enabled: bool,
    /// Bits 3 to 5, left where they stand in the byte; every other bit is zero.
    pub reserved: u8,
}

/// The mask of the reserved bits, 3 to 5.
pub const RESERVED_MASK: u8 = 0x38;

/// Whether the bit at `position` (0 is the least significant) is set in `byte`.
pub open spec fn bit_is_set(byte: u8, position: u8) -> bool {
    (byte >> position) & 1 == 1
}

/// `mask` where `set` holds, else no bit at all.
pub open spec fn bits_if(set: bool, mask: u8) -> u8 {
    if set {
        mask
    } else {
        0
    }
}

/// The fields that a register byte holds.
pub open spec fn decode_register(byte: u8) -> RegisterFields {
    RegisterFields {
        resolution: match (bit_is_set(byte, 7), bit_is_set(byte, 0)) {
            (false, false) => Resolution::Humidity12Temperature14,
            (false, true) => Resolution::Humidity8Temperature12,
            (true, false) => Resolution::Humidity10Temperature13,
            (true, true) => Resolution::Humidity11Temperature11,
        },
        supply_voltage: if bit_is_set(byte, 6) {
            SupplyVoltage::Low
        } else {
            SupplyVoltage::High
        },
        heater_enabled: bit_is_set(byte, 2),
        otp_reload_enabled: !bit_is_set(byte, 1),
        reserved: byte & RESERVED_MASK,
    }
}

/// The register byte that holds the given fields.
pub open spec fn encode_register(fields: RegisterFields) -> u8 {
    let high = fields.resolution == Resolution::Humidity10Temperature13 || fields.resolution
        == Resolution::Humidity11Temperature11;
    let low = fields.resolution == Resolution::Humidity8Temperature12 || fields.resolution
        == Resolution::Humidity11Temperature11;
    bits_if(high, 0x80) | bits_if(fields.supply_voltage == SupplyVoltage::Low, 0x40) | (
    fields.reserved & RESERVED_MASK) | bits_if(fields.heater_enabled, 0x04) | bits_if(
        !fields.otp_reload_enabled,
        0x02,
    ) | bits_if(low, 0x01)
}

/// Decoding loses nothing: the fields of a byte encode to that very byte.
pub proof fn lemma_encode_decode(byte: u8)
    ensures
        encode_register(decode_register(byte)) == byte,
{
    let fields = decode_register(byte);
    let b7 = bit_is_set(byte, 7);
    let b6 = bit_is_set(byte, 6);
    let b2 = bit_is_set(byte, 2);
    let b1 = bit_is_set(byte, 1);
    let b0 = bit_is_set(byte, 0);
    assert(bits_if(b7, 0x80) | bits_if(b6, 0x40) | ((byte & 0x38) & 0x38) | bits_if(b2, 0x04)
        | bits_if(b1, 0x02) | bits_if(b0, 0x01) == byte) by (bit_vector)
        requires
            b7 == ((byte >> 7u8) & 1 == 1),
            b6 == ((byte >> 6u8) & 1 == 1),
            b2 == ((byte >> 2u8) & 1 == 1),
            b1 == ((byte >> 1u8) & 1 == 1),
            b0 == ((byte >> 0u8) & 1 == 1),
    ;
}

/// Encoding loses nothing either: a byte made from fields whose `reserved`
/// part keeps to bits 3 to 5 decodes to those very fields.
pub proof fn lemma_decode_encode(fields: RegisterFields)
    requires
        fields.reserved & RESERVED_MASK == fields.reserved,
    ensures
        decode_register(encode_register(fields)) == fields,
{
    let high = fields.resolution == Resolution::Humidity10Temperature13 || fields.resolution
        == Resolution::Humidity11Temperature11;
    let low = fields.resolution == Resolution::Humidity8Temperature12 || fields.resolution
        == Resolution::Humidity11Temperature11;
    let volt = fields.supply_voltage == SupplyVoltage::Low;
    let heat = fields.heater_enabled;
    let keep = !fields.otp_reload_enabled;
    let reserved = fields.reserved;
    let byte = encode_register(fields);
    assert({
        &&& ((byte >> 7u8) & 1 == 1) == high
        &&& ((byte >> 6u8) & 1 == 1) == volt
        &&& ((byte >> 2u8) & 1 == 1) == heat
        &&& ((byte >> 1u8) & 1 == 1) == keep
        &&& ((byte >> 0u8) & 1 == 1) == low
        &&& byte & 0x38 == reserved
    }) by (bit_vector)
        requires
            byte == bits_if(high, 0x80) | bits_if(volt, 0x40) | (reserved & 0x38) | bits_if(
                heat,
                0x04,
            ) | bits_if(keep, 0x02) | bits_if(low, 0x01),
            reserved & 0x38 == reserved,
    ;
}

/// The user register, used for configuration
///
/// The only way to create a `UserRegister` object is to read it from a sensor. It can then be
/// modified and written back.
// The enclosed value is represented exactly as the sensor sends and receives it.
#[derive(Debug)]
pub struct UserRegister(pub(crate) u8);

impl View for UserRegister {
    type V = RegisterFields;

    open spec fn view(&self) -> RegisterFields {
        decode_register(self.raw())
    }
}

impl UserRegister {
    /// The byte exactly as the sensor sends and receives it.
    pub closed spec fn raw(&self) -> u8 {
        self.0
    }

    /// The fields say all there is to say: the byte is their encoding.
    pub proof fn lemma_raw_is_encoded_view(&self)
        ensures
            self.raw() == encode_register(self@),
    {
        lemma_encode_decode(self.0);
    }

    /// Wraps a byte exactly as the sensor sent it.
    pub(crate) fn from_raw(byte: u8) -> (register: Self)
        ensures
            register.raw() == byte,
    {
        UserRegister(byte)
    }

    /// Returns the byte exactly as the sensor is to receive it.
    pub(crate) fn to_raw(&self) -> (byte: u8)
        ensures
            byte == self.raw(),
    {
        self.0
    }

    /// Returns the current measurement resolution
    pub fn resolution(&self) -> (resolution: Resolution)
        ensures
            resolution == self@.resolution,
    {
        let bit7 = ((self.0 >> 7) & 1) == 1;
        let bit0 = (self.0 & 1) == 1;
        proof {
            let byte = self.0;
            assert(byte & 1 == (byte >> 0u8) & 1) by (bit_vector);
        }
        match (bit7, bit0) {
            (false, false) => Resolution::Humidity12Temperature14,
            (false, true) => Resolution::Humidity8Temperature12,
            (true, false) => Resolution::Humidity10Temperature13,
            (true, true) => Resolution::Humidity11Temperature11,
        }
    }

    /// Returns the supply voltage when the last temperature or humidity measurement was taken
    pub fn supply_voltage(&self) -> (voltage: SupplyVoltage)
        ensures
            voltage == self@.supply_voltage,
    {
        let bit6 = ((self.0 >> 6) & 1) == 1;
        if bit6 {
            SupplyVoltage::Low
        } else {
            SupplyVoltage::High
        }
    }

    /// Returns true if the on-chip heater is enabled
    pub fn heater_enabled(&self) -> (enabled: bool)
        ensures
            enabled == self@.heater_enabled,
    {
        ((self.0 >> 2) & 1) == 1
    }

    /// Returns true if the one-time programmable memory reload is active
    ///
    /// With this active, the default settings will be restored after each temperature or
    /// humidity measurement.
    pub fn otp_reload_enabled(&self) -> (enabled: bool)
        ensures
            enabled == self@.otp_reload_enabled,
    {
        let bit1 = ((self.0 >> 1) & 1) == 1;
        // Invert (1 = disable)
        !bit1
    }

    ///  Sets the measurement resolution
    pub fn set_resolution(&mut self, resolution: Resolution)
        ensures
            final(self)@ == (RegisterFields { resolution, ..old(self)@ }),
    {
        let bit_7_mask: u8 = 0x80;
        let bit_0_mask: u8 = 0x01;
        // Clear bits 7 and 0
        self.0 &= !(bit_7_mask | bit_0_mask);
        let ghost cleared = self.0;
        match resolution {
            Resolution::Humidity12Temperature14 => {  /* Leave both bits clear */
            },
            Resolution::Humidity8Temperature12 => {
                // Set bit 0
                self.0 |= bit_0_mask;
            },
            Resolution::Humidity10Temperature13 => {
                // Set bit 7
                self.0 |= bit_7_mask;
            },
            Resolution::Humidity11Temperature11 => {
                // Set bits 7 and 0
                self.0 |= bit_7_mask | bit_0_mask;
            },
        }
        proof {
            let before = old(self).0;
            let after = self.0;
            let high = resolution == Resolution::Humidity10Temperature13 || resolution
                == Resolution::Humidity11Temperature11;
            let low = resolution == Resolution::Humidity8Temperature12 || resolution
                == Resolution::Humidity11Temperature11;
            assert({
                &&& bit_is_set(after, 7) == high
                &&& bit_is_set(after, 0) == low
                &&& bit_is_set(after, 6) == bit_is_set(before, 6)
                &&& bit_is_set(after, 2) == bit_is_set(before, 2)
                &&& bit_is_set(after, 1) == bit_is_set(before, 1)
                &&& after & RESERVED_MASK == before & RESERVED_MASK
            }) by (bit_vector)
                requires
                    cleared == before & !(0x80u8 | 0x01u8),
                    (!high && !low && after == cleared) || (!high && low && after == cleared
                        | 0x01u8) || (high && !low && after == cleared | 0x80u8) || (high && low
                        && after == cleared | (0x80u8 | 0x01u8)),
            ;
        }
    }

    /// Enables or disables the on-chip heater
    pub fn set_heater_enabled(&mut self, enabled: bool)
        ensures
            final(self)@ == (RegisterFields { heater_enabled: enabled, ..old(self)@ }),
    {
        let bit_2_mask: u8 = 0x04;
        if enabled {
            self.0 |= bit_2_mask;
        } else {
            self.0 &= !bit_2_mask;
        }
        proof {
            let before = old(self).0;
            let after = self.0;
            assert({
                &&& bit_is_set(after, 2) == enabled
                &&& bit_is_set(after, 7) == bit_is_set(before, 7)
                &&& bit_is_set(after, 6) == bit_is_set(before, 6)
                &&& bit_is_set(after, 1) == bit_is_set(before, 1)
                &&& bit_is_set(after, 0) == bit_is_set(before, 0)
                &&& after & RESERVED_MASK == before & RESERVED_MASK
            }) by (bit_vector)
                requires
                    (enabled && after == before | 0x04u8) || (!enabled && after == before
                        & !0x04u8),
            ;
        }
    }

    /// Enables or disables the reloading of default settings from one-time programmable memory
    /// after each measurement
    pub fn set_otp_reload_enabled(&mut self, otp_reload: bool)
        ensures
            final(self)@ == (RegisterFields { otp_reload_enabled: otp_reload, ..old(self)@ }),
    {
        let bit_1_mask: u8 = 0x02;
        if otp_reload {
            // Clear bit (0 = enable)
            self.0 &= !bit_1_mask;
        } else {
            // Set bit (1 = disable)
            self.0 |= bit_1_mask;
        }
        proof {
            let before = old(self).0;
            let after = self.0;
            assert({
                &&& bit_is_set(after, 1) == !otp_reload
                &&& bit_is_set(after, 7) == bit_is_set(before, 7)
                &&& bit_is_set(after, 6) == bit_is_set(before, 6)
                &&& bit_is_set(after, 2) == bit_is_set(before, 2)
                &&& bit_is_set(after, 0) == bit_is_set(before, 0)
                &&& after & RESERVED_MASK == before & RESERVED_MASK
            }) by (bit_vector)
                requires
                    (otp_reload && after == before & !0x02u8) || (!otp_reload && after == before
                        | 0x02u8),
            ;
        }
    }
}

} // verus!
