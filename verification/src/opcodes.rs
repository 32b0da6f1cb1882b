//! Register protocol codec: pure bit-packing and unpacking of the
//! transceiver's single-byte configuration and status registers.
//!
//! Every `serialize` states the exact byte it produces; every `deserialize`
//! states the exact fields it recovers. Closed enumerations decode through a
//! total function over the relevant bit range, and out-of-range numeric
//! fields are rejected with a typed error before any byte is produced.

use vstd::prelude::*;

verus! {

/// Structural decode errors of the register codec.
#[derive(Debug, Clone, Copy, PartialEq, Eq, Structural)]
pub enum Error {
    ModeNotSupported(u8),
    FrequencyOutOfRange(u32),
    SymbTimeoutMsbOverflow(u8),
    OutputPowerOverflow(u8),
    MaxPowerOverflow(u8),
    PaRampTimeNotSupported(u8),
}

/// Register addresses of the transceiver's flat byte-wide register space.
#[derive(Debug, Clone, Copy, PartialEq, Eq, Structural)]
pub enum Reg {
    Fifo,
    // Common register settings
    OpMode,
    FrfMsb,
    FrfMid,
    FrfLsb,
    // Registers for RF blocks
    PaConfig,
    PaRamp,
    Ocp,
    Lna,
    // Long-range page registers
    FifoAddrPtr,
    FifoTxBaseAddr,
    FifoRxBaseAddr,
    FifoRxCurrentAddr,
    IrqFlagsMask,
    IrqFlags,
    RxNbBytes,
    RxHeaderCntValueMsb,
    RxHeaderCntValueLsb,
    RxPacketCntValueMsb,
    RxPacketCntValueLsb,
    ModemStat,
    PktSnrValue,
    PktRssiValue,
    RssiValue,
    HopChannel,
    ModemConfig1,
    ModemConfig2,
    SymbTimeoutLsb,
    PreambleMsb,
    PreambleLsb,
    PayloadLength,
    MaxPayloadLength,
    HopPeriod,
    FifoRxByteAddr,
    ModemConfig3,
    FeiMsb,
    FeiMid,
    FeiLsb,
    RssiWideband,
    IfFreq1,
    IfFreq2,
    DetectOptimize,
    InvertIQ,
    HighBwOptimize1,
    DetectionThreshold,
    SyncWord,
    HighBwOptimize2,
    InvertIQ2,
    DioMapping1,
    DioMapping2,
    Version,
    Tcxo,
    PaDac,
    FormerTemp,
    AgcRef,
    AgcThresh1,
    AgcThresh2,
    AgcThresh3,
    Pll,
}

/// The bus address of each register.
pub open spec fn spec_reg_addr(r: Reg) -> u8 {
    match r {
        Reg::Fifo => 0x00,
        Reg::OpMode => 0x01,
        Reg::FrfMsb => 0x06,
        Reg::FrfMid => 0x07,
        Reg::FrfLsb => 0x08,
        Reg::PaConfig => 0x09,
        Reg::PaRamp => 0x0A,
        Reg::Ocp => 0x0B,
        Reg::Lna => 0x0C,
        Reg::FifoAddrPtr => 0x0D,
        Reg::FifoTxBaseAddr => 0x0E,
        Reg::FifoRxBaseAddr => 0x0F,
        Reg::FifoRxCurrentAddr => 0x10,
        Reg::IrqFlagsMask => 0x11,
        Reg::IrqFlags => 0x12,
        Reg::RxNbBytes => 0x13,
        Reg::RxHeaderCntValueMsb => 0x14,
        Reg::RxHeaderCntValueLsb => 0x15,
        Reg::RxPacketCntValueMsb => 0x16,
        Reg::RxPacketCntValueLsb => 0x17,
        Reg::ModemStat => 0x18,
        Reg::PktSnrValue => 0x19,
        Reg::PktRssiValue => 0x1A,
        Reg::RssiValue => 0x1B,
        Reg::HopChannel => 0x1C,
        Reg::ModemConfig1 => 0x1D,
        Reg::ModemConfig2 => 0x1E,
        Reg::SymbTimeoutLsb => 0x1F,
        Reg::PreambleMsb => 0x20,
        Reg::PreambleLsb => 0x21,
        Reg::PayloadLength => 0x22,
        Reg::MaxPayloadLength => 0x23,
        Reg::HopPeriod => 0x24,
        Reg::FifoRxByteAddr => 0x25,
        Reg::ModemConfig3 => 0x26,
        Reg::FeiMsb => 0x28,
        Reg::FeiMid => 0x29,
        Reg::FeiLsb => 0x2A,
        Reg::RssiWideband => 0x2C,
        Reg::IfFreq1 => 0x2F,
        Reg::IfFreq2 => 0x30,
        Reg::DetectOptimize => 0x31,
        Reg::InvertIQ => 0x33,
        Reg::HighBwOptimize1 => 0x36,
        Reg::DetectionThreshold => 0x37,
        Reg::SyncWord => 0x39,
        Reg::HighBwOptimize2 => 0x3A,
        Reg::InvertIQ2 => 0x3B,
        Reg::DioMapping1 => 0x40,
        Reg::DioMapping2 => 0x41,
        Reg::Version => 0x42,
        Reg::Tcxo => 0x4B,
        Reg::PaDac => 0x4C,
        Reg::FormerTemp => 0x5B,
        Reg::AgcRef => 0x61,
        Reg::AgcThresh1 => 0x62,
        Reg::AgcThresh2 => 0x63,
        Reg::AgcThresh3 => 0x64,
        Reg::Pll => 0x70,
    }
}

impl Reg {
    /// The bus address of this register; always within the 7-bit space.
    pub fn addr(self) -> (a: u8)
        ensures
            a == spec_reg_addr(self),
            a <= 0x7F,
    {
        match self {
            Reg::Fifo => 0x00,
            Reg::OpMode => 0x01,
            Reg::FrfMsb => 0x06,
            Reg::FrfMid => 0x07,
            Reg::FrfLsb => 0x08,
            Reg::PaConfig => 0x09,
            Reg::PaRamp => 0x0A,
            Reg::Ocp => 0x0B,
            Reg::Lna => 0x0C,
            Reg::FifoAddrPtr => 0x0D,
            Reg::FifoTxBaseAddr => 0x0E,
            Reg::FifoRxBaseAddr => 0x0F,
            Reg::FifoRxCurrentAddr => 0x10,
            Reg::IrqFlagsMask => 0x11,
            Reg::IrqFlags => 0x12,
            Reg::RxNbBytes => 0x13,
            Reg::RxHeaderCntValueMsb => 0x14,
            Reg::RxHeaderCntValueLsb => 0x15,
            Reg::RxPacketCntValueMsb => 0x16,
            Reg::RxPacketCntValueLsb => 0x17,
            Reg::ModemStat => 0x18,
            Reg::PktSnrValue => 0x19,
            Reg::PktRssiValue => 0x1A,
            Reg::RssiValue => 0x1B,
            Reg::HopChannel => 0x1C,
            Reg::ModemConfig1 => 0x1D,
            Reg::ModemConfig2 => 0x1E,
            Reg::SymbTimeoutLsb => 0x1F,
            Reg::PreambleMsb => 0x20,
            Reg::PreambleLsb => 0x21,
            Reg::PayloadLength => 0x22,
            Reg::MaxPayloadLength => 0x23,
            Reg::HopPeriod => 0x24,
            Reg::FifoRxByteAddr => 0x25,
            Reg::ModemConfig3 => 0x26,
            Reg::FeiMsb => 0x28,
            Reg::FeiMid => 0x29,
            Reg::FeiLsb => 0x2A,
            Reg::RssiWideband => 0x2C,
            Reg::IfFreq1 => 0x2F,
            Reg::IfFreq2 => 0x30,
            Reg::DetectOptimize => 0x31,
            Reg::InvertIQ => 0x33,
            Reg::HighBwOptimize1 => 0x36,
            Reg::DetectionThreshold => 0x37,
            Reg::SyncWord => 0x39,
            Reg::HighBwOptimize2 => 0x3A,
            Reg::InvertIQ2 => 0x3B,
            Reg::DioMapping1 => 0x40,
            Reg::DioMapping2 => 0x41,
            Reg::Version => 0x42,
            Reg::Tcxo => 0x4B,
            Reg::PaDac => 0x4C,
            Reg::FormerTemp => 0x5B,
            Reg::AgcRef => 0x61,
            Reg::AgcThresh1 => 0x62,
            Reg::AgcThresh2 => 0x63,
            Reg::AgcThresh3 => 0x64,
            Reg::Pll => 0x70,
        }
    }
}

/// The configuration bundle consumed once during device bring-up.
pub struct Configs {
    pub sync_word: u8,
    pub frf: Frf,
    pub lna: Lna,
    pub modem_config1: ModemConfig1,
    pub modem_config2: ModemConfig2,
    pub symb_timeout_lsb: u8,
    pub max_payload: u8,
    pub modem_config3: ModemConfig3,
}

// RegOpMode

/// The 3-bit operating mode of the transceiver.
#[derive(Debug, Clone, Copy, PartialEq, Eq, Structural)]
pub enum Mode {
    Sleep,
    Stdby,
    FsTx,
    Tx,
    FsRx,
    RxContinuous,
    RxSingle,
    Cad,
}

/// The 3-bit code of each operating mode.
pub open spec fn spec_mode_code(m: Mode) -> u8 {
    match m {
        Mode::Sleep => 0x00,
        Mode::Stdby => 0x01,
        Mode::FsTx => 0x02,
        Mode::Tx => 0x03,
        Mode::FsRx => 0x04,
        Mode::RxContinuous => 0x05,
        Mode::RxSingle => 0x06,
        Mode::Cad => 0x07,
    }
}

/// The mode whose code is `v & 0x07`.
pub open spec fn spec_mode_of(v: u8) -> Mode {
    if v & 0x07 == 0x00 {
        Mode::Sleep
    } else if v & 0x07 == 0x01 {
        Mode::Stdby
    } else if v & 0x07 == 0x02 {
        Mode::FsTx
    } else if v & 0x07 == 0x03 {
        Mode::Tx
    } else if v & 0x07 == 0x04 {
        Mode::FsRx
    } else if v & 0x07 == 0x05 {
        Mode::RxContinuous
    } else if v & 0x07 == 0x06 {
        Mode::RxSingle
    } else {
        Mode::Cad
    }
}

impl Mode {
    /// The 3-bit register code of this mode.
    pub fn code(self) -> (c: u8)
        ensures
            c == spec_mode_code(self),
            c <= 0x07,
    {
        match self {
            Mode::Sleep => 0x00,
            Mode::Stdby => 0x01,
            Mode::FsTx => 0x02,
            Mode::Tx => 0x03,
            Mode::FsRx => 0x04,
            Mode::RxContinuous => 0x05,
            Mode::RxSingle => 0x06,
            Mode::Cad => 0x07,
        }
    }

    /// Total decode of the mode bits of a raw register value: every 3-bit
    /// code names a mode, so this never fails.
    pub fn try_from(value: u8) -> (r: Result<Mode, Error>)
        ensures
            r matches Ok(m) && m == spec_mode_of(value),
    {
        let bits = value & 0x07;
        proof {
            assert(value & 0x07 <= 0x07) by (bit_vector);
        }
        if bits == 0x00 {
            Ok(Mode::Sleep)
        } else if bits == 0x01 {
            Ok(Mode::Stdby)
        } else if bits == 0x02 {
            Ok(Mode::FsTx)
        } else if bits == 0x03 {
            Ok(Mode::Tx)
        } else if bits == 0x04 {
            Ok(Mode::FsRx)
        } else if bits == 0x05 {
            Ok(Mode::RxContinuous)
        } else if bits == 0x06 {
            Ok(Mode::RxSingle)
        } else {
            Ok(Mode::Cad)
        }
    }
}

/// The decoded operating-mode register: the mode bits plus the orthogonal
/// long-range, shared-register-access and low-frequency flags.
#[derive(Debug, Clone, Copy, PartialEq, Eq, Structural)]
pub struct OpMode {
    pub long_range_mode: bool,
    pub access_shared_reg: bool,
    pub low_frequency_mode_on: bool,
    pub mode: Mode,
}

/// The byte an `OpMode` packs to: long-range in bit 7, shared-register
/// access in bit 6, the low-frequency port in bit 3, the mode code in
/// bits 2..0.
pub open spec fn spec_opmode_byte(o: OpMode) -> u8 {
    (if o.long_range_mode {
        0x80u8
    } else {
        0x00u8
    }) | (if o.access_shared_reg {
        0x40u8
    } else {
        0x00u8
    }) | (if o.low_frequency_mode_on {
        0x08u8
    } else {
        0x00u8
    }) | spec_mode_code(o.mode)
}

/// The `OpMode` a raw register byte decodes to: each flag from its own
/// bit, the mode from the low three bits.
pub open spec fn spec_opmode_decode(b: u8) -> OpMode {
    OpMode {
        long_range_mode: b & 0x80 != 0,
        access_shared_reg: b & 0x40 != 0,
        low_frequency_mode_on: b & 0x08 != 0,
        mode: spec_mode_of(b),
    }
}

impl OpMode {
    /// Pack into the raw register byte.
    pub fn serialize(self) -> (r: u8)
        ensures
            r == spec_opmode_byte(self),
    {
        (if self.long_range_mode {
            0x80u8
        } else {
            0x00u8
        }) | (if self.access_shared_reg {
            0x40u8
        } else {
            0x00u8
        }) | (if self.low_frequency_mode_on {
            0x08u8
        } else {
            0x00u8
        }) | self.mode.code()
    }

    /// Recover the fields from a raw register byte.
    pub fn deserialize(op_mode: u8) -> (r: OpMode)
        ensures
            r == spec_opmode_decode(op_mode),
    {
        let mode = match Mode::try_from(op_mode & 0x07) {
            Ok(m) => m,
            Err(_) => Mode::Sleep,
        };
        proof {
            assert((op_mode & 0x07) & 0x07 == op_mode & 0x07) by (bit_vector);
        }
        OpMode {
            long_range_mode: op_mode & 0x80 != 0,
            access_shared_reg: op_mode & 0x40 != 0,
            low_frequency_mode_on: op_mode & 0x08 != 0,
            mode,
        }
    }
}

/// Encoding an operating-mode value and decoding the byte restores every
/// field: the three orthogonal flags and the mode occupy disjoint bits.
pub proof fn lemma_opmode_round_trip(o: OpMode)
    ensures
        spec_opmode_decode(spec_opmode_byte(o)) == o,
{
    let c = spec_mode_code(o.mode);
    let lr: bool = o.long_range_mode;
    let sh: bool = o.access_shared_reg;
    let lf: bool = o.low_frequency_mode_on;
    let w = spec_opmode_byte(o);
    assert(c <= 7 ==> {
        let b = (if lr {
            0x80u8
        } else {
            0x00u8
        }) | (if sh {
            0x40u8
        } else {
            0x00u8
        }) | (if lf {
            0x08u8
        } else {
            0x00u8
        }) | c;
        &&& (b & 0x80 != 0) == lr
        &&& (b & 0x40 != 0) == sh
        &&& (b & 0x08 != 0) == lf
        &&& b & 0x07 == c
    }) by (bit_vector);
    assert(spec_mode_of(w) == o.mode) by {
        assert(w & 0x07 == c);
        reveal_mode_of_code(o.mode);
    }
}

/// The flag-preserving mode switch: replacing only the mode bits of a
/// prior register value leaves every non-mode bit — the long-range,
/// shared-register and low-frequency flags among them — exactly as it
/// was, while the mode bits become the requested mode.
pub proof fn lemma_mode_change_preserves_flags(prior: u8, m: Mode)
    ensures
        ({
            let w = (prior & 0xF8) as u8 | spec_mode_code(m);
            &&& w & 0xF8 == prior & 0xF8
            &&& w & 0x07 == spec_mode_code(m)
            &&& spec_opmode_decode(w).long_range_mode == spec_opmode_decode(
                prior,
            ).long_range_mode
            &&& spec_opmode_decode(w).access_shared_reg == spec_opmode_decode(
                prior,
            ).access_shared_reg
            &&& spec_opmode_decode(w).low_frequency_mode_on == spec_opmode_decode(
                prior,
            ).low_frequency_mode_on
            &&& spec_opmode_decode(w).mode == m
        }),
{
    let c = spec_mode_code(m);
    assert(c <= 7 ==> {
        let w = (prior & 0xF8) | c;
        &&& w & 0xF8 == prior & 0xF8
        &&& w & 0x07 == c
        &&& (w & 0x80 != 0) == (prior & 0x80 != 0)
        &&& (w & 0x40 != 0) == (prior & 0x40 != 0)
        &&& (w & 0x08 != 0) == (prior & 0x08 != 0)
    }) by (bit_vector);
    let w = (prior & 0xF8) as u8 | c;
    assert(spec_mode_of(w) == m) by {
        assert(w & 0x07 == c);
        reveal_mode_of_code(m);
    }
}

/// Decoding the exact code of a mode yields that mode back.
proof fn reveal_mode_of_code(m: Mode)
    ensures
        spec_mode_of(spec_mode_code(m)) == m,
{
    let c = spec_mode_code(m);
    assert(c <= 7);
    assert(c & 0x07 == c) by (bit_vector)
        requires
            c <= 7,
    ;
}

// RegFrf

/// The carrier-frequency register triple, derived from a frequency in Hz.
#[derive(Debug, Clone, Copy, PartialEq, Eq, Structural)]
pub struct Frf {
    pub freq: u32,
}

/// The 24-bit frequency word: `floor(freq_hz * 2^19 / 32 MHz)`.
pub open spec fn spec_frf_derived(freq: u32) -> u64 {
    ((freq as u64) << 19) / 32000000u64
}

/// The three frequency register bytes (MSB, MID, LSB) of the derived word.
pub open spec fn spec_frf_bytes(freq: u32) -> (u8, u8, u8) {
    let d = spec_frf_derived(freq);
    (((d >> 16) & 0xFF) as u8, ((d >> 8) & 0xFF) as u8, (d & 0xFF) as u8)
}

impl Frf {
    /// Derive the three frequency register bytes (MSB, MID, LSB).
    ///
    /// Succeeds exactly when the derived word fits in 24 bits; the three
    /// bytes, recombined, equal the derived word. Out-of-range frequencies
    /// are rejected before any byte is produced.
    pub fn serialize(self) -> (r: Result<(u8, u8, u8), Error>)
        ensures
            r matches Ok(_) <==> spec_frf_derived(self.freq) <= 0xFFFFFF,
            r matches Ok(t) ==> t == spec_frf_bytes(self.freq),
            r matches Ok(t) ==> ((t.0 as u64) << 16) | ((t.1 as u64) << 8) | (t.2 as u64)
                == spec_frf_derived(self.freq),
            r matches Err(e) ==> e == Error::FrequencyOutOfRange(self.freq),
    {
        let frf: u64 = ((self.freq as u64) << 19) / 32000000u64;
        if frf > 0xFFFFFF {
            return Err(Error::FrequencyOutOfRange(self.freq));
        }
        let msb: u8 = ((frf >> 16) & 0xFF) as u8;
        let mid: u8 = ((frf >> 8) & 0xFF) as u8;
        let lsb: u8 = (frf & 0xFF) as u8;
        proof {
            assert((frf >> 16) & 0xFF <= 0xFF && (frf >> 8) & 0xFF <= 0xFF && frf & 0xFF <= 0xFF)
                by (bit_vector);
            assert(frf <= 0xFFFFFF ==> ((((frf >> 16) & 0xFF) as u64) << 16) | (
            (((frf >> 8) & 0xFF) as u64) << 8) | ((frf & 0xFF) as u64) == frf) by (bit_vector);
        }
        Ok((msb, mid, lsb))
    }
}

// RegPaConfig

/// The power-amplifier configuration register fields.
#[derive(Debug, Clone, Copy, PartialEq, Eq, Structural)]
pub struct PaConfig {
    pub pa_select_boost: bool,
    pub max_power: u8,
    pub output_power: u8,
}

/// The byte a `PaConfig` packs to: boost select in bit 7, max power in
/// bits 6..4, output power in bits 3..0.
pub open spec fn spec_pa_config_byte(c: PaConfig) -> u8 {
    (if c.pa_select_boost {
        0x80u8
    } else {
        0x00u8
    }) | ((c.max_power & 0x07) << 4) | (c.output_power & 0x0F)
}

impl PaConfig {
    /// Pack into the raw register byte, rejecting out-of-range fields.
    pub fn serialize(self) -> (r: Result<u8, Error>)
        ensures
            r matches Ok(_) <==> self.output_power <= 0x0F && self.max_power <= 0x07,
            r matches Ok(b) ==> b == spec_pa_config_byte(self),
            self.output_power > 0x0F ==> (r matches Err(e) && e == Error::OutputPowerOverflow(
                self.output_power,
            )),
            self.output_power <= 0x0F && self.max_power > 0x07 ==> (r matches Err(e) && e
                == Error::MaxPowerOverflow(self.max_power)),
    {
        if self.output_power > 0xF {
            return Err(Error::OutputPowerOverflow(self.output_power));
        }
        if self.max_power > 0x7 {
            return Err(Error::MaxPowerOverflow(self.max_power));
        }
        proof {
            let mp = self.max_power;
            let op = self.output_power;
            assert(mp <= 0x07 ==> mp & 0x07 == mp) by (bit_vector);
            assert(op <= 0x0F ==> op & 0x0F == op) by (bit_vector);
        }
        Ok((if self.pa_select_boost {
            0x80u8
        } else {
            0x00u8
        }) | ((self.max_power & 0x07) << 4) | (self.output_power & 0x0F))
    }
}

/// The output-power register value for a requested dBm power: requests
/// below 2 dBm saturate to 0, above 17 dBm to 15, and the 2..17 range maps
/// to `requested - 2`.
pub open spec fn spec_output_power_value(pw: u8) -> u8 {
    if pw < 2 {
        0
    } else if pw > 17 {
        15
    } else {
        (pw - 2) as u8
    }
}

/// Clamp a requested dBm power onto the 0..15 output-power register range.
pub fn output_power_value(pw: u8) -> (v: u8)
    ensures
        v == spec_output_power_value(pw),
        pw < 2 ==> v == 0,
        pw > 17 ==> v == 15,
        2 <= pw <= 17 ==> v == pw - 2,
        v <= 15,
{
    if pw < 2 {
        0
    } else if pw > 17 {
        15
    } else {
        pw - 2
    }
}

// RegPaRamp

/// The power-amplifier ramp rise/fall time codes.
#[derive(Debug, Clone, Copy, PartialEq, Eq, Structural)]
pub enum PaRampTime {
    MS3_4,
    MS2,
    MS1,
    US500,
    US250,
    US125,
    US100,
    US62,
    US50,
    US40,
    US31,
    US25,
    US20,
    US15,
    US12,
    US10,
}

/// The 4-bit code of each ramp time.
pub open spec fn spec_ramp_code(t: PaRampTime) -> u8 {
    match t {
        PaRampTime::MS3_4 => 0x00,
        PaRampTime::MS2 => 0x01,
        PaRampTime::MS1 => 0x02,
        PaRampTime::US500 => 0x03,
        PaRampTime::US250 => 0x04,
        PaRampTime::US125 => 0x05,
        PaRampTime::US100 => 0x06,
        PaRampTime::US62 => 0x07,
        PaRampTime::US50 => 0x08,
        PaRampTime::US40 => 0x09,
        PaRampTime::US31 => 0x0A,
        PaRampTime::US25 => 0x0B,
        PaRampTime::US20 => 0x0C,
        PaRampTime::US15 => 0x0D,
        PaRampTime::US12 => 0x0E,
        PaRampTime::US10 => 0x0F,
    }
}

/// The ramp time whose 4-bit code is `v & 0x0F`: every code names a
/// variant, so decoding is total and exact.
pub open spec fn spec_ramp_of(v: u8) -> PaRampTime {
    if v & 0x0F == 0x00 {
        PaRampTime::MS3_4
    } else if v & 0x0F == 0x01 {
        PaRampTime::MS2
    } else if v & 0x0F == 0x02 {
        PaRampTime::MS1
    } else if v & 0x0F == 0x03 {
        PaRampTime::US500
    } else if v & 0x0F == 0x04 {
        PaRampTime::US250
    } else if v & 0x0F == 0x05 {
        PaRampTime::US125
    } else if v & 0x0F == 0x06 {
        PaRampTime::US100
    } else if v & 0x0F == 0x07 {
        PaRampTime::US62
    } else if v & 0x0F == 0x08 {
        PaRampTime::US50
    } else if v & 0x0F == 0x09 {
        PaRampTime::US40
    } else if v & 0x0F == 0x0A {
        PaRampTime::US31
    } else if v & 0x0F == 0x0B {
        PaRampTime::US25
    } else if v & 0x0F == 0x0C {
        PaRampTime::US20
    } else if v & 0x0F == 0x0D {
        PaRampTime::US15
    } else if v & 0x0F == 0x0E {
        PaRampTime::US12
    } else {
        PaRampTime::US10
    }
}

impl PaRampTime {
    /// The 4-bit register code of this ramp time.
    pub fn code(self) -> (c: u8)
        ensures
            c == spec_ramp_code(self),
            c <= 0x0F,
    {
        match self {
            PaRampTime::MS3_4 => 0x00,
            PaRampTime::MS2 => 0x01,
            PaRampTime::MS1 => 0x02,
            PaRampTime::US500 => 0x03,
            PaRampTime::US250 => 0x04,
            PaRampTime::US125 => 0x05,
            PaRampTime::US100 => 0x06,
            PaRampTime::US62 => 0x07,
            PaRampTime::US50 => 0x08,
            PaRampTime::US40 => 0x09,
            PaRampTime::US31 => 0x0A,
            PaRampTime::US25 => 0x0B,
            PaRampTime::US20 => 0x0C,
            PaRampTime::US15 => 0x0D,
            PaRampTime::US12 => 0x0E,
            PaRampTime::US10 => 0x0F,
        }
    }

    /// Decode a ramp-time code: every 4-bit code names a ramp time, and
    /// the code is restored exactly.
    pub fn try_from(value: u8) -> (r: Result<PaRampTime, Error>)
        ensures
            r matches Ok(t) && t == spec_ramp_of(value),
    {
        let bits = value & 0x0F;
        proof {
            assert(value & 0x0F <= 0x0F) by (bit_vector);
        }
        if bits == 0x00 {
            Ok(PaRampTime::MS3_4)
        } else if bits == 0x01 {
            Ok(PaRampTime::MS2)
        } else if bits == 0x02 {
            Ok(PaRampTime::MS1)
        } else if bits == 0x03 {
            Ok(PaRampTime::US500)
        } else if bits == 0x04 {
            Ok(PaRampTime::US250)
        } else if bits == 0x05 {
            Ok(PaRampTime::US125)
        } else if bits == 0x06 {
            Ok(PaRampTime::US100)
        } else if bits == 0x07 {
            Ok(PaRampTime::US62)
        } else if bits == 0x08 {
            Ok(PaRampTime::US50)
        } else if bits == 0x09 {
            Ok(PaRampTime::US40)
        } else if bits == 0x0A {
            Ok(PaRampTime::US31)
        } else if bits == 0x0B {
            Ok(PaRampTime::US25)
        } else if bits == 0x0C {
            Ok(PaRampTime::US20)
        } else if bits == 0x0D {
            Ok(PaRampTime::US15)
        } else if bits == 0x0E {
            Ok(PaRampTime::US12)
        } else {
            Ok(PaRampTime::US10)
        }
    }
}

/// The decoded power-amplifier ramp register: the ramp time plus the
/// untouched upper nibble carried through a read-modify-write.
#[derive(Debug, Clone, Copy, PartialEq, Eq, Structural)]
pub struct PaRamp {
    pub time: PaRampTime,
    pub msb: u8,
}

impl PaRamp {
    /// Recover the ramp time and the upper nibble from a raw register byte.
    pub fn deserialize(pa_ramp: u8) -> (r: PaRamp)
        ensures
            r.time == spec_ramp_of(pa_ramp),
            r.msb == pa_ramp & 0xF0,
    {
        let time = match PaRampTime::try_from(pa_ramp) {
            Ok(t) => t,
            Err(_) => PaRampTime::MS3_4,
        };
        PaRamp { time, msb: pa_ramp & 0xF0 }
    }

    /// Pack back into the raw register byte, keeping the upper nibble.
    pub fn serialize(self) -> (r: u8)
        ensures
            r == spec_ramp_code(self.time) | self.msb,
    {
        self.time.code() | self.msb
    }
}

/// The ramp register round trip: decoding any byte and re-encoding it
/// restores the byte — the time code is the low nibble, the carried upper
/// nibble the rest.
pub proof fn lemma_pa_ramp_round_trip(b: u8)
    ensures
        spec_ramp_code(spec_ramp_of(b)) == b & 0x0F,
        spec_ramp_code(spec_ramp_of(b)) | (b & 0xF0) == b,
{
    assert(b & 0x0F <= 0x0F) by (bit_vector);
    assert(spec_ramp_code(spec_ramp_of(b)) == b & 0x0F);
    let c = spec_ramp_code(spec_ramp_of(b));
    assert(c == b & 0x0F ==> (c | (b & 0xF0)) == b) by (bit_vector);
}

// RegLna

/// The low-noise-amplifier gain settings.
#[derive(Debug, Clone, Copy, PartialEq, Eq, Structural)]
pub enum LnaGain {
    G1,
    G2,
    G3,
    G4,
    G5,
    G6,
}

/// The 3-bit code of each LNA gain setting.
pub open spec fn spec_lna_gain_code(g: LnaGain) -> u8 {
    match g {
        LnaGain::G1 => 0x01,
        LnaGain::G2 => 0x02,
        LnaGain::G3 => 0x03,
        LnaGain::G4 => 0x04,
        LnaGain::G5 => 0x05,
        LnaGain::G6 => 0x06,
    }
}

/// The low-noise-amplifier register fields.
#[derive(Debug, Clone, Copy, PartialEq, Eq, Structural)]
pub struct Lna {
    pub lna_gain: LnaGain,
    pub lna_boost_hf: bool,
}

/// The byte an `Lna` packs to: gain in bits 7..5, the high-frequency boost
/// in bits 1..0.
pub open spec fn spec_lna_byte(l: Lna) -> u8 {
    (spec_lna_gain_code(l.lna_gain) << 5) | (if l.lna_boost_hf {
        0x02u8
    } else {
        0x00u8
    }) | (if l.lna_boost_hf {
        0x01u8
    } else {
        0x00u8
    })
}

impl LnaGain {
    /// The 3-bit register code of this gain setting.
    pub fn code(self) -> (c: u8)
        ensures
            c == spec_lna_gain_code(self),
            1 <= c <= 6,
    {
        match self {
            LnaGain::G1 => 0x01,
            LnaGain::G2 => 0x02,
            LnaGain::G3 => 0x03,
            LnaGain::G4 => 0x04,
            LnaGain::G5 => 0x05,
            LnaGain::G6 => 0x06,
        }
    }
}

impl Lna {
    /// Pack into the raw register byte.
    pub fn serialize(self) -> (r: u8)
        ensures
            r == spec_lna_byte(self),
    {
        (self.lna_gain.code() << 5) | (if self.lna_boost_hf {
            0x02u8
        } else {
            0x00u8
        }) | (if self.lna_boost_hf {
            0x01u8
        } else {
            0x00u8
        })
    }
}

// RegIrqFlags

/// The interrupt flag bits of the flag and mask registers.
#[derive(Debug, Clone, Copy, PartialEq, Eq, Structural)]
pub enum IrqFlag {
    RxTimeout,
    RxDone,
    PayloadCrcError,
    ValidHeader,
    TxDone,
    CadDone,
    FhssChangeChannel,
    CadDetected,
}

/// The single-bit mask of each interrupt flag.
pub open spec fn spec_irq_mask(f: IrqFlag) -> u8 {
    match f {
        IrqFlag::RxTimeout => 0x80,
        IrqFlag::RxDone => 0x40,
        IrqFlag::PayloadCrcError => 0x20,
        IrqFlag::ValidHeader => 0x10,
        IrqFlag::TxDone => 0x08,
        IrqFlag::CadDone => 0x04,
        IrqFlag::FhssChangeChannel => 0x02,
        IrqFlag::CadDetected => 0x01,
    }
}

impl IrqFlag {
    /// The single-bit register mask of this flag.
    pub fn mask(self) -> (m: u8)
        ensures
            m == spec_irq_mask(self),
    {
        match self {
            IrqFlag::RxTimeout => 0x80,
            IrqFlag::RxDone => 0x40,
            IrqFlag::PayloadCrcError => 0x20,
            IrqFlag::ValidHeader => 0x10,
            IrqFlag::TxDone => 0x08,
            IrqFlag::CadDone => 0x04,
            IrqFlag::FhssChangeChannel => 0x02,
            IrqFlag::CadDetected => 0x01,
        }
    }
}

// RegModemConfig1

/// The signal bandwidth settings.
#[derive(Debug, Clone, Copy, PartialEq, Eq, Structural)]
pub enum Bandwidth {
    KHz7_8,
    KHz10_4,
    KHz15_6,
    KHz20_8,
    KHz31_25,
    KHz41_7,
    KHz62_5,
    KHz125,
    KHz250,
    KHz500,
}

/// The 4-bit code of each bandwidth setting.
pub open spec fn spec_bandwidth_code(b: Bandwidth) -> u8 {
    match b {
        Bandwidth::KHz7_8 => 0x00,
        Bandwidth::KHz10_4 => 0x01,
        Bandwidth::KHz15_6 => 0x02,
        Bandwidth::KHz20_8 => 0x03,
        Bandwidth::KHz31_25 => 0x04,
        Bandwidth::KHz41_7 => 0x05,
        Bandwidth::KHz62_5 => 0x06,
        Bandwidth::KHz125 => 0x07,
        Bandwidth::KHz250 => 0x08,
        Bandwidth::KHz500 => 0x09,
    }
}

/// The forward-error-correction coding rates.
#[derive(Debug, Clone, Copy, PartialEq, Eq, Structural)]
pub enum CodingRate {
    CR4_5,
    CR4_6,
    CR4_7,
    CR4_8,
}

/// The 3-bit code of each coding rate.
pub open spec fn spec_coding_rate_code(c: CodingRate) -> u8 {
    match c {
        CodingRate::CR4_5 => 0x01,
        CodingRate::CR4_6 => 0x02,
        CodingRate::CR4_7 => 0x03,
        CodingRate::CR4_8 => 0x04,
    }
}

/// The first modem-configuration register fields.
#[derive(Debug, Clone, Copy, PartialEq, Eq, Structural)]
pub struct ModemConfig1 {
    pub bw: Bandwidth,
    pub coding_rate: CodingRate,
    pub implicit_header_mode_on: bool,
}

/// The byte a `ModemConfig1` packs to: bandwidth in bits 7..4, coding rate
/// in bits 3..1, the implicit-header flag in bit 0.
pub open spec fn spec_modem_config1_byte(c: ModemConfig1) -> u8 {
    (spec_bandwidth_code(c.bw) << 4) | (spec_coding_rate_code(c.coding_rate) << 1) | (
    if c.implicit_header_mode_on {
        0x01u8
    } else {
        0x00u8
    })
}

impl Bandwidth {
    /// The 4-bit register code of this bandwidth.
    pub fn code(self) -> (c: u8)
        ensures
            c == spec_bandwidth_code(self),
            c <= 0x09,
    {
        match self {
            Bandwidth::KHz7_8 => 0x00,
            Bandwidth::KHz10_4 => 0x01,
            Bandwidth::KHz15_6 => 0x02,
            Bandwidth::KHz20_8 => 0x03,
            Bandwidth::KHz31_25 => 0x04,
            Bandwidth::KHz41_7 => 0x05,
            Bandwidth::KHz62_5 => 0x06,
            Bandwidth::KHz125 => 0x07,
            Bandwidth::KHz250 => 0x08,
            Bandwidth::KHz500 => 0x09,
        }
    }
}

impl CodingRate {
    /// The 3-bit register code of this coding rate.
    pub fn code(self) -> (c: u8)
        ensures
            c == spec_coding_rate_code(self),
            1 <= c <= 4,
    {
        match self {
            CodingRate::CR4_5 => 0x01,
            CodingRate::CR4_6 => 0x02,
            CodingRate::CR4_7 => 0x03,
            CodingRate::CR4_8 => 0x04,
        }
    }
}

impl ModemConfig1 {
    /// Pack into the raw register byte.
    pub fn serialize(self) -> (r: u8)
        ensures
            r == spec_modem_config1_byte(self),
    {
        (self.bw.code() << 4) | (self.coding_rate.code() << 1) | (
        if self.implicit_header_mode_on {
            0x01u8
        } else {
            0x00u8
        })
    }
}

// RegModemConfig2

/// The spreading-factor settings.
#[derive(Debug, Clone, Copy, PartialEq, Eq, Structural)]
pub enum SpreadingFactor {
    SF6,
    SF7,
    SF8,
    SF9,
    SF10,
    SF11,
    SF12,
}

/// The 4-bit code of each spreading factor.
pub open spec fn spec_spreading_factor_code(s: SpreadingFactor) -> u8 {
    match s {
        SpreadingFactor::SF6 => 0x06,
        SpreadingFactor::SF7 => 0x07,
        SpreadingFactor::SF8 => 0x08,
        SpreadingFactor::SF9 => 0x09,
        SpreadingFactor::SF10 => 0x0A,
        SpreadingFactor::SF11 => 0x0B,
        SpreadingFactor::SF12 => 0x0C,
    }
}

/// The second modem-configuration register fields.
#[derive(Debug, Clone, Copy, PartialEq, Eq, Structural)]
pub struct ModemConfig2 {
    pub sf: SpreadingFactor,
    pub tx_continuous_mode: bool,
    pub rx_payload_crc_on: bool,
    pub symb_timeout_msb: u8,
}

/// The byte a `ModemConfig2` packs to: spreading factor in bits 7..4, the
/// continuous-transmit flag in bit 3, the CRC flag in bit 2, the timeout
/// high bits in bits 1..0.
pub open spec fn spec_modem_config2_byte(c: ModemConfig2) -> u8 {
    (spec_spreading_factor_code(c.sf) << 4) | (if c.tx_continuous_mode {
        0x08u8
    } else {
        0x00u8
    }) | (if c.rx_payload_crc_on {
        0x04u8
    } else {
        0x00u8
    }) | (c.symb_timeout_msb & 0x03)
}

impl SpreadingFactor {
    /// The 4-bit register code of this spreading factor.
    pub fn code(self) -> (c: u8)
        ensures
            c == spec_spreading_factor_code(self),
            6 <= c <= 12,
    {
        match self {
            SpreadingFactor::SF6 => 0x06,
            SpreadingFactor::SF7 => 0x07,
            SpreadingFactor::SF8 => 0x08,
            SpreadingFactor::SF9 => 0x09,
            SpreadingFactor::SF10 => 0x0A,
            SpreadingFactor::SF11 => 0x0B,
            SpreadingFactor::SF12 => 0x0C,
        }
    }
}

impl ModemConfig2 {
    /// Pack into the raw register byte, rejecting a timeout field that
    /// does not fit its two bits.
    pub fn serialize(self) -> (r: Result<u8, Error>)
        ensures
            r matches Ok(_) <==> self.symb_timeout_msb <= 0x03,
            r matches Ok(b) ==> b == spec_modem_config2_byte(self),
            r matches Err(e) ==> e == Error::SymbTimeoutMsbOverflow(self.symb_timeout_msb),
    {
        if self.symb_timeout_msb > 0x3 {
            return Err(Error::SymbTimeoutMsbOverflow(self.symb_timeout_msb));
        }
        proof {
            let st = self.symb_timeout_msb;
            assert(st <= 0x03 ==> st & 0x03 == st) by (bit_vector);
        }
        Ok(
            (self.sf.code() << 4) | (if self.tx_continuous_mode {
                0x08u8
            } else {
                0x00u8
            }) | (if self.rx_payload_crc_on {
                0x04u8
            } else {
                0x00u8
            }) | (self.symb_timeout_msb & 0x03),
        )
    }
}

// RegModemConfig3

/// The third modem-configuration register fields.
#[derive(Debug, Clone, Copy, PartialEq, Eq, Structural)]
pub struct ModemConfig3 {
    pub low_data_rate_optimize: bool,
    pub agc_auto_on: bool,
}

/// The byte a `ModemConfig3` packs to: the low-data-rate optimization in
/// bit 3, automatic gain control in bit 2.
pub open spec fn spec_modem_config3_byte(c: ModemConfig3) -> u8 {
    (if c.low_data_rate_optimize {
        0x08u8
    } else {
        0x00u8
    }) | (if c.agc_auto_on {
        0x04u8
    } else {
        0x00u8
    })
}

impl ModemConfig3 {
    /// Pack into the raw register byte.
    pub fn serialize(self) -> (r: u8)
        ensures
            r == spec_modem_config3_byte(self),
    {
        (if self.low_data_rate_optimize {
            0x08u8
        } else {
            0x00u8
        }) | (if self.agc_auto_on {
            0x04u8
        } else {
            0x00u8
        })
    }
}

// RegDioMapping1

/// The event routed to the first interrupt pin.
#[derive(Debug, Clone, Copy, PartialEq, Eq, Structural)]
pub enum Dio0 {
    RxDone,
    TxDone,
    CadDone,
    Nop,
}

/// The code of each first-pin mapping.
pub open spec fn spec_dio0_code(d: Dio0) -> u8 {
    match d {
        Dio0::RxDone => 0x00,
        Dio0::TxDone => 0x01,
        Dio0::CadDone => 0x02,
        Dio0::Nop => 0x03,
    }
}

/// The event routed to the second interrupt pin.
#[derive(Debug, Clone, Copy, PartialEq, Eq, Structural)]
pub enum Dio1 {
    RxTimeout,
    FhssChangeChannel,
    CadDetected,
    Nop,
}

/// The code of each second-pin mapping.
pub open spec fn spec_dio1_code(d: Dio1) -> u8 {
    match d {
        Dio1::RxTimeout => 0x00,
        Dio1::FhssChangeChannel => 0x01,
        Dio1::CadDetected => 0x02,
        Dio1::Nop => 0x03,
    }
}

/// The event routed to the third interrupt pin.
#[derive(Debug, Clone, Copy, PartialEq, Eq, Structural)]
pub enum Dio2 {
    FhssChangeChannel,
    Nop,
}

/// The code of each third-pin mapping.
pub open spec fn spec_dio2_code(d: Dio2) -> u8 {
    match d {
        Dio2::FhssChangeChannel => 0x00,
        Dio2::Nop => 0x03,
    }
}

/// The event routed to the fourth interrupt pin.
#[derive(Debug, Clone, Copy, PartialEq, Eq, Structural)]
pub enum Dio3 {
    CadDone,
    ValidHeader,
    PayloadCrcError,
    Nop,
}

/// The code of each fourth-pin mapping.
pub open spec fn spec_dio3_code(d: Dio3) -> u8 {
    match d {
        Dio3::CadDone => 0x00,
        Dio3::ValidHeader => 0x01,
        Dio3::PayloadCrcError => 0x02,
        Dio3::Nop => 0x03,
    }
}

/// The interrupt-pin routing register for the first four pins.
#[derive(Debug, Clone, Copy, PartialEq, Eq, Structural)]
pub struct DioMapping1 {
    pub dio0_mapping: Dio0,
    pub dio1_mapping: Dio1,
    pub dio2_mapping: Dio2,
    pub dio3_mapping: Dio3,
}

/// The byte a `DioMapping1` packs to, two bits per pin from bit 7 down;
/// every mapping code fits its 2-bit slot.
pub open spec fn spec_dio_mapping1_byte(m: DioMapping1) -> u8 {
    (spec_dio0_code(m.dio0_mapping) << 6) | (spec_dio1_code(m.dio1_mapping) << 4) | (spec_dio2_code(
        m.dio2_mapping,
    ) << 2) | spec_dio3_code(m.dio3_mapping)
}

impl Dio0 {
    /// The register code of this mapping.
    pub fn code(self) -> (c: u8)
        ensures
            c == spec_dio0_code(self),
            c <= 0x03,
    {
        match self {
            Dio0::RxDone => 0x00,
            Dio0::TxDone => 0x01,
            Dio0::CadDone => 0x02,
            Dio0::Nop => 0x03,
        }
    }
}

impl Dio1 {
    /// The register code of this mapping.
    pub fn code(self) -> (c: u8)
        ensures
            c == spec_dio1_code(self),
            c <= 0x03,
    {
        match self {
            Dio1::RxTimeout => 0x00,
            Dio1::FhssChangeChannel => 0x01,
            Dio1::CadDetected => 0x02,
            Dio1::Nop => 0x03,
        }
    }
}

impl Dio2 {
    /// The register code of this mapping.
    pub fn code(self) -> (c: u8)
        ensures
            c == spec_dio2_code(self),
            c <= 0x03,
    {
        match self {
            Dio2::FhssChangeChannel => 0x00,
            Dio2::Nop => 0x03,
        }
    }
}

impl Dio3 {
    /// The register code of this mapping.
    pub fn code(self) -> (c: u8)
        ensures
            c == spec_dio3_code(self),
            c <= 0x03,
    {
        match self {
            Dio3::CadDone => 0x00,
            Dio3::ValidHeader => 0x01,
            Dio3::PayloadCrcError => 0x02,
            Dio3::Nop => 0x03,
        }
    }
}

impl DioMapping1 {
    /// Pack into the raw register byte.
    pub fn serialize(self) -> (r: u8)
        ensures
            r == spec_dio_mapping1_byte(self),
    {
        (self.dio0_mapping.code() << 6) | (self.dio1_mapping.code() << 4) | (self.dio2_mapping.code()
            << 2) | self.dio3_mapping.code()
    }
}

// RegDioMapping2

/// The event routed to the fifth interrupt pin.
#[derive(Debug, Clone, Copy, PartialEq, Eq, Structural)]
pub enum Dio4 {
    CadDetected,
    PllLock,
    Nop,
}

/// The code of each fifth-pin mapping.
pub open spec fn spec_dio4_code(d: Dio4) -> u8 {
    match d {
        Dio4::CadDetected => 0x00,
        Dio4::PllLock => 0x01,
        Dio4::Nop => 0x03,
    }
}

/// The event routed to the sixth interrupt pin.
#[derive(Debug, Clone, Copy, PartialEq, Eq, Structural)]
pub enum Dio5 {
    ModeReady,
    ClkOut,
    Nop,
}

/// The code of each sixth-pin mapping.
pub open spec fn spec_dio5_code(d: Dio5) -> u8 {
    match d {
        Dio5::ModeReady => 0x00,
        Dio5::ClkOut => 0x01,
        Dio5::Nop => 0x03,
    }
}

/// The interrupt-pin routing register for the last two pins.
#[derive(Debug, Clone, Copy, PartialEq, Eq, Structural)]
pub struct DioMapping2 {
    pub dio4_mapping: Dio4,
    pub dio5_mapping: Dio5,
}

/// The byte a `DioMapping2` packs to: the fifth pin in bits 7..6, the
/// sixth in bits 5..4.
pub open spec fn spec_dio_mapping2_byte(m: DioMapping2) -> u8 {
    (spec_dio4_code(m.dio4_mapping) << 6) | (spec_dio5_code(m.dio5_mapping) << 4)
}

impl Dio4 {
    /// The register code of this mapping.
    pub fn code(self) -> (c: u8)
        ensures
            c == spec_dio4_code(self),
            c <= 0x03,
    {
        match self {
            Dio4::CadDetected => 0x00,
            Dio4::PllLock => 0x01,
            Dio4::Nop => 0x03,
        }
    }
}

impl Dio5 {
    /// The register code of this mapping.
    pub fn code(self) -> (c: u8)
        ensures
            c == spec_dio5_code(self),
            c <= 0x03,
    {
        match self {
            Dio5::ModeReady => 0x00,
            Dio5::ClkOut => 0x01,
            Dio5::Nop => 0x03,
        }
    }
}

impl DioMapping2 {
    /// Pack into the raw register byte.
    pub fn serialize(self) -> (r: u8)
        ensures
            r == spec_dio_mapping2_byte(self),
    {
        (self.dio4_mapping.code() << 6) | (self.dio5_mapping.code() << 4)
    }
}

} // verus!
