//! Transceiver driver: owns the chip-select, reset and interrupt-status
//! control lines and the shared serial bus, and sequences register accesses
//! through the register codec.
//!
//! Every bus exchange brackets a chip-select assertion around one
//! full-duplex transfer whose first byte is the register address — high bit
//! set for a write, cleared for a read — followed by the payload. The
//! driver keeps a ghost log of the outgoing byte frame of every completed
//! transfer, so each operation's contract pins down exactly which register
//! writes it performs and in what order. What the chip answers is outside
//! the driver's control; the receive path therefore states what holds of
//! every outcome and decodes the telemetry through pure functions with
//! exact contracts.

use crate::opcodes::{
    spec_dio_mapping1_byte, spec_frf_bytes, spec_frf_derived, spec_irq_mask, spec_lna_byte,
    spec_mode_code, spec_modem_config1_byte, spec_modem_config2_byte, spec_modem_config3_byte,
    spec_opmode_byte, spec_output_power_value, spec_pa_config_byte, spec_ramp_code, spec_reg_addr,
    Configs, Dio0, Dio1, Dio2, Dio3, DioMapping1, IrqFlag, Mode, OpMode, PaConfig, PaRamp,
    PaRampTime, Reg,
};
use rppal::gpio::Error as GpioFault;
use rppal::gpio::{InputPin, OutputPin};
use rppal::spi::Error as SpiFault;
use rppal::spi::Spi;
use vstd::prelude::*;
use vstd::seq_lib::*;

verus! {

broadcast use crate::lemma_log_prefix_push, crate::lemma_log_prefix_chain, crate::lemma_log_prefix_index;

#[verifier::external_type_specification]
#[verifier::external_body]
pub struct ExOutputPin(OutputPin);

#[verifier::external_type_specification]
#[verifier::external_body]
pub struct ExInputPin(InputPin);

#[verifier::external_type_specification]
#[verifier::external_body]
pub struct ExSpi(Spi);

#[verifier::external_type_specification]
#[verifier::external_body]
pub struct ExSpiError(SpiFault);

#[verifier::external_type_specification]
#[verifier::external_body]
pub struct ExGpioError(GpioFault);

/// Relies on rppal's OutputPin::set_low: drives the output pin low;
/// infallible.
pub assume_specification[ OutputPin::set_low ](pin: &mut OutputPin)
;

/// Relies on rppal's OutputPin::set_high: drives the output pin high;
/// infallible.
pub assume_specification[ OutputPin::set_high ](pin: &mut OutputPin)
;

/// Relies on rppal's InputPin::is_low: reads the pin's logic level;
/// infallible, and the level is the hardware's to choose.
pub assume_specification[ InputPin::is_low ](pin: &InputPin) -> bool
;

/// Relies on rppal's Spi::transfer: one full-duplex exchange that sends
/// `write` while filling `read`. Per its documentation it transfers as many
/// bytes as the shorter of the two buffers holds and returns that count;
/// what arrives in `read` is the peripheral's answer and is unspecified.
#[verifier::external_body]
fn spi_transfer(spi: &Spi, read: &mut Vec<u8>, write: &Vec<u8>) -> (r: Result<usize, SpiFault>)
    requires
        old(read)@.len() <= 0xFFFF_FFFF,
        write@.len() <= 0xFFFF_FFFF,
    ensures
        final(read)@.len() == old(read)@.len(),
        r matches Ok(n) ==> n == (if old(read)@.len() <= write@.len() {
            old(read)@.len()
        } else {
            write@.len()
        }),
{
    spi.transfer(read.as_mut_slice(), write.as_slice())
}

/// The expected identification register value of the supported chip
/// revision.
pub const SX1276_VERSION: u8 = 0x12;

/// The fixed offset added to the raw packet-strength register to obtain
/// dBm.
pub const RSSI_CORRECTION: i32 = -157;

/// Driver errors: transport faults wrapped unchanged, codec errors, and
/// the driver's own protocol checks.
#[derive(Debug)]
pub enum Error {
    Spi(SpiFault),
    Gpio(GpioFault),
    OpCode(crate::opcodes::Error),
    UnknownTransceiver,
    PayloadCrcError,
    PayloadLenOver255,
}

/// One successfully received frame: its payload and the signal-quality
/// estimates decoded from the telemetry registers.
pub struct Reception {
    pub data: Vec<u8>,
    pub rss: i32,
    pub snr: i32,
}

/// The outgoing frame of a burst write: the register address with the
/// write selector (high bit) set, then the payload bytes.
pub open spec fn spec_write_frame(r: Reg, values: Seq<u8>) -> Seq<u8> {
    seq![0x80u8 | spec_reg_addr(r)] + values
}

/// The outgoing frame of a burst read of `len` payload bytes: the register
/// address with the write selector cleared, then the don't-care bytes
/// clocked out while the answer is clocked in.
pub open spec fn spec_read_frame(r: Reg, len: nat) -> Seq<u8> {
    seq![0x7Fu8 & spec_reg_addr(r)] + Seq::new(len + 1, |i: int| 0u8)
}

/// The write frame of a read-modify-write of the operating mode register
/// that saw `prior` there: every non-mode bit of `prior` is kept — the
/// long-range, shared-register and low-frequency flags among them — and
/// the mode bits become `m`.
pub open spec fn spec_mode_switch_frame(prior: u8, m: Mode) -> Seq<u8> {
    spec_write_frame(Reg::OpMode, seq![((prior & 0xF8) as u8 | spec_mode_code(m))])
}

/// Whether `f` is the write frame of a read-modify-write of the operating
/// mode register that sets the mode bits to `m` while keeping every
/// non-mode bit of some prior register value.
pub open spec fn spec_is_mode_switch(f: Seq<u8>, m: Mode) -> bool {
    exists|prior: u8| f == #[trigger] spec_mode_switch_frame(prior, m)
}

/// The write frame of a read-modify-write of the power-amplifier ramp
/// register that saw `prior` there and sets the ramp time to `t` while
/// keeping the upper nibble.
pub open spec fn spec_ramp_write_frame(prior: u8, t: PaRampTime) -> Seq<u8> {
    spec_write_frame(Reg::PaRamp, seq![spec_ramp_code(t) | (prior & 0xF0u8)])
}

/// Whether `f` is the write frame of a read-modify-write of the
/// power-amplifier ramp register that sets the ramp time to `t` while
/// keeping the upper nibble of some prior register value.
pub open spec fn spec_is_ramp_write(f: Seq<u8>, t: PaRampTime) -> bool {
    exists|prior: u8| f == #[trigger] spec_ramp_write_frame(prior, t)
}

/// The operating-mode register value that enables long-range mode: the
/// long-range flag set, shared-register access off, and Sleep forced.
pub open spec fn spec_lora_opmode() -> OpMode {
    OpMode {
        long_range_mode: true,
        access_shared_reg: false,
        low_frequency_mode_on: true,
        mode: Mode::Sleep,
    }
}

/// The interrupt-pin routing used while transmitting: transmit-done on the
/// first pin.
pub open spec fn spec_tx_dio_mapping() -> DioMapping1 {
    DioMapping1 {
        dio0_mapping: Dio0::TxDone,
        dio1_mapping: Dio1::Nop,
        dio2_mapping: Dio2::Nop,
        dio3_mapping: Dio3::CadDone,
    }
}

/// The seven write frames a transmit performs before the mode switch:
/// route the transmit-done interrupt, clear and mask the flags, reset the
/// FIFO base and pointer, write the length, then the payload.
pub open spec fn spec_transmit_writes(payload: Seq<u8>) -> Seq<Seq<u8>> {
    seq![
        spec_write_frame(Reg::DioMapping1, seq![spec_dio_mapping1_byte(spec_tx_dio_mapping())]),
        spec_write_frame(Reg::IrqFlags, seq![0xFFu8]),
        spec_write_frame(Reg::IrqFlagsMask, seq![!spec_irq_mask(IrqFlag::TxDone)]),
        spec_write_frame(Reg::FifoTxBaseAddr, seq![0x00u8]),
        spec_write_frame(Reg::FifoAddrPtr, seq![0x00u8]),
        spec_write_frame(Reg::PayloadLength, seq![payload.len() as u8]),
        spec_write_frame(Reg::Fifo, payload),
    ]
}

/// The signed quarter-dB signal-to-noise estimate a raw telemetry register
/// decodes to: two's-complement interpretation, divided by four rounding
/// toward zero.
pub open spec fn spec_snr_value(raw: u8) -> int {
    if raw & 0x80 != 0 {
        -((((!raw) as int) + 1) / 4)
    } else {
        (raw as int) / 4
    }
}

/// The dBm strength estimate: the fixed correction plus the raw register,
/// with a quarter of the (negative) signal-to-noise estimate added only
/// when that estimate is negative; division rounds toward zero.
pub open spec fn spec_rssi_value(raw: u8, snr: int) -> int {
    if snr < 0 {
        RSSI_CORRECTION + raw - ((-snr) / 4)
    } else {
        RSSI_CORRECTION + raw
    }
}

/// Decode the signal-to-noise telemetry register.
pub fn compute_snr(raw: u8) -> (snr: i32)
    ensures
        snr as int == spec_snr_value(raw),
        -32 <= snr <= 31,
{
    if raw & 0x80 != 0 {
        // The sign bit is set: invert and divide by four
        let inv: u8 = !raw;
        proof {
            assert(raw & 0x80 != 0 ==> (!raw) < 0x80u8) by (bit_vector);
        }
        let s: u8 = inv + 1;
        let t: u8 = s >> 2;
        proof {
            assert(s >> 2 == s / 4) by (bit_vector);
        }
        -(t as i32)
    } else {
        proof {
            let r = raw;
            assert(r & 0x80 == 0 ==> r < 0x80u8) by (bit_vector);
            assert(raw >> 2 == raw / 4) by (bit_vector);
        }
        (raw >> 2) as i32
    }
}

/// Decode the strength telemetry register, applying the correction and the
/// signal-to-noise adjustment.
pub fn compute_rssi(raw: u8, snr: i32) -> (rss: i32)
    requires
        -32 <= snr <= 31,
    ensures
        rss as int == spec_rssi_value(raw, snr as int),
        -165 <= rss <= 98,
{
    let base: i32 = RSSI_CORRECTION + raw as i32;
    if snr < 0 {
        let pos: u32 = (-snr) as u32;
        let corr: u32 = pos / 4;
        base - (corr as i32)
    } else {
        base
    }
}

/// Whether a flag register value reports a payload CRC failure.
pub fn crc_error_flagged(irq_flags: u8) -> (b: bool)
    ensures
        b == (irq_flags & spec_irq_mask(IrqFlag::PayloadCrcError) != 0),
{
    irq_flags & IrqFlag::PayloadCrcError.mask() != 0
}

/// The transceiver driver: exclusive owner of the chip-select, interrupt
/// and reset lines and the serial bus handle. `bus_ops` is the ghost log
/// of the outgoing byte frame of every completed bus transfer, oldest
/// first, and `bus_ins` the raw buffer the chip answered each of them
/// with; the two ghost line levels mirror where the driver last drove
/// the reset and chip-select outputs.
pub struct Lora {
    nss: OutputPin,
    dio0: InputPin,
    rst: OutputPin,
    spi: Spi,
    bus_ops: Ghost<Seq<Seq<u8>>>,
    bus_ins: Ghost<Seq<Seq<u8>>>,
    rst_line_low: Ghost<bool>,
    nss_line_low: Ghost<bool>,
}

impl Lora {
    /// The outgoing frames of the completed bus transfers, oldest first.
    pub closed spec fn log(self) -> Seq<Seq<u8>> {
        self.bus_ops@
    }

    /// The raw answer buffer of each completed bus transfer, parallel to
    /// `log()`: what the chip clocked back while each frame went out.
    pub closed spec fn answers(self) -> Seq<Seq<u8>> {
        self.bus_ins@
    }

    /// Whether the driver last drove the reset line low (asserted).
    pub closed spec fn rst_low(self) -> bool {
        self.rst_line_low@
    }

    /// Whether the driver last drove the chip-select line low (active).
    pub closed spec fn nss_low(self) -> bool {
        self.nss_line_low@
    }

    /// Take ownership of the four hardware handles. No bus traffic yet;
    /// the caller pulses reset and then runs `init`.
    pub fn new(nss: OutputPin, dio0: InputPin, rst: OutputPin, spi: Spi) -> (l: Lora)
        ensures
            l.log() =~= Seq::<Seq<u8>>::empty(),
            l.answers() =~= Seq::<Seq<u8>>::empty(),
    {
        Lora {
            nss,
            dio0,
            rst,
            spi,
            bus_ops: Ghost(Seq::empty()),
            bus_ins: Ghost(Seq::empty()),
            rst_line_low: Ghost(false),
            nss_line_low: Ghost(false),
        }
    }

    /// Drive the reset line low. The caller holds it there for the
    /// required settle time.
    pub fn reset_assert(&mut self)
        ensures
            final(self).rst_low(),
            final(self).log() == old(self).log(),
    {
        OutputPin::set_low(&mut self.rst);
        self.rst_line_low = Ghost(true);
    }

    /// Release the reset line. The caller waits for bring-up before the
    /// first bus access.
    pub fn reset_release(&mut self)
        ensures
            !final(self).rst_low(),
            final(self).log() == old(self).log(),
    {
        OutputPin::set_high(&mut self.rst);
        self.rst_line_low = Ghost(false);
    }

    /// One chip-select-bracketed full-duplex transfer: the select line is
    /// driven active for the exchange and released after it; on success
    /// the outgoing frame is appended to the log.
    fn transfer(&mut self, read: &mut Vec<u8>, write: &Vec<u8>) -> (r: Result<usize, Error>)
        requires
            old(read)@.len() <= 0xFFFF_FFFF,
            write@.len() <= 0xFFFF_FFFF,
        ensures
            !final(self).nss_low(),
            final(self).rst_low() == old(self).rst_low(),
            final(read)@.len() == old(read)@.len(),
            r matches Ok(n) ==> n == (if old(read)@.len() <= write@.len() {
                old(read)@.len()
            } else {
                write@.len()
            }) && final(self).log() == old(self).log().push(write@) && final(self).answers()
                == old(self).answers().push(final(read)@),
            r matches Err(e) ==> (e matches Error::Spi(_)) && final(self).log() == old(
                self,
            ).log() && final(self).answers() == old(self).answers(),
    {
        OutputPin::set_low(&mut self.nss);
        self.nss_line_low = Ghost(true);
        let result = spi_transfer(&self.spi, read, write);
        OutputPin::set_high(&mut self.nss);
        self.nss_line_low = Ghost(false);
        match result {
            Ok(n) => {
                self.bus_ops = Ghost(self.bus_ops@.push(write@));
                self.bus_ins = Ghost(self.bus_ins@.push(read@));
                Ok(n)
            },
            Err(e) => Err(Error::Spi(e)),
        }
    }

    /// Burst read of `len` payload bytes from one register: the returned
    /// bytes are the answer buffer behind its leading don't-care byte.
    fn burst_read(&mut self, addr: Reg, len: u8) -> (r: Result<Vec<u8>, Error>)
        ensures
            r matches Ok(v) ==> {
                &&& v@.len() == len as nat
                &&& final(self).log() == old(self).log().push(spec_read_frame(addr, len as nat))
                &&& final(self).answers().len() == old(self).answers().len() + 1
                &&& old(self).answers().is_prefix_of(final(self).answers())
                &&& final(self).answers().last().len() == len + 1
                &&& v@ == final(self).answers().last().subrange(1, len as int + 1)
            },
            r matches Err(e) ==> (e matches Error::Spi(_)) && final(self).log() == old(
                self,
            ).log() && final(self).answers() == old(self).answers(),
    {
        let payload: usize = len as usize + 1;
        let mut read_buffer: Vec<u8> = Vec::new();
        let mut i: usize = 0;
        while i < payload
            invariant
                read_buffer@.len() == i <= payload,
            decreases payload - i,
        {
            read_buffer.push(0);
            i += 1;
        }
        let mut write_buffer: Vec<u8> = Vec::new();
        write_buffer.push(0x7F & addr.addr());
        let mut j: usize = 0;
        while j < payload
            invariant
                write_buffer@.len() == 1 + j,
                j <= payload,
                write_buffer@[0] == 0x7Fu8 & spec_reg_addr(addr),
                forall|k: int| 1 <= k < write_buffer@.len() ==> write_buffer@[k] == 0u8,
            decreases payload - j,
        {
            write_buffer.push(0);
            j += 1;
        }
        proof {
            assert(write_buffer@ =~= spec_read_frame(addr, len as nat));
        }
        match self.transfer(&mut read_buffer, &write_buffer) {
            Ok(_) => {},
            Err(e) => {
                return Err(e);
            },
        }
        let mut out: Vec<u8> = Vec::new();
        let mut k: usize = 1;
        while k < read_buffer.len()
            invariant
                1 <= k <= read_buffer@.len(),
                out@.len() == k - 1,
                forall|j: int| 0 <= j < out@.len() ==> out@[j] == read_buffer@[j + 1],
            decreases read_buffer@.len() - k,
        {
            out.push(read_buffer[k]);
            k += 1;
        }
        proof {
            assert(out@ =~= read_buffer@.subrange(1, read_buffer@.len() as int));
        }
        Ok(out)
    }

    /// Burst write of payload bytes to one register; returns how many
    /// bytes crossed the bus, the address byte included.
    fn burst_write(&mut self, addr: Reg, values: &Vec<u8>) -> (r: Result<usize, Error>)
        requires
            values@.len() < 0xFFFF_FFFF,
        ensures
            r matches Ok(n) ==> n == values@.len() + 1 && final(self).log() == old(
                self,
            ).log().push(spec_write_frame(addr, values@)) && final(self).answers().len() == old(
                self,
            ).answers().len() + 1 && old(self).answers().is_prefix_of(final(self).answers()),
            r matches Err(e) ==> (e matches Error::Spi(_)) && final(self).log() == old(
                self,
            ).log() && final(self).answers() == old(self).answers(),
    {
        let mut write_buffer: Vec<u8> = Vec::new();
        write_buffer.push(0x80 | addr.addr());
        let mut i: usize = 0;
        while i < values.len()
            invariant
                i <= values@.len(),
                write_buffer@.len() == 1 + i,
                write_buffer@[0] == 0x80u8 | spec_reg_addr(addr),
                forall|k: int| 1 <= k < write_buffer@.len() ==> write_buffer@[k] == values@[k - 1],
            decreases values@.len() - i,
        {
            write_buffer.push(values[i]);
            i += 1;
        }
        proof {
            assert(write_buffer@ =~= spec_write_frame(addr, values@));
        }
        let mut read_buffer: Vec<u8> = Vec::new();
        let mut j: usize = 0;
        while j < write_buffer.len()
            invariant
                read_buffer@.len() == j <= write_buffer@.len(),
            decreases write_buffer@.len() - j,
        {
            read_buffer.push(0);
            j += 1;
        }
        match self.transfer(&mut read_buffer, &write_buffer) {
            Ok(n) => Ok(n),
            Err(e) => Err(e),
        }
    }

    /// Read one register: the returned byte is what the chip answered.
    fn single_read(&mut self, addr: Reg) -> (r: Result<u8, Error>)
        ensures
            r matches Ok(b) ==> {
                &&& final(self).log() == old(self).log().push(spec_read_frame(addr, 1))
                &&& final(self).answers().len() == old(self).answers().len() + 1
                &&& old(self).answers().is_prefix_of(final(self).answers())
                &&& final(self).answers().last().len() == 2
                &&& b == final(self).answers().last()[1]
            },
            r matches Err(e) ==> (e matches Error::Spi(_)) && final(self).log() == old(
                self,
            ).log() && final(self).answers() == old(self).answers(),
    {
        let v = match self.burst_read(addr, 1) {
            Ok(v) => v,
            Err(e) => {
                return Err(e);
            },
        };
        Ok(v[0])
    }

    /// Write one register.
    fn single_write(&mut self, addr: Reg, value: u8) -> (r: Result<(), Error>)
        ensures
            r matches Ok(_) ==> final(self).log() == old(self).log().push(
                spec_write_frame(addr, seq![value]),
            ) && final(self).answers().len() == old(self).answers().len() + 1 && old(
                self,
            ).answers().is_prefix_of(final(self).answers()),
            r matches Err(e) ==> (e matches Error::Spi(_)) && final(self).log() == old(
                self,
            ).log() && final(self).answers() == old(self).answers(),
    {
        let mut values: Vec<u8> = Vec::new();
        values.push(value);
        proof {
            assert(values@ =~= seq![value]);
        }
        match self.burst_write(addr, &values) {
            Ok(_) => Ok(()),
            Err(e) => Err(e),
        }
    }

    /// Copy one register's current value into another: the written byte
    /// is exactly what the source register answered.
    fn copy_reg(&mut self, source: Reg, dest: Reg) -> (r: Result<(), Error>)
        ensures
            old(self).log().is_prefix_of(final(self).log()),
            old(self).answers().is_prefix_of(final(self).answers()),
            r matches Ok(_) ==> {
                &&& final(self).log().len() == old(self).log().len() + 2
                &&& final(self).answers().len() == old(self).answers().len() + 2
                &&& final(self).log()[old(self).log().len() as int] == spec_read_frame(source, 1)
                &&& final(self).log().last() == spec_write_frame(
                    dest,
                    seq![final(self).answers()[old(self).answers().len() as int][1]],
                )
            },
            r matches Err(e) ==> (e matches Error::Spi(_)),
    {
        let value = match self.single_read(source) {
            Ok(v) => v,
            Err(e) => {
                proof {
                    assert(old(self).log().is_prefix_of(self.log()));
                }
                return Err(e);
            },
        };
        let r = self.single_write(dest, value);
        proof {
            assert(old(self).log().is_prefix_of(self.log()));
        }
        r
    }

    /// Read `len` bytes from the FIFO: the returned bytes are the chip's
    /// answer to the burst.
    fn fifo_read(&mut self, len: u8) -> (r: Result<Vec<u8>, Error>)
        ensures
            r matches Ok(v) ==> {
                &&& v@.len() == len as nat
                &&& final(self).log() == old(self).log().push(
                    spec_read_frame(Reg::Fifo, len as nat),
                )
                &&& final(self).answers().len() == old(self).answers().len() + 1
                &&& old(self).answers().is_prefix_of(final(self).answers())
                &&& v@ == final(self).answers().last().subrange(1, len as int + 1)
            },
            r matches Err(e) ==> (e matches Error::Spi(_)) && final(self).log() == old(
                self,
            ).log() && final(self).answers() == old(self).answers(),
    {
        self.burst_read(Reg::Fifo, len)
    }

    /// Stage payload bytes into the FIFO.
    fn fifo_write(&mut self, values: &Vec<u8>) -> (r: Result<usize, Error>)
        requires
            values@.len() < 0xFFFF_FFFF,
        ensures
            r matches Ok(n) ==> n == values@.len() + 1 && final(self).log() == old(
                self,
            ).log().push(spec_write_frame(Reg::Fifo, values@)) && final(self).answers().len()
                == old(self).answers().len() + 1 && old(self).answers().is_prefix_of(
                final(self).answers(),
            ),
            r matches Err(e) ==> (e matches Error::Spi(_)) && final(self).log() == old(
                self,
            ).log() && final(self).answers() == old(self).answers(),
    {
        self.burst_write(Reg::Fifo, values)
    }

    /// Switch the operating mode by a read-modify-write that preserves
    /// every non-mode bit of the register value the chip answered.
    pub fn op_mode(&mut self, mode: Mode) -> (r: Result<(), Error>)
        ensures
            old(self).log().is_prefix_of(final(self).log()),
            old(self).answers().is_prefix_of(final(self).answers()),
            r matches Ok(_) ==> {
                &&& final(self).log().len() == old(self).log().len() + 2
                &&& final(self).answers().len() == old(self).answers().len() + 2
                &&& final(self).log()[old(self).log().len() as int] == spec_read_frame(
                    Reg::OpMode,
                    1,
                )
                &&& final(self).log().last() == spec_mode_switch_frame(
                    final(self).answers()[old(self).answers().len() as int][1],
                    mode,
                )
                &&& spec_is_mode_switch(final(self).log().last(), mode)
            },
            r matches Err(e) ==> (e matches Error::Spi(_)) && final(self).log().len() <= old(
                self,
            ).log().len() + 1,
    {
        let prior = match self.single_read(Reg::OpMode) {
            Ok(v) => v,
            Err(e) => {
                proof {
                    assert(old(self).log().is_prefix_of(self.log()));
                }
                return Err(e);
            },
        };
        let updated: u8 = (prior & 0xF8) | mode.code();
        let r = self.single_write(Reg::OpMode, updated);
        proof {
            assert(old(self).log().is_prefix_of(self.log()));
            if r is Ok {
                assert(self.log().last() == spec_mode_switch_frame(prior, mode));
            }
        }
        r
    }

    /// Enable long-range mode: write the fixed long-range register value,
    /// which also forces Sleep.
    pub fn op_mode_lora(&mut self) -> (r: Result<(), Error>)
        ensures
            old(self).answers().is_prefix_of(final(self).answers()),
            r matches Ok(_) ==> final(self).log() == old(self).log().push(
                spec_write_frame(Reg::OpMode, seq![spec_opmode_byte(spec_lora_opmode())]),
            ) && final(self).answers().len() == old(self).answers().len() + 1,
            r matches Err(e) ==> (e matches Error::Spi(_)) && final(self).log() == old(
                self,
            ).log() && final(self).answers() == old(self).answers(),
    {
        let value = OpMode {
            long_range_mode: true,
            access_shared_reg: false,
            low_frequency_mode_on: true,
            mode: Mode::Sleep,
        };
        self.single_write(Reg::OpMode, value.serialize())
    }

    /// Set the power-amplifier ramp time by a read-modify-write that
    /// preserves the upper nibble of the prior register value.
    pub fn config_pa_ramp_time(&mut self, time: PaRampTime) -> (r: Result<(), Error>)
        ensures
            old(self).log().is_prefix_of(final(self).log()),
            old(self).answers().is_prefix_of(final(self).answers()),
            r matches Ok(_) ==> {
                &&& final(self).log().len() == old(self).log().len() + 2
                &&& final(self).answers().len() == old(self).answers().len() + 2
                &&& final(self).log()[old(self).log().len() as int] == spec_read_frame(
                    Reg::PaRamp,
                    1,
                )
                &&& final(self).log().last() == spec_ramp_write_frame(
                    final(self).answers()[old(self).answers().len() as int][1],
                    time,
                )
                &&& spec_is_ramp_write(final(self).log().last(), time)
            },
            r matches Err(e) ==> (e matches Error::Spi(_)) && final(self).log().len() <= old(
                self,
            ).log().len() + 1,
    {
        let prior = match self.single_read(Reg::PaRamp) {
            Ok(v) => v,
            Err(e) => {
                proof {
                    assert(old(self).log().is_prefix_of(self.log()));
                }
                return Err(e);
            },
        };
        let decoded = PaRamp::deserialize(prior);
        let updated = PaRamp { time, ..decoded };
        let r = self.single_write(Reg::PaRamp, updated.serialize());
        proof {
            assert(old(self).log().is_prefix_of(self.log()));
            if r is Ok {
                assert((prior & 0xF0) & 0xF0 == prior & 0xF0) by (bit_vector);
                assert(self.log().last() == spec_ramp_write_frame(prior, time));
            }
        }
        r
    }

    /// Set the transmit power: clamp the requested dBm onto the output
    /// power range and write the boost configuration.
    pub fn config_power(&mut self, pw: u8) -> (r: Result<(), Error>)
        ensures
            old(self).answers().is_prefix_of(final(self).answers()),
            r matches Ok(_) ==> final(self).answers().len() == old(self).answers().len() + 1,
            r matches Ok(_) ==> final(self).log() == old(self).log().push(
                spec_write_frame(
                    Reg::PaConfig,
                    seq![
                        spec_pa_config_byte(
                            PaConfig {
                                pa_select_boost: true,
                                max_power: 0x00,
                                output_power: spec_output_power_value(pw),
                            },
                        ),
                    ],
                ),
            ),
            r matches Err(e) ==> (e matches Error::Spi(_)) && final(self).log() == old(
                self,
            ).log(),
    {
        let config = PaConfig {
            pa_select_boost: true,
            max_power: 0x00,
            output_power: crate::opcodes::output_power_value(pw),
        };
        let byte = match config.serialize() {
            Ok(b) => b,
            Err(e) => {
                return Err(Error::OpCode(e));
            },
        };
        self.single_write(Reg::PaConfig, byte)
    }

    /// Stage a payload and start its transmission.
    ///
    /// A payload over 255 bytes is rejected before any bus access. On
    /// success the log grows by exactly the seven staging writes, the mode
    /// register read, and the flag-preserving switch to Tx; the returned
    /// count is the number of payload bytes staged. Completion is
    /// signalled by the interrupt line, not awaited here.
    pub fn transmit(&mut self, payload: &Vec<u8>) -> (r: Result<usize, Error>)
        ensures
            old(self).log().is_prefix_of(final(self).log()),
            old(self).answers().is_prefix_of(final(self).answers()),
            payload@.len() > 255 <==> (r matches Err(e) && e matches Error::PayloadLenOver255),
            payload@.len() > 255 ==> final(self).log() == old(self).log(),
            r matches Ok(n) ==> {
                &&& n == payload@.len()
                &&& final(self).log().len() == old(self).log().len() + 9
                &&& final(self).answers().len() == old(self).answers().len() + 9
                &&& final(self).log().subrange(
                    old(self).log().len() as int,
                    old(self).log().len() as int + 7,
                ) == spec_transmit_writes(payload@)
                &&& final(self).log()[old(self).log().len() as int + 7] == spec_read_frame(Reg::OpMode, 1)
                &&& spec_is_mode_switch(final(self).log().last(), Mode::Tx)
            },
            r matches Err(e) ==> (e matches Error::PayloadLenOver255 || e matches Error::Spi(_)),
    {
        if payload.len() > 255 {
            return Err(Error::PayloadLenOver255);
        }
        let ghost l0 = self.log();
        let mapping = DioMapping1 {
            dio0_mapping: Dio0::TxDone,
            dio1_mapping: Dio1::Nop,
            dio2_mapping: Dio2::Nop,
            dio3_mapping: Dio3::CadDone,
        };
        match self.single_write(Reg::DioMapping1, mapping.serialize()) {
            Ok(_) => {},
            Err(e) => {
                proof {
                    assert(l0.is_prefix_of(self.log()));
                }
                return Err(e);
            },
        }
        // clear all pending radio interrupt flags
        match self.single_write(Reg::IrqFlags, 0xFF) {
            Ok(_) => {},
            Err(e) => {
                proof {
                    assert(l0.is_prefix_of(self.log()));
                }
                return Err(e);
            },
        }
        // mask every interrupt but transmit-done
        match self.single_write(Reg::IrqFlagsMask, !IrqFlag::TxDone.mask()) {
            Ok(_) => {},
            Err(e) => {
                proof {
                    assert(l0.is_prefix_of(self.log()));
                }
                return Err(e);
            },
        }
        // stage the payload size and address pointers
        match self.single_write(Reg::FifoTxBaseAddr, 0x00) {
            Ok(_) => {},
            Err(e) => {
                proof {
                    assert(l0.is_prefix_of(self.log()));
                }
                return Err(e);
            },
        }
        match self.single_write(Reg::FifoAddrPtr, 0x00) {
            Ok(_) => {},
            Err(e) => {
                proof {
                    assert(l0.is_prefix_of(self.log()));
                }
                return Err(e);
            },
        }
        match self.single_write(Reg::PayloadLength, payload.len() as u8) {
            Ok(_) => {},
            Err(e) => {
                proof {
                    assert(l0.is_prefix_of(self.log()));
                }
                return Err(e);
            },
        }
        match self.fifo_write(payload) {
            Ok(_) => {},
            Err(e) => {
                proof {
                    assert(l0.is_prefix_of(self.log()));
                }
                return Err(e);
            },
        }
        proof {
            assert(self.log().subrange(l0.len() as int, l0.len() as int + 7) =~= spec_transmit_writes(
                payload@,
            ));
        }
        match self.op_mode(Mode::Tx) {
            Ok(_) => {},
            Err(e) => {
                proof {
                    assert(l0.is_prefix_of(self.log()));
                }
                return Err(e);
            },
        }
        proof {
            assert(l0.is_prefix_of(self.log()));
            assert(self.log().subrange(l0.len() as int, l0.len() as int + 7) =~= spec_transmit_writes(
                payload@,
            ));
        }
        Ok(payload.len())
    }

    /// Drain one received frame from the FIFO: clear the receive-done
    /// flag, fail on a CRC error after clearing its flag, otherwise
    /// reposition the FIFO pointer and read the received bytes.
    fn receive_bytes(&mut self) -> (r: Result<Vec<u8>, Error>)
        ensures
            old(self).log().is_prefix_of(final(self).log()),
            old(self).answers().is_prefix_of(final(self).answers()),
            r matches Ok(data) ==> ({
                let base = old(self).log().len() as int;
                let abase = old(self).answers().len() as int;
                let log = final(self).log();
                let ans = final(self).answers();
                &&& data@.len() <= 255
                &&& log.len() == base + 6
                &&& ans.len() == abase + 6
                &&& log[base] == spec_write_frame(
                    Reg::IrqFlags,
                    seq![spec_irq_mask(IrqFlag::RxDone)],
                )
                &&& log[base + 1] == spec_read_frame(Reg::IrqFlags, 1)
                &&& ans[abase + 1][1] & spec_irq_mask(IrqFlag::PayloadCrcError) == 0
                &&& log[base + 2] == spec_read_frame(Reg::FifoRxCurrentAddr, 1)
                &&& log[base + 3] == spec_write_frame(Reg::FifoAddrPtr, seq![ans[abase + 2][1]])
                &&& log[base + 4] == spec_read_frame(Reg::RxNbBytes, 1)
                &&& data@.len() == ans[abase + 4][1]
                &&& log[base + 5] == spec_read_frame(Reg::Fifo, data@.len())
                &&& data@ == ans[abase + 5].subrange(1, data@.len() as int + 1)
            }),
            r matches Err(e) ==> (e matches Error::Spi(_) || e matches Error::PayloadCrcError),
            r matches Err(e) ==> ((e matches Error::PayloadCrcError) ==> ({
                let base = old(self).log().len() as int;
                let abase = old(self).answers().len() as int;
                let log = final(self).log();
                let ans = final(self).answers();
                &&& log.len() == base + 3
                &&& ans.len() == abase + 3
                &&& log[base] == spec_write_frame(
                    Reg::IrqFlags,
                    seq![spec_irq_mask(IrqFlag::RxDone)],
                )
                &&& log[base + 1] == spec_read_frame(Reg::IrqFlags, 1)
                &&& ans[abase + 1][1] & spec_irq_mask(IrqFlag::PayloadCrcError) != 0
                &&& log.last() == spec_write_frame(
                    Reg::IrqFlags,
                    seq![spec_irq_mask(IrqFlag::PayloadCrcError)],
                )
            })),
    {
        let ghost l0 = self.log();
        // clear receive-done
        match self.single_write(Reg::IrqFlags, IrqFlag::RxDone.mask()) {
            Ok(_) => {},
            Err(e) => {
                proof {
                    assert(l0.is_prefix_of(self.log()));
                }
                return Err(e);
            },
        }
        let irq_flags = match self.single_read(Reg::IrqFlags) {
            Ok(v) => v,
            Err(e) => {
                proof {
                    assert(l0.is_prefix_of(self.log()));
                }
                return Err(e);
            },
        };
        if crc_error_flagged(irq_flags) {
            // the frame is corrupt: clear the flag and drop it
            match self.single_write(Reg::IrqFlags, IrqFlag::PayloadCrcError.mask()) {
                Ok(_) => {},
                Err(e) => {
                    proof {
                        assert(l0.is_prefix_of(self.log()));
                    }
                    return Err(e);
                },
            }
            proof {
                assert(l0.is_prefix_of(self.log()));
            }
            return Err(Error::PayloadCrcError);
        }
        let fifo_rx_current_addr = match self.single_read(Reg::FifoRxCurrentAddr) {
            Ok(v) => v,
            Err(e) => {
                proof {
                    assert(l0.is_prefix_of(self.log()));
                }
                return Err(e);
            },
        };
        match self.single_write(Reg::FifoAddrPtr, fifo_rx_current_addr) {
            Ok(_) => {},
            Err(e) => {
                proof {
                    assert(l0.is_prefix_of(self.log()));
                }
                return Err(e);
            },
        }
        let rx_nb_bytes = match self.single_read(Reg::RxNbBytes) {
            Ok(v) => v,
            Err(e) => {
                proof {
                    assert(l0.is_prefix_of(self.log()));
                }
                return Err(e);
            },
        };
        let r = self.fifo_read(rx_nb_bytes);
        proof {
            assert(l0.is_prefix_of(self.log()));
        }
        r
    }

    /// Non-blocking receive poll.
    ///
    /// Returns nothing, without touching the bus, when the interrupt line
    /// is not asserted. Otherwise drains the pending frame: a CRC failure
    /// clears its flag and discards the frame; a sound frame is returned
    /// with its signal-quality estimates decoded from the telemetry
    /// registers.
    pub fn try_receive(&mut self) -> (r: Result<Option<Reception>, Error>)
        ensures
            old(self).log().is_prefix_of(final(self).log()),
            old(self).answers().is_prefix_of(final(self).answers()),
            r matches Ok(rec) ==> ((rec is None) ==> final(self).log() == old(self).log()
                && final(self).answers() == old(self).answers()),
            r matches Err(e) ==> (e matches Error::Spi(_) || e matches Error::PayloadCrcError),
            r matches Err(e) ==> ((e matches Error::PayloadCrcError) ==> ({
                let base = old(self).log().len() as int;
                let abase = old(self).answers().len() as int;
                let log = final(self).log();
                &&& log.len() == base + 3
                &&& log[base] == spec_write_frame(
                    Reg::IrqFlags,
                    seq![spec_irq_mask(IrqFlag::RxDone)],
                )
                &&& log[base + 1] == spec_read_frame(Reg::IrqFlags, 1)
                &&& final(self).answers()[abase + 1][1] & spec_irq_mask(
                    IrqFlag::PayloadCrcError,
                ) != 0
                &&& log.last() == spec_write_frame(
                    Reg::IrqFlags,
                    seq![spec_irq_mask(IrqFlag::PayloadCrcError)],
                )
            })),
            r matches Ok(rec) ==> (rec matches Some(rx) ==> ({
                let base = old(self).log().len() as int;
                let abase = old(self).answers().len() as int;
                let log = final(self).log();
                let ans = final(self).answers();
                &&& rx.data@.len() <= 255
                &&& log.len() == base + 8
                &&& ans.len() == abase + 8
                &&& log[base + 6] == spec_read_frame(Reg::PktSnrValue, 1)
                &&& log.last() == spec_read_frame(Reg::PktRssiValue, 1)
                &&& rx.data@.len() == ans[abase + 4][1]
                &&& rx.data@ == ans[abase + 5].subrange(1, rx.data@.len() as int + 1)
                &&& rx.snr as int == spec_snr_value(ans[abase + 6][1])
                &&& rx.rss as int == spec_rssi_value(ans[abase + 7][1], rx.snr as int)
                &&& -32 <= rx.snr <= 31
                &&& -165 <= rx.rss <= 98
            })),
    {
        if InputPin::is_low(&self.dio0) {
            return Ok(None);
        }
        let ghost l0 = self.log();
        let data = match self.receive_bytes() {
            Ok(d) => d,
            Err(e) => {
                return Err(e);
            },
        };
        let snr_raw = match self.single_read(Reg::PktSnrValue) {
            Ok(v) => v,
            Err(e) => {
                proof {
                    assert(l0.is_prefix_of(self.log()));
                }
                return Err(e);
            },
        };
        let snr = compute_snr(snr_raw);
        let rssi_raw = match self.single_read(Reg::PktRssiValue) {
            Ok(v) => v,
            Err(e) => {
                proof {
                    assert(l0.is_prefix_of(self.log()));
                }
                return Err(e);
            },
        };
        let rss = compute_rssi(rssi_raw, snr);
        proof {
            assert(l0.is_prefix_of(self.log()));
        }
        Ok(Some(Reception { data, snr, rss }))
    }

    /// Bring the chip up after a reset pulse: verify the chip revision,
    /// force Sleep, program the radio configuration, enable long-range
    /// mode, align the FIFO pointer with the receive base, and enter
    /// Standby.
    ///
    /// On success the log grows by exactly the nineteen bring-up frames;
    /// the sync word and the three derived frequency bytes stand at their
    /// fixed places and the final frame is the flag-preserving switch to
    /// Standby. An unrecognized chip answers with only the identification
    /// read logged; a codec rejection of the configuration names the field
    /// that failed.
    pub fn init(&mut self, configs: Configs) -> (r: Result<(), Error>)
        ensures
            old(self).log().is_prefix_of(final(self).log()),
            old(self).answers().is_prefix_of(final(self).answers()),
            r matches Err(e) ==> ((e matches Error::UnknownTransceiver) ==> final(self).log().len()
                == old(self).log().len() + 1 && final(self).answers().last()[1]
                != SX1276_VERSION),
            r matches Err(e) ==> (e matches Error::Spi(_) || e matches Error::UnknownTransceiver
                || e matches Error::OpCode(_)),
            r matches Err(e) ==> (e matches Error::OpCode(oe) ==> ((oe
                matches crate::opcodes::Error::FrequencyOutOfRange(f) && f == configs.frf.freq
                && spec_frf_derived(f) > 0xFFFFFF) || (oe
                matches crate::opcodes::Error::SymbTimeoutMsbOverflow(v) && v
                == configs.modem_config2.symb_timeout_msb && v > 0x03))),
            r matches Ok(_) ==> ({
                let base = old(self).log().len() as int;
                let abase = old(self).answers().len() as int;
                let log = final(self).log();
                let ans = final(self).answers();
                &&& spec_frf_derived(configs.frf.freq) <= 0xFFFFFF
                &&& configs.modem_config2.symb_timeout_msb <= 0x03
                &&& log.len() == base + 19
                &&& ans.len() == abase + 19
                &&& log[base] == spec_read_frame(Reg::Version, 1)
                &&& ans[abase][1] == SX1276_VERSION
                &&& log[base + 1] == spec_read_frame(Reg::OpMode, 1)
                &&& spec_is_mode_switch(log[base + 2], Mode::Sleep)
                &&& log[base + 3] == spec_write_frame(Reg::SyncWord, seq![configs.sync_word])
                &&& log[base + 4] == spec_write_frame(
                    Reg::FrfMsb,
                    seq![spec_frf_bytes(configs.frf.freq).0],
                )
                &&& log[base + 5] == spec_write_frame(
                    Reg::FrfMid,
                    seq![spec_frf_bytes(configs.frf.freq).1],
                )
                &&& log[base + 6] == spec_write_frame(
                    Reg::FrfLsb,
                    seq![spec_frf_bytes(configs.frf.freq).2],
                )
                &&& log[base + 7] == spec_write_frame(
                    Reg::ModemConfig1,
                    seq![spec_modem_config1_byte(configs.modem_config1)],
                )
                &&& log[base + 8] == spec_write_frame(
                    Reg::ModemConfig2,
                    seq![spec_modem_config2_byte(configs.modem_config2)],
                )
                &&& log[base + 9] == spec_write_frame(
                    Reg::ModemConfig3,
                    seq![spec_modem_config3_byte(configs.modem_config3)],
                )
                &&& log[base + 10] == spec_write_frame(
                    Reg::SymbTimeoutLsb,
                    seq![configs.symb_timeout_lsb],
                )
                &&& log[base + 11] == spec_write_frame(
                    Reg::MaxPayloadLength,
                    seq![configs.max_payload],
                )
                &&& log[base + 12] == spec_write_frame(Reg::HopPeriod, seq![0x00u8])
                &&& log[base + 13] == spec_read_frame(Reg::FifoRxBaseAddr, 1)
                &&& log[base + 14] == spec_write_frame(
                    Reg::FifoAddrPtr,
                    seq![ans[abase + 13][1]],
                )
                &&& log[base + 15] == spec_write_frame(Reg::Lna, seq![spec_lna_byte(configs.lna)])
                &&& log[base + 16] == spec_write_frame(
                    Reg::OpMode,
                    seq![spec_opmode_byte(spec_lora_opmode())],
                )
                &&& log[base + 17] == spec_read_frame(Reg::OpMode, 1)
                &&& spec_is_mode_switch(log.last(), Mode::Stdby)
            }),
    {
        let ghost l0 = self.log();
        // identify the chip before any configuration
        let version = match self.single_read(Reg::Version) {
            Ok(v) => v,
            Err(e) => {
                proof {
                    assert(l0.is_prefix_of(self.log()));
                }
                return Err(e);
            },
        };
        if version != SX1276_VERSION {
            proof {
                assert(l0.is_prefix_of(self.log()));
            }
            return Err(Error::UnknownTransceiver);
        }
        match self.op_mode(Mode::Sleep) {
            Ok(_) => {},
            Err(e) => {
                proof {
                    assert(l0.is_prefix_of(self.log()));
                }
                return Err(e);
            },
        }
        let c = configs;
        match self.single_write(Reg::SyncWord, c.sync_word) {
            Ok(_) => {},
            Err(e) => {
                proof {
                    assert(l0.is_prefix_of(self.log()));
                }
                return Err(e);
            },
        }
        let frf = match c.frf.serialize() {
            Ok(t) => t,
            Err(e) => {
                proof {
                    assert(l0.is_prefix_of(self.log()));
                }
                return Err(Error::OpCode(e));
            },
        };
        match self.single_write(Reg::FrfMsb, frf.0) {
            Ok(_) => {},
            Err(e) => {
                proof {
                    assert(l0.is_prefix_of(self.log()));
                }
                return Err(e);
            },
        }
        match self.single_write(Reg::FrfMid, frf.1) {
            Ok(_) => {},
            Err(e) => {
                proof {
                    assert(l0.is_prefix_of(self.log()));
                }
                return Err(e);
            },
        }
        match self.single_write(Reg::FrfLsb, frf.2) {
            Ok(_) => {},
            Err(e) => {
                proof {
                    assert(l0.is_prefix_of(self.log()));
                }
                return Err(e);
            },
        }
        match self.single_write(Reg::ModemConfig1, c.modem_config1.serialize()) {
            Ok(_) => {},
            Err(e) => {
                proof {
                    assert(l0.is_prefix_of(self.log()));
                }
                return Err(e);
            },
        }
        let mc2 = match c.modem_config2.serialize() {
            Ok(b) => b,
            Err(e) => {
                proof {
                    assert(l0.is_prefix_of(self.log()));
                }
                return Err(Error::OpCode(e));
            },
        };
        match self.single_write(Reg::ModemConfig2, mc2) {
            Ok(_) => {},
            Err(e) => {
                proof {
                    assert(l0.is_prefix_of(self.log()));
                }
                return Err(e);
            },
        }
        match self.single_write(Reg::ModemConfig3, c.modem_config3.serialize()) {
            Ok(_) => {},
            Err(e) => {
                proof {
                    assert(l0.is_prefix_of(self.log()));
                }
                return Err(e);
            },
        }
        // reception window length in symbols
        match self.single_write(Reg::SymbTimeoutLsb, c.symb_timeout_lsb) {
            Ok(_) => {},
            Err(e) => {
                proof {
                    assert(l0.is_prefix_of(self.log()));
                }
                return Err(e);
            },
        }
        // drop frames longer than the configured maximum
        match self.single_write(Reg::MaxPayloadLength, c.max_payload) {
            Ok(_) => {},
            Err(e) => {
                proof {
                    assert(l0.is_prefix_of(self.log()));
                }
                return Err(e);
            },
        }
        // frequency hopping disabled
        match self.single_write(Reg::HopPeriod, 0x00) {
            Ok(_) => {},
            Err(e) => {
                proof {
                    assert(l0.is_prefix_of(self.log()));
                }
                return Err(e);
            },
        }
        // align the FIFO pointer with the receive base address
        match self.copy_reg(Reg::FifoRxBaseAddr, Reg::FifoAddrPtr) {
            Ok(_) => {},
            Err(e) => {
                proof {
                    assert(l0.is_prefix_of(self.log()));
                }
                return Err(e);
            },
        }
        match self.single_write(Reg::Lna, c.lna.serialize()) {
            Ok(_) => {},
            Err(e) => {
                proof {
                    assert(l0.is_prefix_of(self.log()));
                }
                return Err(e);
            },
        }
        match self.op_mode_lora() {
            Ok(_) => {},
            Err(e) => {
                proof {
                    assert(l0.is_prefix_of(self.log()));
                }
                return Err(e);
            },
        }
        // standby is required for FIFO loading
        let r = self.op_mode(Mode::Stdby);
        proof {
            assert(l0.is_prefix_of(self.log()));
        }
        match r {
            Ok(_) => Ok(()),
            Err(e) => Err(e),
        }
    }
}

/// Bring-up hook for a transmit-only deployment.
pub fn init_sender() {
}

/// Bring-up hook for a receive-only deployment.
pub fn init_receiver() {
}

} // verus!
