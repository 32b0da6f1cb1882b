//! Gateway assembly: the fixed radio configuration the gateway brings the
//! link up with, and the gateway-level error taxonomy.
//!
//! The caller opens the hardware handles, pulses reset with the required
//! settle times, runs the driver's bring-up with this configuration and
//! then polls for frames; those steps sit at the process edge. What is
//! decided here is the configuration itself: every field is fixed except
//! the spreading factor and carrier frequency, and the symbol timeout and
//! low-data-rate optimization follow the spreading factor.

use crate::driver;
use crate::msg;
use crate::opcodes::{
    Bandwidth, CodingRate, Configs, Frf, Lna, LnaGain, ModemConfig1, ModemConfig2, ModemConfig3,
    SpreadingFactor,
};
use vstd::prelude::*;

verus! {

/// Gateway errors: a driver fault or a wire-message fault, wrapped
/// unchanged.
#[derive(Debug)]
pub enum Error {
    Lora(driver::Error),
    Msg(msg::Error),
}

/// The reception window length in symbols for a spreading factor: the
/// slower factors get a shorter window.
pub open spec fn spec_symb_timeout_lsb(sf: SpreadingFactor) -> u8 {
    match sf {
        SpreadingFactor::SF10 => 5,
        SpreadingFactor::SF11 => 5,
        SpreadingFactor::SF12 => 5,
        _ => 8,
    }
}

/// Whether the low-data-rate optimization is required for a spreading
/// factor: only the two slowest factors need it.
pub open spec fn spec_low_data_rate_optimize(sf: SpreadingFactor) -> bool {
    match sf {
        SpreadingFactor::SF11 => true,
        SpreadingFactor::SF12 => true,
        _ => false,
    }
}

/// The radio configuration the gateway uses: the private-network sync
/// word, 125 kHz bandwidth, 4/5 coding, explicit headers, receive CRC on,
/// automatic gain control, maximum LNA gain with boost, and a 128-byte
/// payload cap; the symbol timeout and the low-data-rate optimization
/// follow the spreading factor.
pub fn gateway_configs(sf: SpreadingFactor, freq: u32) -> (c: Configs)
    ensures
        c.sync_word == 0x12,
        c.frf.freq == freq,
        c.modem_config1 == (ModemConfig1 {
            bw: Bandwidth::KHz125,
            coding_rate: CodingRate::CR4_5,
            implicit_header_mode_on: false,
        }),
        c.modem_config2 == (ModemConfig2 {
            sf,
            tx_continuous_mode: false,
            rx_payload_crc_on: true,
            symb_timeout_msb: 0,
        }),
        c.symb_timeout_lsb == spec_symb_timeout_lsb(sf),
        c.modem_config3 == (ModemConfig3 {
            low_data_rate_optimize: spec_low_data_rate_optimize(sf),
            agc_auto_on: true,
        }),
        c.lna == (Lna { lna_gain: LnaGain::G1, lna_boost_hf: true }),
        c.max_payload == 128,
{
    let symb_timeout_lsb: u8 = match sf {
        SpreadingFactor::SF10 | SpreadingFactor::SF11 | SpreadingFactor::SF12 => 5,
        _ => 8,
    };
    let low_data_rate_optimize = match sf {
        SpreadingFactor::SF11 | SpreadingFactor::SF12 => true,
        _ => false,
    };
    Configs {
        sync_word: 0x12,
        frf: Frf { freq },
        modem_config1: ModemConfig1 {
            bw: Bandwidth::KHz125,
            coding_rate: CodingRate::CR4_5,
            implicit_header_mode_on: false,
        },
        modem_config2: ModemConfig2 {
            sf,
            tx_continuous_mode: false,
            rx_payload_crc_on: true,
            symb_timeout_msb: 0,
        },
        symb_timeout_lsb,
        max_payload: 128,
        modem_config3: ModemConfig3 { low_data_rate_optimize, agc_auto_on: true },
        lna: Lna { lna_gain: LnaGain::G1, lna_boost_hf: true },
    }
}

} // verus!
