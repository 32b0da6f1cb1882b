use smart_gw::opcodes::{
    output_power_value, Bandwidth, CodingRate, Dio0, Dio1, Dio2, Dio3, Dio4, Dio5, DioMapping1,
    DioMapping2, Error, Frf, Lna, LnaGain, Mode, ModemConfig1, ModemConfig2, ModemConfig3, OpMode,
    PaConfig, PaRamp, Reg,
};

#[test]
fn register_addresses() {
    assert_eq!(Reg::Fifo.addr(), 0x00);
    assert_eq!(Reg::OpMode.addr(), 0x01);
    assert_eq!(Reg::FrfMsb.addr(), 0x06);
    assert_eq!(Reg::IrqFlags.addr(), 0x12);
    assert_eq!(Reg::SyncWord.addr(), 0x39);
    assert_eq!(Reg::Version.addr(), 0x42);
    assert_eq!(Reg::Pll.addr(), 0x70);
}

#[test]
fn mode_codes_round_trip() {
    let modes = [
        Mode::Sleep,
        Mode::Stdby,
        Mode::FsTx,
        Mode::Tx,
        Mode::FsRx,
        Mode::RxContinuous,
        Mode::RxSingle,
        Mode::Cad,
    ];
    for (i, m) in modes.iter().enumerate() {
        assert_eq!(m.code(), i as u8);
        assert_eq!(Mode::try_from(i as u8).unwrap(), *m);
    }
    // only the low three bits are inspected
    assert_eq!(Mode::try_from(0xFB).unwrap(), Mode::Tx);
}

#[test]
fn opmode_packs_and_unpacks() {
    let v = OpMode {
        long_range_mode: true,
        access_shared_reg: false,
        low_frequency_mode_on: true,
        mode: Mode::Sleep,
    };
    assert_eq!(v.serialize(), 0x88);
    let d = OpMode::deserialize(0x88);
    assert!(d.long_range_mode);
    assert!(!d.access_shared_reg);
    assert!(d.low_frequency_mode_on);
    assert_eq!(d.mode, Mode::Sleep);
    // each flag lives in its own bit
    let lr_only = OpMode { low_frequency_mode_on: false, ..v };
    assert_eq!(lr_only.serialize(), 0x80);
    let d80 = OpMode::deserialize(0x80);
    assert!(d80.long_range_mode);
    assert!(!d80.low_frequency_mode_on);
}

#[test]
fn opmode_round_trips_every_field() {
    let flags = [false, true];
    let modes = [
        Mode::Sleep,
        Mode::Stdby,
        Mode::FsTx,
        Mode::Tx,
        Mode::FsRx,
        Mode::RxContinuous,
        Mode::RxSingle,
        Mode::Cad,
    ];
    for &lr in &flags {
        for &sh in &flags {
            for &lf in &flags {
                for &m in &modes {
                    let o = OpMode {
                        long_range_mode: lr,
                        access_shared_reg: sh,
                        low_frequency_mode_on: lf,
                        mode: m,
                    };
                    assert_eq!(OpMode::deserialize(o.serialize()), o);
                }
            }
        }
    }
    // decode keeps the defined bits; re-encoding drops only the reserved ones
    for b in 0..=255u8 {
        assert_eq!(OpMode::deserialize(b).serialize(), b & 0xCF);
    }
}

#[test]
fn mode_change_preserves_flags() {
    // the flag-preserving read-modify-write: only the mode bits change
    for prior in [0x80u8, 0x4D, 0x09, 0xFF, 0x00] {
        let w = (prior & 0xF8) | Mode::Tx.code();
        assert_eq!(w & 0xF8, prior & 0xF8);
        assert_eq!(w & 0x07, 0x03);
        let before = OpMode::deserialize(prior);
        let after = OpMode::deserialize(w);
        assert_eq!(after.long_range_mode, before.long_range_mode);
        assert_eq!(after.access_shared_reg, before.access_shared_reg);
        assert_eq!(after.low_frequency_mode_on, before.low_frequency_mode_on);
        assert_eq!(after.mode, Mode::Tx);
    }
}

#[test]
fn frf_serialize_splits_the_derived_word() {
    // 868.1 MHz * 2^19 / 32 MHz = 0xD90666
    let (msb, mid, lsb) = Frf { freq: 868_100_000 }.serialize().unwrap();
    assert_eq!((msb, mid, lsb), (0xD9, 0x06, 0x66));
    let derived = ((868_100_000u64) << 19) / 32_000_000;
    assert_eq!(((msb as u64) << 16) | ((mid as u64) << 8) | lsb as u64, derived);
}

#[test]
fn frf_serialize_rejects_out_of_range() {
    // the derived word needs more than 24 bits here
    let r = Frf { freq: 1_100_000_000 }.serialize();
    assert_eq!(r.unwrap_err(), Error::FrequencyOutOfRange(1_100_000_000));
}

#[test]
fn pa_config_packs_and_rejects_overflow() {
    let b = PaConfig { pa_select_boost: true, max_power: 0x00, output_power: 0x0F }
        .serialize()
        .unwrap();
    assert_eq!(b, 0x8F);
    let b2 = PaConfig { pa_select_boost: false, max_power: 0x07, output_power: 0x01 }
        .serialize()
        .unwrap();
    assert_eq!(b2, 0x71);
    let e = PaConfig { pa_select_boost: true, max_power: 0x00, output_power: 0x10 }.serialize();
    assert_eq!(e.unwrap_err(), Error::OutputPowerOverflow(0x10));
    let e2 = PaConfig { pa_select_boost: true, max_power: 0x08, output_power: 0x01 }.serialize();
    assert_eq!(e2.unwrap_err(), Error::MaxPowerOverflow(0x08));
}

#[test]
fn output_power_clamps_to_register_range() {
    assert_eq!(output_power_value(0), 0);
    assert_eq!(output_power_value(1), 0);
    assert_eq!(output_power_value(2), 0);
    assert_eq!(output_power_value(9), 7);
    assert_eq!(output_power_value(17), 15);
    assert_eq!(output_power_value(18), 15);
    assert_eq!(output_power_value(255), 15);
}

#[test]
fn pa_ramp_keeps_upper_nibble() {
    let d = PaRamp::deserialize(0xA5);
    assert_eq!(d.msb, 0xA0);
    assert_eq!(d.serialize(), 0xA5);
    // all sixteen 4-bit time codes decode exactly
    assert_eq!(PaRamp::deserialize(0x0A).serialize(), 0x0A);
    assert_eq!(PaRamp::deserialize(0x0F).serialize(), 0x0F);
}

#[test]
fn pa_ramp_round_trips_every_byte() {
    for b in 0..=255u8 {
        assert_eq!(PaRamp::deserialize(b).serialize(), b);
    }
}

#[test]
fn lna_packs() {
    assert_eq!(Lna { lna_gain: LnaGain::G1, lna_boost_hf: true }.serialize(), 0x23);
    assert_eq!(Lna { lna_gain: LnaGain::G6, lna_boost_hf: false }.serialize(), 0xC0);
}

#[test]
fn modem_configs_pack() {
    let mc1 = ModemConfig1 {
        bw: Bandwidth::KHz125,
        coding_rate: CodingRate::CR4_5,
        implicit_header_mode_on: false,
    };
    assert_eq!(mc1.serialize(), 0x72);
    let mc2 = ModemConfig2 {
        sf: smart_gw::opcodes::SpreadingFactor::SF7,
        tx_continuous_mode: false,
        rx_payload_crc_on: true,
        symb_timeout_msb: 0,
    };
    assert_eq!(mc2.serialize().unwrap(), 0x74);
    let bad = ModemConfig2 { symb_timeout_msb: 4, ..mc2 };
    assert_eq!(bad.serialize().unwrap_err(), Error::SymbTimeoutMsbOverflow(4));
    let mc3 = ModemConfig3 { low_data_rate_optimize: false, agc_auto_on: true };
    assert_eq!(mc3.serialize(), 0x04);
}

#[test]
fn dio_mappings_pack() {
    let m1 = DioMapping1 {
        dio0_mapping: Dio0::TxDone,
        dio1_mapping: Dio1::Nop,
        dio2_mapping: Dio2::Nop,
        dio3_mapping: Dio3::CadDone,
    };
    // TxDone = 01 in the top slot, no-op = 11 in the middle slots
    assert_eq!(m1.serialize(), 0x7C);
    let m2 = DioMapping2 { dio4_mapping: Dio4::PllLock, dio5_mapping: Dio5::ClkOut };
    assert_eq!(m2.serialize(), 0x50);
    let idle = DioMapping2 { dio4_mapping: Dio4::Nop, dio5_mapping: Dio5::Nop };
    assert_eq!(idle.serialize(), 0xF0);
}
