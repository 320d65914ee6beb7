//! Tests of the peripheral devices: the port registers, the video shifter,
//! the sound trigger bank and the port dispatcher.

use space_invaders::Devices;
use space_invaders::Error;
use space_invaders::Port1;
use space_invaders::Port1Flag;
use space_invaders::Port2;
use space_invaders::Port2Flag;
use space_invaders::Sample;
use space_invaders::SoundEvent;
use space_invaders::SoundTriggerBank;
use space_invaders::VideoShifter;

#[test]
fn port1_fixed_bit_set_after_construction() {
    let port1 = Port1::default();
    assert_eq!(port1.bits(), 0b0000_1000);
}

#[test]
fn port1_fixed_bit_survives_any_mutation_sequence() {
    let mut port1 = Port1::default();
    let flags = [
        Port1Flag::Coin,
        Port1Flag::Player2Start,
        Port1Flag::Player1Start,
        Port1Flag::Player1Fire,
        Port1Flag::Player1Left,
        Port1Flag::Player1Right,
    ];
    for flag in flags {
        port1.insert(flag);
        assert_eq!(port1.bits() & 0b0000_1000, 0b0000_1000);
    }
    for flag in flags {
        port1.remove(flag);
        assert_eq!(port1.bits() & 0b0000_1000, 0b0000_1000);
    }
    assert_eq!(port1.bits(), 0b0000_1000);
}

#[test]
fn port1_insert_and_remove_drive_named_bits() {
    let mut port1 = Port1::default();
    port1.insert(Port1Flag::Coin);
    port1.insert(Port1Flag::Player1Fire);
    assert_eq!(port1.bits(), 0b0001_1001);
    port1.remove(Port1Flag::Coin);
    assert_eq!(port1.bits(), 0b0001_1000);
}

#[test]
fn port2_flags_and_lives_switches() {
    let mut port2 = Port2::default();
    assert_eq!(port2.bits(), 0);
    assert_eq!(port2.lives(), 3);
    port2.cycle_lives();
    assert_eq!(port2.lives(), 4);
    port2.cycle_lives();
    port2.cycle_lives();
    assert_eq!(port2.lives(), 6);
    port2.cycle_lives();
    assert_eq!(port2.lives(), 3);
    port2.insert(Port2Flag::Tilt);
    assert!(port2.contains(Port2Flag::Tilt));
    port2.toggle(Port2Flag::ExtraLifeAt);
    assert_eq!(port2.bits(), 0b0000_1100);
    port2.toggle(Port2Flag::ExtraLifeAt);
    port2.remove(Port2Flag::Tilt);
    assert_eq!(port2.bits(), 0);
}

#[test]
fn shifter_read_offset_zero_returns_last_byte() {
    let mut shifter = VideoShifter::default();
    shifter.set_offset(0);
    shifter.shift_right(0xAA);
    shifter.shift_right(0xFF);
    assert_eq!(shifter.read(), 0xFF);
}

#[test]
fn shifter_read_offset_four_mixes_both_bytes() {
    let mut shifter = VideoShifter::default();
    shifter.set_offset(4);
    shifter.shift_right(0xAA);
    shifter.shift_right(0xFF);
    assert_eq!(shifter.read(), 0xFA);
}

#[test]
fn shifter_read_table_of_offsets() {
    // register after the two shifts is 0xC travelling: (0x3C << 8) | 0x81.
    for (offset, expected) in [
        (0u8, 0x3Cu8),
        (1, 0x79),
        (2, 0xF2),
        (3, 0xE4),
        (4, 0xC8),
        (5, 0x90),
        (6, 0x20),
        (7, 0x40),
    ] {
        let mut shifter = VideoShifter::default();
        shifter.set_offset(offset);
        shifter.shift_right(0x81);
        shifter.shift_right(0x3C);
        let register: u16 = ((0x3C as u16) << 8) | 0x81;
        assert_eq!(
            shifter.read(),
            ((register >> (8 - u16::from(offset))) & 0xFF) as u8,
        );
        assert_eq!(shifter.read(), expected);
    }
}

#[test]
fn shifter_offset_is_masked_to_three_bits() {
    let mut shifter = VideoShifter::default();
    shifter.shift_right(0x12);
    shifter.shift_right(0x34);
    shifter.set_offset(0xF8);
    let masked_read = shifter.read();
    let mut reference = VideoShifter::default();
    reference.shift_right(0x12);
    reference.shift_right(0x34);
    reference.set_offset(0);
    assert_eq!(masked_read, reference.read());
}

#[test]
fn trigger_bank_loop_bit_edges() {
    let mut bank = SoundTriggerBank::default();
    let start = bank.write_bank_a(0x01);
    assert_eq!(start, vec![SoundEvent::StartLoop(Sample::UfoLowPitch)]);
    let steady = bank.write_bank_a(0x01);
    assert_eq!(steady, vec![]);
    let stop = bank.write_bank_a(0x00);
    assert_eq!(stop, vec![SoundEvent::StopLoop(Sample::UfoLowPitch)]);
}

#[test]
fn trigger_bank_one_shot_bit_fires_only_on_rising_edge() {
    let mut bank = SoundTriggerBank::default();
    let fire = bank.write_bank_a(0x02);
    assert_eq!(fire, vec![SoundEvent::FireOnce(Sample::Shoot)]);
    let steady = bank.write_bank_a(0x02);
    assert_eq!(steady, vec![]);
    let release = bank.write_bank_a(0x00);
    assert_eq!(release, vec![]);
}

#[test]
fn trigger_bank_a_emits_in_port_bit_order() {
    let mut bank = SoundTriggerBank::default();
    let events = bank.write_bank_a(0x0F);
    assert_eq!(
        events,
        vec![
            SoundEvent::StartLoop(Sample::UfoLowPitch),
            SoundEvent::FireOnce(Sample::Shoot),
            SoundEvent::FireOnce(Sample::Explosion),
            SoundEvent::FireOnce(Sample::InvaderKilled),
        ],
    );
}

#[test]
fn trigger_bank_b_five_one_shots() {
    let mut bank = SoundTriggerBank::default();
    let events = bank.write_bank_b(0x1F);
    assert_eq!(
        events,
        vec![
            SoundEvent::FireOnce(Sample::FastInvader1),
            SoundEvent::FireOnce(Sample::FastInvader2),
            SoundEvent::FireOnce(Sample::FastInvader3),
            SoundEvent::FireOnce(Sample::FastInvader4),
            SoundEvent::FireOnce(Sample::UfoHighPitch),
        ],
    );
    let falling = bank.write_bank_b(0x00);
    assert_eq!(falling, vec![]);
}

#[test]
fn trigger_bank_undocumented_bits_survive_round_trip() {
    let mut bank = SoundTriggerBank::default();
    let events = bank.write_bank_a(0xF0);
    assert_eq!(events, vec![]);
    let again = bank.write_bank_a(0xF0);
    assert_eq!(again, vec![]);
}

#[test]
fn dispatcher_routes_offset_write_then_window_read() {
    for offset in 0u8..=7 {
        let mut devices = Devices::default();
        devices.handle_out(4, 0x81).unwrap();
        devices.handle_out(4, 0x3C).unwrap();
        devices.handle_out(2, offset).unwrap();
        let value = devices.handle_in(3).unwrap();
        let register: u16 = ((0x3C as u16) << 8) | 0x81;
        let expected = ((register >> (8 - u16::from(offset))) & 0xFF) as u8;
        assert_eq!(value, expected);
    }
}

#[test]
fn dispatcher_routes_port_reads() {
    let devices = Devices::default();
    assert_eq!(devices.handle_in(1).unwrap(), 0b0000_1000);
    assert_eq!(devices.handle_in(2).unwrap(), 0);
}

#[test]
fn dispatcher_routes_sound_writes_to_both_banks() {
    let mut devices = Devices::default();
    let bank_a = devices.handle_out(3, 0x02).unwrap();
    assert_eq!(bank_a, vec![SoundEvent::FireOnce(Sample::Shoot)]);
    let bank_b = devices.handle_out(5, 0x10).unwrap();
    assert_eq!(bank_b, vec![SoundEvent::FireOnce(Sample::UfoHighPitch)]);
}

#[test]
fn dispatcher_ignores_watchdog_port() {
    let mut devices = Devices::default();
    let events = devices.handle_out(6, 0xFF).unwrap();
    assert_eq!(events, vec![]);
}

#[test]
fn dispatcher_rejects_unmapped_ports() {
    let mut devices = Devices::default();
    assert_eq!(
        devices.handle_out(7, 0).unwrap_err(),
        Error::UnsupportedPort { port: 7 },
    );
    assert_eq!(
        devices.handle_out(0, 0).unwrap_err(),
        Error::UnsupportedPort { port: 0 },
    );
    assert_eq!(
        devices.handle_in(0).unwrap_err(),
        Error::UnsupportedPort { port: 0 },
    );
    assert_eq!(
        devices.handle_in(4).unwrap_err(),
        Error::UnsupportedPort { port: 4 },
    );
}

#[test]
fn sample_indices_match_the_asset_numbering() {
    assert_eq!(Sample::UfoHighPitch.index(), 0);
    assert_eq!(Sample::Shoot.index(), 1);
    assert_eq!(Sample::Explosion.index(), 2);
    assert_eq!(Sample::InvaderKilled.index(), 3);
    assert_eq!(Sample::FastInvader1.index(), 4);
    assert_eq!(Sample::FastInvader2.index(), 5);
    assert_eq!(Sample::FastInvader3.index(), 6);
    assert_eq!(Sample::FastInvader4.index(), 7);
    assert_eq!(Sample::UfoLowPitch.index(), 8);
}
