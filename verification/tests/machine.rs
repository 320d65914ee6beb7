//! End-to-end tests of the machine: construction from ROM images, the
//! framebuffer window, the update cycle, interrupt handling and input.

use std::sync::mpsc;

use space_invaders::Error;
use space_invaders::InputKey;
use space_invaders::Sample;
use space_invaders::SoundEvent;
use space_invaders::SpaceInvaders;
use space_invaders::machine::FRAMEBUFFER_LEN;
use space_invaders::machine::MEMORY_SIZE;
use space_invaders::machine::VIDEO_RAM_START;

fn machine_with_roms(roms: Vec<Vec<u8>>) -> Result<SpaceInvaders, Error> {
    let (_sender, receiver) = mpsc::channel::<[u8; 3]>();
    SpaceInvaders::new(&roms, receiver)
}

#[test]
fn construction_succeeds_with_valid_roms() {
    let roms = vec![vec![0u8; 2048], vec![1u8; 2048], vec![2u8; 2048], vec![3u8; 2048]];
    let machine = machine_with_roms(roms).unwrap();
    assert_eq!(machine.framebuffer().len(), FRAMEBUFFER_LEN);
    assert_eq!(machine.cycles(), 0);
}

#[test]
fn construction_loads_roms_contiguously_from_address_zero() {
    let roms = vec![vec![0x11u8, 0x22], vec![0x33u8]];
    let machine = machine_with_roms(roms).unwrap();
    assert_eq!(machine.memory[0], 0x11);
    assert_eq!(machine.memory[1], 0x22);
    assert_eq!(machine.memory[2], 0x33);
    assert_eq!(machine.memory[3], 0x00);
    assert_eq!(machine.memory.len(), MEMORY_SIZE);
}

#[test]
fn construction_rejects_oversized_roms() {
    let roms = vec![vec![0u8; MEMORY_SIZE], vec![0u8; 1]];
    assert_eq!(machine_with_roms(roms).unwrap_err(), Error::Engine);
}

#[test]
fn framebuffer_shows_the_video_window() {
    let mut image = vec![0u8; VIDEO_RAM_START + 3];
    image[VIDEO_RAM_START] = 0xAB;
    image[VIDEO_RAM_START + 1] = 0xCD;
    let machine = machine_with_roms(vec![image]).unwrap();
    let framebuffer = machine.framebuffer();
    assert_eq!(framebuffer.len(), FRAMEBUFFER_LEN);
    assert_eq!(framebuffer[0], 0xAB);
    assert_eq!(framebuffer[1], 0xCD);
    assert_eq!(framebuffer[2], 0x00);
}

#[test]
fn repeated_updates_advance_the_cycle_total_monotonically() {
    let mut machine = machine_with_roms(vec![vec![0u8; 2048]]).unwrap();
    let mut previous = machine.cycles();
    for states in [4u32, 7, 0, 11, 10] {
        // A NOP report: no port I/O, only cycles.
        machine.update([0x00, 0, 0], 0, states).unwrap();
        let total = machine.cycles();
        assert!(total >= previous);
        assert_eq!(total, previous + u64::from(states));
        previous = total;
    }
    assert_eq!(machine.cycles(), 32);
}

#[test]
fn update_dispatches_out_instructions() {
    let mut machine = machine_with_roms(vec![vec![0u8; 8]]).unwrap();
    machine.update([0xD3, 4, 0], 0x81, 10).unwrap();
    machine.update([0xD3, 4, 0], 0x3C, 10).unwrap();
    machine.update([0xD3, 2, 0], 4, 10).unwrap();
    let outcome = machine.update([0xDB, 3, 0], 0, 10).unwrap();
    assert_eq!(outcome.accumulator_write, Some(0xC8));
    assert_eq!(outcome.sound_events, vec![]);
}

#[test]
fn update_returns_sound_events_for_trigger_writes() {
    let mut machine = machine_with_roms(vec![vec![0u8; 8]]).unwrap();
    let outcome = machine.update([0xD3, 3, 0], 0x03, 10).unwrap();
    assert_eq!(
        outcome.sound_events,
        vec![
            SoundEvent::StartLoop(Sample::UfoLowPitch),
            SoundEvent::FireOnce(Sample::Shoot),
        ],
    );
    assert_eq!(outcome.accumulator_write, None);
}

#[test]
fn update_reads_port_one_with_fixed_bit() {
    let mut machine = machine_with_roms(vec![vec![0u8; 8]]).unwrap();
    let outcome = machine.update([0xDB, 1, 0], 0, 10).unwrap();
    assert_eq!(outcome.accumulator_write, Some(0b0000_1000));
}

#[test]
fn update_rejects_unmapped_ports_and_changes_nothing() {
    let mut machine = machine_with_roms(vec![vec![0u8; 8]]).unwrap();
    machine.update([0x00, 0, 0], 0, 4).unwrap();
    let before = machine.cycles();
    assert_eq!(
        machine.update([0xD3, 7, 0], 0, 10).unwrap_err(),
        Error::UnsupportedPort { port: 7 },
    );
    assert_eq!(
        machine.update([0xDB, 5, 0], 0, 10).unwrap_err(),
        Error::UnsupportedPort { port: 5 },
    );
    assert_eq!(machine.cycles(), before);
}

#[test]
fn update_ignores_instructions_that_are_not_port_io() {
    let mut machine = machine_with_roms(vec![vec![0u8; 8]]).unwrap();
    // The 3-byte frame of a jump instruction: no port I/O, no events.
    let outcome = machine.update([0xC3, 0x12, 0x34], 0x55, 10).unwrap();
    assert_eq!(outcome.sound_events, vec![]);
    assert_eq!(outcome.accumulator_write, None);
    assert_eq!(machine.cycles(), 10);
}

#[test]
fn pending_interrupts_arrive_in_send_order() {
    let (sender, receiver) = mpsc::channel::<[u8; 3]>();
    let roms = vec![vec![0u8; 8]];
    let machine = SpaceInvaders::new(&roms, receiver).unwrap();
    assert_eq!(machine.pending_interrupt(), None);
    sender.send([0xCF, 0, 0]).unwrap();
    sender.send([0xD7, 0, 0]).unwrap();
    assert_eq!(machine.pending_interrupt(), Some([0xCF, 0, 0]));
    assert_eq!(machine.pending_interrupt(), Some([0xD7, 0, 0]));
    assert_eq!(machine.pending_interrupt(), None);
}

#[test]
fn injected_interrupt_frame_costs_cycles_and_touches_no_device() {
    let mut machine = machine_with_roms(vec![vec![0u8; 8]]).unwrap();
    let outcome = machine.update([0xCF, 0, 0], 0, 11).unwrap();
    assert_eq!(outcome.sound_events, vec![]);
    assert_eq!(outcome.accumulator_write, None);
    assert_eq!(machine.cycles(), 11);
}

#[test]
fn input_keys_drive_both_player_ports() {
    let mut machine = machine_with_roms(vec![vec![0u8; 8]]).unwrap();
    machine.devices.handle_input(InputKey::Left, true);
    assert_eq!(machine.devices.port1.bits(), 0b0010_1000);
    assert_eq!(machine.devices.port2.bits(), 0b0010_0000);
    machine.devices.handle_input(InputKey::Left, false);
    assert_eq!(machine.devices.port1.bits(), 0b0000_1000);
    assert_eq!(machine.devices.port2.bits(), 0);
    machine.devices.handle_input(InputKey::Coin, true);
    assert_eq!(machine.devices.port1.bits(), 0b0000_1001);
    machine.devices.handle_input(InputKey::Coin, false);
    machine.devices.handle_input(InputKey::Fire, true);
    assert_eq!(machine.devices.port1.bits(), 0b0001_1000);
    assert_eq!(machine.devices.port2.bits(), 0b0001_0000);
}

#[test]
fn dip_switch_keys_act_once_per_press() {
    let mut machine = machine_with_roms(vec![vec![0u8; 8]]).unwrap();
    machine.devices.handle_input(InputKey::CycleLives, true);
    assert_eq!(machine.devices.port2.lives(), 4);
    machine.devices.handle_input(InputKey::CycleLives, false);
    assert_eq!(machine.devices.port2.lives(), 4);
    machine.devices.handle_input(InputKey::ToggleExtraLife, true);
    assert_eq!(machine.devices.port2.bits() & 0b0000_1000, 0b0000_1000);
    machine.devices.handle_input(InputKey::ToggleExtraLife, true);
    assert_eq!(machine.devices.port2.bits() & 0b0000_1000, 0);
    machine.devices.handle_input(InputKey::TogglePricingDisplay, true);
    assert_eq!(machine.devices.port2.bits() & 0b1000_0000, 0b1000_0000);
}
