use lofi_radio::backend::PlayerType;
use lofi_radio::control::{
    system_volume_script, ControlAction, VolumeControl, DEFAULT_VOLUME, MAX_VOLUME, VOLUME_STEP,
};

fn control_at(player_type: PlayerType, level: u32) -> VolumeControl {
    let mut control = VolumeControl::new(player_type);
    control.adjust_volume(level as i32 - 70);
    assert_eq!(control.volume(), level);
    control
}

#[test]
fn new_control_starts_at_default_level() {
    let control = VolumeControl::new(PlayerType::Ffplay);
    assert_eq!(control.volume(), 70);
    assert_eq!(DEFAULT_VOLUME, 70);
    assert!(!control.is_muted());
    assert_eq!(control.volume_before_mute(), 70);
    assert_eq!(control.player_type(), PlayerType::Ffplay);
    assert_eq!(*control.control_channel(), None);
}

#[test]
fn increase_moves_by_one_step() {
    let mut control = VolumeControl::new(PlayerType::Mpv);
    control.increase_volume();
    assert_eq!(control.volume(), 75);
    control.increase_volume();
    assert_eq!(control.volume(), 80);
}

#[test]
fn decrease_moves_by_one_step() {
    let mut control = VolumeControl::new(PlayerType::Mpv);
    control.decrease_volume();
    assert_eq!(control.volume(), 65);
    control.decrease_volume();
    assert_eq!(control.volume(), 60);
}

#[test]
fn volume_up_from_98_yields_100() {
    let mut control = control_at(PlayerType::Ffplay, 98);
    control.increase_volume();
    assert_eq!(control.volume(), 100);
    let mut control = control_at(PlayerType::Ffplay, 96);
    control.increase_volume();
    assert_eq!(control.volume(), 100);
    let mut control = control_at(PlayerType::Ffplay, 94);
    control.increase_volume();
    assert_eq!(control.volume(), 99);
}

#[test]
fn volume_down_from_2_yields_0() {
    let mut control = control_at(PlayerType::Ffplay, 2);
    control.decrease_volume();
    assert_eq!(control.volume(), 0);
    let mut control = control_at(PlayerType::Ffplay, 6);
    control.decrease_volume();
    assert_eq!(control.volume(), 1);
}

#[test]
fn adjust_moves_by_the_delta_and_stops_at_the_bounds() {
    let mut control = VolumeControl::new(PlayerType::Mpv);
    control.adjust_volume(0);
    assert_eq!(control.volume(), 70);
    control.adjust_volume(13);
    assert_eq!(control.volume(), 83);
    control.adjust_volume(-83);
    assert_eq!(control.volume(), 0);
    control.adjust_volume(-1);
    assert_eq!(control.volume(), 0);
    control.adjust_volume(100);
    assert_eq!(control.volume(), 100);
    control.adjust_volume(1);
    assert_eq!(control.volume(), 100);
    control.adjust_volume(i32::MIN);
    assert_eq!(control.volume(), 0);
    control.adjust_volume(i32::MAX);
    assert_eq!(control.volume(), 100);
    assert_eq!(VOLUME_STEP, 5);
}

#[test]
fn increase_stops_at_the_highest_level() {
    let mut control = control_at(PlayerType::Ffplay, 95);
    control.increase_volume();
    assert_eq!(control.volume(), 100);
    control.increase_volume();
    assert_eq!(control.volume(), 100);
    assert_eq!(MAX_VOLUME, 100);
}

#[test]
fn decrease_stops_at_zero() {
    let mut control = control_at(PlayerType::Ffplay, 5);
    control.decrease_volume();
    assert_eq!(control.volume(), 0);
    control.decrease_volume();
    assert_eq!(control.volume(), 0);
}

#[test]
fn any_run_of_steps_stays_in_range() {
    let pattern = [true, true, true, true, true, true, true, true, false, true, false, false];
    let mut control = VolumeControl::new(PlayerType::Afplay);
    for round in 0..40 {
        for (i, up) in pattern.iter().enumerate() {
            let before = control.volume();
            let up = if round % 3 == 0 { !*up } else { *up || i % 5 == 0 };
            if up {
                control.increase_volume();
            } else {
                control.decrease_volume();
            }
            let after = control.volume();
            assert!(after <= 100);
            if up {
                assert_eq!(after, (before + 5).min(100));
            } else {
                assert_eq!(after, before.saturating_sub(5));
            }
        }
    }
}

#[test]
fn mute_stores_zero_and_remembers_the_level() {
    let mut control = control_at(PlayerType::Ffplay, 45);
    control.toggle_mute();
    assert!(control.is_muted());
    assert_eq!(control.volume(), 0);
    assert_eq!(control.volume_before_mute(), 45);
}

#[test]
fn mute_round_trip_restores_every_level() {
    for level in 0..=100 {
        let mut control = control_at(PlayerType::Mpv, level);
        control.toggle_mute();
        control.toggle_mute();
        assert_eq!(control.volume(), level);
        assert!(!control.is_muted());
    }
}

#[test]
fn mute_round_trip_from_muted_stays_muted_at_zero() {
    let mut control = control_at(PlayerType::Mpv, 30);
    control.toggle_mute();
    control.toggle_mute();
    control.toggle_mute();
    assert!(control.is_muted());
    assert_eq!(control.volume(), 0);
    assert_eq!(control.volume_before_mute(), 30);
}

#[test]
fn adjusting_while_muted_changes_nothing() {
    let mut control = control_at(PlayerType::Ffplay, 40);
    control.toggle_mute();
    control.adjust_volume(5);
    control.increase_volume();
    control.adjust_volume(-5);
    control.decrease_volume();
    control.adjust_volume(37);
    assert_eq!(control.volume(), 0);
    assert!(control.is_muted());
    assert_eq!(control.volume_before_mute(), 40);
    control.toggle_mute();
    assert_eq!(control.volume(), 40);
}

#[test]
fn record_channel_keeps_the_last_channel_opened() {
    let mut control = VolumeControl::new(PlayerType::Mpv);
    control.record_channel(Some(String::from("/tmp/a.sock")));
    assert_eq!(*control.control_channel(), Some(String::from("/tmp/a.sock")));
    control.record_channel(None);
    assert_eq!(*control.control_channel(), Some(String::from("/tmp/a.sock")));
    control.record_channel(Some(String::from("/tmp/b.sock")));
    assert_eq!(*control.control_channel(), Some(String::from("/tmp/b.sock")));
}

#[test]
fn volume_without_live_control_needs_a_restart() {
    let control = VolumeControl::new(PlayerType::Ffplay);
    assert_eq!(control.apply_volume(), ControlAction::Respawn);
    assert_eq!(control.apply_mute(), ControlAction::Respawn);
}

#[test]
fn volume_over_a_channel_is_a_command() {
    let mut control = VolumeControl::new(PlayerType::Mpv);
    assert_eq!(control.apply_volume(), ControlAction::Respawn);
    control.record_channel(Some(String::from("/tmp/mpv_lofi_7.sock")));
    control.increase_volume();
    assert_eq!(
        control.apply_volume(),
        ControlAction::Send {
            channel: String::from("/tmp/mpv_lofi_7.sock"),
            command: String::from("set volume 75%\n"),
        }
    );
}

#[test]
fn volume_command_at_the_bounds() {
    let mut control = control_at(PlayerType::Mpv, 0);
    control.record_channel(Some(String::from("c")));
    assert_eq!(
        control.apply_volume(),
        ControlAction::Send { channel: String::from("c"), command: String::from("set volume 0%\n") }
    );
    let mut control = control_at(PlayerType::Mpv, 100);
    control.record_channel(Some(String::from("c")));
    assert_eq!(
        control.apply_volume(),
        ControlAction::Send {
            channel: String::from("c"),
            command: String::from("set volume 100%\n"),
        }
    );
}

#[test]
fn mute_over_a_channel_is_a_pause_command() {
    let mut control = VolumeControl::new(PlayerType::Mpv);
    assert_eq!(control.apply_mute(), ControlAction::Respawn);
    control.record_channel(Some(String::from("/tmp/mpv_lofi_7.sock")));
    assert_eq!(
        control.apply_mute(),
        ControlAction::Send {
            channel: String::from("/tmp/mpv_lofi_7.sock"),
            command: String::from("set pause no\n"),
        }
    );
    control.toggle_mute();
    assert_eq!(
        control.apply_mute(),
        ControlAction::Send {
            channel: String::from("/tmp/mpv_lofi_7.sock"),
            command: String::from("set pause yes\n"),
        }
    );
}

#[test]
fn piped_player_is_suspended_and_uses_the_system_mixer() {
    let mut control = VolumeControl::new(PlayerType::Afplay);
    control.decrease_volume();
    assert_eq!(control.apply_volume(), ControlAction::SystemVolume { level: 65 });
    assert_eq!(control.apply_mute(), ControlAction::Signal { suspend: false });
    control.toggle_mute();
    assert_eq!(control.apply_mute(), ControlAction::Signal { suspend: true });
    assert_eq!(control.apply_volume(), ControlAction::SystemVolume { level: 0 });
}

#[test]
fn mixer_script_holds_the_exact_level() {
    assert_eq!(system_volume_script(70), "set volume output volume 70");
    assert_eq!(system_volume_script(0), "set volume output volume 0");
    assert_eq!(system_volume_script(100), "set volume output volume 100");
    for level in [29u32, 57, 58] {
        assert_eq!(system_volume_script(level), format!("set volume output volume {}", level));
    }
    for level in 0..=100u32 {
        assert_eq!(system_volume_script(level), format!("set volume output volume {}", level));
    }
    assert_eq!(system_volume_script(u32::MAX), "set volume output volume 4294967295");
}
