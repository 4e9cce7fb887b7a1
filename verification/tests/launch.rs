use lofi_radio::backend::PlayerType;
use lofi_radio::launch::build_player_args;

fn strings(items: &[&str]) -> Vec<String> {
    items.iter().map(|s| s.to_string()).collect()
}

#[test]
fn ffplay_launch_command() {
    let (program, args, channel) =
        build_player_args(PlayerType::Ffplay, "https://example.org/stream", 70, 4242);
    assert_eq!(program, "ffplay");
    assert_eq!(
        args,
        strings(&[
            "-nodisp",
            "-autoexit",
            "-loglevel",
            "quiet",
            "-volume",
            "70",
            "https://example.org/stream",
        ])
    );
    assert_eq!(channel, None);
}

#[test]
fn mpv_launch_command() {
    let (program, args, channel) =
        build_player_args(PlayerType::Mpv, "https://example.org/stream", 5, 4242);
    assert_eq!(program, "mpv");
    assert_eq!(
        args,
        strings(&[
            "--no-video",
            "--quiet",
            "--input-ipc-server",
            "/tmp/mpv_lofi_4242.sock",
            "--volume",
            "5",
            "https://example.org/stream",
        ])
    );
    assert_eq!(channel, Some(String::from("/tmp/mpv_lofi_4242.sock")));
}

#[test]
fn afplay_launch_command() {
    let (program, args, channel) =
        build_player_args(PlayerType::Afplay, "https://example.org/stream", 70, 4242);
    assert_eq!(program, "sh");
    assert_eq!(
        args,
        strings(&[
            "-c",
            "osascript -e 'set volume output volume 70'; curl -s 'https://example.org/stream' | afplay -",
        ])
    );
    assert_eq!(channel, None);
}

#[test]
fn launch_volume_is_written_in_decimal() {
    for (volume, text) in [(0u32, "0"), (9, "9"), (10, "10"), (100, "100"), (4294967295, "4294967295")] {
        let (_, args, _) = build_player_args(PlayerType::Ffplay, "u", volume, 1);
        assert_eq!(args[5], text);
        let (_, args, _) = build_player_args(PlayerType::Mpv, "u", volume, 1);
        assert_eq!(args[5], text);
    }
}

#[test]
fn channel_is_named_after_the_process() {
    let (_, _, first) = build_player_args(PlayerType::Mpv, "u", 70, 1);
    let (_, _, second) = build_player_args(PlayerType::Mpv, "u", 70, 11);
    let (_, _, third) = build_player_args(PlayerType::Mpv, "u", 70, 0);
    let (_, _, fourth) = build_player_args(PlayerType::Mpv, "u", 70, 4294967295);
    assert_eq!(first, Some(String::from("/tmp/mpv_lofi_1.sock")));
    assert_eq!(second, Some(String::from("/tmp/mpv_lofi_11.sock")));
    assert_eq!(third, Some(String::from("/tmp/mpv_lofi_0.sock")));
    assert_eq!(fourth, Some(String::from("/tmp/mpv_lofi_4294967295.sock")));
    assert_ne!(first, second);
}

#[test]
fn empty_stream_url_is_passed_on() {
    let (_, args, _) = build_player_args(PlayerType::Ffplay, "", 70, 1);
    assert_eq!(args[6], "");
    let (_, args, _) = build_player_args(PlayerType::Afplay, "", 70, 1);
    assert_eq!(args[1], "osascript -e 'set volume output volume 70'; curl -s '' | afplay -");
}

#[test]
fn piped_launch_carries_the_level() {
    for (volume, text) in [(0u32, "0"), (5, "5"), (75, "75"), (100, "100")] {
        let (program, args, channel) = build_player_args(PlayerType::Afplay, "u", volume, 1);
        assert_eq!(program, "sh");
        assert_eq!(
            args,
            vec![
                String::from("-c"),
                format!("osascript -e 'set volume output volume {}'; curl -s 'u' | afplay -", text),
            ]
        );
        assert_eq!(channel, None);
    }
}

#[test]
fn different_levels_give_different_launches() {
    for backend in [PlayerType::Ffplay, PlayerType::Mpv, PlayerType::Afplay] {
        let mut seen: Vec<Vec<String>> = Vec::new();
        for volume in 0..=100u32 {
            let (_, args, _) = build_player_args(backend, "https://example.org/stream", volume, 7);
            assert!(!seen.contains(&args));
            seen.push(args);
        }
    }
}
