//! How each backend is started: the program, its arguments, and the control
//! channel that a launch opens, if it opens one.

use vstd::prelude::*;
use vstd::string::StringExecFns;
use crate::backend::PlayerType;
use crate::control::{mixer_script, system_volume_script};
use crate::text::{decimal, decimal_string, lemma_decimal_injective, push_decimal};

verus! {

/// The program that is run to start a backend.
pub open spec fn launch_program(player_type: PlayerType) -> Seq<char> {
    match player_type {
        PlayerType::Ffplay => "ffplay"@,
        PlayerType::Mpv => "mpv"@,
        PlayerType::Afplay => "sh"@,
    }
}

/// The path of the control channel of the player that the process
/// `process_id` starts.
pub open spec fn channel_path(process_id: nat) -> Seq<char> {
    "/tmp/mpv_lofi_"@ + decimal(process_id) + ".sock"@
}

/// The control channel that launching a backend opens: one for a backend that
/// is commanded over a channel, none for the others.
pub open spec fn launch_channel(player_type: PlayerType, process_id: nat) -> Option<Seq<char>> {
    if player_type.control_channel() {
        Some(channel_path(process_id))
    } else {
        None
    }
}

/// The shell line that starts the piped player: it sets the system mixer,
/// which is where this backend takes its level from, then fetches the stream
/// and feeds it to the player that reads from its input.
pub open spec fn pipeline(stream_url: Seq<char>, volume: nat) -> Seq<char> {
    "osascript -e '"@ + mixer_script(volume) + "'; curl -s '"@ + stream_url + "' | afplay -"@
}

/// The arguments a backend is started with, for a stream and an initial level.
pub open spec fn launch_args(
    player_type: PlayerType,
    stream_url: Seq<char>,
    volume: nat,
    process_id: nat,
) -> Seq<Seq<char>> {
    match player_type {
        PlayerType::Ffplay => seq![
            "-nodisp"@,
            "-autoexit"@,
            "-loglevel"@,
            "quiet"@,
            "-volume"@,
            decimal(volume),
            stream_url,
        ],
        PlayerType::Mpv => seq![
            "--no-video"@,
            "--quiet"@,
            "--input-ipc-server"@,
            channel_path(process_id),
            "--volume"@,
            decimal(volume),
            stream_url,
        ],
        PlayerType::Afplay => seq!["-c"@, pipeline(stream_url, volume)],
    }
}

/// Builds the command that starts `player_type` on `stream_url` at `volume`.
///
/// Returns the program, its arguments, and the control channel that the new
/// player will listen on, if the backend has one. The channel is named after
/// `process_id`, the id of the process that starts the player.
pub fn build_player_args(
    player_type: PlayerType,
    stream_url: &str,
    volume: u32,
    process_id: u32,
) -> (r: (String, Vec<String>, Option<String>))
    ensures
        r.0@ == launch_program(player_type),
        r.1.deep_view() == launch_args(player_type, stream_url@, volume as nat, process_id as nat),
        r.2.deep_view() == launch_channel(player_type, process_id as nat),
{
    match player_type {
        PlayerType::Ffplay => {
            let mut args: Vec<String> = Vec::new();
            args.push(String::from_str("-nodisp"));
            args.push(String::from_str("-autoexit"));
            args.push(String::from_str("-loglevel"));
            args.push(String::from_str("quiet"));
            args.push(String::from_str("-volume"));
            args.push(decimal_string(volume as u64));
            args.push(String::from_str(stream_url));
            assert(args.deep_view() =~= launch_args(
                player_type,
                stream_url@,
                volume as nat,
                process_id as nat,
            ));
            (String::from_str("ffplay"), args, None)
        },
        PlayerType::Mpv => {
            let mut socket_path = String::from_str("/tmp/mpv_lofi_");
            push_decimal(&mut socket_path, process_id as u64);
            socket_path.append(".sock");
            let mut args: Vec<String> = Vec::new();
            args.push(String::from_str("--no-video"));
            args.push(String::from_str("--quiet"));
            args.push(String::from_str("--input-ipc-server"));
            args.push(socket_path.clone());
            args.push(String::from_str("--volume"));
            args.push(decimal_string(volume as u64));
            args.push(String::from_str(stream_url));
            assert(args.deep_view() =~= launch_args(
                player_type,
                stream_url@,
                volume as nat,
                process_id as nat,
            ));
            (String::from_str("mpv"), args, Some(socket_path))
        },
        PlayerType::Afplay => {
            let script = system_volume_script(volume);
            let mut line = String::from_str("osascript -e '");
            line.append(script.as_str());
            line.append("'; curl -s '");
            line.append(stream_url);
            line.append("' | afplay -");
            let mut args: Vec<String> = Vec::new();
            args.push(String::from_str("-c"));
            args.push(line);
            assert(args.deep_view() =~= launch_args(
                player_type,
                stream_url@,
                volume as nat,
                process_id as nat,
            ));
            (String::from_str("sh"), args, None)
        },
    }
}

/// Every backend is started at exactly the level asked for: the launch
/// arguments determine the level, so two different levels never give the same
/// arguments.
pub proof fn lemma_launch_carries_volume(
    player_type: PlayerType,
    stream_url: Seq<char>,
    volume: nat,
    other: nat,
    process_id: nat,
)
    ensures
        launch_args(player_type, stream_url, volume, process_id) == launch_args(
            player_type,
            stream_url,
            other,
            process_id,
        ) ==> volume == other,
{
    let a = launch_args(player_type, stream_url, volume, process_id);
    let b = launch_args(player_type, stream_url, other, process_id);
    if a == b {
        match player_type {
            PlayerType::Afplay => {
                assert(a[1] == pipeline(stream_url, volume));
                assert(b[1] == pipeline(stream_url, other));
                lemma_pipeline_carries_volume(stream_url, volume, other);
            },
            _ => {
                assert(a[5] == decimal(volume));
                assert(b[5] == decimal(other));
                lemma_decimal_injective(volume, other);
            },
        }
    }
}

/// The shell line of the piped player determines the level it sets.
pub proof fn lemma_pipeline_carries_volume(stream_url: Seq<char>, volume: nat, other: nat)
    requires
        pipeline(stream_url, volume) == pipeline(stream_url, other),
    ensures
        volume == other,
{
    let head = "osascript -e '"@ + "set volume output volume "@;
    let tail = "'; curl -s '"@ + stream_url + "' | afplay -"@;
    let a = pipeline(stream_url, volume);
    let b = pipeline(stream_url, other);
    assert(a =~= head + decimal(volume) + tail);
    assert(b =~= head + decimal(other) + tail);
    assert(a.len() == head.len() + decimal(volume).len() + tail.len());
    assert(b.len() == head.len() + decimal(other).len() + tail.len());
    let from = head.len() as int;
    let to = from + decimal(volume).len();
    assert(a.subrange(from, to) =~= decimal(volume));
    assert(b.subrange(from, to) =~= decimal(other));
    lemma_decimal_injective(volume, other);
}

/// Two processes never share a control channel: different process ids give
/// different channel paths.
pub proof fn lemma_channel_unique(first: nat, second: nat)
    requires
        first != second,
    ensures
        channel_path(first) != channel_path(second),
{
    let head = "/tmp/mpv_lofi_"@;
    let tail = ".sock"@;
    let a = channel_path(first);
    let b = channel_path(second);
    if a == b {
        assert(a.len() == head.len() + decimal(first).len() + tail.len());
        assert(b.len() == head.len() + decimal(second).len() + tail.len());
        let from = head.len() as int;
        let to = from + decimal(first).len();
        assert(a.subrange(from, to) =~= decimal(first));
        assert(b.subrange(from, to) =~= decimal(second));
        lemma_decimal_injective(first, second);
    }
}

} // verus!
