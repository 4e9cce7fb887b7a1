//! The supported player backends and what each of them can do at run time.

use vstd::prelude::*;
use vstd::string::StringExecFns;

verus! {

/// A player backend: the external program that decodes and plays a stream.
#[derive(Clone, Copy, Debug, PartialEq, Eq, Structural)]
pub enum PlayerType {
    Ffplay,
    Mpv,
    Afplay,
}

impl PlayerType {
    /// Whether the level of a running player can be changed without a restart.
    pub open spec fn runtime_volume(self) -> bool {
        self != PlayerType::Ffplay
    }

    /// Whether a running player can be silenced and resumed without a restart.
    pub open spec fn runtime_mute(self) -> bool {
        self != PlayerType::Ffplay
    }

    /// Whether live commands travel over a control channel made at launch.
    pub open spec fn control_channel(self) -> bool {
        self == PlayerType::Mpv
    }

    /// Whether the stream reaches the player through a helper process.
    pub open spec fn helper_pipe(self) -> bool {
        self == PlayerType::Afplay
    }

    /// Whether the level of a running player can be changed without a restart.
    pub fn supports_runtime_volume(self) -> (r: bool)
        ensures
            r == self.runtime_volume(),
    {
        match self {
            PlayerType::Ffplay => false,
            PlayerType::Mpv => true,
            PlayerType::Afplay => true,
        }
    }

    /// Whether a running player can be silenced and resumed without a restart.
    pub fn supports_runtime_mute(self) -> (r: bool)
        ensures
            r == self.runtime_mute(),
    {
        match self {
            PlayerType::Ffplay => false,
            PlayerType::Mpv => true,
            PlayerType::Afplay => true,
        }
    }

    /// Whether live commands travel over a control channel made at launch.
    pub fn requires_control_channel(self) -> (r: bool)
        ensures
            r == self.control_channel(),
    {
        match self {
            PlayerType::Ffplay => false,
            PlayerType::Mpv => true,
            PlayerType::Afplay => false,
        }
    }

    /// Whether the stream reaches the player through a helper process.
    pub fn requires_helper_pipe(self) -> (r: bool)
        ensures
            r == self.helper_pipe(),
    {
        match self {
            PlayerType::Ffplay => false,
            PlayerType::Mpv => false,
            PlayerType::Afplay => true,
        }
    }
}

/// What probing the host found: which programs answered, and whether the
/// host is a Mac.
#[derive(Clone, Copy, Debug, PartialEq, Eq, Structural)]
pub struct HostReport {
    pub ffplay: bool,
    pub mpv: bool,
    pub afplay: bool,
    pub curl: bool,
    pub macos: bool,
}

impl PlayerType {
    /// Whether the host can run the backend. The piped player needs its
    /// fetcher beside it and exists on a Mac only.
    pub open spec fn usable(self, host: HostReport) -> bool {
        match self {
            PlayerType::Ffplay => host.ffplay,
            PlayerType::Mpv => host.mpv,
            PlayerType::Afplay => host.macos && host.afplay && host.curl,
        }
    }

    /// The place of the backend in the order of preference; lower is
    /// preferred.
    pub open spec fn rank(self) -> nat {
        match self {
            PlayerType::Ffplay => 0,
            PlayerType::Mpv => 1,
            PlayerType::Afplay => 2,
        }
    }
}

/// No player that the session could use was found on the host.
#[derive(Clone, Copy, Debug, PartialEq, Eq, Structural)]
pub struct NoBackendFound;

/// What the user is told when no backend was found.
pub open spec fn install_guidance(macos: bool) -> Seq<char> {
    "Error: No suitable player found\nPlease install one of the following:\n"@ + (if macos {
        "  macOS: brew install ffmpeg or brew install mpv"@
    } else {
        "  Linux: sudo apt-get install ffmpeg or sudo apt-get install mpv"@
    })
}

impl NoBackendFound {
    /// The status the program exits with when no backend was found.
    pub fn exit_code(&self) -> (r: i32)
        ensures
            r == 1,
    {
        1
    }

    /// The error and what to install, for the kind of host.
    pub fn message(&self, macos: bool) -> (r: String)
        ensures
            r@ == install_guidance(macos),
    {
        let mut text = String::from_str(
            "Error: No suitable player found\nPlease install one of the following:\n",
        );
        if macos {
            text.append("  macOS: brew install ffmpeg or brew install mpv");
        } else {
            text.append("  Linux: sudo apt-get install ffmpeg or sudo apt-get install mpv");
        }
        text
    }
}

/// The backend for a session on a host: the first in the order of preference
/// that the host can run.
pub open spec fn selection(host: HostReport) -> Result<PlayerType, NoBackendFound> {
    if PlayerType::Ffplay.usable(host) {
        Ok(PlayerType::Ffplay)
    } else if PlayerType::Mpv.usable(host) {
        Ok(PlayerType::Mpv)
    } else if PlayerType::Afplay.usable(host) {
        Ok(PlayerType::Afplay)
    } else {
        Err(NoBackendFound)
    }
}

/// Chooses the backend for a session: the most preferred one that the host
/// can run. Fails when the host can run none.
pub fn select_backend(host: &HostReport) -> (r: Result<PlayerType, NoBackendFound>)
    ensures
        r == selection(*host),
{
    if host.ffplay {
        Ok(PlayerType::Ffplay)
    } else if host.mpv {
        Ok(PlayerType::Mpv)
    } else if host.macos && host.afplay && host.curl {
        Ok(PlayerType::Afplay)
    } else {
        Err(NoBackendFound)
    }
}

/// The backend chosen is one the host can run, and no backend that the host
/// can run is preferred to it; none is chosen only when the host can run none.
pub proof fn lemma_selection_is_first_usable(host: HostReport)
    ensures
        match selection(host) {
            Ok(chosen) => chosen.usable(host) && forall|other: PlayerType|
                other.usable(host) ==> chosen.rank() <= #[trigger] other.rank(),
            Err(_) => forall|other: PlayerType| !#[trigger] other.usable(host),
        },
{
}

} // verus!
