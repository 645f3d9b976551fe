//! The closed command set a client may send to the daemon, the responses the
//! daemon gives, and the daemon's error taxonomy.

use vstd::prelude::*;

use crate::state::Snapshot;

verus! {

/// What a volume or mute command addresses: a device or an application
/// stream, in either direction.
#[derive(Clone, Copy, PartialEq, Eq, Structural, Debug)]
pub enum AudioTarget {
    /// An output device.
    Sink,
    /// A playing application.
    SinkInput,
    /// An input device.
    Source,
    /// A recording application.
    SourceOutput,
}

/// Direction whose default device a `SetDefault` command changes.
#[derive(Clone, Copy, PartialEq, Eq, Structural, Debug)]
pub enum DefaultTarget {
    /// Output direction.
    Sink,
    /// Input direction.
    Source,
}

/// One operation requested over the control socket.
#[allow(inconsistent_fields)]
pub enum Command {
    /// Build and return a fresh snapshot; never broadcasts.
    GetState,
    /// Set a target's volume to a percentage (clamped to the ceiling).
    SetVolume { target: AudioTarget, index: u32, volume: u8 },
    /// Flip a target's mute flag.
    ToggleMute { target: AudioTarget, index: u32 },
    /// Set a target's mute flag.
    SetMute { target: AudioTarget, index: u32, mute: bool },
    /// Make the named device the default of its direction.
    SetDefault { target: DefaultTarget, name: String },
    /// Register the caller as a broadcast subscriber.
    Subscribe,
    /// Liveness probe.
    Ping,
    /// Shut the daemon down.
    Kill,
}

/// Why a command failed.
#[derive(Clone, Copy, PartialEq, Eq, Structural, Debug)]
pub enum MixerError {
    /// The command referenced a device or stream that no longer exists.
    NotFound,
    /// The audio service could not be reached or initialized.
    Connection,
    /// A malformed or undecodable client request.
    Protocol,
    /// A socket read or write failed.
    Io,
}

impl MixerError {
    /// Message reported to the client for this error.
    pub fn message(&self) -> (r: String)
        ensures
            r@ == self.spec_message(),
    {
        match self {
            MixerError::NotFound => "target not found".to_owned(),
            MixerError::Connection => "audio service connection failed".to_owned(),
            MixerError::Protocol => "malformed request".to_owned(),
            MixerError::Io => "socket write failed".to_owned(),
        }
    }

    /// The message each error carries.
    pub open spec fn spec_message(&self) -> Seq<char> {
        match self {
            MixerError::NotFound => "target not found"@,
            MixerError::Connection => "audio service connection failed"@,
            MixerError::Protocol => "malformed request"@,
            MixerError::Io => "socket write failed"@,
        }
    }
}

/// One reply written back to a client.
pub enum Response {
    /// The command was carried out.
    Success,
    /// The command failed; the message says why.
    Error(String),
    /// The snapshot a `GetState` asked for.
    State(Snapshot),
    /// Reply to `Ping`.
    Pong,
}

} // verus!
