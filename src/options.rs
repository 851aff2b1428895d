//! Recording options and the camera configuration they are built from.

use std::str::FromStr;
use vstd::prelude::*;
use crate::text::joined;

verus! {

/// How each stream is delivered.
#[derive(Debug, Clone, Copy, PartialEq, Eq)]
pub enum TransportMode {
    /// Interleaved in the control connection: ordered and reliable.
    Tcp,
    /// Separate datagrams: may lose or reorder packets.
    Udp,
}

/// When the session's teardown request is sent.
#[derive(Debug, Clone, Copy, PartialEq, Eq)]
pub enum TeardownPolicy {
    Auto,
    Always,
    Never,
}

/// How the first reported capture timestamp is reconciled.
#[derive(Debug, Clone, Copy, PartialEq, Eq)]
pub enum InitialTimestampPolicy {
    Default,
    Require,
    Ignore,
    Permissive,
}

/// Where to connect and with which credentials.
#[derive(Debug, Clone, PartialEq, Eq)]
pub struct Source {
    /// `rtsp://` URL to connect to; it parses as a URL.
    pub url: String,
    pub username: String,
    pub password: String,
}

/// Everything one recording is run with.
#[derive(Debug, Clone, PartialEq, Eq)]
pub struct Mp4RecorderOptions {
    pub source: Source,
    pub initial_timestamp: InitialTimestampPolicy,
    /// Don't attempt to include video streams.
    pub no_video: bool,
    /// Don't attempt to include audio streams.
    pub no_audio: bool,
    /// Allow lost packets mid-stream without aborting.
    pub allow_loss: bool,
    pub teardown: TeardownPolicy,
    /// Seconds after which the recording stops; `None` records until the
    /// stream ends or fails.
    pub duration: Option<u64>,
    pub transport: TransportMode,
    /// Path of the finished `.mp4` file.
    pub output: String,
}

/// One camera of the configuration file.
#[derive(Debug, Clone, PartialEq, Eq)]
pub struct Camera {
    pub name: String,
    pub url: String,
    pub username: String,
    pub password: String,
    pub no_audio: bool,
    pub no_video: bool,
    pub duration: u64,
    pub transport: String,
}

/// The cameras to record on each command.
#[derive(Debug, Clone, PartialEq, Eq)]
pub struct CameraConfig {
    pub cameras: Vec<Camera>,
}

/// Why a camera entry cannot be turned into recording options.
#[derive(Debug, Clone, Copy, PartialEq, Eq)]
pub enum OptionsError {
    InvalidUrl,
    InvalidTransport,
}

/// Whether the URL parser accepts the text as an absolute URL.
pub uninterp spec fn url_accepts(s: Seq<char>) -> bool;

/// The transport named by a configuration string.
pub open spec fn transport_named(s: Seq<char>) -> Option<TransportMode> {
    if s == "tcp"@ {
        Some(TransportMode::Tcp)
    } else if s == "udp"@ {
        Some(TransportMode::Udp)
    } else {
        None
    }
}

/// Relies on retina's `Transport::from_str`: "tcp" and "udp" name the two
/// transports, every other string is refused.
#[verifier::external_body]
fn parse_transport(s: &str) -> (r: Option<TransportMode>)
    ensures
        r == transport_named(s@),
{
    match retina::client::Transport::from_str(s) {
        Ok(retina::client::Transport::Tcp(_)) => Some(TransportMode::Tcp),
        Ok(retina::client::Transport::Udp(_)) => Some(TransportMode::Udp),
        _ => None,
    }
}

/// Relies on `url::Url::parse`: whether it accepts the text depends on the
/// text alone.
#[verifier::external_body]
fn url_parses(s: &str) -> (r: bool)
    ensures
        r == url_accepts(s@),
{
    url::Url::parse(s).is_ok()
}

/// The file name a recording started at `timestamp` is written to.
pub fn recording_file_name(timestamp: &str) -> (r: String)
    ensures
        r@ == "recording_"@ + timestamp@ + ".mp4"@,
{
    let head = joined("recording_", timestamp);
    joined(head.as_str(), ".mp4")
}

impl Mp4RecorderOptions {
    /// The options for recording `camera` into `output`: loss is tolerated
    /// exactly when the transport is UDP, teardown is always requested and
    /// the camera's duration bounds the recording.
    pub fn from_camera(camera: Camera, output: String) -> (r: Result<Mp4RecorderOptions, OptionsError>)
        ensures
            !url_accepts(camera.url@) ==> r == Err::<Mp4RecorderOptions, OptionsError>(
                OptionsError::InvalidUrl,
            ),
            url_accepts(camera.url@) && transport_named(camera.transport@).is_none() ==> r
                == Err::<Mp4RecorderOptions, OptionsError>(OptionsError::InvalidTransport),
            url_accepts(camera.url@) && transport_named(camera.transport@).is_some() ==> r
                == Ok::<Mp4RecorderOptions, OptionsError>(
                (Mp4RecorderOptions {
                    source: Source {
                        url: camera.url,
                        username: camera.username,
                        password: camera.password,
                    },
                    initial_timestamp: InitialTimestampPolicy::Default,
                    no_video: camera.no_video,
                    no_audio: camera.no_audio,
                    allow_loss: transport_named(camera.transport@) == Some(TransportMode::Udp),
                    teardown: TeardownPolicy::Always,
                    duration: Some(camera.duration),
                    transport: transport_named(camera.transport@).unwrap(),
                    output,
                }),
            ),
    {
        if !url_parses(camera.url.as_str()) {
            return Err(OptionsError::InvalidUrl);
        }
        let transport = match parse_transport(camera.transport.as_str()) {
            Some(t) => t,
            None => {
                return Err(OptionsError::InvalidTransport);
            },
        };
        let allow_loss = match transport {
            TransportMode::Udp => true,
            TransportMode::Tcp => false,
        };
        Ok(Mp4RecorderOptions {
            source: Source { url: camera.url, username: camera.username, password: camera.password },
            initial_timestamp: InitialTimestampPolicy::Default,
            no_video: camera.no_video,
            no_audio: camera.no_audio,
            allow_loss,
            teardown: TeardownPolicy::Always,
            duration: Some(camera.duration),
            transport,
            output,
        })
    }
}

} // verus!
