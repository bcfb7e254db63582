//! Values of the DAB protocol that the adapter reads and produces.
use vstd::prelude::*;

verus! {

/// An error answered to a DAB request, with the HTTP-like status it maps to.
#[derive(Debug)]
pub enum DabError {
    Err400(String),
    Err500(String),
    Err501(String),
}

impl DabError {
    /// The status code of the error.
    pub open spec fn spec_status(&self) -> u16 {
        match self {
            DabError::Err400(_) => 400,
            DabError::Err500(_) => 500,
            DabError::Err501(_) => 501,
        }
    }

    /// The message carried by the error.
    pub open spec fn spec_message(&self) -> Seq<char> {
        match self {
            DabError::Err400(m) => m@,
            DabError::Err500(m) => m@,
            DabError::Err501(m) => m@,
        }
    }

    /// The status code of the error.
    pub fn status(&self) -> (r: u16)
        ensures
            r == self.spec_status(),
    {
        match self {
            DabError::Err400(_) => 400,
            DabError::Err500(_) => 500,
            DabError::Err501(_) => 501,
        }
    }

    /// The message carried by the error.
    pub fn message(&self) -> (r: &String)
        ensures
            r@ == self.spec_message(),
    {
        match self {
            DabError::Err400(m) => m,
            DabError::Err500(m) => m,
            DabError::Err501(m) => m,
        }
    }
}

} // verus!

verus! {

/// The range of audio volume values the device accepts.
#[derive(Clone, Copy, Debug, PartialEq, Eq, Structural)]
pub struct AudioVolume {
    pub min: u32,
    pub max: u32,
}

} // verus!

verus! {

/// How the device renders audio.
#[derive(Clone, Copy, Debug, PartialEq, Eq, Structural)]
pub enum AudioOutputMode {
    Stereo,
    MultichannelPcm,
    PassThrough,
    Auto,
}

/// Where the device sends audio.
#[derive(Clone, Copy, Debug, PartialEq, Eq, Structural)]
pub enum AudioOutputSource {
    NativeSpeaker,
    Arc,
    Earc,
    Optical,
    Aux,
    Bluetooth,
    Auto,
    HDMI,
}

/// HDR behaviour of the video output.
#[derive(Clone, Copy, Debug, PartialEq, Eq, Structural)]
pub enum HdrOutputMode {
    AlwaysHdr,
    HdrOnPlayback,
    DisableHdr,
}

/// Power state of the device.
#[derive(Clone, Copy, Debug, PartialEq, Eq, Structural)]
pub enum PowerMode {
    Active,
    Standby,
    DeepSleep,
}

/// Whether the screen is built in or attached.
#[derive(Clone, Copy, Debug, PartialEq, Eq, Structural)]
pub enum DisplayType {
    Native,
    External,
}

/// Kind of a network interface.
#[derive(Clone, Copy, Debug, PartialEq, Eq, Structural)]
pub enum NetworkInterfaceType {
    Ethernet,
    Wifi,
    Bluetooth,
    Coax,
    Other,
}

/// Whether the output frame rate follows the content.
#[derive(Clone, Copy, Debug, PartialEq, Eq, Structural)]
pub enum MatchContentFrameRate {
    EnabledAlways,
    EnabledSeamlessOnly,
    Disabled,
}

/// Video input of the device.
#[derive(Clone, Copy, Debug, PartialEq, Eq, Structural)]
pub enum VideoInputSource {
    Tuner,
    HDMI1,
    HDMI2,
    HDMI3,
    HDMI4,
    Composite,
    Component,
    Home,
    Cast,
}

/// A voice assistant of the device and whether it is on.
pub struct VoiceSystem {
    pub name: String,
    pub enabled: bool,
}

/// A network interface as DAB describes it.
pub struct NetworkInterface {
    pub connected: bool,
    pub mac_address: String,
    pub ip_address: String,
    pub dns: Vec<String>,
    pub interface_type: NetworkInterfaceType,
}

/// A video output resolution. The frequency is kept as the decimal text that
/// the adapter writes for it (the DAB value is a floating-point number).
pub struct OutputResolution {
    pub width: u32,
    pub height: u32,
    pub frequency: String,
}

} // verus!
