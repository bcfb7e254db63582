//! System settings and power mode: RDK answers read into DAB settings, and DAB
//! settings turned into RDK values.
use vstd::prelude::*;
use vstd::string::*;
use crate::dab::{AudioOutputMode, AudioOutputSource, AudioVolume, DabError, HdrOutputMode,
    MatchContentFrameRate, OutputResolution, PowerMode, VideoInputSource};
use crate::calls::{call_is, RdkCall};
use crate::codec::{json_quote, json_quoted};
use crate::interface::{rdk_sound_mode_to_dab, spec_rdk_sound_mode_to_dab};
use crate::table::views;
use crate::text::{chars_of, find_char, first_index_of, join2, join3, seq_starts_with, str_eq, string_of_range};

verus! {

// ------------------------------------------------------------------ power mode

/// The DAB power mode of an RDK power state.
pub open spec fn spec_power_mode(state: Seq<char>) -> Option<PowerMode> {
    if state == "ON"@ {
        Some(PowerMode::Active)
    } else if state == "STANDBY"@ || state == "LIGHT_SLEEP"@ {
        Some(PowerMode::Standby)
    } else if state == "DEEP_SLEEP"@ {
        Some(PowerMode::DeepSleep)
    } else {
        None
    }
}

/// The current power mode, from the RDK power state the device reports.
pub fn get_rdk_power_mode(power_state: &str) -> (r: Result<PowerMode, DabError>)
    ensures
        match spec_power_mode(power_state@) {
            Some(m) => r == Ok::<PowerMode, DabError>(m),
            None => r matches Err(DabError::Err500(e)) && e@ == "Unknown RDK power state: "@ + power_state@,
        },
{
    let s = String::from_str(power_state);
    if s == String::from_str("ON") {
        Ok(PowerMode::Active)
    } else if s == String::from_str("STANDBY") || s == String::from_str("LIGHT_SLEEP") {
        Ok(PowerMode::Standby)
    } else if s == String::from_str("DEEP_SLEEP") {
        Ok(PowerMode::DeepSleep)
    } else {
        Err(DabError::Err500(join2("Unknown RDK power state: ", power_state)))
    }
}

/// The RDK power state of a DAB power mode.
pub open spec fn spec_rdk_power_state(power_mode: PowerMode) -> Seq<char> {
    match power_mode {
        PowerMode::Active => "ON"@,
        PowerMode::Standby => "STANDBY"@,
        PowerMode::DeepSleep => "DEEP_SLEEP"@,
    }
}

/// The RDK power state that a DAB power mode is written as.
pub fn dab_power_mode_to_rdk(power_mode: &PowerMode) -> (r: &'static str)
    ensures
        r@ == spec_rdk_power_state(*power_mode),
{
    match power_mode {
        PowerMode::Active => "ON",
        PowerMode::Standby => "STANDBY",
        PowerMode::DeepSleep => "DEEP_SLEEP",
    }
}

// ------------------------------------------------------------------ connected ports

/// The first connected video display.
pub fn get_rdk_connected_video_displays(displays: &Vec<String>) -> (r: Result<String, DabError>)
    ensures
        displays@.len() > 0 ==> (r matches Ok(d) && d@ == displays@[0]@),
        displays@.len() == 0 ==> (r matches Err(DabError::Err500(m))
            && m@ == "Device doesn't have any connected video port."@),
{
    if displays.len() > 0 {
        Ok(displays[0].clone())
    } else {
        Err(DabError::Err500(String::from_str("Device doesn't have any connected video port.")))
    }
}

/// The first connected audio port.
pub fn get_rdk_audio_port(ports: &Vec<String>) -> (r: Result<String, DabError>)
    ensures
        ports@.len() > 0 ==> (r matches Ok(d) && d@ == ports@[0]@),
        ports@.len() == 0 ==> (r matches Err(DabError::Err500(m))
            && m@ == "Device doesn't have any connected audio port."@),
{
    if ports.len() > 0 {
        Ok(ports[0].clone())
    } else {
        Err(DabError::Err500(String::from_str("Device doesn't have any connected audio port.")))
    }
}

// ------------------------------------------------------------------ HDR

/// The HDR mode of the device: always HDR when both the set-top box and the TV support
/// HDR, else HDR disabled.
pub open spec fn spec_hdr_mode(settop_supports_hdr: bool, tv_supports_hdr: bool) -> HdrOutputMode {
    if settop_supports_hdr && tv_supports_hdr { HdrOutputMode::AlwaysHdr } else { HdrOutputMode::DisableHdr }
}

/// The current HDR mode: always HDR when both the set-top box and the TV support HDR.
pub fn get_rdk_hdr_current_setting(settop_supports_hdr: bool, tv_supports_hdr: bool) -> (r: HdrOutputMode)
    ensures
        r == spec_hdr_mode(settop_supports_hdr, tv_supports_hdr),
{
    if settop_supports_hdr && tv_supports_hdr {
        HdrOutputMode::AlwaysHdr
    } else {
        HdrOutputMode::DisableHdr
    }
}

/// The HDR modes the device offers: only the one it is in.
pub fn get_rdk_hdr_settings(settop_supports_hdr: bool, tv_supports_hdr: bool) -> (r: Vec<HdrOutputMode>)
    ensures
        r@ == seq![spec_hdr_mode(settop_supports_hdr, tv_supports_hdr)],
{
    let mut r = Vec::new();
    let m = get_rdk_hdr_current_setting(settop_supports_hdr, tv_supports_hdr);
    r.push(m);
    assert(r@ =~= seq![m]);
    r
}

/// The name of an HDR mode as `{:?}` writes it.
pub open spec fn hdr_mode_name(mode: HdrOutputMode) -> Seq<char> {
    match mode {
        HdrOutputMode::AlwaysHdr => "AlwaysHdr"@,
        HdrOutputMode::HdrOnPlayback => "HdrOnPlayback"@,
        HdrOutputMode::DisableHdr => "DisableHdr"@,
    }
}

fn hdr_mode_name_of(mode: HdrOutputMode) -> (r: &'static str)
    ensures
        r@ == hdr_mode_name(mode),
{
    match mode {
        HdrOutputMode::AlwaysHdr => "AlwaysHdr",
        HdrOutputMode::HdrOnPlayback => "HdrOnPlayback",
        HdrOutputMode::DisableHdr => "DisableHdr",
    }
}

/// Checks that `mode` is among the HDR modes the device offers.
pub fn check_hdr_mode_supported(mode: HdrOutputMode, supported: &Vec<HdrOutputMode>) -> (r: Result<(), DabError>)
    ensures
        supported@.contains(mode) ==> r is Ok,
        !supported@.contains(mode) ==> (r matches Err(DabError::Err400(m))
            && m@ == "Setting hdr mode '"@ + hdr_mode_name(mode) + "' is not supported"@),
{
    let mut i: usize = 0;
    while i < supported.len()
        invariant
            i <= supported@.len(),
            forall|j: int| 0 <= j < i ==> supported@[j] != mode,
        decreases supported@.len() - i,
    {
        if supported[i] == mode {
            assert(supported@[i as int] == mode);
            return Ok(());
        }
        i += 1;
    }
    Err(DabError::Err400(join3("Setting hdr mode '", hdr_mode_name_of(mode), "' is not supported")))
}

/// What setting HDR mode `mode` asks of the device, given the modes it offers and the
/// current mode: a mode it does not offer is refused first; nothing is asked when the
/// mode is already set; else the value of `hdr_mode` for `setForceHDRMode`.
pub fn set_rdk_hdr_mode(mode: HdrOutputMode, supported: &Vec<HdrOutputMode>, current: HdrOutputMode)
    -> (r: Result<Option<bool>, DabError>)
    ensures
        !supported@.contains(mode) ==> (r matches Err(DabError::Err400(m))
            && m@ == "Setting hdr mode '"@ + hdr_mode_name(mode) + "' is not supported"@),
        supported@.contains(mode) && mode == current ==> r == Ok::<Option<bool>, DabError>(None),
        supported@.contains(mode) && mode != current && mode == HdrOutputMode::AlwaysHdr
            ==> r == Ok::<Option<bool>, DabError>(Some(true)),
        supported@.contains(mode) && mode != current && mode == HdrOutputMode::DisableHdr
            ==> r == Ok::<Option<bool>, DabError>(Some(false)),
        supported@.contains(mode) && mode != current && mode == HdrOutputMode::HdrOnPlayback
            ==> (r matches Err(DabError::Err500(m)) && m@ == "Setting hdr mode 'HdrOnPlayback' is not supported"@),
{
    check_hdr_mode_supported(mode, supported)?;
    if mode == current {
        return Ok(None);
    }
    match mode {
        HdrOutputMode::AlwaysHdr => Ok(Some(true)),
        HdrOutputMode::HdrOnPlayback => Err(DabError::Err500(String::from_str(
            "Setting hdr mode 'HdrOnPlayback' is not supported"))),
        HdrOutputMode::DisableHdr => Ok(Some(false)),
    }
}

// ------------------------------------------------------------------ audio sources

/// The DAB audio source of an RDK audio port name, if it has one.
pub open spec fn spec_audio_source(port: Seq<char>) -> Option<AudioOutputSource> {
    if port == "SPDIF0"@ {
        Some(AudioOutputSource::Optical)
    } else if port == "HDMI0"@ {
        Some(AudioOutputSource::HDMI)
    } else if port == "IDLR0"@ {
        Some(AudioOutputSource::Aux)
    } else if port == "SPEAKER0"@ {
        Some(AudioOutputSource::NativeSpeaker)
    } else {
        None
    }
}

/// The list that starts with the native speaker and gains the source of each port in
/// turn, unless it has that source already.
pub open spec fn spec_supported_sources(ports: Seq<String>) -> Seq<AudioOutputSource>
    decreases ports.len(),
{
    if ports.len() == 0 {
        seq![AudioOutputSource::NativeSpeaker]
    } else {
        let r = spec_supported_sources(ports.drop_last());
        match spec_audio_source(ports.last()@) {
            Some(v) => if r.contains(v) { r } else { r.push(v) },
            None => r,
        }
    }
}

fn audio_source_of(port: &String) -> (r: Option<AudioOutputSource>)
    ensures
        r == spec_audio_source(port@),
{
    if *port == String::from_str("SPDIF0") {
        Some(AudioOutputSource::Optical)
    } else if *port == String::from_str("HDMI0") {
        Some(AudioOutputSource::HDMI)
    } else if *port == String::from_str("IDLR0") {
        Some(AudioOutputSource::Aux)
    } else if *port == String::from_str("SPEAKER0") {
        Some(AudioOutputSource::NativeSpeaker)
    } else {
        None
    }
}

fn contains_source(v: &Vec<AudioOutputSource>, s: AudioOutputSource) -> (r: bool)
    ensures
        r == v@.contains(s),
{
    let mut i: usize = 0;
    while i < v.len()
        invariant
            i <= v@.len(),
            forall|j: int| 0 <= j < i ==> v@[j] != s,
        decreases v@.len() - i,
    {
        if v[i] == s {
            assert(v@[i as int] == s);
            return true;
        }
        i += 1;
    }
    false
}

/// The audio sources the device supports, from its supported audio ports: the native
/// speaker first, then the source of each known port in order of first appearance.
pub fn get_rdk_supported_audio_source(ports: &Vec<String>) -> (r: Vec<AudioOutputSource>)
    ensures
        r@ == spec_supported_sources(ports@),
{
    let mut r: Vec<AudioOutputSource> = Vec::new();
    r.push(AudioOutputSource::NativeSpeaker);
    let mut i: usize = 0;
    assert(ports@.take(0) =~= Seq::<String>::empty());
    assert(r@ =~= seq![AudioOutputSource::NativeSpeaker]);
    while i < ports.len()
        invariant
            i <= ports@.len(),
            r@ == spec_supported_sources(ports@.take(i as int)),
        decreases ports@.len() - i,
    {
        assert(ports@.take(i + 1).drop_last() =~= ports@.take(i as int));
        assert(ports@.take(i + 1).last() == ports@[i as int]);
        match audio_source_of(&ports[i]) {
            Some(v) => {
                if !contains_source(&r, v) {
                    r.push(v);
                }
            },
            None => {},
        }
        i += 1;
    }
    assert(ports@.take(ports@.len() as int) =~= ports@);
    r
}

/// The audio source in use, as the adapter reports it: the first entry of a list that
/// starts with the native speaker, so always the native speaker.
pub fn get_rdk_connected_audio_source(ports: &Vec<String>) -> (r: AudioOutputSource)
    ensures
        r == AudioOutputSource::NativeSpeaker,
{
    let mut response: Vec<AudioOutputSource> = Vec::new();
    response.push(AudioOutputSource::NativeSpeaker);
    let mut i: usize = 0;
    while i < ports.len()
        invariant
            i <= ports@.len(),
            response@.len() > 0,
            response@[0] == AudioOutputSource::NativeSpeaker,
        decreases ports@.len() - i,
    {
        let p = &ports[i];
        let val = if *p == String::from_str("SPDIF0") {
            Some(AudioOutputSource::Optical)
        } else if *p == String::from_str("HDMI0") {
            Some(AudioOutputSource::HDMI)
        } else {
            None
        };
        match val {
            Some(v) => {
                if !contains_source(&response, v) {
                    response.push(v);
                }
            },
            None => {},
        }
        i += 1;
    }
    response[0]
}

// ------------------------------------------------------------------ audio output modes

/// The position of an audio output mode in the order in which modes are listed.
pub open spec fn mode_rank(m: AudioOutputMode) -> int {
    match m {
        AudioOutputMode::Stereo => 0,
        AudioOutputMode::MultichannelPcm => 1,
        AudioOutputMode::PassThrough => 2,
        AudioOutputMode::Auto => 3,
    }
}

/// Some sound mode of `modes` translates to `m`.
pub open spec fn offers_mode(modes: Seq<String>, m: AudioOutputMode) -> bool {
    exists|i: int| 0 <= i < modes.len() && #[trigger] spec_rdk_sound_mode_to_dab(modes[i]@) == Some(m)
}

fn offers(modes: &Vec<String>, m: AudioOutputMode) -> (r: bool)
    ensures
        r == offers_mode(modes@, m),
{
    let mut i: usize = 0;
    while i < modes.len()
        invariant
            i <= modes@.len(),
            forall|j: int| 0 <= j < i ==> spec_rdk_sound_mode_to_dab(#[trigger] modes@[j]@) != Some(m),
        decreases modes@.len() - i,
    {
        if rdk_sound_mode_to_dab(&modes[i]) == Some(m) {
            return true;
        }
        i += 1;
    }
    false
}

fn mode_of_rank(k: u8) -> (m: AudioOutputMode)
    requires
        k < 4,
    ensures
        mode_rank(m) == k,
{
    if k == 0 {
        AudioOutputMode::Stereo
    } else if k == 1 {
        AudioOutputMode::MultichannelPcm
    } else if k == 2 {
        AudioOutputMode::PassThrough
    } else {
        AudioOutputMode::Auto
    }
}

/// The audio output modes the device offers, from the RDK sound modes of its audio port:
/// each mode once, in the order Stereo, MultichannelPcm, PassThrough, Auto.
pub fn get_rdk_audio_output_modes(modes: &Vec<String>) -> (r: Vec<AudioOutputMode>)
    ensures
        forall|m: AudioOutputMode| r@.contains(m) <==> offers_mode(modes@, m),
        forall|i: int, j: int| 0 <= i < j < r@.len() ==> mode_rank(r@[i]) < mode_rank(r@[j]),
{
    let mut r: Vec<AudioOutputMode> = Vec::new();
    let mut k: u8 = 0;
    while k < 4
        invariant
            k <= 4,
            forall|m: AudioOutputMode| r@.contains(m) <==> (mode_rank(m) < k && offers_mode(modes@, m)),
            forall|i: int, j: int| 0 <= i < j < r@.len() ==> mode_rank(r@[i]) < mode_rank(r@[j]),
            forall|i: int| 0 <= i < r@.len() ==> mode_rank(#[trigger] r@[i]) < k,
        decreases 4 - k,
    {
        let m = mode_of_rank(k);
        if offers(modes, m) {
            let ghost before = r@;
            r.push(m);
            assert forall|x: AudioOutputMode| r@.contains(x) <==> (mode_rank(x) < k + 1 && offers_mode(modes@, x)) by {
                if x == m {
                    assert(r@[before.len() as int] == m);
                } else {
                    if before.contains(x) {
                        let w = choose|w: int| 0 <= w < before.len() && before[w] == x;
                        assert(r@[w] == x);
                    }
                    if r@.contains(x) {
                        let w = choose|w: int| 0 <= w < r@.len() && r@[w] == x;
                        assert(w < before.len());
                        assert(before[w] == x);
                    }
                    assert(mode_rank(x) != k) by {
                        assert(mode_rank(x) != mode_rank(m) || x == m);
                    }
                }
            }
        } else {
            assert forall|x: AudioOutputMode| r@.contains(x) <==> (mode_rank(x) < k + 1 && offers_mode(modes@, x)) by {
                if mode_rank(x) == k {
                    assert(x == m);
                    if r@.contains(x) {
                        let w = choose|w: int| 0 <= w < r@.len() && r@[w] == x;
                        assert(mode_rank(r@[w]) < k);
                    }
                }
            }
        }
        k += 1;
    }
    r
}

/// The sound mode to ask of RDK for an audio output mode is read from the port's
/// supported modes only for multichannel PCM.
pub fn sound_mode_needs_port_modes(mode: AudioOutputMode) -> (r: bool)
    ensures
        r == (mode == AudioOutputMode::MultichannelPcm),
{
    mode == AudioOutputMode::MultichannelPcm
}

/// `s` is one of the RDK multichannel sound modes.
pub open spec fn is_multichannel_mode(s: Seq<char>) -> bool {
    s == "SURROUND"@ || s == "DOLBYDIGITAL"@ || s == "DOLBYDIGITALPLUS"@
}

/// The RDK sound mode for a DAB audio output mode; for multichannel PCM, the first
/// multichannel mode among those the port supports.
pub fn rdk_sound_mode_from_dab(mode: AudioOutputMode, port_modes: &Vec<String>) -> (r: Result<String, DabError>)
    ensures
        mode == AudioOutputMode::Stereo ==> (r matches Ok(s) && s@ == "STEREO"@),
        mode == AudioOutputMode::PassThrough ==> (r matches Ok(s) && s@ == "PASSTHRU"@),
        mode == AudioOutputMode::Auto ==> (r matches Ok(s) && s@ == "AUTO"@),
        mode == AudioOutputMode::MultichannelPcm ==> match r {
            Ok(s) => exists|i: int| 0 <= i < port_modes@.len() && port_modes@[i]@ == s@
                && is_multichannel_mode(s@)
                && forall|j: int| 0 <= j < i ==> !is_multichannel_mode(#[trigger] port_modes@[j]@),
            Err(e) => e matches DabError::Err500(m) && m@ == "Audio port doesn't support multichannel."@
                && forall|j: int| 0 <= j < port_modes@.len() ==> !is_multichannel_mode(#[trigger] port_modes@[j]@),
        },
{
    match mode {
        AudioOutputMode::Stereo => Ok(String::from_str("STEREO")),
        AudioOutputMode::PassThrough => Ok(String::from_str("PASSTHRU")),
        AudioOutputMode::Auto => Ok(String::from_str("AUTO")),
        AudioOutputMode::MultichannelPcm => {
            let mut i: usize = 0;
            while i < port_modes.len()
                invariant
                    mode == AudioOutputMode::MultichannelPcm,
                    i <= port_modes@.len(),
                    forall|j: int| 0 <= j < i ==> !is_multichannel_mode(#[trigger] port_modes@[j]@),
                decreases port_modes@.len() - i,
            {
                let m = &port_modes[i];
                if *m == String::from_str("SURROUND") || *m == String::from_str("DOLBYDIGITAL")
                    || *m == String::from_str("DOLBYDIGITALPLUS") {
                    return Ok(m.clone());
                }
                i += 1;
            }
            Err(DabError::Err500(String::from_str("Audio port doesn't support multichannel.")))
        },
    }
}

/// The name of an audio source as a JSON string (`"Optical"` with its quotes).
pub open spec fn quoted_source_name(source: AudioOutputSource) -> Seq<char> {
    match source {
        AudioOutputSource::NativeSpeaker => "\"NativeSpeaker\""@,
        AudioOutputSource::Arc => "\"Arc\""@,
        AudioOutputSource::Earc => "\"Earc\""@,
        AudioOutputSource::Optical => "\"Optical\""@,
        AudioOutputSource::Aux => "\"Aux\""@,
        AudioOutputSource::Bluetooth => "\"Bluetooth\""@,
        AudioOutputSource::Auto => "\"Auto\""@,
        AudioOutputSource::HDMI => "\"HDMI\""@,
    }
}

/// The `audioPort` to enable for an audio source: `HDMI0` for HDMI, else the source's
/// name as a JSON string.
pub fn audio_port_for_source(source: AudioOutputSource) -> (r: String)
    ensures
        source == AudioOutputSource::HDMI ==> r@ == "HDMI0"@,
        source != AudioOutputSource::HDMI ==> r@ == quoted_source_name(source),
{
    let s = match source {
        AudioOutputSource::NativeSpeaker => "\"NativeSpeaker\"",
        AudioOutputSource::Arc => "\"Arc\"",
        AudioOutputSource::Earc => "\"Earc\"",
        AudioOutputSource::Optical => "\"Optical\"",
        AudioOutputSource::Aux => "\"Aux\"",
        AudioOutputSource::Bluetooth => "\"Bluetooth\"",
        AudioOutputSource::Auto => "\"Auto\"",
        AudioOutputSource::HDMI => "HDMI0",
    };
    String::from_str(s)
}

/// Checks a volume against the device's volume range.
pub fn check_audio_volume(range: AudioVolume, volume: u32) -> (r: Result<(), DabError>)
    ensures
        range.min <= volume <= range.max ==> r is Ok,
        !(range.min <= volume <= range.max) ==> (r matches Err(DabError::Err400(m))
            && m@ == "Unsupported audio volume value"@),
{
    if !(range.min <= volume && volume <= range.max) {
        return Err(DabError::Err400(String::from_str("Unsupported audio volume value")));
    }
    Ok(())
}

} // verus!

verus! {

// ------------------------------------------------------------------ resolutions

/// Width and height of the RDK resolution names.
pub open spec fn resolution_dimensions(name: Seq<char>) -> Option<(u32, u32)> {
    if name == "480"@ {
        Some((640u32, 480u32))
    } else if name == "576"@ {
        Some((720u32, 576u32))
    } else if name == "720"@ {
        Some((1280u32, 720u32))
    } else if name == "1080"@ {
        Some((1920u32, 1080u32))
    } else if name == "2160"@ {
        Some((3840u32, 2160u32))
    } else {
        None
    }
}

fn dimensions_of(name: &String) -> (r: Option<(u32, u32)>)
    ensures
        r == resolution_dimensions(name@),
{
    if *name == String::from_str("480") {
        Some((640, 480))
    } else if *name == String::from_str("576") {
        Some((720, 576))
    } else if *name == String::from_str("720") {
        Some((1280, 720))
    } else if *name == String::from_str("1080") {
        Some((1920, 1080))
    } else if *name == String::from_str("2160") {
        Some((3840, 2160))
    } else {
        None
    }
}

/// A supported resolution of the device before its frame rate is read as a number.
pub struct ResolutionCandidate {
    pub width: u32,
    pub height: u32,
    /// The frame rate as written after the scan letter; `60` where nothing is written.
    pub framerate: String,
}

/// What an RDK resolution name such as `1080p60` or `1080i` gives: the part before the
/// first `p` (or, if there is none, the first `i`) names the size, the part after it is
/// the frame rate.
pub open spec fn spec_resolution_candidate(item: Seq<char>) -> Option<(u32, u32, Seq<char>)> {
    let split = match first_index_of(item, 'p') {
        Some(i) => Some(i),
        None => first_index_of(item, 'i'),
    };
    match split {
        None => None,
        Some(i) => {
            let rate = item.subrange(i + 1, item.len() as int);
            let rate = if rate.len() == 0 { "60"@ } else { rate };
            match resolution_dimensions(item.subrange(0, i)) {
                Some(d) => Some((d.0, d.1, rate)),
                None => None,
            }
        },
    }
}

/// Reads one RDK resolution name (see `spec_resolution_candidate`).
pub fn rdk_resolution_candidate(item: &str) -> (r: Option<ResolutionCandidate>)
    ensures
        match spec_resolution_candidate(item@) {
            Some(c) => r matches Some(v) && v.width == c.0 && v.height == c.1 && v.framerate@ == c.2,
            None => r is None,
        },
{
    let cs = chars_of(item);
    let split = match find_char(&cs, 'p') {
        Some(i) => Some(i),
        None => find_char(&cs, 'i'),
    };
    match split {
        None => None,
        Some(i) => {
            let n = cs.len();
            let name = string_of_range(&cs, 0, i);
            let rate = string_of_range(&cs, i + 1, n);
            let rate = if rate.as_str().is_empty() { String::from_str("60") } else { rate };
            match dimensions_of(&name) {
                Some(d) => Some(ResolutionCandidate { width: d.0, height: d.1, framerate: rate }),
                None => None,
            }
        },
    }
}

/// The values of a resolution candidate: width, height and frame rate text.
pub open spec fn candidate_view(c: ResolutionCandidate) -> (u32, u32, Seq<char>) {
    (c.width, c.height, c.framerate@)
}

/// What the resolution names `items` give, in order, leaving out the names that do not
/// denote a known size.
pub open spec fn spec_resolution_candidates(items: Seq<String>) -> Seq<(u32, u32, Seq<char>)>
    decreases items.len(),
{
    if items.len() == 0 {
        Seq::empty()
    } else {
        let init = spec_resolution_candidates(items.drop_last());
        match spec_resolution_candidate(items.last()@) {
            Some(c) => init.push(c),
            None => init,
        }
    }
}

/// The candidates of the device's supported resolution names, in order, skipping names
/// that do not denote a known size.
pub fn get_rdk_resolutions(items: &Vec<String>) -> (r: Vec<ResolutionCandidate>)
    ensures
        r@.map_values(|c: ResolutionCandidate| candidate_view(c)) == spec_resolution_candidates(items@),
{
    let mut r: Vec<ResolutionCandidate> = Vec::new();
    let mut i: usize = 0;
    assert(items@.take(0) =~= Seq::<String>::empty());
    assert(r@.map_values(|c: ResolutionCandidate| candidate_view(c)) =~= Seq::<(u32, u32, Seq<char>)>::empty());
    while i < items.len()
        invariant
            i <= items@.len(),
            r@.map_values(|c: ResolutionCandidate| candidate_view(c)) == spec_resolution_candidates(items@.take(i as int)),
        decreases items@.len() - i,
    {
        assert(items@.take(i + 1).drop_last() =~= items@.take(i as int));
        assert(items@.take(i + 1).last() == items@[i as int]);
        let ghost before = r@;
        match rdk_resolution_candidate(items[i].as_str()) {
            Some(c) => {
                r.push(c);
                assert(r@.map_values(|c: ResolutionCandidate| candidate_view(c)) =~=
                    before.map_values(|c: ResolutionCandidate| candidate_view(c)).push(candidate_view(r@[r@.len() - 1])));
            },
            None => {},
        }
        i += 1;
    }
    assert(items@.take(items@.len() as int) =~= items@);
    r
}

/// The RDK name of a DAB resolution: the size name, `p`, then the frequency.
pub open spec fn spec_resolution_name(width: u32, height: u32) -> Option<Seq<char>> {
    if width == 640 && height == 480 {
        Some("480"@)
    } else if width == 720 && height == 576 {
        Some("576"@)
    } else if width == 1280 && height == 720 {
        Some("720"@)
    } else if width == 1920 && height == 1080 {
        Some("1080"@)
    } else if width == 3840 && height == 2160 {
        Some("2160"@)
    } else {
        None
    }
}

/// Writes a DAB resolution as the RDK resolution name, e.g. `1080p60`.
pub fn convert_resolution_to_string(resolution: &OutputResolution) -> (r: Result<String, DabError>)
    ensures
        match spec_resolution_name(resolution.width, resolution.height) {
            Some(n) => r matches Ok(s) && s@ == n + "p"@ + resolution.frequency@,
            None => r matches Err(DabError::Err500(m)) && m@ == "Unsupported video format"@,
        },
{
    let w = resolution.width;
    let h = resolution.height;
    let name = if w == 640 && h == 480 {
        "480"
    } else if w == 720 && h == 576 {
        "576"
    } else if w == 1280 && h == 720 {
        "720"
    } else if w == 1920 && h == 1080 {
        "1080"
    } else if w == 3840 && h == 2160 {
        "2160"
    } else {
        return Err(DabError::Err500(String::from_str("Unsupported video format")));
    };
    Ok(join3(name, "p", resolution.frequency.as_str()))
}

// ------------------------------------------------------------------ setting requests

/// A system setting that can be set on the device.
#[derive(Clone, Copy, Debug, PartialEq, Eq, Structural)]
pub enum SettingKind {
    Language,
    OutputResolution,
    AudioVolume,
    Mute,
    Cec,
    AudioOutputMode,
    AudioOutputSource,
    HdrOutputMode,
    TextToSpeech,
}

/// The setting a DAB setting name stands for, if the device can set it.
pub open spec fn spec_setting_kind(key: Seq<char>) -> Option<SettingKind> {
    if key == "language"@ {
        Some(SettingKind::Language)
    } else if key == "outputResolution"@ {
        Some(SettingKind::OutputResolution)
    } else if key == "audioVolume"@ {
        Some(SettingKind::AudioVolume)
    } else if key == "mute"@ {
        Some(SettingKind::Mute)
    } else if key == "cec"@ {
        Some(SettingKind::Cec)
    } else if key == "audioOutputMode"@ {
        Some(SettingKind::AudioOutputMode)
    } else if key == "audioOutputSource"@ {
        Some(SettingKind::AudioOutputSource)
    } else if key == "hdrOutputMode"@ {
        Some(SettingKind::HdrOutputMode)
    } else if key == "textToSpeech"@ {
        Some(SettingKind::TextToSpeech)
    } else {
        None
    }
}

/// Which setting a member of a set-settings request names; any other member is refused.
pub fn classify_setting(key: &str) -> (r: Result<SettingKind, DabError>)
    ensures
        match spec_setting_kind(key@) {
            Some(k) => r == Ok::<SettingKind, DabError>(k),
            None => r matches Err(DabError::Err400(m)) && m@ == "Setting '"@ + key@ + "' is not supported"@,
        },
{
    let k = String::from_str(key);
    if k == String::from_str("language") {
        Ok(SettingKind::Language)
    } else if k == String::from_str("outputResolution") {
        Ok(SettingKind::OutputResolution)
    } else if k == String::from_str("audioVolume") {
        Ok(SettingKind::AudioVolume)
    } else if k == String::from_str("mute") {
        Ok(SettingKind::Mute)
    } else if k == String::from_str("cec") {
        Ok(SettingKind::Cec)
    } else if k == String::from_str("audioOutputMode") {
        Ok(SettingKind::AudioOutputMode)
    } else if k == String::from_str("audioOutputSource") {
        Ok(SettingKind::AudioOutputSource)
    } else if k == String::from_str("hdrOutputMode") {
        Ok(SettingKind::HdrOutputMode)
    } else if k == String::from_str("textToSpeech") {
        Ok(SettingKind::TextToSpeech)
    } else {
        Err(DabError::Err400(join3("Setting '", key, "' is not supported")))
    }
}

// ------------------------------------------------------------------ settings list

/// Picture modes of DAB.
#[derive(Clone, Copy, Debug, PartialEq, Eq, Structural)]
pub enum PictureMode {
    Standard,
    Dynamic,
    Movie,
    Sports,
    FilmMaker,
    Game,
    Auto,
}

/// The values each system setting can take on the device.
pub struct ListSystemSettings {
    pub language: Vec<String>,
    pub output_resolution: Vec<OutputResolution>,
    pub memc: bool,
    pub cec: bool,
    pub low_latency_mode: bool,
    pub match_content_frame_rate: Vec<MatchContentFrameRate>,
    pub hdr_output_mode: Vec<HdrOutputMode>,
    pub picture_mode: Vec<PictureMode>,
    pub audio_output_mode: Vec<AudioOutputMode>,
    pub audio_output_source: Vec<AudioOutputSource>,
    pub video_input_source: Vec<VideoInputSource>,
    pub audio_volume: AudioVolume,
    pub mute: bool,
    pub text_to_speech: bool,
}

/// The settings list from what was read of the device: MEMC and low latency mode are
/// never offered, mute always is, content frame rate matching is always on, there are
/// no picture modes and the only video input is the home screen.
pub fn list_system_settings(
    language: Vec<String>,
    output_resolution: Vec<OutputResolution>,
    cec: bool,
    text_to_speech: bool,
    hdr_output_mode: Vec<HdrOutputMode>,
    audio_volume: AudioVolume,
    audio_output_mode: Vec<AudioOutputMode>,
    audio_output_source: Vec<AudioOutputSource>,
) -> (r: ListSystemSettings)
    ensures
        r.language == language,
        r.output_resolution == output_resolution,
        r.cec == cec,
        r.text_to_speech == text_to_speech,
        r.hdr_output_mode == hdr_output_mode,
        r.audio_volume == audio_volume,
        r.audio_output_mode == audio_output_mode,
        r.audio_output_source == audio_output_source,
        !r.memc,
        !r.low_latency_mode,
        r.mute,
        r.match_content_frame_rate@ == seq![MatchContentFrameRate::EnabledAlways],
        r.picture_mode@.len() == 0,
        r.video_input_source@ == seq![VideoInputSource::Home],
{
    let mut match_content_frame_rate = Vec::new();
    match_content_frame_rate.push(MatchContentFrameRate::EnabledAlways);
    let mut video_input_source = Vec::new();
    video_input_source.push(VideoInputSource::Home);
    assert(match_content_frame_rate@ =~= seq![MatchContentFrameRate::EnabledAlways]);
    assert(video_input_source@ =~= seq![VideoInputSource::Home]);
    ListSystemSettings {
        language,
        output_resolution,
        memc: false,
        cec,
        low_latency_mode: false,
        match_content_frame_rate,
        hdr_output_mode,
        picture_mode: Vec::new(),
        audio_output_mode,
        audio_output_source,
        video_input_source,
        audio_volume,
        mute: true,
        text_to_speech,
    }
}

} // verus!

verus! {

// ------------------------------------------------------------------ laws

/// A power mode set on the device reads back as the same mode: the RDK power state that
/// a DAB power mode is written as is read as that power mode.
pub proof fn law_power_mode_round_trip(mode: PowerMode)
    ensures
        spec_power_mode(spec_rdk_power_state(mode)) == Some(mode),
{
    reveal_strlit("ON");
    reveal_strlit("STANDBY");
    reveal_strlit("LIGHT_SLEEP");
    reveal_strlit("DEEP_SLEEP");
    assert("STANDBY"@.len() != "ON"@.len());
    assert("DEEP_SLEEP"@.len() != "ON"@.len());
    assert("DEEP_SLEEP"@.len() != "STANDBY"@.len());
    assert("DEEP_SLEEP"@[0] != "LIGHT_SLEEP"@[0]);
}

/// An audio output mode set on the device reads back as the same mode: every sound mode
/// that a DAB audio output mode is written as (for multichannel PCM, whichever of the
/// port's modes was chosen) is read as that output mode.
pub proof fn law_sound_mode_round_trip(mode: AudioOutputMode, sound_mode: Seq<char>)
    requires
        mode == AudioOutputMode::Stereo ==> sound_mode == "STEREO"@,
        mode == AudioOutputMode::PassThrough ==> sound_mode == "PASSTHRU"@,
        mode == AudioOutputMode::Auto ==> sound_mode == "AUTO"@,
        mode == AudioOutputMode::MultichannelPcm ==> is_multichannel_mode(sound_mode),
    ensures
        spec_rdk_sound_mode_to_dab(sound_mode) == Some(mode),
{
    reveal_strlit("STEREO");
    reveal_strlit("SURROUND");
    reveal_strlit("DOLBYDIGITAL");
    reveal_strlit("DOLBYDIGITALPLUS");
    reveal_strlit("PASSTHRU");
    reveal_strlit("AUTO");
    if mode == AudioOutputMode::PassThrough {
        assert(sound_mode.len() != "STEREO"@.len());
        assert(sound_mode[0] != "SURROUND"@[0]);
        assert(sound_mode.len() != "DOLBYDIGITAL"@.len());
        assert(sound_mode.len() != "DOLBYDIGITALPLUS"@.len());
    } else if mode == AudioOutputMode::Auto {
        assert(sound_mode.len() != "STEREO"@.len());
        assert(sound_mode.len() != "SURROUND"@.len());
        assert(sound_mode.len() != "DOLBYDIGITAL"@.len());
        assert(sound_mode.len() != "DOLBYDIGITALPLUS"@.len());
        assert(sound_mode.len() != "PASSTHRU"@.len());
        assert(sound_mode.subrange(0, 4) =~= "AUTO"@);
    } else if mode == AudioOutputMode::MultichannelPcm {
        assert(sound_mode.len() != "STEREO"@.len());
    }
}

/// The HDR mode is always HDR exactly when both the set-top box and the TV support HDR;
/// if either does not, HDR is disabled. No other mode is reported.
pub proof fn law_hdr_mode_needs_both(settop_supports_hdr: bool, tv_supports_hdr: bool)
    ensures
        spec_hdr_mode(settop_supports_hdr, tv_supports_hdr) == HdrOutputMode::AlwaysHdr
            <==> (settop_supports_hdr && tv_supports_hdr),
        spec_hdr_mode(settop_supports_hdr, tv_supports_hdr) == HdrOutputMode::DisableHdr
            <==> !(settop_supports_hdr && tv_supports_hdr),
{
}

/// The device offers exactly the HDR mode it is in: setting that mode is accepted and
/// asks nothing of the device, and any other mode is refused before anything is sent.
pub proof fn law_current_hdr_mode_is_offered(settop_supports_hdr: bool, tv_supports_hdr: bool, mode: HdrOutputMode)
    ensures
        seq![spec_hdr_mode(settop_supports_hdr, tv_supports_hdr)].contains(mode)
            <==> mode == spec_hdr_mode(settop_supports_hdr, tv_supports_hdr),
{
    let offered = seq![spec_hdr_mode(settop_supports_hdr, tv_supports_hdr)];
    assert(offered[0] == spec_hdr_mode(settop_supports_hdr, tv_supports_hdr));
    if offered.contains(mode) {
        let i = choose|i: int| 0 <= i < offered.len() && offered[i] == mode;
        assert(i == 0);
    }
}

/// A resolution name the device lists, such as `1080p60`, is written back under the same
/// name: the candidate read from `size` + `p` + `rate` is turned back into that text.
pub proof fn law_resolution_text_round_trip(size: Seq<char>, rate: Seq<char>)
    requires
        resolution_dimensions(size) is Some,
        rate.len() > 0,
    ensures
        spec_resolution_candidate(size + "p"@ + rate) == Some((resolution_dimensions(size).unwrap().0,
            resolution_dimensions(size).unwrap().1, rate)),
        spec_resolution_name(resolution_dimensions(size).unwrap().0, resolution_dimensions(size).unwrap().1)
            == Some(size),
        spec_resolution_name(resolution_dimensions(size).unwrap().0, resolution_dimensions(size).unwrap().1)
            .unwrap() + "p"@ + rate == size + "p"@ + rate,
{
    reveal_strlit("480");
    reveal_strlit("576");
    reveal_strlit("720");
    reveal_strlit("1080");
    reveal_strlit("2160");
    reveal_strlit("p");
    let item = size + "p"@ + rate;
    let n = size.len() as int;
    assert(forall|j: int| 0 <= j < n ==> size[j] != 'p');
    assert(forall|j: int| 0 <= j < n ==> item[j] == size[j]);
    assert(item[n] == 'p');
    assert(first_index_of(item, 'p') == Some(n)) by {
        assert(0 <= n < item.len() && item[n] == 'p');
        let i = choose|i: int| 0 <= i < item.len() && item[i] == 'p' && forall|j: int| 0 <= j < i ==> item[j] != 'p';
        if i < n {
            assert(item[i] == size[i]);
        }
        if i > n {
            assert(item[n] != 'p');
        }
    }
    assert(item.subrange(0, n) =~= size);
    assert(item.subrange(n + 1, item.len() as int) =~= rate);
    law_resolution_name_round_trip(size);
}

/// A resolution the device lists can be set again under the same RDK size name: the size
/// that an RDK size name stands for is written back as that name.
pub proof fn law_resolution_name_round_trip(name: Seq<char>)
    requires
        resolution_dimensions(name) is Some,
    ensures
        spec_resolution_name(resolution_dimensions(name).unwrap().0, resolution_dimensions(name).unwrap().1)
            == Some(name),
{
}

} // verus!

verus! {

// ------------------------------------------------------------------ power, restart and reset calls

/// The call that puts the device into a power mode.
pub fn set_power_state_call(mode: PowerMode) -> (r: RdkCall)
    ensures
        call_is(r, "org.rdk.System.setPowerState"@, "{\"powerState\":"@ + json_quoted(spec_rdk_power_state(mode))
            + ",\"standbyReason\":\"DAB_SET_POWER_MODE_REQUEST\"}"@),
{
    let state = dab_power_mode_to_rdk(&mode);
    let p = join3("{\"powerState\":", json_quote(state).as_str(), ",\"standbyReason\":\"DAB_SET_POWER_MODE_REQUEST\"}");
    RdkCall { method: String::from_str("org.rdk.System.setPowerState"), params: Some(p) }
}

/// The call that restarts the device.
pub fn reboot_call() -> (r: RdkCall)
    ensures
        call_is(r, "org.rdk.System.reboot"@, "{\"rebootReason\":\"DAB_REBOOT_REQUEST\"}"@),
{
    RdkCall {
        method: String::from_str("org.rdk.System.reboot"),
        params: Some(String::from_str("{\"rebootReason\":\"DAB_REBOOT_REQUEST\"}")),
    }
}

/// The call that resets the device to its factory state and restarts it.
pub fn factory_reset_call() -> (r: RdkCall)
    ensures
        call_is(r, "org.rdk.Warehouse.resetDevice"@, "{\"suppressReboot\":false,\"resetType\":\"FACTORY\"}"@),
{
    RdkCall {
        method: String::from_str("org.rdk.Warehouse.resetDevice"),
        params: Some(String::from_str("{\"suppressReboot\":false,\"resetType\":\"FACTORY\"}")),
    }
}

/// A factory reset first activates the warehouse service unless its state is
/// `activated`.
pub fn warehouse_needs_activation(state: &str) -> (r: bool)
    ensures
        r == (state@ != "activated"@),
{
    !str_eq(state, "activated")
}

} // verus!

verus! {

// ------------------------------------------------------------------ setting several settings

/// What a set-settings request does with its members, in order: the settings to set,
/// one for each member up to the first member no setting answers to, and the refusal of
/// that member if there is one.
pub struct SettingsSetPlan {
    pub apply: Vec<SettingKind>,
    pub refusal: Option<DabError>,
}

/// Plans a set-settings request with the members `keys`, in the order they are taken:
/// each member names a setting to set, until the first member that names none, which
/// refuses the request.
pub fn settings_set_plan(keys: &Vec<String>) -> (r: SettingsSetPlan)
    ensures
        r.apply@.len() <= keys@.len(),
        forall|i: int| 0 <= i < r.apply@.len() ==> spec_setting_kind(keys@[i]@) == Some(#[trigger] r.apply@[i]),
        r.refusal is None ==> r.apply@.len() == keys@.len(),
        r.refusal matches Some(e) ==> r.apply@.len() < keys@.len()
            && spec_setting_kind(keys@[r.apply@.len() as int]@) is None
            && (e matches DabError::Err400(m) && m@ == "Setting '"@ + keys@[r.apply@.len() as int]@ + "' is not supported"@),
{
    let mut apply: Vec<SettingKind> = Vec::new();
    let mut i: usize = 0;
    while i < keys.len()
        invariant
            i <= keys@.len(),
            apply@.len() == i,
            forall|j: int| 0 <= j < i ==> spec_setting_kind(keys@[j]@) == Some(#[trigger] apply@[j]),
        decreases keys@.len() - i,
    {
        match classify_setting(keys[i].as_str()) {
            Ok(k) => {
                apply.push(k);
            },
            Err(e) => {
                return SettingsSetPlan { apply, refusal: Some(e) };
            },
        }
        i += 1;
    }
    SettingsSetPlan { apply, refusal: None }
}

/// The answer to a set-settings request, from the first failure of a setting that was
/// set (the settings after it are not set) and the plan's refusal: the failure if there
/// is one, else the refusal, else an empty JSON object.
pub fn settings_set_answer(refusal: Option<DabError>, failure: Option<DabError>) -> (r: Result<String, DabError>)
    ensures
        match failure {
            Some(e) => r == Err::<String, DabError>(e),
            None => match refusal {
                Some(e) => r == Err::<String, DabError>(e),
                None => r matches Ok(body) && body@ == "{}"@,
            },
        },
{
    match failure {
        Some(e) => Err(e),
        None => match refusal {
            Some(e) => Err(e),
            None => Ok(String::from_str("{}")),
        },
    }
}

// ------------------------------------------------------------------ setting the power mode

/// The answer to a set-power-mode request: the error of the call that sets the power
/// state, else the power mode read back after it (as `get_rdk_power_mode` reads it).
pub fn set_power_mode_answer(set: Result<(), DabError>, power_state: Result<String, DabError>)
    -> (r: Result<PowerMode, DabError>)
    ensures
        match set {
            Err(e) => r == Err::<PowerMode, DabError>(e),
            Ok(_) => match power_state {
                Err(e) => r == Err::<PowerMode, DabError>(e),
                Ok(s) => match spec_power_mode(s@) {
                    Some(m) => r == Ok::<PowerMode, DabError>(m),
                    None => r matches Err(DabError::Err500(e)) && e@ == "Unknown RDK power state: "@ + s@,
                },
            },
        },
{
    match set {
        Err(e) => Err(e),
        Ok(_) => match power_state {
            Err(e) => Err(e),
            Ok(s) => get_rdk_power_mode(s.as_str()),
        },
    }
}

} // verus!
