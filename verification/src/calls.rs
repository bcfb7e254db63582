//! Requests to the device: the JSON-RPC request bodies, and the calls that read and
//! change the settings.
use vstd::prelude::*;
use vstd::string::*;
use crate::codec::{json_quote, json_quoted};
use crate::dab::{AudioOutputMode, AudioOutputSource, AudioVolume, DabError, OutputResolution};
use crate::interface::{rdk_sound_mode_to_dab, spec_rdk_sound_mode_to_dab, RdkResponse};
use crate::system::{audio_port_for_source, check_audio_volume, convert_resolution_to_string,
    quoted_source_name, spec_resolution_name};
use crate::text::{chars_of, decimal, find_char, first_index_of, join2, parse_i32, spec_parse_i32,
    string_of_range, u64_to_decimal};

verus! {

// ------------------------------------------------------------------ request bodies

/// The decimal writing of a signed number, with `-` before a negative one.
pub open spec fn signed_decimal(n: int) -> Seq<char> {
    if n < 0 {
        "-"@ + decimal((-n) as nat)
    } else {
        decimal(n as nat)
    }
}

/// The decimal writing of `n` (what `n.to_string()` gives).
pub fn i32_to_decimal(n: i32) -> (r: String)
    ensures
        r@ == signed_decimal(n as int),
{
    if n < 0 {
        let m: u64 = (-(n as i64)) as u64;
        let d = u64_to_decimal(m);
        let r = String::from_str("-");
        r.concat(d.as_str())
    } else {
        u64_to_decimal(n as u64)
    }
}

/// The JSON writing of a boolean.
pub open spec fn json_bool(b: bool) -> Seq<char> {
    if b { "true"@ } else { "false"@ }
}

pub(crate) fn bool_text(b: bool) -> (r: &'static str)
    ensures
        r@ == json_bool(b),
{
    if b { "true" } else { "false" }
}

/// A JSON-RPC call to make on the device: the method, and the parameters as JSON text
/// where the call has any.
pub struct RdkCall {
    pub method: String,
    pub params: Option<String>,
}

/// The parameters of a call, as text (empty where there are none).
pub open spec fn params_view(params: Option<String>) -> Option<Seq<char>> {
    match params {
        Some(p) => Some(p@),
        None => None,
    }
}

/// The body of a JSON-RPC request: version `2.0`, the identifier, the method, and the
/// parameters where there are any, written compactly in that order.
pub open spec fn request_body(id: int, method: Seq<char>, params: Option<Seq<char>>) -> Seq<char> {
    "{\"jsonrpc\":\"2.0\",\"id\":"@ + signed_decimal(id) + ",\"method\":"@ + json_quoted(method)
        + match params {
        Some(p) => ",\"params\":"@ + p,
        None => Seq::empty(),
    } + "}"@
}

/// Writes the body of the JSON-RPC request that makes `call` under identifier `id`.
pub fn rdk_request_body(id: i32, call: &RdkCall) -> (r: String)
    ensures
        r@ == request_body(id as int, call.method@, params_view(call.params)),
{
    let r = String::from_str("{\"jsonrpc\":\"2.0\",\"id\":");
    let r = r.concat(i32_to_decimal(id).as_str());
    let r = r.concat(",\"method\":");
    let r = r.concat(json_quote(call.method.as_str()).as_str());
    let r = match &call.params {
        Some(p) => {
            let r = r.concat(",\"params\":");
            r.concat(p.as_str())
        },
        None => r,
    };
    r.concat("}")
}

// ------------------------------------------------------------------ reading the settings

/// A question to the device that takes no parameters, or only an audio port.
#[derive(Clone, Copy, Debug, PartialEq, Eq, Structural)]
pub enum DeviceQuery {
    Language,
    DisplayFrameRate,
    ConnectedVideoDisplays,
    SettopHdrSupport,
    TvHdrSupport,
    ConnectedAudioPorts,
    SupportedAudioPorts,
    SupportedResolutions,
    VolumeLevel,
    Muted,
    SoundMode,
    SupportedAudioModes,
    TextToSpeech,
    Cec,
    PowerState,
    AppStates,
    ScreenResolution,
    NetworkInterfaces,
}

/// The method that answers a question.
pub open spec fn query_method(q: DeviceQuery) -> Seq<char> {
    match q {
        DeviceQuery::Language => "org.rdk.UserPreferences.1.getUILanguage"@,
        DeviceQuery::DisplayFrameRate => "org.rdk.FrameRate.getDisplayFrameRate"@,
        DeviceQuery::ConnectedVideoDisplays => "org.rdk.DisplaySettings.getConnectedVideoDisplays"@,
        DeviceQuery::SettopHdrSupport => "org.rdk.DisplaySettings.getSettopHDRSupport"@,
        DeviceQuery::TvHdrSupport => "org.rdk.DisplaySettings.getTvHDRSupport"@,
        DeviceQuery::ConnectedAudioPorts => "org.rdk.DisplaySettings.getConnectedAudioPorts"@,
        DeviceQuery::SupportedAudioPorts => "org.rdk.DisplaySettings.getSupportedAudioPorts"@,
        DeviceQuery::SupportedResolutions => "org.rdk.DisplaySettings.getSupportedResolutions"@,
        DeviceQuery::VolumeLevel => "org.rdk.DisplaySettings.getVolumeLevel"@,
        DeviceQuery::Muted => "org.rdk.DisplaySettings.getMuted"@,
        DeviceQuery::SoundMode => "org.rdk.DisplaySettings.getSoundMode"@,
        DeviceQuery::SupportedAudioModes => "org.rdk.DisplaySettings.getSupportedAudioModes"@,
        DeviceQuery::TextToSpeech => "org.rdk.TextToSpeech.isttsenabled"@,
        DeviceQuery::Cec => "org.rdk.HdmiCec_2.getEnabled"@,
        DeviceQuery::PowerState => "org.rdk.System.getPowerState"@,
        DeviceQuery::AppStates => "org.rdk.RDKShell.getState"@,
        DeviceQuery::ScreenResolution => "org.rdk.RDKShell.getScreenResolution"@,
        DeviceQuery::NetworkInterfaces => "org.rdk.Network.getInterfaces"@,
    }
}

/// The questions that are asked about one audio port.
pub open spec fn query_names_port(q: DeviceQuery) -> bool {
    q == DeviceQuery::VolumeLevel || q == DeviceQuery::Muted || q == DeviceQuery::SoundMode
        || q == DeviceQuery::SupportedAudioModes
}

/// The parameters naming an audio port.
pub open spec fn audio_port_params(port: Seq<char>) -> Seq<char> {
    "{\"audioPort\":"@ + json_quoted(port) + "}"@
}

/// The call that answers `q`; the questions about an audio port ask about `audio_port`.
pub fn query_call(q: DeviceQuery, audio_port: &str) -> (r: RdkCall)
    ensures
        r.method@ == query_method(q),
        query_names_port(q) ==> params_view(r.params) == Some(audio_port_params(audio_port@)),
        !query_names_port(q) ==> r.params is None,
{
    let method = match q {
        DeviceQuery::Language => "org.rdk.UserPreferences.1.getUILanguage",
        DeviceQuery::DisplayFrameRate => "org.rdk.FrameRate.getDisplayFrameRate",
        DeviceQuery::ConnectedVideoDisplays => "org.rdk.DisplaySettings.getConnectedVideoDisplays",
        DeviceQuery::SettopHdrSupport => "org.rdk.DisplaySettings.getSettopHDRSupport",
        DeviceQuery::TvHdrSupport => "org.rdk.DisplaySettings.getTvHDRSupport",
        DeviceQuery::ConnectedAudioPorts => "org.rdk.DisplaySettings.getConnectedAudioPorts",
        DeviceQuery::SupportedAudioPorts => "org.rdk.DisplaySettings.getSupportedAudioPorts",
        DeviceQuery::SupportedResolutions => "org.rdk.DisplaySettings.getSupportedResolutions",
        DeviceQuery::VolumeLevel => "org.rdk.DisplaySettings.getVolumeLevel",
        DeviceQuery::Muted => "org.rdk.DisplaySettings.getMuted",
        DeviceQuery::SoundMode => "org.rdk.DisplaySettings.getSoundMode",
        DeviceQuery::SupportedAudioModes => "org.rdk.DisplaySettings.getSupportedAudioModes",
        DeviceQuery::TextToSpeech => "org.rdk.TextToSpeech.isttsenabled",
        DeviceQuery::Cec => "org.rdk.HdmiCec_2.getEnabled",
        DeviceQuery::PowerState => "org.rdk.System.getPowerState",
        DeviceQuery::AppStates => "org.rdk.RDKShell.getState",
        DeviceQuery::ScreenResolution => "org.rdk.RDKShell.getScreenResolution",
        DeviceQuery::NetworkInterfaces => "org.rdk.Network.getInterfaces",
    };
    let names_port = match q {
        DeviceQuery::VolumeLevel | DeviceQuery::Muted | DeviceQuery::SoundMode
        | DeviceQuery::SupportedAudioModes => true,
        _ => false,
    };
    let params = if names_port {
        let p = String::from_str("{\"audioPort\":");
        let p = p.concat(json_quote(audio_port).as_str());
        Some(p.concat("}"))
    } else {
        None
    };
    RdkCall { method: String::from_str(method), params }
}

} // verus!

verus! {

// ------------------------------------------------------------------ changing the settings

/// `call` is a call of `method` with the parameters `params`.
pub open spec fn call_is(call: RdkCall, method: Seq<char>, params: Seq<char>) -> bool {
    call.method@ == method && params_view(call.params) == Some(params)
}

fn make_call(method: &str, params: String) -> (r: RdkCall)
    ensures
        call_is(r, method@, params@),
{
    RdkCall { method: String::from_str(method), params: Some(params) }
}

/// The call that sets the user interface language.
pub fn set_rdk_language(language: &str) -> (r: RdkCall)
    ensures
        call_is(r, "org.rdk.UserPreferences.1.setUILanguage"@,
            "{\"ui_language\":"@ + json_quoted(language@) + "}"@),
{
    let p = String::from_str("{\"ui_language\":");
    let p = p.concat(json_quote(language).as_str());
    make_call("org.rdk.UserPreferences.1.setUILanguage", p.concat("}"))
}

/// The call that sets the output resolution of `video_display`; a resolution without an
/// RDK name is refused.
pub fn set_rdk_resolution(video_display: &str, resolution: &OutputResolution) -> (r: Result<RdkCall, DabError>)
    ensures
        match spec_resolution_name(resolution.width, resolution.height) {
            Some(n) => r matches Ok(c) && call_is(c, "org.rdk.DisplaySettings.setCurrentResolution"@,
                "{\"videoDisplay\":"@ + json_quoted(video_display@) + ",\"resolution\":"@
                    + json_quoted(n + "p"@ + resolution.frequency@) + ",\"persist\":true}"@),
            None => r matches Err(DabError::Err500(m)) && m@ == "Unsupported video format"@,
        },
{
    let name = convert_resolution_to_string(resolution)?;
    let p = String::from_str("{\"videoDisplay\":");
    let p = p.concat(json_quote(video_display).as_str());
    let p = p.concat(",\"resolution\":");
    let p = p.concat(json_quote(name.as_str()).as_str());
    Ok(make_call("org.rdk.DisplaySettings.setCurrentResolution", p.concat(",\"persist\":true}")))
}

/// The call that sets the volume of `audio_port`; a volume outside the device's range is
/// refused.
pub fn set_rdk_audio_volume(volume: u32, range: AudioVolume, audio_port: &str) -> (r: Result<RdkCall, DabError>)
    ensures
        range.min <= volume <= range.max ==> (r matches Ok(c) && call_is(c,
            "org.rdk.DisplaySettings.setVolumeLevel"@,
            "{\"volumeLevel\":"@ + decimal(volume as nat) + ",\"audioPort\":"@ + json_quoted(audio_port@) + "}"@)),
        !(range.min <= volume <= range.max) ==> (r matches Err(DabError::Err400(m))
            && m@ == "Unsupported audio volume value"@),
{
    check_audio_volume(range, volume)?;
    let p = String::from_str("{\"volumeLevel\":");
    let p = p.concat(u64_to_decimal(volume as u64).as_str());
    let p = p.concat(",\"audioPort\":");
    let p = p.concat(json_quote(audio_port).as_str());
    Ok(make_call("org.rdk.DisplaySettings.setVolumeLevel", p.concat("}")))
}

/// The call that mutes or unmutes `audio_port`.
pub fn set_rdk_mute(mute: bool, audio_port: &str) -> (r: RdkCall)
    ensures
        call_is(r, "org.rdk.DisplaySettings.setMuted"@,
            "{\"muted\":"@ + json_bool(mute) + ",\"audioPort\":"@ + json_quoted(audio_port@) + "}"@),
{
    let p = String::from_str("{\"muted\":");
    let p = p.concat(bool_text(mute));
    let p = p.concat(",\"audioPort\":");
    let p = p.concat(json_quote(audio_port).as_str());
    make_call("org.rdk.DisplaySettings.setMuted", p.concat("}"))
}

/// The call that turns HDMI CEC on or off.
pub fn set_rdk_cec(enabled: bool) -> (r: RdkCall)
    ensures
        call_is(r, "org.rdk.HdmiCecSource.setEnabled"@, "{\"enabled\":"@ + json_bool(enabled) + "}"@),
{
    let p = String::from_str("{\"enabled\":");
    let p = p.concat(bool_text(enabled));
    make_call("org.rdk.HdmiCecSource.setEnabled", p.concat("}"))
}

/// The port name that enabling an audio source asks for.
pub open spec fn source_port_name(source: AudioOutputSource) -> Seq<char> {
    if source == AudioOutputSource::HDMI { "HDMI0"@ } else { quoted_source_name(source) }
}

/// The call that enables the port of an audio source.
pub fn set_rdk_audio_output_source(source: AudioOutputSource) -> (r: RdkCall)
    ensures
        call_is(r, "org.rdk.DisplaySettings.setEnableAudioPort"@,
            "{\"audioPort\":"@ + json_quoted(source_port_name(source)) + ",\"enable\":true}"@),
{
    let port = audio_port_for_source(source);
    let p = String::from_str("{\"audioPort\":");
    let p = p.concat(json_quote(port.as_str()).as_str());
    make_call("org.rdk.DisplaySettings.setEnableAudioPort", p.concat(",\"enable\":true}"))
}

/// The call that sets the sound mode of `audio_port`.
pub fn set_rdk_audio_output_mode(audio_port: &str, sound_mode: &str) -> (r: RdkCall)
    ensures
        call_is(r, "org.rdk.DisplaySettings.setSoundMode"@,
            "{\"audioPort\":"@ + json_quoted(audio_port@) + ",\"soundMode\":"@ + json_quoted(sound_mode@) + "}"@),
{
    let p = String::from_str("{\"audioPort\":");
    let p = p.concat(json_quote(audio_port).as_str());
    let p = p.concat(",\"soundMode\":");
    let p = p.concat(json_quote(sound_mode).as_str());
    make_call("org.rdk.DisplaySettings.setSoundMode", p.concat("}"))
}

/// The call that turns text to speech on or off.
pub fn set_rdk_text_to_speech(val: bool) -> (r: RdkCall)
    ensures
        call_is(r, "org.rdk.TextToSpeech.enabletts"@, "{\"enabletts\":"@ + json_bool(val) + "}"@),
{
    let p = String::from_str("{\"enabletts\":");
    let p = p.concat(bool_text(val));
    make_call("org.rdk.TextToSpeech.enabletts", p.concat("}"))
}

/// The call that forces HDR output on or off.
pub fn force_hdr_mode_call(hdr_mode: bool) -> (r: RdkCall)
    ensures
        call_is(r, "org.rdk.DisplaySettings.setForceHDRMode"@, "{\"hdr_mode\":"@ + json_bool(hdr_mode) + "}"@),
{
    let p = String::from_str("{\"hdr_mode\":");
    let p = p.concat(bool_text(hdr_mode));
    make_call("org.rdk.DisplaySettings.setForceHDRMode", p.concat("}"))
}

} // verus!

verus! {

// ------------------------------------------------------------------ reading the answers

/// `s` without the copies of `c` at its end.
pub open spec fn trim_end_char(s: Seq<char>, c: char) -> Seq<char>
    decreases s.len(),
{
    if s.len() > 0 && s.last() == c {
        trim_end_char(s.drop_last(), c)
    } else {
        s
    }
}

/// `s` cut at its first `c`: what comes before it, and what comes after it where there
/// is one.
pub open spec fn split_first(s: Seq<char>, c: char) -> (Seq<char>, Option<Seq<char>>) {
    match first_index_of(s, c) {
        Some(i) => (s.take(i), Some(s.skip(i + 1))),
        None => (s, None),
    }
}

/// The first three `x`-separated numbers of a display frame rate such as `1920x1080x60`,
/// after any closing brackets at its end are dropped.
pub open spec fn frame_rate_fields(s: Seq<char>) -> Option<(int, int, int)> {
    let t = trim_end_char(s, ']');
    let (w, rest1) = split_first(t, 'x');
    match rest1 {
        Some(r1) => {
            let (h, rest2) = split_first(r1, 'x');
            match rest2 {
                Some(r2) => {
                    let f = split_first(r2, 'x').0;
                    match (spec_parse_i32(w), spec_parse_i32(h), spec_parse_i32(f)) {
                        (Some(a), Some(b), Some(c)) => Some((a, b, c)),
                        _ => None,
                    }
                },
                None => None,
            }
        },
        None => None,
    }
}

/// A number of `i32` taken as a `u32` (a negative one wraps around).
pub open spec fn wrap_to_u32(v: int) -> int {
    if v < 0 { v + 0x1_0000_0000 } else { v }
}

/// The display's frame rate as the device reports it: width and height in pixels, and
/// the frequency.
pub struct DisplayFrameRate {
    pub width: u32,
    pub height: u32,
    pub frequency: i32,
}

fn cut_at(cs: &Vec<char>, c: char) -> (r: (String, Option<Vec<char>>))
    ensures
        r.0@ == split_first(cs@, c).0,
        match split_first(cs@, c).1 {
            Some(rest) => r.1 matches Some(v) && v@ == rest,
            None => r.1 is None,
        },
{
    match find_char(cs, c) {
        Some(i) => {
            let before = string_of_range(cs, 0, i);
            let mut after: Vec<char> = Vec::new();
            let n = cs.len();
            assert(i < n);
            let mut j = i + 1;
            while j < cs.len()
                invariant
                    i < j <= cs@.len(),
                    after@ == cs@.subrange(i + 1, j as int),
                decreases cs@.len() - j,
            {
                after.push(cs[j]);
                assert(cs@.subrange(i + 1, j + 1) =~= cs@.subrange(i + 1, j as int).push(cs@[j as int]));
                j += 1;
            }
            assert(before@ =~= cs@.take(i as int));
            assert(after@ =~= cs@.skip(i + 1));
            (before, Some(after))
        },
        None => {
            let all = string_of_range(cs, 0, cs.len());
            assert(all@ =~= cs@);
            (all, None)
        },
    }
}

fn i32_as_u32(v: i32) -> (r: u32)
    ensures
        r == wrap_to_u32(v as int),
{
    assert(v < 0 ==> (v as u32) == v + 0x1_0000_0000) by (bit_vector);
    assert(v >= 0 ==> (v as u32) == v) by (bit_vector);
    v as u32
}

fn trim_end(cs: &Vec<char>, c: char) -> (r: Vec<char>)
    ensures
        r@ == trim_end_char(cs@, c),
{
    let mut end = cs.len();
    assert(cs@.take(end as int) =~= cs@);
    while end > 0 && cs[end - 1] == c
        invariant
            end <= cs@.len(),
            trim_end_char(cs@.take(end as int), c) == trim_end_char(cs@, c),
        decreases end,
    {
        assert(cs@.take(end - 1) =~= cs@.take(end as int).drop_last());
        end -= 1;
    }
    let mut trimmed: Vec<char> = Vec::new();
    let mut k: usize = 0;
    while k < end
        invariant
            k <= end <= cs@.len(),
            trimmed@ == cs@.take(k as int),
        decreases end - k,
    {
        trimmed.push(cs[k]);
        assert(cs@.take(k + 1) =~= cs@.take(k as int).push(cs@[k as int]));
        k += 1;
    }
    trimmed
}

/// Reads the display frame rate the device reported, such as `1920x1080x60`: the part
/// before the first `x` is the width, the next the height, the next the frequency.
pub fn get_rdk_resolution(framerate: &str) -> (r: DisplayFrameRate)
    requires
        frame_rate_fields(framerate@) is Some,
    ensures
        ({
            let (w, h, f) = frame_rate_fields(framerate@).unwrap();
            r.width == wrap_to_u32(w) && r.height == wrap_to_u32(h) && r.frequency == f
        }),
{
    let cs = chars_of(framerate);
    let trimmed = trim_end(&cs, ']');
    let (w, rest1) = cut_at(&trimmed, 'x');
    let r1 = rest1.unwrap();
    let (h, rest2) = cut_at(&r1, 'x');
    let r2 = rest2.unwrap();
    let (f, _) = cut_at(&r2, 'x');
    let wv = parse_i32(w.as_str()).unwrap();
    let hv = parse_i32(h.as_str()).unwrap();
    let fv = parse_i32(f.as_str()).unwrap();
    DisplayFrameRate { width: i32_as_u32(wv), height: i32_as_u32(hv), frequency: fv }
}

/// The DAB audio output mode of the sound mode the device reported; a sound mode without
/// one is an error.
pub fn get_rdk_audio_output_mode(sound_mode: &String) -> (r: Result<AudioOutputMode, DabError>)
    ensures
        match spec_rdk_sound_mode_to_dab(sound_mode@) {
            Some(m) => r == Ok::<AudioOutputMode, DabError>(m),
            None => r matches Err(DabError::Err500(e)) && e@ == "Unknown RDK sound mode "@ + sound_mode@,
        },
{
    match rdk_sound_mode_to_dab(sound_mode) {
        Some(m) => Ok(m),
        None => Err(DabError::Err500(join2("Unknown RDK sound mode ", sound_mode.as_str()))),
    }
}

/// The answer to the question for the user interface language.
pub struct UiLanguage {
    pub ui_language: String,
    pub success: bool,
}

/// The user interface language the device reported.
pub fn get_rdk_language(reply: RdkResponse<UiLanguage>) -> (r: String)
    ensures
        r == reply.result.ui_language,
{
    reply.result.ui_language
}

/// The answer to the question whether an audio port is muted.
pub struct MutedState {
    pub muted: bool,
    pub success: bool,
}

/// Whether the audio port is muted, as the device reported.
pub fn get_rdk_mute(reply: &RdkResponse<MutedState>) -> (r: bool)
    ensures
        r == reply.result.muted,
{
    reply.result.muted
}

/// The answer to the question whether text to speech is on.
pub struct TtsState {
    pub isenabled: bool,
    pub tts_status: u16,
    pub success: bool,
}

/// Whether text to speech is on, as the device reported.
pub fn get_rdk_tts(reply: &RdkResponse<TtsState>) -> (r: bool)
    ensures
        r == reply.result.isenabled,
{
    reply.result.isenabled
}

/// The answer to the question whether HDMI CEC is on.
pub struct CecState {
    pub enabled: bool,
    pub success: bool,
}

/// Whether HDMI CEC is on, as the device reported.
pub fn get_rdk_cec(reply: &RdkResponse<CecState>) -> (r: bool)
    ensures
        r == reply.result.enabled,
{
    reply.result.enabled
}

/// The answer to the question for the sound modes of an audio port.
pub struct SupportedAudioModes {
    pub supported_audio_modes: Vec<String>,
    pub success: bool,
}

/// The sound modes of the audio port, as the device reported them.
pub fn get_rdk_supported_audio_modes(reply: RdkResponse<SupportedAudioModes>) -> (r: Vec<String>)
    ensures
        r@ == reply.result.supported_audio_modes@,
{
    reply.result.supported_audio_modes
}

} // verus!
