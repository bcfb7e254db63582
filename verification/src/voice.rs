//! Voice assistants: the voice status of the device read as DAB voice systems, the
//! configuration requests, and the voice session driven over the event socket.
use vstd::prelude::*;
use vstd::string::*;
use crate::calls::{bool_text, call_is, json_bool, RdkCall};
use crate::codec::{json_quote, json_quoted, url_encode, url_encoded};
use crate::dab::{DabError, VoiceSystem};
use crate::text::{contains_str, decimal, join2, join3, join5, seq_contains_sub, str_eq, u64_to_decimal};
use vstd::utf8::encode_utf8;

pub mod send_audio;

verus! {

/// The push-to-talk part of a voice configuration.
pub struct PttConfig {
    pub enable: bool,
}

/// The parameters of `org.rdk.VoiceControl.configureVoice`.
pub struct VoiceConfiguration {
    pub ptt: PttConfig,
    /// The overall switch; left out of the request when `None`.
    pub enable: Option<bool>,
}

/// The method that configures voice control.
pub open spec fn configure_voice_method() -> Seq<char> {
    "org.rdk.VoiceControl.configureVoice"@
}

/// The configuration that turns voice control, push-to-talk included, on or off.
#[allow(non_snake_case)]
pub fn configureVoice(EnableVoice: bool) -> (r: VoiceConfiguration)
    ensures
        r.ptt.enable == EnableVoice,
        r.enable == Some(EnableVoice),
{
    VoiceConfiguration { ptt: PttConfig { enable: EnableVoice }, enable: Some(EnableVoice) }
}

/// The configuration that turns push-to-talk on and leaves the rest as it is.
pub fn enable_ptt() -> (r: VoiceConfiguration)
    ensures
        r.ptt.enable,
        r.enable is None,
{
    VoiceConfiguration { ptt: PttConfig { enable: true }, enable: None }
}

/// The Alexa push-to-talk service is set up: its address uses the `avs:` scheme.
pub open spec fn alexa_configured(url_ptt: Seq<char>) -> bool {
    seq_contains_sub(url_ptt, "avs:"@)
}

/// Alexa is ready to take push-to-talk requests.
pub open spec fn alexa_ready(ptt_status: Seq<char>) -> bool {
    seq_contains_sub(ptt_status, "ready"@)
}

/// The voice systems of the device, from its voice status: Amazon Alexa when its
/// push-to-talk service is set up, enabled when that service is ready.
pub fn voice_systems_from_status(url_ptt: &str, ptt_status: &str) -> (r: Vec<VoiceSystem>)
    ensures
        alexa_configured(url_ptt@) ==> r@.len() == 1 && r@[0].name@ == "AmazonAlexa"@
            && r@[0].enabled == alexa_ready(ptt_status@),
        !alexa_configured(url_ptt@) ==> r@.len() == 0,
{
    let mut r: Vec<VoiceSystem> = Vec::new();
    if contains_str(url_ptt, "avs:") {
        let enabled = contains_str(ptt_status, "ready");
        r.push(VoiceSystem { name: String::from_str("AmazonAlexa"), enabled });
    }
    r
}

/// Whether the voice system `voice_system` is on: only Amazon Alexa can be, when its
/// push-to-talk service is set up and ready.
pub fn is_voice_enabled(voice_system: &str, url_ptt: &str, ptt_status: &str) -> (r: bool)
    ensures
        r == (alexa_configured(url_ptt@) && voice_system@ == "AmazonAlexa"@ && alexa_ready(ptt_status@)),
{
    if contains_str(url_ptt, "avs:") && str_eq(voice_system, "AmazonAlexa") {
        if contains_str(ptt_status, "ready") {
            return true;
        }
    }
    false
}

/// Checks the voice system of a request to set a voice system.
pub fn check_voice_system_to_set(name: &str) -> (r: Result<(), DabError>)
    ensures
        name@ == "AmazonAlexa"@ ==> r is Ok,
        name@ != "AmazonAlexa"@ ==> (r matches Err(DabError::Err400(m))
            && m@ == "Setting voiceSystem failed. Unsupported voiceSystem."@),
{
    if !str_eq(name, "AmazonAlexa") {
        return Err(DabError::Err400(String::from_str("Setting voiceSystem failed. Unsupported voiceSystem.")));
    }
    Ok(())
}

/// Checks the voice system of a request to send voice to it.
pub fn check_voice_system(name: &str) -> (r: Result<(), DabError>)
    ensures
        name@ == "AmazonAlexa"@ ==> r is Ok,
        name@ != "AmazonAlexa"@ ==> (r matches Err(DabError::Err400(m)) && m@ == "Unsupported 'voiceSystem'."@),
{
    if !str_eq(name, "AmazonAlexa") {
        return Err(DabError::Err400(String::from_str("Unsupported 'voiceSystem'.")));
    }
    Ok(())
}

/// The address of the speech synthesis that reads `text` aloud, as an MP3 file; the
/// text length it gives is the length in UTF-8 bytes (as a machine word).
pub open spec fn spec_tts_url(text: Seq<char>) -> Seq<char> {
    "https://translate.google.com/translate_tts?ie=UTF-8&q="@ + url_encoded(text)
        + "&tl=en&total=1&idx=0&textlen="@ + decimal((encode_utf8(text).len() as usize) as nat)
        + "&tl=en&client=tw-ob"@
}

/// The address of the speech synthesis that reads `text` aloud.
pub fn tts_url(text: &str) -> (r: String)
    ensures
        r@ == spec_tts_url(text@),
{
    let len = text.len();
    let encoded = url_encode(text);
    join5("https://translate.google.com/translate_tts?ie=UTF-8&q=", encoded.as_str(),
        "&tl=en&total=1&idx=0&textlen=", u64_to_decimal(len as u64).as_str(), "&tl=en&client=tw-ob")
}

// ------------------------------------------------------------------ voice session

/// How many event messages a voice session waits for its end.
pub const SESSION_END_ATTEMPTS: u32 = 20;

/// The message is the end of a successful voice session: its `method` is `onSessionEnd`
/// and its `params.result` is `success`.
pub open spec fn is_session_end(method: Option<String>, result: Option<String>) -> bool {
    &&& method matches Some(m) && m@ == "onSessionEnd"@
    &&& result matches Some(r) && r@ == "success"@
}

/// What the adapter does after a message of the voice session.
#[derive(Clone, Copy, Debug, PartialEq, Eq, Structural)]
pub enum SessionStep {
    /// The session ended: unregister, close the socket, then pause this many seconds.
    Finished { pause_secs: u64 },
    /// Wait for the next message.
    Waiting,
    /// The session did not end in time: unregister, close the socket and fail.
    TimedOut,
}

/// The attempts counted and the step taken after a message: the end of the session
/// finishes it (with a pause of 3 seconds when Alexa was on before), any other message
/// counts one more attempt and times the session out at the last attempt.
pub open spec fn spec_session_step(attempts: u32, alexa_enabled: bool, ended: bool) -> (u32, SessionStep) {
    if ended {
        (attempts, SessionStep::Finished { pause_secs: if alexa_enabled { 3 } else { 0 } })
    } else if attempts + 1 >= SESSION_END_ATTEMPTS {
        ((attempts + 1) as u32, SessionStep::TimedOut)
    } else {
        ((attempts + 1) as u32, SessionStep::Waiting)
    }
}

/// The attempts counted after `n` messages, none of them the end, from a new session.
pub open spec fn attempts_after_misses(alexa_enabled: bool, n: nat) -> u32
    decreases n,
{
    if n == 0 {
        0
    } else {
        spec_session_step(attempts_after_misses(alexa_enabled, (n - 1) as nat), alexa_enabled, false).0
    }
}

/// A voice session waiting for its end event.
pub struct VoiceSession {
    pub attempts: u32,
    pub alexa_enabled: bool,
}

impl VoiceSession {
    /// A session that has seen no message yet. `alexa_enabled` says whether Alexa was on
    /// before the session (then it is given time to answer at the end).
    pub fn new(alexa_enabled: bool) -> (s: Self)
        ensures
            s.attempts == 0,
            s.alexa_enabled == alexa_enabled,
    {
        VoiceSession { attempts: 0, alexa_enabled }
    }

    /// Takes the next event message, by its `method` and `params.result` where those are
    /// strings.
    pub fn on_message(&mut self, method: &Option<String>, result: &Option<String>) -> (step: SessionStep)
        requires
            old(self).attempts < SESSION_END_ATTEMPTS,
        ensures
            final(self).alexa_enabled == old(self).alexa_enabled,
            (final(self).attempts, step) == spec_session_step(old(self).attempts, old(self).alexa_enabled,
                is_session_end(*method, *result)),
    {
        let mut ended = false;
        if let Some(m) = method {
            if let Some(r) = result {
                ended = str_eq(m.as_str(), "onSessionEnd") && str_eq(r.as_str(), "success");
            }
        }
        if ended {
            return SessionStep::Finished { pause_secs: if self.alexa_enabled { 3 } else { 0 } };
        }
        self.attempts = self.attempts + 1;
        if self.attempts >= SESSION_END_ATTEMPTS {
            SessionStep::TimedOut
        } else {
            SessionStep::Waiting
        }
    }
}

/// The error of a voice session that did not end in time.
pub fn session_timeout_error() -> (e: DabError)
    ensures
        e matches DabError::Err500(m) && m@ == "Timed out waiting for 'onSessionEnd' event."@,
{
    DabError::Err500(String::from_str("Timed out waiting for 'onSessionEnd' event."))
}

/// A voice session does not wait forever: from a new session, the messages that are not
/// its end are counted one by one, the first nineteen of them let it wait and the
/// twentieth times it out.
pub proof fn law_session_times_out(alexa_enabled: bool, n: nat)
    requires
        1 <= n <= SESSION_END_ATTEMPTS,
    ensures
        attempts_after_misses(alexa_enabled, n) == n,
        spec_session_step(attempts_after_misses(alexa_enabled, (n - 1) as nat), alexa_enabled, false).1
            == (if n == SESSION_END_ATTEMPTS { SessionStep::TimedOut } else { SessionStep::Waiting }),
    decreases n,
{
    if n > 1 {
        law_session_times_out(alexa_enabled, (n - 1) as nat);
    }
}

} // verus!

verus! {

// ------------------------------------------------------------------ voice requests

/// The parameters of a voice configuration: the push-to-talk switch, then the overall
/// switch where there is one.
pub open spec fn configuration_params(c: VoiceConfiguration) -> Seq<char> {
    "{\"ptt\":{\"enable\":"@ + json_bool(c.ptt.enable) + "}"@ + match c.enable {
        Some(e) => ",\"enable\":"@ + json_bool(e),
        None => Seq::empty(),
    } + "}"@
}

/// The call that applies a voice configuration.
pub fn voice_configuration_call(c: &VoiceConfiguration) -> (r: RdkCall)
    ensures
        call_is(r, configure_voice_method(), configuration_params(*c)),
{
    let p = join3("{\"ptt\":{\"enable\":", bool_text(c.ptt.enable), "}");
    let p = match c.enable {
        Some(e) => join3(p.as_str(), ",\"enable\":", bool_text(e)),
        None => p,
    };
    let p = join2(p.as_str(), "}");
    assert(p@ =~= configuration_params(*c));
    RdkCall { method: String::from_str("org.rdk.VoiceControl.configureVoice"), params: Some(p) }
}

/// The call that asks for the voice status; its parameters are the text `{}` as a JSON
/// string.
pub fn voice_status_call() -> (r: RdkCall)
    ensures
        call_is(r, "org.rdk.VoiceControl.voiceStatus"@, json_quoted("{}"@)),
{
    RdkCall { method: String::from_str("org.rdk.VoiceControl.voiceStatus"), params: Some(json_quote("{}")) }
}

/// The call that starts a push-to-talk voice session from an audio file.
pub fn voice_session_call(audio_file: &str) -> (r: RdkCall)
    ensures
        call_is(r, "org.rdk.VoiceControl.voiceSessionRequest"@,
            "{\"audio_file\":"@ + json_quoted(audio_file@) + ",\"type\":\"ptt_audio_file\"}"@),
{
    let p = join3("{\"audio_file\":", json_quote(audio_file).as_str(), ",\"type\":\"ptt_audio_file\"}");
    RdkCall { method: String::from_str("org.rdk.VoiceControl.voiceSessionRequest"), params: Some(p) }
}

/// The socket message that registers for (`register`) or unregisters from the end of
/// voice sessions. The members are written in the order of their names, as the JSON
/// writer orders them.
pub open spec fn session_event_message(register: bool) -> Seq<char> {
    "{\"id\":\"3\",\"jsonrpc\":\"2.0\",\"method\":\"org.rdk.VoiceControl."@
        + (if register { "register"@ } else { "unregister"@ })
        + "\",\"params\":{\"event\":\"onSessionEnd\"}}"@
}

/// Writes the socket message that registers for or unregisters from the end of voice
/// sessions.
pub fn session_event_request(register: bool) -> (r: String)
    ensures
        r@ == session_event_message(register),
{
    join3("{\"id\":\"3\",\"jsonrpc\":\"2.0\",\"method\":\"org.rdk.VoiceControl.",
        if register { "register" } else { "unregister" },
        "\",\"params\":{\"event\":\"onSessionEnd\"}}")
}

} // verus!
