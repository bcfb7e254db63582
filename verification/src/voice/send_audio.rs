//! Sending a recorded voice request to the voice assistant.
use vstd::prelude::*;
use vstd::string::*;
use crate::dab::DabError;
use crate::voice::check_voice_system;

verus! {

/// Where the audio file of a voice request is kept on the adapter's side.
pub open spec fn voice_file_path() -> Seq<char> {
    "/tmp/tts.wav"@
}

/// How a voice request is delivered: the file is downloaded from `download_from` to
/// `audio_file`, which is then sent to the voice assistant.
pub struct SendAudioPlan {
    pub download_from: String,
    pub audio_file: String,
}

/// Plans the delivery of a voice request recorded at `file_location` to `voice_system`;
/// only Amazon Alexa takes voice requests.
pub fn process(voice_system: &str, file_location: String) -> (r: Result<SendAudioPlan, DabError>)
    ensures
        voice_system@ == "AmazonAlexa"@ ==> (r matches Ok(p) && p.download_from@ == file_location@
            && p.audio_file@ == voice_file_path()),
        voice_system@ != "AmazonAlexa"@ ==> (r matches Err(DabError::Err400(m)) && m@ == "Unsupported 'voiceSystem'."@),
{
    check_voice_system(voice_system)?;
    Ok(SendAudioPlan { download_from: file_location, audio_file: String::from_str("/tmp/tts.wav") })
}


/// What follows the download of a voice request.
pub enum SendAudioStep {
    /// The file was downloaded: send it to the voice assistant.
    Send(String),
    /// The request is answered with this.
    Answer(Result<String, DabError>),
}

/// The step after the download of a planned voice request: the downloaded file is sent,
/// and a failed download answers the request with its error.
pub fn after_download(plan: &SendAudioPlan, download: Result<(), DabError>) -> (r: SendAudioStep)
    ensures
        match download {
            Ok(_) => r matches SendAudioStep::Send(f) && f@ == plan.audio_file@,
            Err(e) => r matches SendAudioStep::Answer(a) && a == Err::<String, DabError>(e),
        },
{
    match download {
        Ok(_) => SendAudioStep::Send(plan.audio_file.clone()),
        Err(e) => SendAudioStep::Answer(Err(e)),
    }
}

/// The answer after the file was sent to the voice assistant: an empty JSON object, or the
/// error of the voice session.
pub fn after_send(sent: Result<(), DabError>) -> (r: Result<String, DabError>)
    ensures
        match sent {
            Ok(_) => r matches Ok(body) && body@ == "{}"@,
            Err(e) => r == Err::<String, DabError>(e),
        },
{
    match sent {
        Ok(_) => Ok(String::from_str("{}")),
        Err(e) => Err(e),
    }
}

} // verus!
