use dab_adapter::calls::rdk_request_body;
use dab_adapter::configuration::get_keymap;
use dab_adapter::dab::DabError;
use dab_adapter::input::{
    check_key_code, generate_key_call, inject_key_call, key_list_response, key_press_code,
    key_press_request, keycode_str_to_ui32, long_key_press_code, long_press_inject_call, mute_after_key,
    volume_after_key, volume_key, LongKeyPress, VolumeKey, KEY_REPEAT_INTERVAL_MS,
};
use dab_adapter::voice::send_audio::{after_download, after_send, process, SendAudioStep};
use dab_adapter::voice::{
    check_voice_system, check_voice_system_to_set, configureVoice, enable_ptt, is_voice_enabled,
    session_event_request, session_timeout_error, tts_url, voice_configuration_call, voice_session_call,
    voice_status_call, voice_systems_from_status, SessionStep, VoiceSession, SESSION_END_ATTEMPTS,
};

fn err400<T>(r: Result<T, DabError>) -> String {
    match r {
        Err(DabError::Err400(m)) => m,
        _ => panic!("expected a 400 error"),
    }
}

#[test]
fn voice_systems_of_the_device() {
    let v = voice_systems_from_status("avs://alexa", "ready");
    assert_eq!(v.len(), 1);
    assert_eq!(v[0].name, "AmazonAlexa");
    assert!(v[0].enabled);
    let v = voice_systems_from_status("avs://alexa", "disabled");
    assert!(!v[0].enabled);
    assert!(voice_systems_from_status("https://other", "ready").is_empty());
    assert!(is_voice_enabled("AmazonAlexa", "avs://x", "ptt ready"));
    assert!(!is_voice_enabled("GoogleAssistant", "avs://x", "ready"));
    assert!(!is_voice_enabled("AmazonAlexa", "http://x", "ready"));
}

#[test]
fn voice_system_checks() {
    assert!(check_voice_system_to_set("AmazonAlexa").is_ok());
    assert_eq!(err400(check_voice_system_to_set("Siri")), "Setting voiceSystem failed. Unsupported voiceSystem.");
    assert!(check_voice_system("AmazonAlexa").is_ok());
    assert_eq!(err400(check_voice_system("Siri")), "Unsupported 'voiceSystem'.");
}

#[test]
fn voice_configuration_requests() {
    let c = configureVoice(false);
    assert!(!c.ptt.enable);
    assert_eq!(c.enable, Some(false));
    assert_eq!(
        rdk_request_body(3, &voice_configuration_call(&c)),
        r#"{"jsonrpc":"2.0","id":3,"method":"org.rdk.VoiceControl.configureVoice","params":{"ptt":{"enable":false},"enable":false}}"#
    );
    assert_eq!(
        rdk_request_body(3, &voice_configuration_call(&enable_ptt())),
        r#"{"jsonrpc":"2.0","id":3,"method":"org.rdk.VoiceControl.configureVoice","params":{"ptt":{"enable":true}}}"#
    );
    assert_eq!(
        rdk_request_body(3, &voice_status_call()),
        r#"{"jsonrpc":"2.0","id":3,"method":"org.rdk.VoiceControl.voiceStatus","params":"{}"}"#
    );
    assert_eq!(
        rdk_request_body(4, &voice_session_call("/tmp/tts.wav")),
        r#"{"jsonrpc":"2.0","id":4,"method":"org.rdk.VoiceControl.voiceSessionRequest","params":{"audio_file":"/tmp/tts.wav","type":"ptt_audio_file"}}"#
    );
    assert_eq!(
        session_event_request(true),
        r#"{"id":"3","jsonrpc":"2.0","method":"org.rdk.VoiceControl.register","params":{"event":"onSessionEnd"}}"#
    );
    assert_eq!(
        session_event_request(false),
        r#"{"id":"3","jsonrpc":"2.0","method":"org.rdk.VoiceControl.unregister","params":{"event":"onSessionEnd"}}"#
    );
}

#[test]
fn speech_synthesis_address() {
    assert_eq!(
        tts_url("hi there?"),
        "https://translate.google.com/translate_tts?ie=UTF-8&q=hi%20there%3F&tl=en&total=1&idx=0&textlen=9&tl=en&client=tw-ob"
    );
    assert_eq!(
        tts_url("é"),
        "https://translate.google.com/translate_tts?ie=UTF-8&q=%C3%A9&tl=en&total=1&idx=0&textlen=2&tl=en&client=tw-ob"
    );
}

#[test]
fn voice_session_times_out() {
    let mut s = VoiceSession::new(false);
    let other = Some("onSessionBegin".to_string());
    let none: Option<String> = None;
    for _ in 1..SESSION_END_ATTEMPTS {
        assert_eq!(s.on_message(&other, &none), SessionStep::Waiting);
    }
    assert_eq!(s.on_message(&other, &none), SessionStep::TimedOut);
    match session_timeout_error() {
        DabError::Err500(m) => assert_eq!(m, "Timed out waiting for 'onSessionEnd' event."),
        _ => panic!("expected a 500 error"),
    }
}

#[test]
fn voice_session_ends() {
    let end = Some("onSessionEnd".to_string());
    let success = Some("success".to_string());
    let mut s = VoiceSession::new(true);
    assert_eq!(s.on_message(&end, &Some("failure".to_string())), SessionStep::Waiting);
    assert_eq!(s.on_message(&end, &success), SessionStep::Finished { pause_secs: 3 });
    let mut s = VoiceSession::new(false);
    assert_eq!(s.on_message(&end, &success), SessionStep::Finished { pause_secs: 0 });
}

#[test]
fn send_audio_plan() {
    match process("AmazonAlexa", "http://host/file.wav".to_string()) {
        Ok(p) => {
            assert_eq!(p.download_from, "http://host/file.wav");
            assert_eq!(p.audio_file, "/tmp/tts.wav");
        },
        Err(_) => panic!("voice request refused"),
    }
    match process("Other", "x".to_string()) {
        Err(DabError::Err400(m)) => assert_eq!(m, "Unsupported 'voiceSystem'."),
        _ => panic!("expected a 400 error"),
    }
}

#[test]
fn key_presses() {
    let keymap = get_keymap(None, None);
    assert!(check_key_code("KEY_UP").is_ok());
    assert_eq!(err400(check_key_code("")), "request missing 'keyCode' parameter");
    assert_eq!(key_press_code(&keymap, "KEY_ENTER").ok(), Some(13));
    assert_eq!(err400(key_press_code(&keymap, "KEY_NOPE")), "keyCode not found");
    assert_eq!(
        rdk_request_body(3, &inject_key_call(13)),
        r#"{"jsonrpc":"2.0","id":3,"method":"org.rdk.RDKShell.1.injectKey","params":{"keyCode":13,"modifiers":[]}}"#
    );
    assert_eq!(
        rdk_request_body(3, &generate_key_call(175, "YouTube")),
        r#"{"jsonrpc":"2.0","id":3,"method":"org.rdk.RDKShell.1.generateKey","params":{"keys":[{"keyCode":175,"modifiers":[],"delay":0.0,"client":"YouTube"}]}}"#
    );
}

#[test]
fn volume_keys() {
    assert_eq!(volume_key("KEY_VOLUME_UP"), VolumeKey::Up);
    assert_eq!(volume_key("KEY_VOLUME_DOWN"), VolumeKey::Down);
    assert_eq!(volume_key("KEY_MUTE"), VolumeKey::Mute);
    assert_eq!(volume_key("KEY_UP"), VolumeKey::Other);
    assert_eq!(volume_after_key(VolumeKey::Up, Some(40)), 45);
    assert_eq!(volume_after_key(VolumeKey::Up, Some(98)), 100);
    assert_eq!(volume_after_key(VolumeKey::Up, None), 55);
    assert_eq!(volume_after_key(VolumeKey::Down, Some(3)), 0);
    assert_eq!(volume_after_key(VolumeKey::Down, None), 45);
    for c in 0..=100u32 {
        let up = volume_after_key(VolumeKey::Up, Some(c));
        let down = volume_after_key(VolumeKey::Down, Some(c));
        if c <= 95 {
            assert_eq!(volume_after_key(VolumeKey::Down, Some(up)), c);
        }
        if c >= 5 {
            assert_eq!(volume_after_key(VolumeKey::Up, Some(down)), c);
        }
    }
    assert!(mute_after_key(Some(false)));
    assert!(!mute_after_key(Some(true)));
    assert!(mute_after_key(None));
}

#[test]
fn long_key_presses() {
    let keymap = get_keymap(None, None);
    assert_eq!(long_key_press_code(&keymap, "KEY_DOWN", 500).ok(), Some(40));
    assert_eq!(err400(long_key_press_code(&keymap, "", 500)), "request missing 'keyCode' parameter");
    assert_eq!(err400(long_key_press_code(&keymap, "KEY_DOWN", 0)), "request missing 'durationMs' parameter");
    assert_eq!(err400(long_key_press_code(&keymap, "KEY_NOPE", 5)), "keyCode' not found");
    assert_eq!(
        rdk_request_body(3, &long_press_inject_call(40)),
        r#"{"jsonrpc":"2.0","id":3,"method":"org.rdk.RDKShell.1.injectKey","params":{"keyCode":40}}"#
    );
    let mut p = LongKeyPress::new(120);
    assert!(p.keep_pressing());
    assert_eq!(LongKeyPress::pause_ms(20), Some(30));
    assert_eq!(LongKeyPress::pause_ms(KEY_REPEAT_INTERVAL_MS as u128), None);
    p.record(50);
    p.record(50);
    assert!(p.keep_pressing());
    p.record(50);
    assert!(!p.keep_pressing());
    assert_eq!(p.elapsed_ms, 150);
}

#[test]
fn first_key_interface() {
    assert_eq!(keycode_str_to_ui32("KEY_POWER".to_string()), 112);
    assert_eq!(keycode_str_to_ui32("KEY_CHANNEL_UP".to_string()), 175);
    assert_eq!(keycode_str_to_ui32("KEY_MENU".to_string()), 0);
    assert_eq!(keycode_str_to_ui32("KEY_7".to_string()), 55);
    match key_press_request(Some("KEY_LEFT".to_string()), 9) {
        Ok(r) => {
            assert_eq!(r.jsonrpc, "2.0");
            assert_eq!(r.id, 9);
            assert_eq!(r.method, "org.rdk.RDKShell.injectKey");
            assert_eq!(r.params.keyCode, 37);
            assert_eq!(r.params.modifiers, "");
        },
        Err(_) => panic!("key refused"),
    }
    match key_press_request(None, 1) {
        Err(DabError::Err400(m)) => assert_eq!(m, "request missing 'keyCode' parameter"),
        _ => panic!("expected a 400 error"),
    }
}

#[test]
fn first_key_interface_lists_its_keys() {
    let r = key_list_response();
    assert_eq!(r.status, 200);
    assert_eq!(r.keyCodes.len(), 37);
    assert_eq!(r.keyCodes[0], "KEY_POWER");
    assert_eq!(r.keyCodes[36], "KEY_9");
    for k in r.keyCodes {
        let _ = keycode_str_to_ui32(k);
    }
}

#[test]
fn send_audio_steps() {
    let plan = process("AmazonAlexa", "http://host/a.wav".to_string()).ok().unwrap();
    match after_download(&plan, Ok(())) {
        SendAudioStep::Send(f) => assert_eq!(f, "/tmp/tts.wav"),
        _ => panic!("expected the file to be sent"),
    }
    match after_download(&plan, Err(DabError::Err500("404".to_string()))) {
        SendAudioStep::Answer(Err(DabError::Err500(m))) => assert_eq!(m, "404"),
        _ => panic!("expected the download error"),
    }
    assert_eq!(after_send(Ok(())).ok(), Some("{}".to_string()));
    match after_send(Err(DabError::Err500("timeout".to_string()))) {
        Err(DabError::Err500(m)) => assert_eq!(m, "timeout"),
        _ => panic!("expected the session error"),
    }
}
