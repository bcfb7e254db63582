use dab_adapter::calls::{
    get_rdk_audio_output_mode, get_rdk_cec, get_rdk_language, get_rdk_mute, get_rdk_resolution,
    get_rdk_supported_audio_modes, get_rdk_tts, i32_to_decimal, query_call, rdk_request_body,
    set_rdk_audio_output_mode, set_rdk_audio_output_source, set_rdk_audio_volume, set_rdk_cec,
    set_rdk_language, set_rdk_mute, set_rdk_resolution, set_rdk_text_to_speech, force_hdr_mode_call,
    CecState, DeviceQuery, MutedState, RdkCall, SupportedAudioModes, TtsState, UiLanguage,
};
use dab_adapter::configuration::get_rdk_device_info;
use dab_adapter::dab::{AudioOutputMode, AudioOutputSource, AudioVolume, DabError, OutputResolution};
use dab_adapter::interface::{
    check_controller_reply, check_rdk_reply, check_service_state, controller_request,
    controller_status_method, device_mac_request, get_device_cpu, get_device_info, get_device_memory,
    get_rdk_device_id, get_service_state, get_thunder_property, thunder_property_from_slots,
    check_rdk_answer, service_state_answer, check_controller_answer, device_id_answer, ram_kb, rdk_http_address,
    rdk_sound_mode_to_dab, rdk_ws_address, service_is_available, thunder_property_request, JsonSlot,
    RamProperty, RdkResponse, RequestIds, ThunderValue,
};

fn body(call: &RdkCall) -> String {
    rdk_request_body(3, call)
}

fn reply<T>(result: T) -> RdkResponse<T> {
    RdkResponse { jsonrpc: "2.0".to_string(), id: 3, result }
}

fn err500<T>(r: Result<T, DabError>) -> String {
    match r {
        Err(DabError::Err500(m)) => m,
        _ => panic!("expected a 500 error"),
    }
}

#[test]
fn request_ids_count_up_and_wrap() {
    let mut ids = RequestIds::new();
    assert_eq!(ids.next_id(), 1);
    assert_eq!(ids.next_id(), 2);
    let mut ids = RequestIds { next: i32::MAX };
    assert_eq!(ids.next_id(), i32::MAX);
    assert_eq!(ids.next_id(), i32::MIN);
}

#[test]
fn addresses_of_the_device() {
    assert_eq!(rdk_http_address("10.0.0.5"), "http://10.0.0.5:9998/jsonrpc");
    assert_eq!(rdk_ws_address("10.0.0.5"), "ws://10.0.0.5:9998/jsonrpc");
}

#[test]
fn request_body_without_and_with_params() {
    let call = query_call(DeviceQuery::TextToSpeech, "");
    assert_eq!(rdk_request_body(1, &call), r#"{"jsonrpc":"2.0","id":1,"method":"org.rdk.TextToSpeech.isttsenabled"}"#);
    let call = query_call(DeviceQuery::Muted, "HDMI0");
    assert_eq!(
        rdk_request_body(-12, &call),
        r#"{"jsonrpc":"2.0","id":-12,"method":"org.rdk.DisplaySettings.getMuted","params":{"audioPort":"HDMI0"}}"#
    );
    assert_eq!(i32_to_decimal(i32::MIN), "-2147483648");
    assert_eq!(i32_to_decimal(0), "0");
}

#[test]
fn rdk_reply_checks() {
    assert!(check_rdk_reply("m", None, None).is_ok());
    assert!(check_rdk_reply("m", None, Some(true)).is_ok());
    assert_eq!(err500(check_rdk_reply("org.rdk.X.y", None, Some(false))), "org.rdk.X.y failed");
    assert_eq!(err500(check_rdk_reply("m", Some("ERROR_UNKNOWN_KEY".to_string()), Some(true))), "ERROR_UNKNOWN_KEY");
}

#[test]
fn service_availability() {
    assert_eq!(controller_status_method("org.rdk.HdmiCecSource"), "Controller.1.status@org.rdk.HdmiCecSource");
    assert!(matches!(service_is_available(Ok(())), Ok(true)));
    assert!(matches!(service_is_available(Err(DabError::Err500("ERROR_UNKNOWN_KEY".to_string()))), Ok(false)));
    match service_is_available(Err(DabError::Err500("boom".to_string()))) {
        Err(DabError::Err500(m)) => assert_eq!(m, "boom"),
        _ => panic!("error not passed on"),
    }
}

#[test]
fn service_state_is_lowercased() {
    match get_service_state("Controller.1.status@x", Some("Activated".to_string())) {
        Ok(s) => assert_eq!(s, "activated"),
        Err(_) => panic!("state refused"),
    }
    assert_eq!(
        err500(get_service_state("Controller.1.status@x", None)),
        "Key 'state' not found in response for method 'Controller.1.status@x'."
    );
}

#[test]
fn controller_requests_and_checks() {
    assert_eq!(
        controller_request(true, "org.rdk.FrameRate"),
        r#"{"id":1,"jsonrpc":"2.0","method":"Controller.1.activate","params":{"callsign":"org.rdk.FrameRate"}}"#
    );
    assert_eq!(
        controller_request(false, "a"),
        r#"{"id":1,"jsonrpc":"2.0","method":"Controller.1.deactivate","params":{"callsign":"a"}}"#
    );
    assert!(check_controller_reply(true).is_ok());
    assert_eq!(
        err500(check_controller_reply(false)),
        "Key 'result' not found in response for method 'Controller.1.activate'."
    );
    assert!(check_service_state("s", "ACTIVATED", true).is_ok());
    assert_eq!(err500(check_service_state("s", "deactivated", true)), "Failed to activate service 's' after 200ms.");
    assert_eq!(err500(check_service_state("s", "activated", false)), "Failed to deactivate service 's' after 200ms.");
}

#[test]
fn thunder_property_values() {
    assert_eq!(thunder_property_request("DeviceInfo.make"), r#"{"jsonrpc":"2.0","id":1,"method":"DeviceInfo.make"}"#);
    let r = thunder_property_from_slots("DeviceInfo.make", "make", JsonSlot::Present(ThunderValue::Other),
        JsonSlot::Present(ThunderValue::Text("Acme".to_string())));
    assert_eq!(r.ok(), Some("Acme".to_string()));
    let r = thunder_property_from_slots("M", "", JsonSlot::Present(ThunderValue::Object("{\"a\":1}".to_string())), JsonSlot::Absent);
    assert_eq!(r.ok(), Some("{\"a\":1}".to_string()));
    let r = thunder_property_from_slots("M", "k", JsonSlot::Present(ThunderValue::Other), JsonSlot::Present(ThunderValue::Number("42".to_string())));
    assert_eq!(r.ok(), Some("42".to_string()));
    assert_eq!(err500(thunder_property_from_slots("M", "k", JsonSlot::Absent, JsonSlot::Absent)),
        "Key 'result' not found in response for method 'M'.");
    assert_eq!(err500(thunder_property_from_slots("M", "k", JsonSlot::Null, JsonSlot::Absent)),
        "Key 'result' is null in response for method 'M'.");
    assert_eq!(err500(thunder_property_from_slots("M", "k", JsonSlot::Present(ThunderValue::Other), JsonSlot::Absent)),
        "Key 'k' not found in response for method 'M'.");
    assert_eq!(err500(thunder_property_from_slots("M", "k", JsonSlot::Present(ThunderValue::Other), JsonSlot::Null)),
        "Unsupported type for key 'k' in response.");
}

#[test]
fn device_id_without_colons() {
    assert_eq!(get_rdk_device_id(Some("AA:BB:CC:01".to_string())).ok(), Some("AABBCC01".to_string()));
    assert_eq!(err500(get_rdk_device_id(None)), "RDK Error: org.rdk.System.getDeviceInfo.result.estb_mac not found");
    assert_eq!(
        device_mac_request(),
        r#"{"jsonrpc":"2.0","id":1,"method":"org.rdk.System.getDeviceInfo","params":{"params":["estb_mac"]}}"#
    );
}

#[test]
fn memory_and_cpu() {
    assert_eq!(ram_kb("2048", RamProperty::Free).ok(), Some(2));
    assert_eq!(ram_kb("2047", RamProperty::Total).ok(), Some(1));
    assert_eq!(err500(ram_kb("x", RamProperty::Free)), "Failed to parse free RAM");
    assert_eq!(err500(ram_kb("-1", RamProperty::Total)), "Failed to parse total RAM");
    assert_eq!(get_device_memory(100, 400), 300);
    assert_eq!(get_device_cpu("+17").ok(), Some(17));
    assert_eq!(err500(get_device_cpu("1.5")), "Failed to parse CPU usage");
}

#[test]
fn sound_modes_read_as_dab_modes() {
    assert_eq!(rdk_sound_mode_to_dab(&"STEREO".to_string()), Some(AudioOutputMode::Stereo));
    assert_eq!(rdk_sound_mode_to_dab(&"DOLBYDIGITALPLUS".to_string()), Some(AudioOutputMode::MultichannelPcm));
    assert_eq!(rdk_sound_mode_to_dab(&"PASSTHRU".to_string()), Some(AudioOutputMode::PassThrough));
    assert_eq!(rdk_sound_mode_to_dab(&"AUTO (Dolby Digital 5.1)".to_string()), Some(AudioOutputMode::Auto));
    assert_eq!(rdk_sound_mode_to_dab(&"MONO".to_string()), None);
    assert_eq!(get_rdk_audio_output_mode(&"SURROUND".to_string()).ok(), Some(AudioOutputMode::MultichannelPcm));
    assert_eq!(err500(get_rdk_audio_output_mode(&"MONO".to_string())), "Unknown RDK sound mode MONO");
}

#[test]
fn device_info_readings() {
    let info = get_device_info(
        Ok("Acme".to_string()),
        Err(DabError::Err500("x".to_string())),
        Ok("SN1".to_string()),
        Err(DabError::Err500("no socname".to_string())),
        Some(Ok("BCM7218".to_string())),
        Ok("1.2.3".to_string()),
        false,
    );
    assert_eq!(get_rdk_device_info(&info, "manufacturer").ok(), Some("Acme".to_string()));
    assert!(get_rdk_device_info(&info, "model").is_err());
    assert_eq!(get_rdk_device_info(&info, "chipset").ok(), Some("BCM7218".to_string()));
    let info = get_device_info(
        Ok("Acme".to_string()),
        Err(DabError::Err500("x".to_string())),
        Ok("SN1".to_string()),
        Ok("SOC".to_string()),
        None,
        Err(DabError::Err500("x".to_string())),
        true,
    );
    assert_eq!(get_rdk_device_info(&info, "model").ok(), Some("Unknown-model".to_string()));
    assert_eq!(get_rdk_device_info(&info, "firmwareversion").ok(), Some("Unknown-FWVersion".to_string()));
    assert_eq!(get_rdk_device_info(&info, "chipset").ok(), Some("SOC".to_string()));
}

#[test]
fn setting_calls() {
    assert_eq!(
        body(&set_rdk_language("fr-FR")),
        r#"{"jsonrpc":"2.0","id":3,"method":"org.rdk.UserPreferences.1.setUILanguage","params":{"ui_language":"fr-FR"}}"#
    );
    assert_eq!(
        body(&set_rdk_mute(true, "HDMI0")),
        r#"{"jsonrpc":"2.0","id":3,"method":"org.rdk.DisplaySettings.setMuted","params":{"muted":true,"audioPort":"HDMI0"}}"#
    );
    assert_eq!(
        body(&set_rdk_cec(false)),
        r#"{"jsonrpc":"2.0","id":3,"method":"org.rdk.HdmiCecSource.setEnabled","params":{"enabled":false}}"#
    );
    assert_eq!(
        body(&set_rdk_text_to_speech(true)),
        r#"{"jsonrpc":"2.0","id":3,"method":"org.rdk.TextToSpeech.enabletts","params":{"enabletts":true}}"#
    );
    assert_eq!(
        body(&force_hdr_mode_call(true)),
        r#"{"jsonrpc":"2.0","id":3,"method":"org.rdk.DisplaySettings.setForceHDRMode","params":{"hdr_mode":true}}"#
    );
    assert_eq!(
        body(&set_rdk_audio_output_mode("SPDIF0", "PASSTHRU")),
        r#"{"jsonrpc":"2.0","id":3,"method":"org.rdk.DisplaySettings.setSoundMode","params":{"audioPort":"SPDIF0","soundMode":"PASSTHRU"}}"#
    );
}

#[test]
fn audio_source_calls() {
    assert_eq!(
        body(&set_rdk_audio_output_source(AudioOutputSource::HDMI)),
        r#"{"jsonrpc":"2.0","id":3,"method":"org.rdk.DisplaySettings.setEnableAudioPort","params":{"audioPort":"HDMI0","enable":true}}"#
    );
    assert_eq!(
        body(&set_rdk_audio_output_source(AudioOutputSource::Optical)),
        r#"{"jsonrpc":"2.0","id":3,"method":"org.rdk.DisplaySettings.setEnableAudioPort","params":{"audioPort":"\"Optical\"","enable":true}}"#
    );
}

#[test]
fn volume_call_checks_the_range() {
    let range = AudioVolume { min: 0, max: 100 };
    match set_rdk_audio_volume(35, range, "HDMI0") {
        Ok(call) => assert_eq!(
            body(&call),
            r#"{"jsonrpc":"2.0","id":3,"method":"org.rdk.DisplaySettings.setVolumeLevel","params":{"volumeLevel":35,"audioPort":"HDMI0"}}"#
        ),
        Err(_) => panic!("volume refused"),
    }
    match set_rdk_audio_volume(101, range, "HDMI0") {
        Err(DabError::Err400(m)) => assert_eq!(m, "Unsupported audio volume value"),
        _ => panic!("expected a 400 error"),
    }
}

#[test]
fn resolution_call() {
    let res = OutputResolution { width: 1920, height: 1080, frequency: "60".to_string() };
    match set_rdk_resolution("HDMI0", &res) {
        Ok(call) => assert_eq!(
            body(&call),
            r#"{"jsonrpc":"2.0","id":3,"method":"org.rdk.DisplaySettings.setCurrentResolution","params":{"videoDisplay":"HDMI0","resolution":"1080p60","persist":true}}"#
        ),
        Err(_) => panic!("resolution refused"),
    }
    let res = OutputResolution { width: 1000, height: 1000, frequency: "60".to_string() };
    assert_eq!(err500(set_rdk_resolution("HDMI0", &res)), "Unsupported video format");
}

#[test]
fn display_frame_rate_is_read() {
    let r = get_rdk_resolution("1920x1080x60]]");
    assert_eq!((r.width, r.height, r.frequency), (1920, 1080, 60));
    let r = get_rdk_resolution("3840x2160x+24xjunk");
    assert_eq!((r.width, r.height, r.frequency), (3840, 2160, 24));
    let r = get_rdk_resolution("-1x0x-5");
    assert_eq!((r.width, r.height, r.frequency), (u32::MAX, 0, -5));
}

#[test]
fn replies_are_read() {
    assert_eq!(get_rdk_language(reply(UiLanguage { ui_language: "en-US".to_string(), success: true })), "en-US");
    assert!(get_rdk_mute(&reply(MutedState { muted: true, success: true })));
    assert!(!get_rdk_tts(&reply(TtsState { isenabled: false, tts_status: 0, success: true })));
    assert!(get_rdk_cec(&reply(CecState { enabled: true, success: true })));
    let modes = vec!["STEREO".to_string(), "SURROUND".to_string()];
    assert_eq!(get_rdk_supported_audio_modes(reply(SupportedAudioModes { supported_audio_modes: modes.clone(), success: true })), modes);
}

#[test]
fn error_status_codes() {
    assert_eq!(DabError::Err400("a".to_string()).status(), 400);
    assert_eq!(DabError::Err500("a".to_string()).status(), 500);
    assert_eq!(DabError::Err501("b".to_string()).status(), 501);
    assert_eq!(DabError::Err501("b".to_string()).message(), "b");
}

#[test]
fn thunder_property_from_answer_bodies() {
    let body = r#"{"jsonrpc":"2.0","id":1,"result":{"make":"Acme","uptime":1234,"info":{"a":1},"flag":true,"n":null}}"#;
    assert_eq!(get_thunder_property("DeviceInfo.make", "make", body).ok(), Some("Acme".to_string()));
    assert_eq!(get_thunder_property("M", "uptime", body).ok(), Some("1234".to_string()));
    assert_eq!(get_thunder_property("M", "info", body).ok(), Some("{\"a\":1}".to_string()));
    assert_eq!(err500(get_thunder_property("M", "flag", body)), "Unsupported type for key 'flag' in response.");
    assert_eq!(err500(get_thunder_property("M", "n", body)), "Unsupported type for key 'n' in response.");
    assert_eq!(err500(get_thunder_property("M", "other", body)), "Key 'other' not found in response for method 'M'.");
    assert_eq!(get_thunder_property("M", "", r#"{"result":"x"}"#).ok(), Some("x".to_string()));
    assert_eq!(err500(get_thunder_property("M", "k", r#"{"result":null}"#)), "Key 'result' is null in response for method 'M'.");
    assert_eq!(err500(get_thunder_property("M", "k", r#"{"error":{}}"#)), "Key 'result' not found in response for method 'M'.");
    assert!(err500(get_thunder_property("M", "k", "not json")).starts_with("Failed to parse response: "));
}

#[test]
fn rdk_answer_bodies() {
    assert!(matches!(check_rdk_answer("m", r#"{"result":{"success":true}}"#), Some(Ok(()))));
    assert!(matches!(check_rdk_answer("m", r#"{"result":{"x":1}}"#), Some(Ok(()))));
    match check_rdk_answer("org.rdk.X.y", r#"{"result":{"success":false}}"#) {
        Some(Err(DabError::Err500(m))) => assert_eq!(m, "org.rdk.X.y failed"),
        _ => panic!("expected a 500 error"),
    }
    match check_rdk_answer("m", r#"{"error":{"code":2,"message":"ERROR_UNKNOWN_KEY"}}"#) {
        Some(Err(DabError::Err500(m))) => assert_eq!(m, "ERROR_UNKNOWN_KEY"),
        _ => panic!("expected a 500 error"),
    }
    assert!(check_rdk_answer("m", r#"{"error":{"code":2}}"#).is_none());
    assert!(matches!(check_rdk_answer("m", "{"), Some(Err(DabError::Err500(_)))));
}

#[test]
fn controller_answer_bodies() {
    match service_state_answer("Controller.1.status@a", r#"{"result":[{"callsign":"a","state":"Activated"}]}"#) {
        Ok(s) => assert_eq!(s, "activated"),
        Err(_) => panic!("state refused"),
    }
    assert_eq!(err500(service_state_answer("Controller.1.status@a", r#"{"result":[]}"#)),
        "Key 'state' not found in response for method 'Controller.1.status@a'.");
    assert!(check_controller_answer(r#"{"jsonrpc":"2.0","id":1,"result":null}"#).is_ok());
    assert_eq!(err500(check_controller_answer(r#"{"jsonrpc":"2.0","id":1}"#)),
        "Key 'result' not found in response for method 'Controller.1.activate'.");
    assert!(err500(check_controller_answer("x")).starts_with("Failed to parse response: "));
}

#[test]
fn device_id_answer_bodies() {
    match device_id_answer(r#"{"result":{"estb_mac":"AA:BB:CC"}}"#) {
        Some(Ok(id)) => assert_eq!(id, "AABBCC"),
        _ => panic!("device id refused"),
    }
    match device_id_answer(r#"{"result":{}}"#) {
        Some(Err(DabError::Err500(m))) => assert_eq!(m, "RDK Error: org.rdk.System.getDeviceInfo.result.estb_mac not found"),
        _ => panic!("expected a 500 error"),
    }
    assert!(device_id_answer("oops").is_none());
}
