use dab_adapter::calls::rdk_request_body;
use dab_adapter::dab::{
    AudioOutputMode, AudioOutputSource, AudioVolume, DabError, HdrOutputMode, MatchContentFrameRate,
    OutputResolution, PowerMode, VideoInputSource,
};
use dab_adapter::system::{
    audio_port_for_source, check_audio_volume, check_hdr_mode_supported, classify_setting,
    convert_resolution_to_string, dab_power_mode_to_rdk, factory_reset_call, get_rdk_audio_output_modes,
    get_rdk_audio_port, get_rdk_connected_audio_source, get_rdk_connected_video_displays,
    get_rdk_hdr_current_setting, get_rdk_hdr_settings, get_rdk_power_mode, get_rdk_resolutions,
    get_rdk_supported_audio_source, list_system_settings, rdk_resolution_candidate, rdk_sound_mode_from_dab,
    reboot_call, set_power_state_call, set_rdk_hdr_mode, sound_mode_needs_port_modes,
    warehouse_needs_activation, SettingKind, settings_set_plan, settings_set_answer, set_power_mode_answer,
};
use dab_adapter::interface::rdk_sound_mode_to_dab;

fn strings(v: &[&str]) -> Vec<String> {
    v.iter().map(|s| s.to_string()).collect()
}

fn message(e: DabError) -> String {
    match e {
        DabError::Err400(m) | DabError::Err500(m) | DabError::Err501(m) => m,
    }
}

#[test]
fn power_states_read_as_power_modes() {
    assert_eq!(get_rdk_power_mode("ON").ok(), Some(PowerMode::Active));
    assert_eq!(get_rdk_power_mode("STANDBY").ok(), Some(PowerMode::Standby));
    assert_eq!(get_rdk_power_mode("LIGHT_SLEEP").ok(), Some(PowerMode::Standby));
    assert_eq!(get_rdk_power_mode("DEEP_SLEEP").ok(), Some(PowerMode::DeepSleep));
    match get_rdk_power_mode("off") {
        Err(DabError::Err500(m)) => assert_eq!(m, "Unknown RDK power state: off"),
        _ => panic!("expected a 500 error"),
    }
}

#[test]
fn power_mode_round_trip() {
    for mode in [PowerMode::Active, PowerMode::Standby, PowerMode::DeepSleep] {
        assert_eq!(get_rdk_power_mode(dab_power_mode_to_rdk(&mode)).ok(), Some(mode));
    }
}

#[test]
fn power_restart_and_reset_calls() {
    assert_eq!(
        rdk_request_body(3, &set_power_state_call(PowerMode::Standby)),
        r#"{"jsonrpc":"2.0","id":3,"method":"org.rdk.System.setPowerState","params":{"powerState":"STANDBY","standbyReason":"DAB_SET_POWER_MODE_REQUEST"}}"#
    );
    assert_eq!(
        rdk_request_body(3, &reboot_call()),
        r#"{"jsonrpc":"2.0","id":3,"method":"org.rdk.System.reboot","params":{"rebootReason":"DAB_REBOOT_REQUEST"}}"#
    );
    assert_eq!(
        rdk_request_body(7, &factory_reset_call()),
        r#"{"jsonrpc":"2.0","id":7,"method":"org.rdk.Warehouse.resetDevice","params":{"suppressReboot":false,"resetType":"FACTORY"}}"#
    );
    assert!(warehouse_needs_activation("deactivated"));
    assert!(!warehouse_needs_activation("activated"));
}

#[test]
fn first_connected_ports() {
    assert_eq!(get_rdk_connected_video_displays(&strings(&["HDMI0", "HDMI1"])).ok(), Some("HDMI0".to_string()));
    assert_eq!(message(get_rdk_connected_video_displays(&vec![]).err().unwrap()),
        "Device doesn't have any connected video port.");
    assert_eq!(get_rdk_audio_port(&strings(&["SPDIF0"])).ok(), Some("SPDIF0".to_string()));
    assert_eq!(message(get_rdk_audio_port(&vec![]).err().unwrap()), "Device doesn't have any connected audio port.");
}

#[test]
fn hdr_modes() {
    assert_eq!(get_rdk_hdr_current_setting(true, true), HdrOutputMode::AlwaysHdr);
    assert_eq!(get_rdk_hdr_current_setting(true, false), HdrOutputMode::DisableHdr);
    assert_eq!(get_rdk_hdr_settings(false, true), vec![HdrOutputMode::DisableHdr]);
    let supported = get_rdk_hdr_settings(true, true);
    assert!(check_hdr_mode_supported(HdrOutputMode::AlwaysHdr, &supported).is_ok());
    match check_hdr_mode_supported(HdrOutputMode::HdrOnPlayback, &supported) {
        Err(DabError::Err400(m)) => assert_eq!(m, "Setting hdr mode 'HdrOnPlayback' is not supported"),
        _ => panic!("expected a 400 error"),
    }
    let all = vec![HdrOutputMode::AlwaysHdr, HdrOutputMode::HdrOnPlayback, HdrOutputMode::DisableHdr];
    assert_eq!(set_rdk_hdr_mode(HdrOutputMode::AlwaysHdr, &all, HdrOutputMode::AlwaysHdr).ok(), Some(None));
    assert_eq!(set_rdk_hdr_mode(HdrOutputMode::AlwaysHdr, &all, HdrOutputMode::DisableHdr).ok(), Some(Some(true)));
    assert_eq!(set_rdk_hdr_mode(HdrOutputMode::DisableHdr, &all, HdrOutputMode::AlwaysHdr).ok(), Some(Some(false)));
    match set_rdk_hdr_mode(HdrOutputMode::HdrOnPlayback, &all, HdrOutputMode::AlwaysHdr) {
        Err(DabError::Err500(m)) => assert_eq!(m, "Setting hdr mode 'HdrOnPlayback' is not supported"),
        _ => panic!("expected a 500 error"),
    }
    // The device offers only the mode it is in: any other mode is refused and nothing is sent.
    let offered = get_rdk_hdr_settings(true, true);
    assert_eq!(set_rdk_hdr_mode(HdrOutputMode::AlwaysHdr, &offered, HdrOutputMode::AlwaysHdr).ok(), Some(None));
    match set_rdk_hdr_mode(HdrOutputMode::DisableHdr, &offered, HdrOutputMode::AlwaysHdr) {
        Err(DabError::Err400(m)) => assert_eq!(m, "Setting hdr mode 'DisableHdr' is not supported"),
        _ => panic!("expected a 400 error"),
    }
    match set_rdk_hdr_mode(HdrOutputMode::HdrOnPlayback, &offered, HdrOutputMode::AlwaysHdr) {
        Err(DabError::Err400(m)) => assert_eq!(m, "Setting hdr mode 'HdrOnPlayback' is not supported"),
        _ => panic!("expected a 400 error"),
    }
}

#[test]
fn audio_sources() {
    let ports = strings(&["HDMI0", "SPEAKER0", "SPDIF0", "HDMI0", "XYZ", "IDLR0"]);
    assert_eq!(
        get_rdk_supported_audio_source(&ports),
        vec![AudioOutputSource::NativeSpeaker, AudioOutputSource::HDMI, AudioOutputSource::Optical, AudioOutputSource::Aux]
    );
    assert_eq!(get_rdk_supported_audio_source(&vec![]), vec![AudioOutputSource::NativeSpeaker]);
    assert_eq!(get_rdk_connected_audio_source(&ports), AudioOutputSource::NativeSpeaker);
    assert_eq!(audio_port_for_source(AudioOutputSource::HDMI), "HDMI0");
    assert_eq!(audio_port_for_source(AudioOutputSource::Bluetooth), "\"Bluetooth\"");
}

#[test]
fn audio_output_modes_each_once_in_order() {
    let modes = strings(&["AUTO", "DOLBYDIGITAL", "STEREO", "SURROUND", "MONO"]);
    assert_eq!(
        get_rdk_audio_output_modes(&modes),
        vec![AudioOutputMode::Stereo, AudioOutputMode::MultichannelPcm, AudioOutputMode::Auto]
    );
    assert_eq!(get_rdk_audio_output_modes(&vec![]), vec![]);
}

#[test]
fn sound_mode_for_output_mode() {
    let port_modes = strings(&["STEREO", "DOLBYDIGITALPLUS", "SURROUND"]);
    assert_eq!(rdk_sound_mode_from_dab(AudioOutputMode::Stereo, &port_modes).ok(), Some("STEREO".to_string()));
    assert_eq!(rdk_sound_mode_from_dab(AudioOutputMode::PassThrough, &port_modes).ok(), Some("PASSTHRU".to_string()));
    assert_eq!(rdk_sound_mode_from_dab(AudioOutputMode::Auto, &port_modes).ok(), Some("AUTO".to_string()));
    assert_eq!(rdk_sound_mode_from_dab(AudioOutputMode::MultichannelPcm, &port_modes).ok(), Some("DOLBYDIGITALPLUS".to_string()));
    match rdk_sound_mode_from_dab(AudioOutputMode::MultichannelPcm, &strings(&["STEREO"])) {
        Err(DabError::Err500(m)) => assert_eq!(m, "Audio port doesn't support multichannel."),
        _ => panic!("expected a 500 error"),
    }
    assert!(sound_mode_needs_port_modes(AudioOutputMode::MultichannelPcm));
    assert!(!sound_mode_needs_port_modes(AudioOutputMode::Auto));
}

#[test]
fn sound_mode_round_trip() {
    let port_modes = strings(&["SURROUND"]);
    for mode in [AudioOutputMode::Stereo, AudioOutputMode::MultichannelPcm, AudioOutputMode::PassThrough, AudioOutputMode::Auto] {
        let s = rdk_sound_mode_from_dab(mode, &port_modes).ok().unwrap();
        assert_eq!(rdk_sound_mode_to_dab(&s), Some(mode));
    }
}

#[test]
fn volume_range_check() {
    let range = AudioVolume { min: 5, max: 10 };
    assert!(check_audio_volume(range, 5).is_ok());
    assert!(check_audio_volume(range, 10).is_ok());
    match check_audio_volume(range, 4) {
        Err(DabError::Err400(m)) => assert_eq!(m, "Unsupported audio volume value"),
        _ => panic!("expected a 400 error"),
    }
}

#[test]
fn resolution_names() {
    let c = rdk_resolution_candidate("1080p60").unwrap();
    assert_eq!((c.width, c.height, c.framerate.as_str()), (1920, 1080, "60"));
    let c = rdk_resolution_candidate("720p").unwrap();
    assert_eq!((c.width, c.height, c.framerate.as_str()), (1280, 720, "60"));
    let c = rdk_resolution_candidate("1080i50").unwrap();
    assert_eq!((c.width, c.height, c.framerate.as_str()), (1920, 1080, "50"));
    assert!(rdk_resolution_candidate("1234p60").is_none());
    assert!(rdk_resolution_candidate("2160").is_none());
    let list = get_rdk_resolutions(&strings(&["480p", "bogus", "2160p30", "576i25"]));
    let got: Vec<(u32, u32, String)> = list.into_iter().map(|c| (c.width, c.height, c.framerate)).collect();
    assert_eq!(got, vec![(640, 480, "60".to_string()), (3840, 2160, "30".to_string()), (720, 576, "25".to_string())]);
}

#[test]
fn resolution_written_back_under_its_name() {
    for name in ["480", "576", "720", "1080", "2160"] {
        let c = rdk_resolution_candidate(&format!("{}p24", name)).unwrap();
        let res = OutputResolution { width: c.width, height: c.height, frequency: c.framerate };
        assert_eq!(convert_resolution_to_string(&res).ok(), Some(format!("{}p24", name)));
    }
    let res = OutputResolution { width: 1, height: 2, frequency: "60".to_string() };
    match convert_resolution_to_string(&res) {
        Err(DabError::Err500(m)) => assert_eq!(m, "Unsupported video format"),
        _ => panic!("expected a 500 error"),
    }
}

#[test]
fn settings_that_can_be_set() {
    assert_eq!(classify_setting("language").ok(), Some(SettingKind::Language));
    assert_eq!(classify_setting("textToSpeech").ok(), Some(SettingKind::TextToSpeech));
    assert_eq!(classify_setting("hdrOutputMode").ok(), Some(SettingKind::HdrOutputMode));
    match classify_setting("pictureMode") {
        Err(DabError::Err400(m)) => assert_eq!(m, "Setting 'pictureMode' is not supported"),
        _ => panic!("expected a 400 error"),
    }
    assert!(classify_setting("lowLatencyMode").is_err());
}

#[test]
fn settings_list_fixed_values() {
    let r = list_system_settings(
        vec!["en-US".to_string()],
        vec![],
        true,
        false,
        vec![HdrOutputMode::DisableHdr],
        AudioVolume { min: 0, max: 100 },
        vec![AudioOutputMode::Stereo],
        vec![AudioOutputSource::NativeSpeaker],
    );
    assert!(!r.memc);
    assert!(!r.low_latency_mode);
    assert!(r.mute);
    assert!(r.cec);
    assert!(!r.text_to_speech);
    assert_eq!(r.match_content_frame_rate, vec![MatchContentFrameRate::EnabledAlways]);
    assert!(r.picture_mode.is_empty());
    assert_eq!(r.video_input_source, vec![VideoInputSource::Home]);
    assert_eq!(r.language, vec!["en-US".to_string()]);
}

#[test]
fn listed_resolution_names_written_back() {
    let names = strings(&["1080p60", "720p50", "2160p24", "480p30", "576p25"]);
    let list = get_rdk_resolutions(&names);
    assert_eq!(list.len(), names.len());
    for (c, name) in list.into_iter().zip(names.iter()) {
        let res = OutputResolution { width: c.width, height: c.height, frequency: c.framerate };
        assert_eq!(convert_resolution_to_string(&res).ok(), Some(name.clone()));
    }
}

#[test]
fn set_settings_plan_and_answer() {
    let plan = settings_set_plan(&strings(&["language", "mute", "pictureMode", "cec"]));
    assert_eq!(plan.apply, vec![SettingKind::Language, SettingKind::Mute]);
    match &plan.refusal {
        Some(DabError::Err400(m)) => assert_eq!(m, "Setting 'pictureMode' is not supported"),
        _ => panic!("expected a refusal"),
    }
    let plan = settings_set_plan(&strings(&["audioVolume", "textToSpeech"]));
    assert_eq!(plan.apply, vec![SettingKind::AudioVolume, SettingKind::TextToSpeech]);
    assert!(plan.refusal.is_none());
    assert_eq!(settings_set_answer(None, None).ok(), Some("{}".to_string()));
    assert_eq!(message(settings_set_answer(Some(DabError::Err400("r".to_string())), None).err().unwrap()), "r");
    assert_eq!(message(settings_set_answer(Some(DabError::Err400("r".to_string())),
        Some(DabError::Err500("f".to_string()))).err().unwrap()), "f");
}

#[test]
fn set_power_mode_reads_back() {
    assert_eq!(set_power_mode_answer(Ok(()), Ok("LIGHT_SLEEP".to_string())).ok(), Some(PowerMode::Standby));
    assert_eq!(message(set_power_mode_answer(Err(DabError::Err500("set".to_string())), Ok("ON".to_string())).err().unwrap()), "set");
    assert_eq!(message(set_power_mode_answer(Ok(()), Err(DabError::Err500("read".to_string()))).err().unwrap()), "read");
    assert_eq!(message(set_power_mode_answer(Ok(()), Ok("OFF".to_string())).err().unwrap()), "Unknown RDK power state: OFF");
}
