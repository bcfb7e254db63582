use dab_adapter::calls::{query_call, rdk_request_body, DeviceQuery};
use dab_adapter::configuration::DeviceInfoMap;
use dab_adapter::dab::{DabError, DisplayType, NetworkInterfaceType};
use dab_adapter::device_info::{
    device_information, device_uptime_secs, display_type, interface_type, ip_settings_call,
    network_interface, uptime_since_ms,
};
use dab_adapter::operations::{error_response, health_check, list_supported_operations, operators_response, route, versions, Operation};
use dab_adapter::screenshot::{is_upload_request, screenshot_data_url, upload_screen_capture_call, upload_url};
use dab_adapter::table::Table;

#[test]
fn operations_of_the_first_interface() {
    let r = operators_response();
    assert_eq!(r.status, 200);
    assert_eq!(r.operators.len(), 28);
    assert_eq!(r.operators[0], "operations/list");
    assert_eq!(r.operators[3], "applications/launch-with-content");
    assert_eq!(r.operators[27], "system/language/set");
}

#[test]
fn operations_of_the_rdk_adapter() {
    let ops = list_supported_operations();
    assert_eq!(ops.len(), 15);
    assert_eq!(ops[0], "operations/list");
    assert!(ops.contains(&"input/key-press".to_string()));
    assert!(!ops.contains(&"input/long-key-press".to_string()));
    assert!(!ops.contains(&"voice/list".to_string()));
    assert_eq!(ops[14], "system/language/set");
}

#[test]
fn version_and_health() {
    assert_eq!(versions(), vec!["2.0".to_string()]);
    assert!(health_check());
}

#[test]
fn network_interfaces() {
    assert_eq!(interface_type("ETHERNET"), NetworkInterfaceType::Ethernet);
    assert_eq!(interface_type("WIFI"), NetworkInterfaceType::Wifi);
    assert_eq!(interface_type("wifi"), NetworkInterfaceType::Other);
    let n = network_interface("WIFI", "AA:BB".to_string(), true, Some("10.0.0.2".to_string()),
        Some("".to_string()), Some("8.8.8.8".to_string()));
    assert_eq!(n.interface_type, NetworkInterfaceType::Wifi);
    assert!(n.connected);
    assert_eq!(n.mac_address, "AA:BB");
    assert_eq!(n.ip_address, "10.0.0.2");
    assert_eq!(n.dns, vec!["8.8.8.8".to_string()]);
    let n = network_interface("ETHERNET", "x".to_string(), false, None, Some("1.1.1.1".to_string()), None);
    assert_eq!(n.ip_address, "");
    assert_eq!(n.dns, vec!["1.1.1.1".to_string()]);
    assert_eq!(
        rdk_request_body(3, &ip_settings_call("WIFI")),
        r#"{"jsonrpc":"2.0","id":3,"method":"org.rdk.Network.getIPSettings","params":{"interface":"WIFI"}}"#
    );
}

#[test]
fn display_and_uptime() {
    assert_eq!(display_type(&vec!["HDMI0".to_string()]), DisplayType::External);
    assert_eq!(display_type(&vec!["Internal0".to_string(), "HDMI0".to_string()]), DisplayType::Native);
    assert_eq!(device_uptime_secs("3600"), 3600);
    assert_eq!(device_uptime_secs("12.5"), 0);
    assert_eq!(uptime_since_ms(1_700_000_000, 3600), 1_699_996_400_000);
}

#[test]
fn device_information_needs_all_properties() {
    let mut info: DeviceInfoMap = Table::new();
    for (k, v) in [("manufacturer", "Acme"), ("model", "M1"), ("serialnumber", "S1"), ("firmwareversion", "9.9")] {
        info.insert(k.to_string(), v.to_string());
    }
    match device_information(&info, vec![], DisplayType::Native, 1920, 1080, 5, "id".to_string()) {
        Err(DabError::Err500(m)) => assert_eq!(m, "No match for property chipset."),
        _ => panic!("expected a 500 error"),
    }
    info.insert("chipset".to_string(), "C1".to_string());
    match device_information(&info, vec![], DisplayType::External, 1280, 720, 42, "dev".to_string()) {
        Ok(d) => {
            assert_eq!(d.manufacturer, "Acme");
            assert_eq!(d.chipset, "C1");
            assert_eq!(d.firmware_version, "9.9");
            assert_eq!(d.firmware_build, "9.9");
            assert_eq!(d.display_type, DisplayType::External);
            assert_eq!((d.screen_width_pixels, d.screen_height_pixels), (1280, 720));
            assert_eq!(d.uptime_since, 42);
            assert_eq!(d.device_id, "dev");
        },
        Err(_) => panic!("device information refused"),
    }
}

#[test]
fn queries_without_and_with_port() {
    assert_eq!(
        rdk_request_body(5, &query_call(DeviceQuery::PowerState, "HDMI0")),
        r#"{"jsonrpc":"2.0","id":5,"method":"org.rdk.System.getPowerState"}"#
    );
    assert_eq!(
        rdk_request_body(6, &query_call(DeviceQuery::SupportedAudioModes, "SPDIF0")),
        r#"{"jsonrpc":"2.0","id":6,"method":"org.rdk.DisplaySettings.getSupportedAudioModes","params":{"audioPort":"SPDIF0"}}"#
    );
}

#[test]
fn screenshot_upload() {
    assert_eq!(upload_url("192.168.0.9"), "http://192.168.0.9:7878/upload");
    assert!(is_upload_request("POST", "/upload"));
    assert!(!is_upload_request("GET", "/upload"));
    assert!(!is_upload_request("POST", "/"));
    assert_eq!(
        rdk_request_body(3, &upload_screen_capture_call("http://h:7878/upload")),
        r#"{"jsonrpc":"2.0","id":3,"method":"org.rdk.ScreenCapture.uploadScreenCapture","params":{"url":"http://h:7878/upload","callGUID":"12345"}}"#
    );
}

#[test]
fn screenshot_as_data_url() {
    assert_eq!(screenshot_data_url(b""), "data:image/png;base64,");
    assert_eq!(screenshot_data_url(b"M"), "data:image/png;base64,TQ==");
    assert_eq!(screenshot_data_url(b"Ma"), "data:image/png;base64,TWE=");
    assert_eq!(screenshot_data_url(b"Man"), "data:image/png;base64,TWFu");
    assert_eq!(screenshot_data_url(&[0xff, 0xfe, 0x00, 0x3e, 0x3f]), "data:image/png;base64,//4APj8=");
}

#[test]
fn topics_route_to_their_operations() {
    assert_eq!(route("dab/operations/list"), Some(Operation::OperationsList));
    assert_eq!(route("dab/applications/get-state"), Some(Operation::ApplicationsGetState));
    assert_eq!(route("dab/input/key-press"), Some(Operation::InputKeyPress));
    assert_eq!(route("dab/system/language/set"), Some(Operation::SystemLanguageSet));
    assert_eq!(route("dab/version"), Some(Operation::Version));
    assert_eq!(route("dab/voice/list"), None);
    assert_eq!(route("operations/list"), None);
    assert_eq!(route("dab/operations/list/"), None);
}

#[test]
fn every_supported_operation_on_the_bus_is_routed() {
    for name in ["operations/list", "applications/list", "applications/launch", "applications/get-state",
        "applications/exit", "device/info", "input/key/list", "input/key-press", "system/restart",
        "system/settings/list", "health-check/get", "version", "system/language/list",
        "system/language/get", "system/language/set"] {
        assert!(route(&format!("dab/{}", name)).is_some(), "{} not routed", name);
    }
}

#[test]
fn error_answers() {
    assert_eq!(error_response(&DabError::Err400("bad \"x\"".to_string())), r#"{"status":400,"error":"bad \"x\""}"#);
    assert_eq!(error_response(&DabError::Err501("no".to_string())), r#"{"status":501,"error":"no"}"#);
}
