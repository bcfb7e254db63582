//! The RDK (Thunder) JSON-RPC interface: answers of the device read into DAB values.
use vstd::prelude::*;
use vstd::string::*;
use crate::dab::{AudioOutputMode, DabError};
use crate::codec::{json_quote, json_quoted};
use serde_json::Value;
use crate::table::Table;
use crate::configuration::DeviceInfoMap;
use crate::text::{join2, join3, join5, lowercase, parse_u32, remove_char, spec_parse_unsigned,
    starts_with_str, seq_starts_with, str_eq, to_lowercase, without_char};

verus! {

/// An answer of the device to a JSON-RPC call.
pub struct RdkResponse<T> {
    pub jsonrpc: String,
    pub id: i32,
    pub result: T,
}

/// The `result` of a call that only reports success.
pub struct RdkResult {
    pub success: bool,
}

/// An answer that only reports success.
pub type RdkResponseSimple = RdkResponse<RdkResult>;

/// The identifiers given to JSON-RPC requests, one after the other.
pub struct RequestIds {
    pub next: i32,
}

impl RequestIds {
    /// Identifiers that start at 1.
    pub fn new() -> (r: Self)
        ensures
            r.next == 1,
    {
        RequestIds { next: 1 }
    }

    /// Hands out the next identifier; after `i32::MAX` it wraps to `i32::MIN`.
    pub fn next_id(&mut self) -> (id: i32)
        ensures
            id == old(self).next,
            final(self).next == (if old(self).next == i32::MAX { i32::MIN } else { (old(self).next + 1) as i32 }),
    {
        let id = self.next;
        self.next = if id == i32::MAX { i32::MIN } else { id + 1 };
        id
    }
}

/// The address of the device's JSON-RPC endpoint over HTTP.
pub fn rdk_http_address(device_address: &str) -> (r: String)
    ensures
        r@ == "http://"@ + device_address@ + ":9998/jsonrpc"@,
{
    join3("http://", device_address, ":9998/jsonrpc")
}

/// The address of the device's JSON-RPC endpoint over WebSocket.
pub fn rdk_ws_address(device_address: &str) -> (r: String)
    ensures
        r@ == "ws://"@ + device_address@ + ":9998/jsonrpc"@,
{
    join3("ws://", device_address, ":9998/jsonrpc")
}

/// Checks a JSON-RPC answer to `method`. `error_message` is the message of its `error`
/// member where that member is present and not null; `success` is `result.success`
/// where `result` is not null and that member is a boolean.
pub fn check_rdk_reply(method: &str, error_message: Option<String>, success: Option<bool>) -> (r: Result<(), DabError>)
    ensures
        match error_message {
            Some(m) => r matches Err(DabError::Err500(e)) && e@ == m@,
            None => if success == Some(false) {
                r matches Err(DabError::Err500(e)) && e@ == method@ + " failed"@
            } else {
                r is Ok
            },
        },
{
    match error_message {
        Some(m) => Err(DabError::Err500(m)),
        None => {
            match success {
                Some(false) => Err(DabError::Err500(join2(method, " failed"))),
                _ => Ok(()),
            }
        },
    }
}

/// The method that asks the controller about `service`.
pub fn controller_status_method(service: &str) -> (r: String)
    ensures
        r@ == "Controller.1.status@"@ + service@,
{
    join2("Controller.1.status@", service)
}

/// Whether a service is available, from the outcome of asking the controller about it:
/// an unknown service is not available, any other failure is passed on.
pub fn service_is_available(status: Result<(), DabError>) -> (r: Result<bool, DabError>)
    ensures
        match status {
            Ok(_) => r == Ok::<bool, DabError>(true),
            Err(e) => if e.spec_message() == "ERROR_UNKNOWN_KEY"@ {
                r == Ok::<bool, DabError>(false)
            } else {
                r matches Err(e2) && e2 == e
            },
        },
{
    match status {
        Err(message) => {
            if str_eq(message.message().as_str(), "ERROR_UNKNOWN_KEY") {
                return Ok(false);
            }
            Err(message)
        },
        Ok(_) => Ok(true),
    }
}

/// The state of a service, in lowercase, from the controller's answer to `method`.
pub fn get_service_state(method: &str, state: Option<String>) -> (r: Result<String, DabError>)
    ensures
        match state {
            Some(s) => r matches Ok(v) && v@ == lowercase(s@),
            None => r matches Err(DabError::Err500(m))
                && m@ == "Key 'state' not found in response for method '"@ + method@ + "'."@,
        },
{
    match state {
        Some(s) => Ok(to_lowercase(s.as_str())),
        None => Err(DabError::Err500(join3("Key 'state' not found in response for method '", method, "'."))),
    }
}

/// Checks the controller's answer to an activation or deactivation request.
pub fn check_controller_reply(has_result: bool) -> (r: Result<(), DabError>)
    ensures
        has_result ==> r is Ok,
        !has_result ==> (r matches Err(DabError::Err500(m))
            && m@ == "Key 'result' not found in response for method 'Controller.1.activate'."@),
{
    if !has_result {
        return Err(DabError::Err500(String::from_str(
            "Key 'result' not found in response for method 'Controller.1.activate'.")));
    }
    Ok(())
}

/// Checks that `service` reached the state asked for (`activated` when `activate`,
/// else `deactivated`), given the state reported 200 ms after the request.
pub fn check_service_state(service: &str, state: &str, activate: bool) -> (r: Result<(), DabError>)
    ensures
        activate ==> (if lowercase(state@) == "activated"@ {
            r is Ok
        } else {
            r matches Err(DabError::Err500(m))
                && m@ == "Failed to activate service '"@ + service@ + "' after 200ms."@
        }),
        !activate ==> (if lowercase(state@) == "deactivated"@ {
            r is Ok
        } else {
            r matches Err(DabError::Err500(m))
                && m@ == "Failed to deactivate service '"@ + service@ + "' after 200ms."@
        }),
{
    let s = to_lowercase(state);
    if activate {
        if s != String::from_str("activated") {
            return Err(DabError::Err500(join3("Failed to activate service '", service, "' after 200ms.")));
        }
    } else {
        if s != String::from_str("deactivated") {
            return Err(DabError::Err500(join3("Failed to deactivate service '", service, "' after 200ms.")));
        }
    }
    Ok(())
}

// ------------------------------------------------------------------ Thunder properties

/// A JSON value as far as a Thunder property is concerned.
pub enum ThunderValue {
    /// A JSON string, with its content.
    Text(String),
    /// A JSON number, with its decimal writing.
    Number(String),
    /// A JSON object, with its compact JSON writing.
    Object(String),
    /// `null`, a boolean or an array.
    Other,
}

/// What a JSON object holds under some name.
pub enum JsonSlot {
    Absent,
    Null,
    Present(ThunderValue),
}

/// A slot as plain values: its kind (0 absent, 1 null, 2 string, 3 number, 4 object,
/// 5 any other JSON value) and its text (the string's content, the number's decimal
/// writing, the object's compact JSON writing; empty for the other kinds).
pub open spec fn slot_view(s: JsonSlot) -> (int, Seq<char>) {
    match s {
        JsonSlot::Absent => (0, Seq::empty()),
        JsonSlot::Null => (1, Seq::empty()),
        JsonSlot::Present(ThunderValue::Text(t)) => (2, t@),
        JsonSlot::Present(ThunderValue::Number(n)) => (3, n@),
        JsonSlot::Present(ThunderValue::Object(o)) => (4, o@),
        JsonSlot::Present(ThunderValue::Other) => (5, Seq::empty()),
    }
}

/// The value of a Thunder property, from the answer to `method_name`: `result` is the
/// answer's `result` member and `keyed` what that member holds under `key_name` (read
/// only when `key_name` is not empty), both as `slot_view` gives them. Strings, numbers
/// and objects are read as their text; any other value is unsupported.
pub open spec fn spec_thunder_property(
    method_name: Seq<char>,
    key_name: Seq<char>,
    result: (int, Seq<char>),
    keyed: (int, Seq<char>),
) -> Result<Seq<char>, Seq<char>> {
    if result.0 == 0 {
        Err("Key 'result' not found in response for method '"@ + method_name + "'."@)
    } else if result.0 == 1 {
        Err("Key 'result' is null in response for method '"@ + method_name + "'."@)
    } else if key_name.len() > 0 && keyed.0 == 0 {
        Err("Key '"@ + key_name + "' not found in response for method '"@ + method_name + "'."@)
    } else {
        let value = if key_name.len() > 0 { keyed } else { result };
        if 2 <= value.0 <= 4 {
            Ok(value.1)
        } else {
            Err("Unsupported type for key '"@ + key_name + "' in response."@)
        }
    }
}

/// Reads a Thunder property from the `result` member of the answer and what it holds
/// under `key_name` (see `spec_thunder_property`). Every failure is a 500 error.
pub fn thunder_property_from_slots(method_name: &str, key_name: &str, result: JsonSlot, keyed: JsonSlot)
    -> (r: Result<String, DabError>)
    ensures
        match spec_thunder_property(method_name@, key_name@, slot_view(result), slot_view(keyed)) {
            Ok(t) => r matches Ok(v) && v@ == t,
            Err(m) => r matches Err(DabError::Err500(e)) && e@ == m,
        },
{
    let rv = match result {
        JsonSlot::Absent => {
            return Err(DabError::Err500(join3("Key 'result' not found in response for method '", method_name, "'.")));
        },
        JsonSlot::Null => {
            return Err(DabError::Err500(join3("Key 'result' is null in response for method '", method_name, "'.")));
        },
        JsonSlot::Present(v) => v,
    };
    let value = if !key_name.is_empty() {
        match keyed {
            JsonSlot::Absent => {
                return Err(DabError::Err500(join5("Key '", key_name, "' not found in response for method '",
                    method_name, "'.")));
            },
            JsonSlot::Null => ThunderValue::Other,
            JsonSlot::Present(v) => v,
        }
    } else {
        rv
    };
    match value {
        ThunderValue::Text(s) => Ok(s),
        ThunderValue::Number(n) => Ok(n),
        ThunderValue::Object(o) => Ok(o),
        ThunderValue::Other => Err(DabError::Err500(join3("Unsupported type for key '", key_name, "' in response."))),
    }
}

/// What `serde_json::from_str::<serde_json::Value>` reads from the answer body `body`: the
/// answer's `result` member and what it holds under `key_name`, as `slot_view` writes
/// them; or the parser's error message where `body` is not JSON.
pub uninterp spec fn thunder_slots(body: Seq<char>, key_name: Seq<char>)
    -> Result<((int, Seq<char>), (int, Seq<char>)), Seq<char>>;

/// Calls `serde_json::from_str` on an answer body and reads its `result` member and what
/// that member holds under `key_name` (`Value::get`); numbers and objects are written
/// back by `to_string`. The result is named `thunder_slots` of the arguments.
#[verifier::external_body]
fn read_thunder_slots(body: &str, key_name: &str) -> (r: Result<(JsonSlot, JsonSlot), String>)
    ensures
        match r {
            Ok((a, b)) => thunder_slots(body@, key_name@) == Ok::<_, Seq<char>>((slot_view(a), slot_view(b))),
            Err(e) => thunder_slots(body@, key_name@) == Err::<((int, Seq<char>), (int, Seq<char>)), _>(e@),
        },
{
    let slot = |v: Option<&Value>| match v {
        None => JsonSlot::Absent,
        Some(Value::Null) => JsonSlot::Null,
        Some(Value::String(t)) => JsonSlot::Present(ThunderValue::Text(t.clone())),
        Some(Value::Number(n)) => JsonSlot::Present(ThunderValue::Number(n.to_string())),
        Some(Value::Object(o)) => JsonSlot::Present(ThunderValue::Object(serde_json::to_string(o).unwrap_or_default())),
        Some(_) => JsonSlot::Present(ThunderValue::Other),
    };
    let value: Value = serde_json::from_str(body).map_err(|e| e.to_string())?;
    Ok((slot(value.get("result")), slot(value.get("result").and_then(|r| r.get(key_name)))))
}

/// Reads the Thunder property `key_name` (the whole `result` where it is empty) from the
/// answer body to `method_name`: a body that is not JSON is a 500 error with the parser's
/// message, else as `spec_thunder_property` reads the parsed answer.
pub fn get_thunder_property(method_name: &str, key_name: &str, body: &str) -> (r: Result<String, DabError>)
    ensures
        match thunder_slots(body@, key_name@) {
            Err(e) => r matches Err(DabError::Err500(m)) && m@ == "Failed to parse response: "@ + e,
            Ok((result, keyed)) => match spec_thunder_property(method_name@, key_name@, result, keyed) {
                Ok(t) => r matches Ok(v) && v@ == t,
                Err(m) => r matches Err(DabError::Err500(e)) && e@ == m,
            },
        },
{
    match read_thunder_slots(body, key_name) {
        Err(e) => Err(DabError::Err500(join2("Failed to parse response: ", e.as_str()))),
        Ok((result, keyed)) => thunder_property_from_slots(method_name, key_name, result, keyed),
    }
}

// ------------------------------------------------------------------ device identity and load

/// The device identifier: the `estb_mac` of the device information without its colons.
pub fn get_rdk_device_id(estb_mac: Option<String>) -> (r: Result<String, DabError>)
    ensures
        match estb_mac {
            Some(m) => r matches Ok(id) && id@ == without_char(m@, ':'),
            None => r matches Err(DabError::Err500(e))
                && e@ == "RDK Error: org.rdk.System.getDeviceInfo.result.estb_mac not found"@,
        },
{
    match estb_mac {
        Some(m) => Ok(remove_char(m.as_str(), ':')),
        None => Err(DabError::Err500(String::from_str(
            "RDK Error: org.rdk.System.getDeviceInfo.result.estb_mac not found"))),
    }
}

/// Which memory property a text was read from.
pub enum RamProperty {
    Free,
    Total,
}

/// A memory property in kilobytes: the property is a number of bytes.
pub fn ram_kb(bytes: &str, which: RamProperty) -> (r: Result<u32, DabError>)
    ensures
        match spec_parse_unsigned(bytes@, u32::MAX as nat) {
            Some(v) => r == Ok::<u32, DabError>((v / 1024) as u32),
            None => r matches Err(DabError::Err500(m)) && m@ == (match which {
                RamProperty::Free => "Failed to parse free RAM"@,
                RamProperty::Total => "Failed to parse total RAM"@,
            }),
        },
{
    match parse_u32(bytes) {
        Some(v) => Ok(v / 1024),
        None => match which {
            RamProperty::Free => Err(DabError::Err500(String::from_str("Failed to parse free RAM"))),
            RamProperty::Total => Err(DabError::Err500(String::from_str("Failed to parse total RAM"))),
        },
    }
}

/// The memory in use, in kilobytes.
pub fn get_device_memory(free_ram_kb: u32, total_ram_kb: u32) -> (r: u32)
    requires
        free_ram_kb <= total_ram_kb,
    ensures
        r == total_ram_kb - free_ram_kb,
{
    total_ram_kb - free_ram_kb
}

/// The CPU load, from the `cpuload` property.
pub fn get_device_cpu(cpuload: &str) -> (r: Result<u32, DabError>)
    ensures
        match spec_parse_unsigned(cpuload@, u32::MAX as nat) {
            Some(v) => r == Ok::<u32, DabError>(v as u32),
            None => r matches Err(DabError::Err500(m)) && m@ == "Failed to parse CPU usage"@,
        },
{
    match parse_u32(cpuload) {
        Some(v) => Ok(v),
        None => Err(DabError::Err500(String::from_str("Failed to parse CPU usage"))),
    }
}

/// The DAB audio output mode of an RDK sound mode.
pub open spec fn spec_rdk_sound_mode_to_dab(mode: Seq<char>) -> Option<AudioOutputMode> {
    if mode == "STEREO"@ {
        Some(AudioOutputMode::Stereo)
    } else if mode == "SURROUND"@ || mode == "DOLBYDIGITAL"@ || mode == "DOLBYDIGITALPLUS"@ {
        Some(AudioOutputMode::MultichannelPcm)
    } else if mode == "PASSTHRU"@ {
        Some(AudioOutputMode::PassThrough)
    } else if seq_starts_with(mode, "AUTO"@) {
        Some(AudioOutputMode::Auto)
    } else {
        None
    }
}

/// The DAB audio output mode that an RDK sound mode is read as.
pub fn rdk_sound_mode_to_dab(mode: &String) -> (r: Option<AudioOutputMode>)
    ensures
        r == spec_rdk_sound_mode_to_dab(mode@),
{
    if *mode == String::from_str("STEREO") {
        Some(AudioOutputMode::Stereo)
    } else if *mode == String::from_str("SURROUND") || *mode == String::from_str("DOLBYDIGITAL")
        || *mode == String::from_str("DOLBYDIGITALPLUS") {
        Some(AudioOutputMode::MultichannelPcm)
    } else if *mode == String::from_str("PASSTHRU") {
        Some(AudioOutputMode::PassThrough)
    } else if starts_with_str(mode.as_str(), "AUTO") {
        Some(AudioOutputMode::Auto)
    } else {
        None
    }
}

} // verus!

verus! {

/// The chipset reading that counts: the `DeviceInfo.socname` one when it succeeded,
/// else the legacy `DeviceIdentification` one (when it was made).
pub open spec fn chosen_chipset(
    primary: Result<String, DabError>,
    legacy: Option<Result<String, DabError>>,
) -> Result<String, DabError> {
    match primary {
        Ok(v) => Ok(v),
        Err(e) => match legacy {
            Some(l) => l,
            None => Err(e),
        },
    }
}

/// `info` holds what the reading `value` of property `key` gives: the value read, or,
/// in debug builds only, the placeholder `fallback`.
pub open spec fn property_recorded(
    info: Map<Seq<char>, String>,
    key: Seq<char>,
    value: Result<String, DabError>,
    fallback: Seq<char>,
    debug_build: bool,
) -> bool {
    match value {
        Ok(v) => info.dom().contains(key) && info[key]@ == v@,
        Err(_) => if debug_build {
            info.dom().contains(key) && info[key]@ == fallback
        } else {
            !info.dom().contains(key)
        },
    }
}

fn record_property(
    info: &mut DeviceInfoMap,
    key: &str,
    value: Result<String, DabError>,
    fallback: &str,
    debug_build: bool,
)
    requires
        old(info).wf(),
        !old(info).spec_map().dom().contains(key@),
    ensures
        final(info).wf(),
        property_recorded(final(info).spec_map(), key@, value, fallback@, debug_build),
        forall|k: Seq<char>| k != key@ ==> (#[trigger] final(info).spec_map().dom().contains(k)
            == old(info).spec_map().dom().contains(k)),
        forall|k: Seq<char>| k != key@ && old(info).spec_map().dom().contains(k)
            ==> #[trigger] final(info).spec_map()[k] == old(info).spec_map()[k],
{
    match value {
        Ok(v) => {
            info.insert(String::from_str(key), v);
        },
        Err(_) => {
            if debug_build {
                info.insert(String::from_str(key), String::from_str(fallback));
            }
        },
    }
}

/// The static device information, from the readings of the device properties.
/// `debug_build` says whether placeholders are recorded for failed readings.
pub fn get_device_info(
    make: Result<String, DabError>,
    model: Result<String, DabError>,
    serial_number: Result<String, DabError>,
    chipset_primary: Result<String, DabError>,
    chipset_legacy: Option<Result<String, DabError>>,
    firmware_version: Result<String, DabError>,
    debug_build: bool,
) -> (info: DeviceInfoMap)
    ensures
        info.wf(),
        property_recorded(info.spec_map(), "manufacturer"@, make, "Unknown-manufacturer"@, debug_build),
        property_recorded(info.spec_map(), "model"@, model, "Unknown-model"@, debug_build),
        property_recorded(info.spec_map(), "serialnumber"@, serial_number, "Unknown-serialnumber"@, debug_build),
        property_recorded(info.spec_map(), "chipset"@, chosen_chipset(chipset_primary, chipset_legacy),
            "Unknown-chipset"@, debug_build),
        property_recorded(info.spec_map(), "firmwareversion"@, firmware_version, "Unknown-FWVersion"@, debug_build),
        forall|k: Seq<char>| #[trigger] info.spec_map().dom().contains(k) ==> (k == "manufacturer"@ || k == "model"@
            || k == "serialnumber"@ || k == "chipset"@ || k == "firmwareversion"@),
{
    proof {
        reveal_strlit("manufacturer");
        reveal_strlit("model");
        reveal_strlit("serialnumber");
        reveal_strlit("chipset");
        reveal_strlit("firmwareversion");
    }
    let ghost chipset = chosen_chipset(chipset_primary, chipset_legacy);
    let chipset_value = match chipset_primary {
        Ok(v) => Ok(v),
        Err(e) => match chipset_legacy {
            Some(l) => l,
            None => Err(e),
        },
    };
    assert(chipset_value == chipset);
    assert("manufacturer"@.len() == 12 && "model"@.len() == 5 && "serialnumber"@.len() == 12
        && "chipset"@.len() == 7 && "firmwareversion"@.len() == 15);
    assert("serialnumber"@[0] != "manufacturer"@[0]);
    let mut info: DeviceInfoMap = Table::new();
    record_property(&mut info, "manufacturer", make, "Unknown-manufacturer", debug_build);
    assert(!info.spec_map().dom().contains("model"@));
    record_property(&mut info, "model", model, "Unknown-model", debug_build);
    assert(!info.spec_map().dom().contains("serialnumber"@));
    record_property(&mut info, "serialnumber", serial_number, "Unknown-serialnumber", debug_build);
    assert(!info.spec_map().dom().contains("chipset"@));
    record_property(&mut info, "chipset", chipset_value, "Unknown-chipset", debug_build);
    assert(!info.spec_map().dom().contains("firmwareversion"@));
    record_property(&mut info, "firmwareversion", firmware_version, "Unknown-FWVersion", debug_build);
    info
}

} // verus!

verus! {

// ------------------------------------------------------------------ fixed-form requests

/// The request for a Thunder property: identifier 1 and the method written as it is,
/// without parameters.
pub open spec fn thunder_property_body(method_name: Seq<char>) -> Seq<char> {
    "{\"jsonrpc\":\"2.0\",\"id\":1,\"method\":\""@ + method_name + "\"}"@
}

/// Writes the request for a Thunder property.
pub fn thunder_property_request(method_name: &str) -> (r: String)
    ensures
        r@ == thunder_property_body(method_name@),
{
    join3("{\"jsonrpc\":\"2.0\",\"id\":1,\"method\":\"", method_name, "\"}")
}

/// The request that activates or deactivates a service through the controller. The
/// members are written in the order of their names, as the JSON writer orders them.
pub open spec fn controller_body(activate: bool, service: Seq<char>) -> Seq<char> {
    "{\"id\":1,\"jsonrpc\":\"2.0\",\"method\":\""@
        + (if activate { "Controller.1.activate"@ } else { "Controller.1.deactivate"@ })
        + "\",\"params\":{\"callsign\":"@ + json_quoted(service) + "}}"@
}

/// Writes the request that activates (`activate`) or deactivates a service.
pub fn controller_request(activate: bool, service: &str) -> (r: String)
    ensures
        r@ == controller_body(activate, service@),
{
    let method = if activate { "Controller.1.activate" } else { "Controller.1.deactivate" };
    let r = join3("{\"id\":1,\"jsonrpc\":\"2.0\",\"method\":\"", method, "\",\"params\":{\"callsign\":");
    join3(r.as_str(), json_quote(service).as_str(), "}}")
}

/// The request for the device's `estb_mac`, from which the device identifier is made.
pub open spec fn device_mac_body() -> Seq<char> {
    "{\"jsonrpc\":\"2.0\",\"id\":1,\"method\":\"org.rdk.System.getDeviceInfo\",\"params\":{\"params\":[\"estb_mac\"]}}"@
}

/// Writes the request for the device's `estb_mac`.
pub fn device_mac_request() -> (r: String)
    ensures
        r@ == device_mac_body(),
{
    String::from_str("{\"jsonrpc\":\"2.0\",\"id\":1,\"method\":\"org.rdk.System.getDeviceInfo\",\"params\":{\"params\":[\"estb_mac\"]}}")
}

} // verus!

verus! {

// ------------------------------------------------------------------ reading answer bodies

/// What `serde_json::from_str::<serde_json::Value>` reads from an answer body for the
/// reply check: the `error` member (`None` where it is absent or null; else the text of
/// its `message` where that is a string), and `result.success` where `result` is not null
/// and that member is a boolean; or the parser's error message where `body` is not JSON.
pub uninterp spec fn rdk_reply(body: Seq<char>) -> Result<(Option<Option<Seq<char>>>, Option<bool>), Seq<char>>;

/// Calls `serde_json::from_str` on an answer body and reads its `error.message` and
/// `result.success` members; the result is named `rdk_reply` of the body.
#[verifier::external_body]
fn read_rdk_reply(body: &str) -> (r: Result<(Option<Option<String>>, Option<bool>), String>)
    ensures
        match r {
            Ok((err, success)) => rdk_reply(body@) == Ok::<_, Seq<char>>((match err {
                Some(Some(m)) => Some(Some(m@)),
                Some(None) => Some(None),
                None => None,
            }, success)),
            Err(e) => rdk_reply(body@) == Err::<(Option<Option<Seq<char>>>, Option<bool>), _>(e@),
        },
{
    let v: Value = serde_json::from_str(body).map_err(|e| e.to_string())?;
    let error = match &v["error"] {
        Value::Null => None,
        e => Some(e["message"].as_str().map(|m| m.to_string())),
    };
    let success = match &v["result"] {
        Value::Null => None,
        r => r["success"].as_bool(),
    };
    Ok((error, success))
}

/// Checks the answer body to `method`: a body that is not JSON is a 500 error with the
/// parser's message; an `error` member is a 500 error with its message; a `result` whose
/// `success` is false is the error `<method> failed`. `None` where the `error` member
/// carries no string message (the adapter cannot answer then).
pub fn check_rdk_answer(method: &str, body: &str) -> (r: Option<Result<(), DabError>>)
    ensures
        match rdk_reply(body@) {
            Err(e) => r matches Some(Err(DabError::Err500(m))) && m@ == e,
            Ok((Some(None), _)) => r is None,
            Ok((Some(Some(m)), _)) => r matches Some(Err(DabError::Err500(e))) && e@ == m,
            Ok((None, success)) => if success == Some(false) {
                r matches Some(Err(DabError::Err500(e))) && e@ == method@ + " failed"@
            } else {
                r matches Some(Ok(_))
            },
        },
{
    match read_rdk_reply(body) {
        Err(e) => Some(Err(DabError::Err500(e))),
        Ok((Some(None), _)) => None,
        Ok((Some(Some(m)), success)) => Some(check_rdk_reply(method, Some(m), success)),
        Ok((None, success)) => Some(check_rdk_reply(method, None, success)),
    }
}

/// What `serde_json::from_str::<serde_json::Value>` reads from the controller's status
/// answer: `result[0].state` where that is a string; `None` where it is not, or where
/// `body` is not JSON.
pub uninterp spec fn service_state_field(body: Seq<char>) -> Option<Seq<char>>;

/// Calls `serde_json::from_str` on the controller's status answer and reads
/// `result[0].state`; the result is named `service_state_field` of the body.
#[verifier::external_body]
fn read_service_state(body: &str) -> (r: Option<String>)
    ensures
        match r {
            Some(s) => service_state_field(body@) == Some(s@),
            None => service_state_field(body@) is None,
        },
{
    let v: Value = serde_json::from_str(body).ok()?;
    v["result"][0]["state"].as_str().map(|s| s.to_string())
}

/// The state of a service, in lowercase, from the controller's answer body to `method`.
pub fn service_state_answer(method: &str, body: &str) -> (r: Result<String, DabError>)
    ensures
        match service_state_field(body@) {
            Some(s) => r matches Ok(v) && v@ == lowercase(s),
            None => r matches Err(DabError::Err500(m))
                && m@ == "Key 'state' not found in response for method '"@ + method@ + "'."@,
        },
{
    get_service_state(method, read_service_state(body))
}

/// What `serde_json::from_str::<serde_json::Value>` reads from the answer to an
/// activation or deactivation request: whether it has a `result` member; or the parser's
/// error message where `body` is not JSON.
pub uninterp spec fn controller_reply(body: Seq<char>) -> Result<bool, Seq<char>>;

/// Calls `serde_json::from_str` on the controller's answer and looks for its `result`
/// member; the result is named `controller_reply` of the body.
#[verifier::external_body]
fn read_controller_reply(body: &str) -> (r: Result<bool, String>)
    ensures
        match r {
            Ok(b) => controller_reply(body@) == Ok::<bool, Seq<char>>(b),
            Err(e) => controller_reply(body@) == Err::<bool, Seq<char>>(e@),
        },
{
    let v: Value = serde_json::from_str(body).map_err(|e| e.to_string())?;
    Ok(v.get("result").is_some())
}

/// Checks the controller's answer body to an activation or deactivation request.
pub fn check_controller_answer(body: &str) -> (r: Result<(), DabError>)
    ensures
        match controller_reply(body@) {
            Err(e) => r matches Err(DabError::Err500(m)) && m@ == "Failed to parse response: "@ + e,
            Ok(true) => r is Ok,
            Ok(false) => r matches Err(DabError::Err500(m))
                && m@ == "Key 'result' not found in response for method 'Controller.1.activate'."@,
        },
{
    match read_controller_reply(body) {
        Err(e) => Err(DabError::Err500(join2("Failed to parse response: ", e.as_str()))),
        Ok(has_result) => check_controller_reply(has_result),
    }
}

/// What `serde_json::from_str::<serde_json::Value>` reads from the device information
/// answer: `result.estb_mac` where that is a string (`None` where it is not); or the
/// parser's error message where `body` is not JSON.
pub uninterp spec fn estb_mac_field(body: Seq<char>) -> Result<Option<Seq<char>>, Seq<char>>;

/// Calls `serde_json::from_str` on the device information answer and reads
/// `result.estb_mac`; the result is named `estb_mac_field` of the body.
#[verifier::external_body]
fn read_estb_mac(body: &str) -> (r: Result<Option<String>, String>)
    ensures
        match r {
            Ok(Some(m)) => estb_mac_field(body@) == Ok::<Option<Seq<char>>, Seq<char>>(Some(m@)),
            Ok(None) => estb_mac_field(body@) == Ok::<Option<Seq<char>>, Seq<char>>(None),
            Err(e) => estb_mac_field(body@) == Err::<Option<Seq<char>>, Seq<char>>(e@),
        },
{
    let v: Value = serde_json::from_str(body).map_err(|e| e.to_string())?;
    Ok(v["result"]["estb_mac"].as_str().map(|m| m.to_string()))
}

/// The device identifier from the device information answer body (see
/// `get_rdk_device_id`); `None` where the body is not JSON (the adapter cannot start then).
pub fn device_id_answer(body: &str) -> (r: Option<Result<String, DabError>>)
    ensures
        match estb_mac_field(body@) {
            Err(_) => r is None,
            Ok(Some(m)) => r matches Some(Ok(id)) && id@ == without_char(m, ':'),
            Ok(None) => r matches Some(Err(DabError::Err500(e)))
                && e@ == "RDK Error: org.rdk.System.getDeviceInfo.result.estb_mac not found"@,
        },
{
    match read_estb_mac(body) {
        Err(_) => None,
        Ok(mac) => Some(get_rdk_device_id(mac)),
    }
}

} // verus!
