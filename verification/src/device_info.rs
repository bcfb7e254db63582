//! The device information answer: static properties, network interfaces, display and
//! uptime, put together from what the device reports.
use vstd::prelude::*;
use vstd::string::*;
use crate::calls::{call_is, RdkCall};
use crate::codec::{json_quote, json_quoted};
use crate::configuration::{get_rdk_device_info, DeviceInfoMap};
use crate::dab::{DabError, DisplayType, NetworkInterface, NetworkInterfaceType};
use crate::table::views;
use crate::text::{contains_str, parse_u64, seq_contains_sub, spec_parse_unsigned, str_eq};

verus! {

// ------------------------------------------------------------------ network interfaces

/// The DAB type of an RDK network interface name.
pub open spec fn spec_interface_type(name: Seq<char>) -> NetworkInterfaceType {
    if name == "ETHERNET"@ {
        NetworkInterfaceType::Ethernet
    } else if name == "WIFI"@ {
        NetworkInterfaceType::Wifi
    } else {
        NetworkInterfaceType::Other
    }
}

/// The DAB type of an RDK network interface name.
pub fn interface_type(name: &str) -> (r: NetworkInterfaceType)
    ensures
        r == spec_interface_type(name@),
{
    if str_eq(name, "ETHERNET") {
        NetworkInterfaceType::Ethernet
    } else if str_eq(name, "WIFI") {
        NetworkInterfaceType::Wifi
    } else {
        NetworkInterfaceType::Other
    }
}

/// The call that asks for the IP settings of a network interface.
pub fn ip_settings_call(interface: &str) -> (r: RdkCall)
    ensures
        call_is(r, "org.rdk.Network.getIPSettings"@, "{\"interface\":"@ + json_quoted(interface@) + "}"@),
{
    let p = String::from_str("{\"interface\":");
    let p = p.concat(json_quote(interface).as_str());
    RdkCall { method: String::from_str("org.rdk.Network.getIPSettings"), params: Some(p.concat("}")) }
}

/// The DNS servers among the primary and secondary ones the device reported: those
/// present and not empty, primary first.
pub open spec fn dns_servers(primary: Option<String>, secondary: Option<String>) -> Seq<Seq<char>> {
    let p = match primary {
        Some(d) => if d@.len() > 0 { seq![d@] } else { Seq::empty() },
        None => Seq::empty(),
    };
    let s = match secondary {
        Some(d) => if d@.len() > 0 { seq![d@] } else { Seq::empty() },
        None => Seq::empty(),
    };
    p + s
}

/// A DAB network interface from what the device reported of it: its RDK name, MAC
/// address and connection state, and the address and DNS servers of its IP settings.
/// A missing address is written empty.
pub fn network_interface(
    name: &str,
    mac_address: String,
    connected: bool,
    ipaddr: Option<String>,
    primarydns: Option<String>,
    secondarydns: Option<String>,
) -> (r: NetworkInterface)
    ensures
        r.interface_type == spec_interface_type(name@),
        r.connected == connected,
        r.mac_address@ == mac_address@,
        r.ip_address@ == (match ipaddr {
            Some(a) => a@,
            None => Seq::<char>::empty(),
        }),
        views(r.dns@) == dns_servers(primarydns, secondarydns),
{
    let ghost p0 = primarydns;
    let ghost s0 = secondarydns;
    let ip_address = match ipaddr {
        Some(a) => a,
        None => String::new(),
    };
    let mut dns: Vec<String> = Vec::new();
    assert(views(dns@) =~= Seq::<Seq<char>>::empty());
    match primarydns {
        Some(d) => {
            if !d.as_str().is_empty() {
                dns.push(d);
            }
        },
        None => {},
    }
    let ghost after_primary = views(dns@);
    match secondarydns {
        Some(d) => {
            if !d.as_str().is_empty() {
                dns.push(d);
            }
        },
        None => {},
    }
    assert(views(dns@) =~= dns_servers(p0, s0));
    NetworkInterface { connected, mac_address, ip_address, dns, interface_type: interface_type(name) }
}

// ------------------------------------------------------------------ display and uptime

/// The display type: external where the first connected video display is an HDMI one,
/// native otherwise. The device must report at least one display.
pub fn display_type(displays: &Vec<String>) -> (r: DisplayType)
    requires
        displays@.len() > 0,
    ensures
        r == (if seq_contains_sub(displays@[0]@, "HDMI"@) { DisplayType::External } else { DisplayType::Native }),
{
    if contains_str(displays[0].as_str(), "HDMI") {
        DisplayType::External
    } else {
        DisplayType::Native
    }
}

/// The uptime in seconds from the `uptime` property the device reported; one that is
/// not a number counts as 0.
pub fn device_uptime_secs(uptime: &str) -> (r: u64)
    ensures
        r == (match spec_parse_unsigned(uptime@, u64::MAX as nat) {
            Some(v) => v,
            None => 0,
        }),
{
    match parse_u64(uptime) {
        Some(v) => v,
        None => 0,
    }
}

/// When the device started, in milliseconds since the epoch, from the time now and the
/// uptime, both in seconds.
pub fn uptime_since_ms(now_secs: u64, uptime_secs: u64) -> (r: u64)
    requires
        uptime_secs <= now_secs,
        (now_secs - uptime_secs) * 1000 <= u64::MAX,
    ensures
        r == (now_secs - uptime_secs) * 1000,
{
    (now_secs - uptime_secs) * 1000
}

// ------------------------------------------------------------------ the answer

/// The device information DAB asks for.
pub struct DeviceInformation {
    pub manufacturer: String,
    pub model: String,
    pub serial_number: String,
    pub chipset: String,
    pub firmware_version: String,
    pub firmware_build: String,
    pub network_interfaces: Vec<NetworkInterface>,
    pub display_type: DisplayType,
    pub screen_width_pixels: u32,
    pub screen_height_pixels: u32,
    pub uptime_since: u64,
    pub device_id: String,
}

/// The first of the static device properties that the device information needs and the
/// property table lacks.
pub open spec fn first_missing_property(info: Map<Seq<char>, String>) -> Option<Seq<char>> {
    if !info.dom().contains("manufacturer"@) {
        Some("manufacturer"@)
    } else if !info.dom().contains("model"@) {
        Some("model"@)
    } else if !info.dom().contains("serialnumber"@) {
        Some("serialnumber"@)
    } else if !info.dom().contains("chipset"@) {
        Some("chipset"@)
    } else if !info.dom().contains("firmwareversion"@) {
        Some("firmwareversion"@)
    } else {
        None
    }
}

/// Puts the device information together: the static properties come from the property
/// table (the firmware build is the firmware version), the rest as given. The first
/// property the table lacks is reported as an error.
pub fn device_information(
    info: &DeviceInfoMap,
    network_interfaces: Vec<NetworkInterface>,
    display_type: DisplayType,
    screen_width_pixels: u32,
    screen_height_pixels: u32,
    uptime_since: u64,
    device_id: String,
) -> (r: Result<DeviceInformation, DabError>)
    requires
        info.wf(),
    ensures
        match first_missing_property(info.spec_map()) {
            Some(p) => r matches Err(DabError::Err500(m)) && m@ == "No match for property "@ + p + "."@,
            None => r matches Ok(d) && {
                &&& d.manufacturer@ == info.spec_map()["manufacturer"@]@
                &&& d.model@ == info.spec_map()["model"@]@
                &&& d.serial_number@ == info.spec_map()["serialnumber"@]@
                &&& d.chipset@ == info.spec_map()["chipset"@]@
                &&& d.firmware_version@ == info.spec_map()["firmwareversion"@]@
                &&& d.firmware_build@ == info.spec_map()["firmwareversion"@]@
                &&& d.network_interfaces@ == network_interfaces@
                &&& d.display_type == display_type
                &&& d.screen_width_pixels == screen_width_pixels
                &&& d.screen_height_pixels == screen_height_pixels
                &&& d.uptime_since == uptime_since
                &&& d.device_id@ == device_id@
            },
        },
{
    let manufacturer = get_rdk_device_info(info, "manufacturer")?;
    let model = get_rdk_device_info(info, "model")?;
    let serial_number = get_rdk_device_info(info, "serialnumber")?;
    let chipset = get_rdk_device_info(info, "chipset")?;
    let firmware_version = get_rdk_device_info(info, "firmwareversion")?;
    let firmware_build = get_rdk_device_info(info, "firmwareversion")?;
    Ok(DeviceInformation {
        manufacturer,
        model,
        serial_number,
        chipset,
        firmware_version,
        firmware_build,
        network_interfaces,
        display_type,
        screen_width_pixels,
        screen_height_pixels,
        uptime_since,
        device_id,
    })
}

} // verus!

verus! {

/// Whether a DNS server was reported and is not empty.
pub open spec fn reported(d: Option<String>) -> bool {
    d matches Some(s) && s@.len() > 0
}

/// The DNS list of a network interface holds every reported DNS server that is not
/// empty, the primary before the secondary, and nothing else: its length is the number
/// of such servers.
pub proof fn law_dns_servers_all_reported(primary: Option<String>, secondary: Option<String>)
    ensures
        dns_servers(primary, secondary).len() == (if reported(primary) { 1int } else { 0 })
            + (if reported(secondary) { 1int } else { 0 }),
        reported(primary) ==> dns_servers(primary, secondary)[0] == primary.unwrap()@,
        reported(secondary) ==> dns_servers(primary, secondary).last() == secondary.unwrap()@,
        forall|i: int| 0 <= i < dns_servers(primary, secondary).len() ==> (#[trigger] dns_servers(primary, secondary)[i]).len() > 0,
{
}

} // verus!
