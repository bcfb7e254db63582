//! Device configuration: the key map, app lifecycle timeouts and the settings file.
use vstd::prelude::*;
use vstd::string::*;
use crate::dab::{AudioVolume, DabError};
use crate::table::{Table, entries_map, keys_distinct, views};
use crate::text::join3;

verus! {

/// What became of an optional configuration file.
pub enum ConfigFile<T> {
    /// The file could not be opened or read (most often: it is not there).
    Unreadable,
    /// The file was read but its content is not the expected JSON.
    Malformed,
    /// The file was read and parsed.
    Parsed(T),
}

/// The settings given when the adapter starts.
pub struct Configuration {
    pub device_address: String,
    pub debug: bool,
}

impl Configuration {
    /// Settings for the device at `device_ip`, with debug output on or off.
    pub fn new(device_ip: &str, debug: bool) -> (c: Self)
        ensures
            c.device_address@ == device_ip@,
            c.debug == debug,
    {
        Configuration { device_address: String::from_str(device_ip), debug: debug }
    }
}

/// The address (host name or IP) of the device.
pub fn get_ip_address(settings: &Configuration) -> (r: String)
    ensures
        r@ == settings.device_address@,
{
    settings.device_address.clone()
}

/// Whether debug output is on.
pub fn get_is_debug(settings: &Configuration) -> (r: bool)
    ensures
        r == settings.debug,
{
    settings.debug
}

/// The device identifier that was read from the device.
pub fn get_device_id(rdk_device_id: &String) -> (r: Result<String, DabError>)
    ensures
        r matches Ok(id) && id@ == rdk_device_id@,
{
    Ok(rdk_device_id.clone())
}

// ------------------------------------------------------------------ key map

/// Key names of DAB mapped to key codes of RDK Shell.
pub type KeyMap = Table<u16>;

/// `m` updated with each entry of `es` in turn.
pub open spec fn overlay<V>(m: Map<Seq<char>, V>, es: Seq<(String, V)>) -> Map<Seq<char>, V>
    decreases es.len(),
{
    if es.len() == 0 {
        m
    } else {
        overlay(m, es.drop_last()).insert(es.last().0@, es.last().1)
    }
}

/// The key map used when no key map file is present.
pub open spec fn default_keymap() -> Map<Seq<char>, u16> {
    Map::empty()
        .insert("KEY_POWER"@, 116u16)
        .insert("KEY_HOME"@, 36u16)
        .insert("KEY_VOLUME_UP"@, 175u16)
        .insert("KEY_VOLUME_DOWN"@, 174u16)
        .insert("KEY_MUTE"@, 173u16)
        .insert("KEY_UP"@, 38u16)
        .insert("KEY_PAGE_UP"@, 33u16)
        .insert("KEY_PAGE_DOWN"@, 34u16)
        .insert("KEY_RIGHT"@, 39u16)
        .insert("KEY_DOWN"@, 40u16)
        .insert("KEY_LEFT"@, 37u16)
        .insert("KEY_ENTER"@, 13u16)
        .insert("KEY_BACK"@, 8u16)
        .insert("KEY_PLAY"@, 13u16)
        .insert("KEY_PLAY_PAUSE"@, 227u16)
        .insert("KEY_PAUSE"@, 19u16)
        .insert("KEY_REWIND"@, 224u16)
        .insert("KEY_FAST_FORWARD"@, 223u16)
        .insert("KEY_SKIP_REWIND"@, 34u16)
        .insert("KEY_SKIP_FAST_FORWARD"@, 33u16)
        .insert("KEY_0"@, 48u16)
        .insert("KEY_1"@, 49u16)
        .insert("KEY_2"@, 50u16)
        .insert("KEY_3"@, 51u16)
        .insert("KEY_4"@, 52u16)
        .insert("KEY_5"@, 53u16)
        .insert("KEY_6"@, 54u16)
        .insert("KEY_7"@, 55u16)
        .insert("KEY_8"@, 56u16)
        .insert("KEY_9"@, 57u16)
}

/// The key map that the two optional key map files give: the first replaces the
/// default key map when it can be read, the second updates whatever the first gave.
pub open spec fn spec_keymap(
    keymap_file: ConfigFile<Vec<(String, u16)>>,
    platform_file: ConfigFile<Vec<(String, u16)>>,
) -> Map<Seq<char>, u16> {
    let base = match keymap_file {
        ConfigFile::Unreadable => default_keymap(),
        ConfigFile::Malformed => Map::empty(),
        ConfigFile::Parsed(es) => overlay(Map::empty(), es@),
    };
    match platform_file {
        ConfigFile::Parsed(es) => overlay(base, es@),
        _ => base,
    }
}

fn overlay_into<V>(t: &mut Table<V>, es: Vec<(String, V)>)
    requires
        old(t).wf(),
    ensures
        final(t).wf(),
        final(t).spec_map() == overlay(old(t).spec_map(), es@),
{
    let ghost start = t.spec_map();
    let ghost all = es@;
    let mut es = es;
    let mut rest: Vec<(String, V)> = Vec::new();
    // Take the entries from the back, then insert them front to back.
    while es.len() > 0
        invariant
            es@ + rest@.reverse() == all,
        decreases es@.len(),
    {
        let ghost before_es = es@;
        let ghost before_rest = rest@;
        let e = es.pop().unwrap();
        rest.push(e);
        assert(rest@.reverse() =~= seq![e] + before_rest.reverse());
        assert(before_es =~= es@.push(e));
    }
    assert(rest@.reverse() == all);
    let mut done: Ghost<int> = Ghost(0);
    while rest.len() > 0
        invariant
            t.wf(),
            rest@.reverse() == all.subrange(done@, all.len() as int),
            0 <= done@ <= all.len(),
            t.spec_map() == overlay(start, all.take(done@)),
        decreases rest@.len(),
    {
        let ghost before_rest = rest@;
        let e = rest.pop().unwrap();
        let ghost tail_seq = all.subrange(done@, all.len() as int);
        proof {
            assert(before_rest == rest@.push(e));
            assert(before_rest.reverse() =~= seq![e] + rest@.reverse());
            assert(tail_seq == seq![e] + rest@.reverse());
            assert(tail_seq[0] == e);
            assert(all[done@] == e);
            assert(rest@.reverse() =~= tail_seq.drop_first());
            assert(all.take(done@ + 1).drop_last() =~= all.take(done@));
        }
        t.insert(e.0, e.1);
        proof {
            done@ = done@ + 1;
            assert(tail_seq.drop_first() =~= all.subrange(done@, all.len() as int));
        }
    }
    assert(all.take(all.len() as int) =~= all);
}

fn default_keymap_table() -> (t: KeyMap)
    ensures
        t.wf(),
        t.spec_map() == default_keymap(),
{
    let mut t: KeyMap = Table::new();
    t.insert(String::from_str("KEY_POWER"), 116);
    t.insert(String::from_str("KEY_HOME"), 36);
    t.insert(String::from_str("KEY_VOLUME_UP"), 175);
    t.insert(String::from_str("KEY_VOLUME_DOWN"), 174);
    t.insert(String::from_str("KEY_MUTE"), 173);
    t.insert(String::from_str("KEY_UP"), 38);
    t.insert(String::from_str("KEY_PAGE_UP"), 33);
    t.insert(String::from_str("KEY_PAGE_DOWN"), 34);
    t.insert(String::from_str("KEY_RIGHT"), 39);
    t.insert(String::from_str("KEY_DOWN"), 40);
    t.insert(String::from_str("KEY_LEFT"), 37);
    t.insert(String::from_str("KEY_ENTER"), 13);
    t.insert(String::from_str("KEY_BACK"), 8);
    t.insert(String::from_str("KEY_PLAY"), 13);
    t.insert(String::from_str("KEY_PLAY_PAUSE"), 227);
    t.insert(String::from_str("KEY_PAUSE"), 19);
    t.insert(String::from_str("KEY_REWIND"), 224);
    t.insert(String::from_str("KEY_FAST_FORWARD"), 223);
    t.insert(String::from_str("KEY_SKIP_REWIND"), 34);
    t.insert(String::from_str("KEY_SKIP_FAST_FORWARD"), 33);
    t.insert(String::from_str("KEY_0"), 48);
    t.insert(String::from_str("KEY_1"), 49);
    t.insert(String::from_str("KEY_2"), 50);
    t.insert(String::from_str("KEY_3"), 51);
    t.insert(String::from_str("KEY_4"), 52);
    t.insert(String::from_str("KEY_5"), 53);
    t.insert(String::from_str("KEY_6"), 54);
    t.insert(String::from_str("KEY_7"), 55);
    t.insert(String::from_str("KEY_8"), 56);
    t.insert(String::from_str("KEY_9"), 57);
    t
}

/// Builds the key map from what became of the key map file and the platform key map file.
pub fn keymap_from_files(
    keymap_file: ConfigFile<Vec<(String, u16)>>,
    platform_file: ConfigFile<Vec<(String, u16)>>,
) -> (t: KeyMap)
    ensures
        t.wf(),
        t.spec_map() == spec_keymap(keymap_file, platform_file),
{
    let ghost kf = keymap_file;
    let ghost pf = platform_file;
    let mut t = match keymap_file {
        ConfigFile::Unreadable => default_keymap_table(),
        ConfigFile::Malformed => Table::new(),
        ConfigFile::Parsed(es) => {
            let mut t: KeyMap = Table::new();
            overlay_into(&mut t, es);
            t
        },
    };
    match platform_file {
        ConfigFile::Parsed(es) => {
            overlay_into(&mut t, es);
        },
        _ => {},
    }
    t
}

/// The key names of the key map, each once.
pub fn get_rdk_keys(keymap: &KeyMap) -> (r: Vec<String>)
    requires
        keymap.wf(),
    ensures
        views(r@).no_duplicates(),
        forall|k: Seq<char>| #[trigger] keymap.spec_map().dom().contains(k) <==> views(r@).contains(k),
{
    keymap.keys()
}

/// The RDK key code of the DAB key `keyname`, if the key map has it.
pub fn get_keycode(keymap: &KeyMap, keyname: String) -> (r: Option<u16>)
    requires
        keymap.wf(),
    ensures
        r == (if keymap.spec_map().dom().contains(keyname@) {
            Some(keymap.spec_map()[keyname@])
        } else {
            None::<u16>
        }),
{
    match keymap.get(keyname.as_str()) {
        Some(k) => Some(*k),
        None => None,
    }
}


/// What `serde_json::from_str::<HashMap<String, u16>>` reads from a key map file: the key
/// names with their codes (the last one given where a name is given twice); `None` where
/// the text is not such a JSON object.
pub uninterp spec fn keymap_json(text: Seq<char>) -> Option<Map<Seq<char>, u16>>;

/// Calls `serde_json::from_str::<HashMap<String, u16>>` on the text of a key map file and
/// lists the map's entries; the map they denote is named `keymap_json` of the text.
#[verifier::external_body]
fn parse_keymap(text: &str) -> (r: Option<Vec<(String, u16)>>)
    ensures
        match keymap_json(text@) {
            Some(m) => r matches Some(v) && keys_distinct(v@) && entries_map(v@) == m,
            None => r is None,
        },
{
    serde_json::from_str::<std::collections::HashMap<String, u16>>(text).ok().map(|m| m.into_iter().collect())
}

/// The key map that the texts of the two optional key map files give (`None` where a file
/// cannot be read): the first replaces the default key map when it can be read (and
/// leaves none when it is not a key map), the second updates whatever the first gave when
/// it is a key map.
pub open spec fn spec_keymap_texts(keymap_text: Option<String>, platform_text: Option<String>) -> Map<Seq<char>, u16> {
    let base = match keymap_text {
        None => default_keymap(),
        Some(t) => match keymap_json(t@) {
            Some(m) => m,
            None => Map::empty(),
        },
    };
    match platform_text {
        Some(t) => match keymap_json(t@) {
            Some(m) => base.union_prefer_right(m),
            None => base,
        },
        None => base,
    }
}

proof fn lemma_overlay_is_union<V>(m: Map<Seq<char>, V>, es: Seq<(String, V)>)
    ensures
        overlay(m, es) == m.union_prefer_right(entries_map(es)),
    decreases es.len(),
{
    if es.len() == 0 {
        assert(m.union_prefer_right(entries_map(es)) =~= m);
    } else {
        lemma_overlay_is_union(m, es.drop_last());
        assert(m.union_prefer_right(entries_map(es)) =~=
            m.union_prefer_right(entries_map(es.drop_last())).insert(es.last().0@, es.last().1));
    }
}

fn keymap_file(text: Option<String>) -> (r: ConfigFile<Vec<(String, u16)>>)
    ensures
        match text {
            None => r is Unreadable,
            Some(t) => match keymap_json(t@) {
                Some(m) => r matches ConfigFile::Parsed(v) && entries_map(v@) == m,
                None => r is Malformed,
            },
        },
{
    match text {
        None => ConfigFile::Unreadable,
        Some(t) => match parse_keymap(t.as_str()) {
            Some(v) => ConfigFile::Parsed(v),
            None => ConfigFile::Malformed,
        },
    }
}

/// Builds the key map from the texts of the key map file and the platform key map file,
/// `None` for a file that cannot be read.
pub fn get_keymap(keymap_text: Option<String>, platform_text: Option<String>) -> (t: KeyMap)
    ensures
        t.wf(),
        t.spec_map() == spec_keymap_texts(keymap_text, platform_text),
{
    let kf = keymap_file(keymap_text);
    let pf = keymap_file(platform_text);
    let ghost gk = kf;
    let ghost gp = pf;
    proof {
        let base = match gk {
            ConfigFile::Unreadable => default_keymap(),
            ConfigFile::Malformed => Map::<Seq<char>, u16>::empty(),
            ConfigFile::Parsed(es) => overlay(Map::empty(), es@),
        };
        match gk {
            ConfigFile::Parsed(es) => {
                lemma_overlay_is_union(Map::<Seq<char>, u16>::empty(), es@);
                assert(Map::<Seq<char>, u16>::empty().union_prefer_right(entries_map(es@)) =~= entries_map(es@));
            },
            _ => {},
        }
        match gp {
            ConfigFile::Parsed(es) => {
                lemma_overlay_is_union(base, es@);
            },
            _ => {},
        }
    }
    keymap_from_files(kf, pf)
}

} // verus!

verus! {

// ------------------------------------------------------------------ lifecycle timeouts

/// How long an app takes, in milliseconds, to settle after a lifecycle change.
#[derive(Clone, Copy, Debug, PartialEq, Eq, Structural)]
pub struct AppTimeouts {
    pub cold_launch_timeout_ms: u64,
    pub resume_launch_timeout_ms: u64,
    pub exit_to_destroy_timeout_ms: u64,
    pub exit_to_background_timeout_ms: u64,
}

/// Lifecycle timeouts by app name.
pub type AppTimeoutMap = Table<AppTimeouts>;

/// The apps whose lifecycle timeouts the platform file may set.
pub open spec fn timeouts_configurable(app: Seq<char>) -> bool {
    app == "youtube"@ || app == "netflix"@ || app == "primevideo"@ || app == "uk.co.bbc.iplayer"@
}

/// The timeouts used for YouTube when no platform file says otherwise.
pub open spec fn youtube_default_timeouts() -> AppTimeouts {
    AppTimeouts {
        cold_launch_timeout_ms: 6000,
        resume_launch_timeout_ms: 3000,
        exit_to_destroy_timeout_ms: 2500,
        exit_to_background_timeout_ms: 2000,
    }
}

/// `m` updated with those entries of `es` whose app may be configured.
pub open spec fn overlay_configurable(m: Map<Seq<char>, AppTimeouts>, es: Seq<(String, AppTimeouts)>)
    -> Map<Seq<char>, AppTimeouts>
    decreases es.len(),
{
    if es.len() == 0 {
        m
    } else if timeouts_configurable(es.last().0@) {
        overlay_configurable(m, es.drop_last()).insert(es.last().0@, es.last().1)
    } else {
        overlay_configurable(m, es.drop_last())
    }
}

/// The lifecycle timeouts that the optional platform file gives.
pub open spec fn spec_app_timeouts(file: ConfigFile<Vec<(String, AppTimeouts)>>) -> Map<Seq<char>, AppTimeouts> {
    let base = Map::empty().insert("youtube"@, youtube_default_timeouts());
    match file {
        ConfigFile::Parsed(es) => overlay_configurable(base, es@),
        _ => base,
    }
}

fn is_configurable_app(app: &String) -> (r: bool)
    ensures
        r == timeouts_configurable(app@),
{
    *app == String::from_str("youtube") || *app == String::from_str("netflix")
        || *app == String::from_str("primevideo") || *app == String::from_str("uk.co.bbc.iplayer")
}

/// Builds the lifecycle timeouts: YouTube's defaults, updated by the platform file
/// for the apps it may configure.
pub fn get_app_timeouts(file: ConfigFile<Vec<(String, AppTimeouts)>>) -> (t: AppTimeoutMap)
    ensures
        t.wf(),
        t.spec_map() == spec_app_timeouts(file),
{
    let mut t: AppTimeoutMap = Table::new();
    t.insert(String::from_str("youtube"), AppTimeouts {
        cold_launch_timeout_ms: 6000,
        resume_launch_timeout_ms: 3000,
        exit_to_destroy_timeout_ms: 2500,
        exit_to_background_timeout_ms: 2000,
    });
    match file {
        ConfigFile::Parsed(es) => {
            let ghost start = t.spec_map();
            let ghost all = es@;
            let mut i: usize = 0;
            assert(all.take(0) =~= Seq::<(String, AppTimeouts)>::empty());
            while i < es.len()
                invariant
                    t.wf(),
                    all == es@,
                    i <= es@.len(),
                    t.spec_map() == overlay_configurable(start, all.take(i as int)),
                decreases es@.len() - i,
            {
                assert(all.take(i + 1).drop_last() =~= all.take(i as int));
                if is_configurable_app(&es[i].0) {
                    t.insert(es[i].0.clone(), es[i].1);
                }
                i += 1;
            }
            assert(all.take(all.len() as int) =~= all);
        },
        _ => {},
    }
    t
}

/// The lifecycle timeout `timeout_type` of `app_name`, or 2500 ms where none is configured.
pub open spec fn spec_lifecycle_timeout(
    timeouts: Map<Seq<char>, AppTimeouts>,
    app_name: Seq<char>,
    timeout_type: Seq<char>,
) -> u64 {
    if timeouts.dom().contains(app_name) {
        let t = timeouts[app_name];
        if timeout_type == "cold_launch_timeout_ms"@ {
            t.cold_launch_timeout_ms
        } else if timeout_type == "resume_launch_timeout_ms"@ {
            t.resume_launch_timeout_ms
        } else if timeout_type == "exit_to_destroy_timeout_ms"@ {
            t.exit_to_destroy_timeout_ms
        } else if timeout_type == "exit_to_background_timeout_ms"@ {
            t.exit_to_background_timeout_ms
        } else {
            2500
        }
    } else {
        2500
    }
}

/// How long `app_name` takes to settle after the change `timeout_type`, in milliseconds;
/// 2500 where nothing is configured.
pub fn get_lifecycle_timeout(timeouts: &AppTimeoutMap, app_name: &str, timeout_type: &str) -> (r: Option<u64>)
    requires
        timeouts.wf(),
    ensures
        r == Some(spec_lifecycle_timeout(timeouts.spec_map(), app_name@, timeout_type@)),
{
    let ty = String::from_str(timeout_type);
    match timeouts.get(app_name) {
        Some(t) => {
            if ty == String::from_str("cold_launch_timeout_ms") {
                Some(t.cold_launch_timeout_ms)
            } else if ty == String::from_str("resume_launch_timeout_ms") {
                Some(t.resume_launch_timeout_ms)
            } else if ty == String::from_str("exit_to_destroy_timeout_ms") {
                Some(t.exit_to_destroy_timeout_ms)
            } else if ty == String::from_str("exit_to_background_timeout_ms") {
                Some(t.exit_to_background_timeout_ms)
            } else {
                Some(2500)
            }
        },
        None => Some(2500),
    }
}

// ------------------------------------------------------------------ settings file

/// The optional settings of the device settings file.
pub struct ConfigurationFileSettings {
    pub supported_languages: Option<Vec<String>>,
    pub audio_volume_range: Option<AudioVolume>,
}

/// The settings that the settings file gives; none where it cannot be read or parsed.
pub fn get_configuration_file_settings(file: ConfigFile<ConfigurationFileSettings>) -> (r: ConfigurationFileSettings)
    ensures
        match file {
            ConfigFile::Parsed(s) => r == s,
            _ => r.supported_languages is None && r.audio_volume_range is None,
        },
{
    match file {
        ConfigFile::Parsed(s) => s,
        _ => ConfigurationFileSettings { supported_languages: None, audio_volume_range: None },
    }
}

/// The languages the device supports: those of the settings file, or `en-US` alone.
pub fn get_supported_languages(settings: &ConfigurationFileSettings) -> (r: Vec<String>)
    ensures
        match settings.supported_languages {
            Some(l) => views(r@) == views(l@),
            None => views(r@) == seq!["en-US"@],
        },
{
    match &settings.supported_languages {
        Some(l) => {
            let mut r: Vec<String> = Vec::new();
            let mut i: usize = 0;
            while i < l.len()
                invariant
                    i <= l@.len(),
                    views(r@) == views(l@).take(i as int),
                decreases l@.len() - i,
            {
                let ghost before = r@;
                r.push(l[i].clone());
                assert(views(r@) =~= views(before).push(l@[i as int]@));
                assert(views(r@) =~= views(l@).take(i + 1));
                i += 1;
            }
            assert(views(l@).take(l@.len() as int) =~= views(l@));
            r
        },
        None => {
            let mut r: Vec<String> = Vec::new();
            r.push(String::from_str("en-US"));
            assert(views(r@) =~= seq!["en-US"@]);
            r
        },
    }
}

/// The audio volume range: that of the settings file, or 0 to 100.
pub fn get_audio_volume_range(settings: &ConfigurationFileSettings) -> (r: AudioVolume)
    ensures
        r == (match settings.audio_volume_range {
            Some(v) => v,
            None => AudioVolume { min: 0, max: 100 },
        }),
{
    match settings.audio_volume_range {
        Some(v) => v,
        None => AudioVolume { min: 0, max: 100 },
    }
}

// ------------------------------------------------------------------ device information

/// Static device properties by name (manufacturer, model, serial number, chipset, firmware).
pub type DeviceInfoMap = Table<String>;

/// The device property `propertyname`.
pub fn get_rdk_device_info(info: &DeviceInfoMap, propertyname: &str) -> (r: Result<String, DabError>)
    requires
        info.wf(),
    ensures
        info.spec_map().dom().contains(propertyname@) ==> (r matches Ok(v) && v@ == info.spec_map()[propertyname@]@),
        !info.spec_map().dom().contains(propertyname@) ==> (r matches Err(DabError::Err500(m))
            && m@ == "No match for property "@ + propertyname@ + "."@),
{
    match info.get(propertyname) {
        Some(v) => Ok(v.clone()),
        None => Err(DabError::Err500(join3("No match for property ", propertyname, "."))),
    }
}

} // verus!

verus! {

// ------------------------------------------------------------------ laws

proof fn lemma_overlay_untouched<V>(m: Map<Seq<char>, V>, es: Seq<(String, V)>, k: Seq<char>)
    requires
        forall|i: int| 0 <= i < es.len() ==> (#[trigger] es[i]).0@ != k,
    ensures
        overlay(m, es).dom().contains(k) == m.dom().contains(k),
        m.dom().contains(k) ==> overlay(m, es)[k] == m[k],
    decreases es.len(),
{
    if es.len() > 0 {
        assert(es.last() == es[es.len() - 1]);
        lemma_overlay_untouched(m, es.drop_last(), k);
    }
}

proof fn lemma_overlay_hit<V>(m: Map<Seq<char>, V>, es: Seq<(String, V)>, i: int)
    requires
        keys_distinct(es),
        0 <= i < es.len(),
    ensures
        overlay(m, es).dom().contains(es[i].0@),
        overlay(m, es)[es[i].0@] == es[i].1,
    decreases es.len(),
{
    let init = es.drop_last();
    if i < es.len() - 1 {
        assert(keys_distinct(init)) by {
            assert forall|a: int, b: int|
                0 <= a < init.len() && 0 <= b < init.len() && a != b
                implies #[trigger] init[a].0@ != #[trigger] init[b].0@ by {
                assert(init[a] == es[a] && init[b] == es[b]);
            }
        }
        assert(init[i] == es[i]);
        lemma_overlay_hit(m, init, i);
        assert(es[i].0@ != es[es.len() - 1].0@);
    }
}

/// Every entry of the platform key map file sets the code of its key, whatever the
/// key map file holds (its keys are distinct, as those of a JSON object read into a map).
pub proof fn law_platform_keymap_overrides(
    keymap_file: ConfigFile<Vec<(String, u16)>>,
    platform: Vec<(String, u16)>,
    i: int,
)
    requires
        keys_distinct(platform@),
        0 <= i < platform@.len(),
    ensures
        spec_keymap(keymap_file, ConfigFile::Parsed(platform)).dom().contains(platform@[i].0@),
        spec_keymap(keymap_file, ConfigFile::Parsed(platform))[platform@[i].0@] == platform@[i].1,
{
    let base = match keymap_file {
        ConfigFile::Unreadable => default_keymap(),
        ConfigFile::Malformed => Map::empty(),
        ConfigFile::Parsed(es) => overlay(Map::empty(), es@),
    };
    lemma_overlay_hit(base, platform@, i);
}

/// Without a key map file, every default key that the platform file does not name
/// keeps its default code.
pub proof fn law_default_keymap_when_no_file(platform_file: ConfigFile<Vec<(String, u16)>>, key: Seq<char>)
    requires
        default_keymap().dom().contains(key),
        platform_file matches ConfigFile::Parsed(es) ==> forall|i: int| 0 <= i < es@.len() ==> (#[trigger] es@[i]).0@ != key,
    ensures
        spec_keymap(ConfigFile::Unreadable, platform_file).dom().contains(key),
        spec_keymap(ConfigFile::Unreadable, platform_file)[key] == default_keymap()[key],
{
    match platform_file {
        ConfigFile::Parsed(es) => {
            lemma_overlay_untouched(default_keymap(), es@, key);
        },
        _ => {},
    }
}

/// A readable key map file replaces the default key map: a key that neither file names
/// has no code.
pub proof fn law_keymap_file_replaces_defaults(
    keymap: Vec<(String, u16)>,
    platform_file: ConfigFile<Vec<(String, u16)>>,
    key: Seq<char>,
)
    requires
        forall|i: int| 0 <= i < keymap@.len() ==> (#[trigger] keymap@[i]).0@ != key,
        platform_file matches ConfigFile::Parsed(es) ==> forall|i: int| 0 <= i < es@.len() ==> (#[trigger] es@[i]).0@ != key,
    ensures
        !spec_keymap(ConfigFile::Parsed(keymap), platform_file).dom().contains(key),
{
    lemma_overlay_untouched(Map::<Seq<char>, u16>::empty(), keymap@, key);
    match platform_file {
        ConfigFile::Parsed(es) => {
            lemma_overlay_untouched(overlay(Map::<Seq<char>, u16>::empty(), keymap@), es@, key);
        },
        _ => {},
    }
}

proof fn lemma_overlay_configurable_only(m: Map<Seq<char>, AppTimeouts>, es: Seq<(String, AppTimeouts)>, k: Seq<char>)
    requires
        !timeouts_configurable(k),
    ensures
        overlay_configurable(m, es).dom().contains(k) == m.dom().contains(k),
    decreases es.len(),
{
    if es.len() > 0 {
        lemma_overlay_configurable_only(m, es.drop_last(), k);
    }
}

/// Only YouTube, Netflix, Prime Video and BBC iPlayer ever have lifecycle timeouts: any
/// other app gets 2500 ms for every kind of timeout.
pub proof fn law_unconfigurable_app_timeout(
    file: ConfigFile<Vec<(String, AppTimeouts)>>,
    app_name: Seq<char>,
    timeout_type: Seq<char>,
)
    requires
        !timeouts_configurable(app_name),
    ensures
        spec_lifecycle_timeout(spec_app_timeouts(file), app_name, timeout_type) == 2500,
{
    let base = Map::empty().insert("youtube"@, youtube_default_timeouts());
    assert(!base.dom().contains(app_name));
    match file {
        ConfigFile::Parsed(es) => {
            lemma_overlay_configurable_only(base, es@, app_name);
        },
        _ => {},
    }
}


/// Every key that the key list reports has a key code: a key press of any listed key
/// finds its code.
pub proof fn law_listed_keys_can_be_pressed(keymap: KeyMap, listed: Seq<String>, k: int)
    requires
        keymap.wf(),
        forall|key: Seq<char>| #[trigger] keymap.spec_map().dom().contains(key) <==> views(listed).contains(key),
        0 <= k < listed.len(),
    ensures
        keymap.spec_map().dom().contains(listed[k]@),
{
    assert(views(listed)[k] == listed[k]@);
    assert(views(listed).contains(listed[k]@));
}


/// The platform key map file updates the key map: each key it names gets its code, and
/// every other key keeps what the key map file (or the default key map) gave.
pub proof fn law_platform_keymap_text_overrides(keymap_text: Option<String>, platform_text: String, key: Seq<char>)
    requires
        keymap_json(platform_text@) is Some,
    ensures
        keymap_json(platform_text@).unwrap().dom().contains(key) ==> (
            spec_keymap_texts(keymap_text, Some(platform_text)).dom().contains(key)
            && spec_keymap_texts(keymap_text, Some(platform_text))[key] == keymap_json(platform_text@).unwrap()[key]),
        !keymap_json(platform_text@).unwrap().dom().contains(key) ==> (
            spec_keymap_texts(keymap_text, Some(platform_text)).dom().contains(key)
                == spec_keymap_texts(keymap_text, None).dom().contains(key)
            && (spec_keymap_texts(keymap_text, None).dom().contains(key) ==>
                spec_keymap_texts(keymap_text, Some(platform_text))[key] == spec_keymap_texts(keymap_text, None)[key])),
{
}


/// Without key map files, each key of the default key map has its fixed RDK Shell code
/// (arrows, digits, media and volume keys as RDK Shell numbers them).
pub proof fn law_default_key_codes()
    ensures
        spec_keymap_texts(None, None).dom().contains("KEY_POWER"@) && spec_keymap_texts(None, None)["KEY_POWER"@] == 116,
        spec_keymap_texts(None, None).dom().contains("KEY_HOME"@) && spec_keymap_texts(None, None)["KEY_HOME"@] == 36,
        spec_keymap_texts(None, None).dom().contains("KEY_VOLUME_UP"@) && spec_keymap_texts(None, None)["KEY_VOLUME_UP"@] == 175,
        spec_keymap_texts(None, None).dom().contains("KEY_VOLUME_DOWN"@) && spec_keymap_texts(None, None)["KEY_VOLUME_DOWN"@] == 174,
        spec_keymap_texts(None, None).dom().contains("KEY_MUTE"@) && spec_keymap_texts(None, None)["KEY_MUTE"@] == 173,
        spec_keymap_texts(None, None).dom().contains("KEY_UP"@) && spec_keymap_texts(None, None)["KEY_UP"@] == 38,
        spec_keymap_texts(None, None).dom().contains("KEY_PAGE_UP"@) && spec_keymap_texts(None, None)["KEY_PAGE_UP"@] == 33,
        spec_keymap_texts(None, None).dom().contains("KEY_PAGE_DOWN"@) && spec_keymap_texts(None, None)["KEY_PAGE_DOWN"@] == 34,
        spec_keymap_texts(None, None).dom().contains("KEY_RIGHT"@) && spec_keymap_texts(None, None)["KEY_RIGHT"@] == 39,
        spec_keymap_texts(None, None).dom().contains("KEY_DOWN"@) && spec_keymap_texts(None, None)["KEY_DOWN"@] == 40,
        spec_keymap_texts(None, None).dom().contains("KEY_LEFT"@) && spec_keymap_texts(None, None)["KEY_LEFT"@] == 37,
        spec_keymap_texts(None, None).dom().contains("KEY_ENTER"@) && spec_keymap_texts(None, None)["KEY_ENTER"@] == 13,
        spec_keymap_texts(None, None).dom().contains("KEY_BACK"@) && spec_keymap_texts(None, None)["KEY_BACK"@] == 8,
        spec_keymap_texts(None, None).dom().contains("KEY_PLAY"@) && spec_keymap_texts(None, None)["KEY_PLAY"@] == 13,
        spec_keymap_texts(None, None).dom().contains("KEY_PLAY_PAUSE"@) && spec_keymap_texts(None, None)["KEY_PLAY_PAUSE"@] == 227,
        spec_keymap_texts(None, None).dom().contains("KEY_PAUSE"@) && spec_keymap_texts(None, None)["KEY_PAUSE"@] == 19,
        spec_keymap_texts(None, None).dom().contains("KEY_REWIND"@) && spec_keymap_texts(None, None)["KEY_REWIND"@] == 224,
        spec_keymap_texts(None, None).dom().contains("KEY_FAST_FORWARD"@) && spec_keymap_texts(None, None)["KEY_FAST_FORWARD"@] == 223,
        spec_keymap_texts(None, None).dom().contains("KEY_SKIP_REWIND"@) && spec_keymap_texts(None, None)["KEY_SKIP_REWIND"@] == 34,
        spec_keymap_texts(None, None).dom().contains("KEY_SKIP_FAST_FORWARD"@) && spec_keymap_texts(None, None)["KEY_SKIP_FAST_FORWARD"@] == 33,
        spec_keymap_texts(None, None).dom().contains("KEY_0"@) && spec_keymap_texts(None, None)["KEY_0"@] == 48,
        spec_keymap_texts(None, None).dom().contains("KEY_1"@) && spec_keymap_texts(None, None)["KEY_1"@] == 49,
        spec_keymap_texts(None, None).dom().contains("KEY_2"@) && spec_keymap_texts(None, None)["KEY_2"@] == 50,
        spec_keymap_texts(None, None).dom().contains("KEY_3"@) && spec_keymap_texts(None, None)["KEY_3"@] == 51,
        spec_keymap_texts(None, None).dom().contains("KEY_4"@) && spec_keymap_texts(None, None)["KEY_4"@] == 52,
        spec_keymap_texts(None, None).dom().contains("KEY_5"@) && spec_keymap_texts(None, None)["KEY_5"@] == 53,
        spec_keymap_texts(None, None).dom().contains("KEY_6"@) && spec_keymap_texts(None, None)["KEY_6"@] == 54,
        spec_keymap_texts(None, None).dom().contains("KEY_7"@) && spec_keymap_texts(None, None)["KEY_7"@] == 55,
        spec_keymap_texts(None, None).dom().contains("KEY_8"@) && spec_keymap_texts(None, None)["KEY_8"@] == 56,
        spec_keymap_texts(None, None).dom().contains("KEY_9"@) && spec_keymap_texts(None, None)["KEY_9"@] == 57,
{
    reveal_strlit("KEY_POWER");
    assert("KEY_POWER"@.len() == 9 && "KEY_POWER"@[4] == 'P' && "KEY_POWER"@[5] == 'O');
    reveal_strlit("KEY_HOME");
    assert("KEY_HOME"@.len() == 8 && "KEY_HOME"@[4] == 'H' && "KEY_HOME"@[5] == 'O');
    reveal_strlit("KEY_VOLUME_UP");
    assert("KEY_VOLUME_UP"@.len() == 13 && "KEY_VOLUME_UP"@[4] == 'V' && "KEY_VOLUME_UP"@[5] == 'O');
    reveal_strlit("KEY_VOLUME_DOWN");
    assert("KEY_VOLUME_DOWN"@.len() == 15 && "KEY_VOLUME_DOWN"@[4] == 'V' && "KEY_VOLUME_DOWN"@[5] == 'O');
    reveal_strlit("KEY_MUTE");
    assert("KEY_MUTE"@.len() == 8 && "KEY_MUTE"@[4] == 'M' && "KEY_MUTE"@[5] == 'U');
    reveal_strlit("KEY_UP");
    assert("KEY_UP"@.len() == 6 && "KEY_UP"@[4] == 'U' && "KEY_UP"@[5] == 'P');
    reveal_strlit("KEY_PAGE_UP");
    assert("KEY_PAGE_UP"@.len() == 11 && "KEY_PAGE_UP"@[4] == 'P' && "KEY_PAGE_UP"@[5] == 'A');
    reveal_strlit("KEY_PAGE_DOWN");
    assert("KEY_PAGE_DOWN"@.len() == 13 && "KEY_PAGE_DOWN"@[4] == 'P' && "KEY_PAGE_DOWN"@[5] == 'A');
    reveal_strlit("KEY_RIGHT");
    assert("KEY_RIGHT"@.len() == 9 && "KEY_RIGHT"@[4] == 'R' && "KEY_RIGHT"@[5] == 'I');
    reveal_strlit("KEY_DOWN");
    assert("KEY_DOWN"@.len() == 8 && "KEY_DOWN"@[4] == 'D' && "KEY_DOWN"@[5] == 'O');
    reveal_strlit("KEY_LEFT");
    assert("KEY_LEFT"@.len() == 8 && "KEY_LEFT"@[4] == 'L' && "KEY_LEFT"@[5] == 'E');
    reveal_strlit("KEY_ENTER");
    assert("KEY_ENTER"@.len() == 9 && "KEY_ENTER"@[4] == 'E' && "KEY_ENTER"@[5] == 'N');
    reveal_strlit("KEY_BACK");
    assert("KEY_BACK"@.len() == 8 && "KEY_BACK"@[4] == 'B' && "KEY_BACK"@[5] == 'A');
    reveal_strlit("KEY_PLAY");
    assert("KEY_PLAY"@.len() == 8 && "KEY_PLAY"@[4] == 'P' && "KEY_PLAY"@[5] == 'L');
    reveal_strlit("KEY_PLAY_PAUSE");
    assert("KEY_PLAY_PAUSE"@.len() == 14 && "KEY_PLAY_PAUSE"@[4] == 'P' && "KEY_PLAY_PAUSE"@[5] == 'L');
    reveal_strlit("KEY_PAUSE");
    assert("KEY_PAUSE"@.len() == 9 && "KEY_PAUSE"@[4] == 'P' && "KEY_PAUSE"@[5] == 'A');
    reveal_strlit("KEY_REWIND");
    assert("KEY_REWIND"@.len() == 10 && "KEY_REWIND"@[4] == 'R' && "KEY_REWIND"@[5] == 'E');
    reveal_strlit("KEY_FAST_FORWARD");
    assert("KEY_FAST_FORWARD"@.len() == 16 && "KEY_FAST_FORWARD"@[4] == 'F' && "KEY_FAST_FORWARD"@[5] == 'A');
    reveal_strlit("KEY_SKIP_REWIND");
    assert("KEY_SKIP_REWIND"@.len() == 15 && "KEY_SKIP_REWIND"@[4] == 'S' && "KEY_SKIP_REWIND"@[5] == 'K');
    reveal_strlit("KEY_SKIP_FAST_FORWARD");
    assert("KEY_SKIP_FAST_FORWARD"@.len() == 21 && "KEY_SKIP_FAST_FORWARD"@[4] == 'S' && "KEY_SKIP_FAST_FORWARD"@[5] == 'K');
    reveal_strlit("KEY_0");
    assert("KEY_0"@.len() == 5 && "KEY_0"@[4] == '0');
    reveal_strlit("KEY_1");
    assert("KEY_1"@.len() == 5 && "KEY_1"@[4] == '1');
    reveal_strlit("KEY_2");
    assert("KEY_2"@.len() == 5 && "KEY_2"@[4] == '2');
    reveal_strlit("KEY_3");
    assert("KEY_3"@.len() == 5 && "KEY_3"@[4] == '3');
    reveal_strlit("KEY_4");
    assert("KEY_4"@.len() == 5 && "KEY_4"@[4] == '4');
    reveal_strlit("KEY_5");
    assert("KEY_5"@.len() == 5 && "KEY_5"@[4] == '5');
    reveal_strlit("KEY_6");
    assert("KEY_6"@.len() == 5 && "KEY_6"@[4] == '6');
    reveal_strlit("KEY_7");
    assert("KEY_7"@.len() == 5 && "KEY_7"@[4] == '7');
    reveal_strlit("KEY_8");
    assert("KEY_8"@.len() == 5 && "KEY_8"@[4] == '8');
    reveal_strlit("KEY_9");
    assert("KEY_9"@.len() == 5 && "KEY_9"@[4] == '9');
    assert(spec_keymap_texts(None, None) == default_keymap());
}

} // verus!
