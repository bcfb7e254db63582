//! Key input: key presses and long key presses turned into RDK Shell key codes, and the
//! volume keys handled through the display settings.
use vstd::prelude::*;
use vstd::string::*;
use crate::configuration::{get_keycode, KeyMap};
use crate::calls::{call_is, RdkCall};
use crate::codec::{json_quote, json_quoted};
use crate::dab::DabError;
use crate::table::{views, Table};
use crate::text::{decimal, join3, str_eq, u64_to_decimal};

verus! {

/// Checks that a key request names a key.
pub fn check_key_code(key_code: &str) -> (r: Result<(), DabError>)
    ensures
        key_code@.len() > 0 ==> r is Ok,
        key_code@.len() == 0 ==> (r matches Err(DabError::Err400(m)) && m@ == "request missing 'keyCode' parameter"@),
{
    if key_code.is_empty() {
        return Err(DabError::Err400(String::from_str("request missing 'keyCode' parameter")));
    }
    Ok(())
}

/// The RDK key code of a key press; a key the key map lacks is refused.
pub fn key_press_code(keymap: &KeyMap, key_code: &str) -> (r: Result<u16, DabError>)
    requires
        keymap.wf(),
    ensures
        keymap.spec_map().dom().contains(key_code@) ==> r == Ok::<u16, DabError>(keymap.spec_map()[key_code@]),
        !keymap.spec_map().dom().contains(key_code@) ==> (r matches Err(DabError::Err400(m))
            && m@ == "keyCode not found"@),
{
    match get_keycode(keymap, String::from_str(key_code)) {
        Some(k) => Ok(k),
        None => Err(DabError::Err400(String::from_str("keyCode not found"))),
    }
}

/// The keys that change the volume rather than (only) being sent to the app.
#[derive(Clone, Copy, Debug, PartialEq, Eq, Structural)]
pub enum VolumeKey {
    Up,
    Down,
    Mute,
    Other,
}

/// Which volume key `key_code` is.
pub fn volume_key(key_code: &str) -> (r: VolumeKey)
    ensures
        r == (if key_code@ == "KEY_VOLUME_UP"@ {
            VolumeKey::Up
        } else if key_code@ == "KEY_VOLUME_DOWN"@ {
            VolumeKey::Down
        } else if key_code@ == "KEY_MUTE"@ {
            VolumeKey::Mute
        } else {
            VolumeKey::Other
        }),
{
    if str_eq(key_code, "KEY_VOLUME_UP") {
        VolumeKey::Up
    } else if str_eq(key_code, "KEY_VOLUME_DOWN") {
        VolumeKey::Down
    } else if str_eq(key_code, "KEY_MUTE") {
        VolumeKey::Mute
    } else {
        VolumeKey::Other
    }
}

/// How much a volume key changes the volume.
pub const VOLUME_STEP: u32 = 5;

/// The volume used when the current one cannot be read.
pub const FALLBACK_VOLUME: u32 = 50;

/// The volume a volume key starts from: the current one, or the fallback where it could
/// not be read.
pub open spec fn starting_volume(current: Option<u32>) -> int {
    match current {
        Some(c) => c as int,
        None => FALLBACK_VOLUME as int,
    }
}

/// One volume step up from `c`, at most 100.
pub open spec fn volume_up(c: int) -> int {
    if c + 5 < 100 { c + 5 } else { 100 }
}

/// One volume step down from `c`, at least 0.
pub open spec fn volume_down(c: int) -> int {
    if c >= 5 { c - 5 } else { 0 }
}

/// The volume after a volume key, from the current volume (`None` where it could not be
/// read): up by one step, at most 100; down by one step, at least 0.
pub fn volume_after_key(key: VolumeKey, current: Option<u32>) -> (r: u32)
    requires
        key == VolumeKey::Up || key == VolumeKey::Down,
        current matches Some(c) ==> c + VOLUME_STEP <= u32::MAX,
    ensures
        key == VolumeKey::Up ==> r == volume_up(starting_volume(current)),
        key == VolumeKey::Down ==> r == volume_down(starting_volume(current)),
{
    let c = match current {
        Some(c) => c,
        None => FALLBACK_VOLUME,
    };
    match key {
        VolumeKey::Up => {
            let v = c + VOLUME_STEP;
            if v < 100 { v } else { 100 }
        },
        _ => {
            if c >= VOLUME_STEP { c - VOLUME_STEP } else { 0 }
        },
    }
}

/// The mute state after the mute key, from the current one (`None` where it could not
/// be read, taken as not muted).
pub fn mute_after_key(current: Option<bool>) -> (r: bool)
    ensures
        r == !(match current { Some(m) => m, None => false }),
{
    match current {
        Some(m) => !m,
        None => true,
    }
}

/// A volume key undoes the other: within the range where neither step is cut off at 0
/// or 100, one step up then one step down (or down then up) gives back the volume.
pub proof fn law_volume_steps_undo(c: int)
    requires
        0 <= c <= 100,
    ensures
        c <= 95 ==> volume_down(volume_up(c)) == c,
        c >= 5 ==> volume_up(volume_down(c)) == c,
{
}

// ------------------------------------------------------------------ long key press

/// The least time, in milliseconds, one injection of a long key press takes.
pub const KEY_REPEAT_INTERVAL_MS: u64 = 50;

/// The RDK key code of a long key press; the request must name a key and a duration,
/// and the key map must have the key.
pub fn long_key_press_code(keymap: &KeyMap, key_code: &str, duration_ms: u32) -> (r: Result<u16, DabError>)
    requires
        keymap.wf(),
    ensures
        key_code@.len() == 0 ==> (r matches Err(DabError::Err400(m)) && m@ == "request missing 'keyCode' parameter"@),
        key_code@.len() > 0 && duration_ms == 0 ==> (r matches Err(DabError::Err400(m))
            && m@ == "request missing 'durationMs' parameter"@),
        key_code@.len() > 0 && duration_ms > 0 ==> (if keymap.spec_map().dom().contains(key_code@) {
            r == Ok::<u16, DabError>(keymap.spec_map()[key_code@])
        } else {
            r matches Err(DabError::Err400(m)) && m@ == "keyCode' not found"@
        }),
{
    check_key_code(key_code)?;
    if duration_ms == 0 {
        return Err(DabError::Err400(String::from_str("request missing 'durationMs' parameter")));
    }
    match get_keycode(keymap, String::from_str(key_code)) {
        Some(k) => Ok(k),
        None => Err(DabError::Err400(String::from_str("keyCode' not found"))),
    }
}

/// The progress of a long key press: the key is injected again until the time spent
/// reaches the duration asked for.
pub struct LongKeyPress {
    pub elapsed_ms: u32,
    pub total_ms: u32,
}

impl LongKeyPress {
    /// A long key press of `total_ms` milliseconds that has not started.
    pub fn new(total_ms: u32) -> (p: Self)
        ensures
            p.elapsed_ms == 0,
            p.total_ms == total_ms,
    {
        LongKeyPress { elapsed_ms: 0, total_ms }
    }

    /// Whether the key is to be injected once more.
    pub fn keep_pressing(&self) -> (r: bool)
        ensures
            r == (self.elapsed_ms < self.total_ms),
    {
        self.elapsed_ms < self.total_ms
    }

    /// The pause that makes an injection that took `injection_ms` last the repeat interval.
    pub fn pause_ms(injection_ms: u128) -> (r: Option<u64>)
        ensures
            injection_ms < KEY_REPEAT_INTERVAL_MS ==> r == Some((KEY_REPEAT_INTERVAL_MS - injection_ms) as u64),
            injection_ms >= KEY_REPEAT_INTERVAL_MS ==> r is None,
    {
        if injection_ms < KEY_REPEAT_INTERVAL_MS as u128 {
            Some(KEY_REPEAT_INTERVAL_MS - injection_ms as u64)
        } else {
            None
        }
    }

    /// Counts an injection that took `iteration_ms` milliseconds, pause included (the
    /// count keeps the low 32 bits of it, as the time is kept in 32 bits).
    pub fn record(&mut self, iteration_ms: u128)
        requires
            old(self).elapsed_ms + (iteration_ms as u32) <= u32::MAX,
        ensures
            final(self).total_ms == old(self).total_ms,
            final(self).elapsed_ms == old(self).elapsed_ms + (iteration_ms as u32),
    {
        self.elapsed_ms = self.elapsed_ms + iteration_ms as u32;
    }
}

} // verus!

verus! {

// ------------------------------------------------------------------ the first key interface

/// The key codes of the first key interface, which injects keys through
/// `org.rdk.RDKShell.injectKey`.
pub open spec fn legacy_keycodes() -> Map<Seq<char>, u32> {
    Map::empty()
        .insert("KEY_POWER"@, 112u32)
        .insert("KEY_VOLUME_UP"@, 175u32)
        .insert("KEY_VOLUME_DOWN"@, 174u32)
        .insert("KEY_MUTE"@, 173u32)
        .insert("KEY_CHANNEL_UP"@, 175u32)
        .insert("KEY_CHANNEL_DOWN"@, 174u32)
        .insert("KEY_MENU"@, 0u32)
        .insert("KEY_EXIT"@, 36u32)
        .insert("KEY_INFO"@, 0u32)
        .insert("KEY_GUIDE"@, 0u32)
        .insert("KEY_UP"@, 38u32)
        .insert("KEY_PAGE_UP"@, 0u32)
        .insert("KEY_PAGE_DOWN"@, 0u32)
        .insert("KEY_RIGHT"@, 39u32)
        .insert("KEY_DOWN"@, 40u32)
        .insert("KEY_LEFT"@, 37u32)
        .insert("KEY_ENTER"@, 13u32)
        .insert("KEY_BACK"@, 0u32)
        .insert("KEY_PLAY"@, 0u32)
        .insert("KEY_PLAY_PAUSE"@, 0u32)
        .insert("KEY_PAUSE"@, 0u32)
        .insert("KEY_RECORD"@, 0u32)
        .insert("KEY_STOP"@, 0u32)
        .insert("KEY_REWIND"@, 0u32)
        .insert("KEY_FAST_FORWARD"@, 0u32)
        .insert("KEY_SKIP_REWIND"@, 0u32)
        .insert("KEY_SKIP_FAST_FORWARD"@, 0u32)
        .insert("KEY_0"@, 48u32)
        .insert("KEY_1"@, 49u32)
        .insert("KEY_2"@, 50u32)
        .insert("KEY_3"@, 51u32)
        .insert("KEY_4"@, 52u32)
        .insert("KEY_5"@, 53u32)
        .insert("KEY_6"@, 54u32)
        .insert("KEY_7"@, 55u32)
        .insert("KEY_8"@, 56u32)
        .insert("KEY_9"@, 57u32)
}

/// The RDK key code of a key of the first key interface; the key must be one it has.
pub fn keycode_str_to_ui32(keycode: String) -> (r: u32)
    requires
        legacy_keycodes().dom().contains(keycode@),
    ensures
        r == legacy_keycodes()[keycode@],
{
    let mut t: Table<u32> = Table::new();
    t.insert(String::from_str("KEY_POWER"), 112);
    t.insert(String::from_str("KEY_VOLUME_UP"), 175);
    t.insert(String::from_str("KEY_VOLUME_DOWN"), 174);
    t.insert(String::from_str("KEY_MUTE"), 173);
    t.insert(String::from_str("KEY_CHANNEL_UP"), 175);
    t.insert(String::from_str("KEY_CHANNEL_DOWN"), 174);
    t.insert(String::from_str("KEY_MENU"), 0);
    t.insert(String::from_str("KEY_EXIT"), 36);
    t.insert(String::from_str("KEY_INFO"), 0);
    t.insert(String::from_str("KEY_GUIDE"), 0);
    t.insert(String::from_str("KEY_UP"), 38);
    t.insert(String::from_str("KEY_PAGE_UP"), 0);
    t.insert(String::from_str("KEY_PAGE_DOWN"), 0);
    t.insert(String::from_str("KEY_RIGHT"), 39);
    t.insert(String::from_str("KEY_DOWN"), 40);
    t.insert(String::from_str("KEY_LEFT"), 37);
    t.insert(String::from_str("KEY_ENTER"), 13);
    t.insert(String::from_str("KEY_BACK"), 0);
    t.insert(String::from_str("KEY_PLAY"), 0);
    t.insert(String::from_str("KEY_PLAY_PAUSE"), 0);
    t.insert(String::from_str("KEY_PAUSE"), 0);
    t.insert(String::from_str("KEY_RECORD"), 0);
    t.insert(String::from_str("KEY_STOP"), 0);
    t.insert(String::from_str("KEY_REWIND"), 0);
    t.insert(String::from_str("KEY_FAST_FORWARD"), 0);
    t.insert(String::from_str("KEY_SKIP_REWIND"), 0);
    t.insert(String::from_str("KEY_SKIP_FAST_FORWARD"), 0);
    t.insert(String::from_str("KEY_0"), 48);
    t.insert(String::from_str("KEY_1"), 49);
    t.insert(String::from_str("KEY_2"), 50);
    t.insert(String::from_str("KEY_3"), 51);
    t.insert(String::from_str("KEY_4"), 52);
    t.insert(String::from_str("KEY_5"), 53);
    t.insert(String::from_str("KEY_6"), 54);
    t.insert(String::from_str("KEY_7"), 55);
    t.insert(String::from_str("KEY_8"), 56);
    t.insert(String::from_str("KEY_9"), 57);
    *t.get(keycode.as_str()).unwrap()
}

/// The keys the first key interface lists, in the order it lists them.
pub open spec fn legacy_key_names() -> Seq<Seq<char>> {
    seq![
        "KEY_POWER"@,
        "KEY_VOLUME_UP"@,
        "KEY_VOLUME_DOWN"@,
        "KEY_MUTE"@,
        "KEY_CHANNEL_UP"@,
        "KEY_CHANNEL_DOWN"@,
        "KEY_MENU"@,
        "KEY_EXIT"@,
        "KEY_INFO"@,
        "KEY_GUIDE"@,
        "KEY_UP"@,
        "KEY_PAGE_UP"@,
        "KEY_PAGE_DOWN"@,
        "KEY_RIGHT"@,
        "KEY_DOWN"@,
        "KEY_LEFT"@,
        "KEY_ENTER"@,
        "KEY_BACK"@,
        "KEY_PLAY"@,
        "KEY_PLAY_PAUSE"@,
        "KEY_PAUSE"@,
        "KEY_RECORD"@,
        "KEY_STOP"@,
        "KEY_REWIND"@,
        "KEY_FAST_FORWARD"@,
        "KEY_SKIP_REWIND"@,
        "KEY_SKIP_FAST_FORWARD"@,
        "KEY_0"@,
        "KEY_1"@,
        "KEY_2"@,
        "KEY_3"@,
        "KEY_4"@,
        "KEY_5"@,
        "KEY_6"@,
        "KEY_7"@,
        "KEY_8"@,
        "KEY_9"@,
    ]
}

fn push_name(v: &mut Vec<String>, name: &str)
    ensures
        views(final(v)@) == views(old(v)@).push(name@),
{
    v.push(String::from_str(name));
    assert(views(final(v)@) =~= views(old(v)@).push(name@));
}

/// The parameters of a key injection of the first key interface.
#[allow(non_snake_case)]
pub struct Params {
    pub keyCode: u32,
    pub modifiers: String,
}

/// A key injection request of the first key interface.
pub struct Request {
    pub jsonrpc: String,
    pub id: u64,
    pub method: String,
    pub params: Params,
}

/// The key injection request for a key press of the first key interface: a press that
/// names no key is refused.
pub fn key_press_request(key_code: Option<String>, id: u64) -> (r: Result<Request, DabError>)
    requires
        key_code matches Some(k) ==> legacy_keycodes().dom().contains(k@),
    ensures
        match key_code {
            None => r matches Err(DabError::Err400(m)) && m@ == "request missing 'keyCode' parameter"@,
            Some(k) => r matches Ok(q) && q.jsonrpc@ == "2.0"@ && q.id == id
                && q.method@ == "org.rdk.RDKShell.injectKey"@
                && q.params.keyCode == legacy_keycodes()[k@] && q.params.modifiers@ == Seq::<char>::empty(),
        },
{
    match key_code {
        None => Err(DabError::Err400(String::from_str("request missing 'keyCode' parameter"))),
        Some(k) => Ok(Request {
            jsonrpc: String::from_str("2.0"),
            id,
            method: String::from_str("org.rdk.RDKShell.injectKey"),
            params: Params { keyCode: keycode_str_to_ui32(k), modifiers: String::new() },
        }),
    }
}

/// The answer to a key list request of the first key interface.
#[allow(non_snake_case)]
pub struct Response {
    pub status: u16,
    pub keyCodes: Vec<String>,
}

/// The key list of the first key interface: status 200 and its keys.
pub fn key_list_response() -> (r: Response)
    ensures
        r.status == 200,
        views(r.keyCodes@) == legacy_key_names(),
{
    let mut v: Vec<String> = Vec::new();
    assert(views(v@) =~= Seq::<Seq<char>>::empty());
    push_name(&mut v, "KEY_POWER");
    push_name(&mut v, "KEY_VOLUME_UP");
    push_name(&mut v, "KEY_VOLUME_DOWN");
    push_name(&mut v, "KEY_MUTE");
    push_name(&mut v, "KEY_CHANNEL_UP");
    push_name(&mut v, "KEY_CHANNEL_DOWN");
    push_name(&mut v, "KEY_MENU");
    push_name(&mut v, "KEY_EXIT");
    push_name(&mut v, "KEY_INFO");
    push_name(&mut v, "KEY_GUIDE");
    push_name(&mut v, "KEY_UP");
    push_name(&mut v, "KEY_PAGE_UP");
    push_name(&mut v, "KEY_PAGE_DOWN");
    push_name(&mut v, "KEY_RIGHT");
    push_name(&mut v, "KEY_DOWN");
    push_name(&mut v, "KEY_LEFT");
    push_name(&mut v, "KEY_ENTER");
    push_name(&mut v, "KEY_BACK");
    push_name(&mut v, "KEY_PLAY");
    push_name(&mut v, "KEY_PLAY_PAUSE");
    push_name(&mut v, "KEY_PAUSE");
    push_name(&mut v, "KEY_RECORD");
    push_name(&mut v, "KEY_STOP");
    push_name(&mut v, "KEY_REWIND");
    push_name(&mut v, "KEY_FAST_FORWARD");
    push_name(&mut v, "KEY_SKIP_REWIND");
    push_name(&mut v, "KEY_SKIP_FAST_FORWARD");
    push_name(&mut v, "KEY_0");
    push_name(&mut v, "KEY_1");
    push_name(&mut v, "KEY_2");
    push_name(&mut v, "KEY_3");
    push_name(&mut v, "KEY_4");
    push_name(&mut v, "KEY_5");
    push_name(&mut v, "KEY_6");
    push_name(&mut v, "KEY_7");
    push_name(&mut v, "KEY_8");
    push_name(&mut v, "KEY_9");
    Response { status: 200, keyCodes: v }
}

/// Every key that the first key interface lists has a key code there, and it lists every
/// key it has a code for.
pub proof fn law_legacy_listed_keys_have_codes()
    ensures
        forall|k: Seq<char>| legacy_key_names().contains(k) <==> #[trigger] legacy_keycodes().dom().contains(k),
{
    assert forall|k: Seq<char>| legacy_key_names().contains(k) implies #[trigger] legacy_keycodes().dom().contains(k) by {
        let i = choose|i: int| 0 <= i < legacy_key_names().len() && legacy_key_names()[i] == k;
        assert(legacy_keycodes().dom().contains(legacy_key_names()[i]));
    }
    assert forall|k: Seq<char>| #[trigger] legacy_keycodes().dom().contains(k) implies legacy_key_names().contains(k) by {
        if !legacy_key_names().contains(k) {
            assert(forall|i: int| 0 <= i < legacy_key_names().len() ==> legacy_key_names()[i] != k);
        }
    }
}

} // verus!

verus! {

// ------------------------------------------------------------------ key injection calls

/// The call that injects a key press into the app in focus.
pub fn inject_key_call(key_code: u16) -> (r: RdkCall)
    ensures
        call_is(r, "org.rdk.RDKShell.1.injectKey"@,
            "{\"keyCode\":"@ + decimal(key_code as nat) + ",\"modifiers\":[]}"@),
{
    let p = join3("{\"keyCode\":", u64_to_decimal(key_code as u64).as_str(), ",\"modifiers\":[]}");
    RdkCall { method: String::from_str("org.rdk.RDKShell.1.injectKey"), params: Some(p) }
}

/// The call that injects one repetition of a long key press.
pub fn long_press_inject_call(key_code: u16) -> (r: RdkCall)
    ensures
        call_is(r, "org.rdk.RDKShell.1.injectKey"@, "{\"keyCode\":"@ + decimal(key_code as nat) + "}"@),
{
    let p = join3("{\"keyCode\":", u64_to_decimal(key_code as u64).as_str(), "}");
    RdkCall { method: String::from_str("org.rdk.RDKShell.1.injectKey"), params: Some(p) }
}

/// The call that sends a key straight to the app `client`, past the platform's own key
/// handling.
pub fn generate_key_call(key_code: u16, client: &str) -> (r: RdkCall)
    ensures
        call_is(r, "org.rdk.RDKShell.1.generateKey"@,
            "{\"keys\":[{\"keyCode\":"@ + decimal(key_code as nat) + ",\"modifiers\":[],\"delay\":0.0,\"client\":"@
                + json_quoted(client@) + "}]}"@),
{
    let p = join3("{\"keys\":[{\"keyCode\":", u64_to_decimal(key_code as u64).as_str(),
        ",\"modifiers\":[],\"delay\":0.0,\"client\":");
    let p = join3(p.as_str(), json_quote(client).as_str(), "}]}");
    RdkCall { method: String::from_str("org.rdk.RDKShell.1.generateKey"), params: Some(p) }
}

} // verus!
