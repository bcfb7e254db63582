//! Application lifecycle: app states of RDK Shell read as DAB states, and the RDK Shell
//! calls that launching and exiting an app take.
use vstd::prelude::*;
use vstd::string::*;
use crate::calls::{call_is, json_bool, RdkCall};
use crate::codec::{join_with, joined, json_quote, json_quoted, url_decode, url_decoded};
use crate::dab::DabError;
use crate::table::views;
use crate::text::{join2, join3, join5, lowercase, str_eq, to_lowercase};

verus! {

/// DAB application states: an app that does not run is stopped; a running app is in the
/// foreground when it is visible and focused, else in the background.
#[derive(Clone, Copy, Debug, PartialEq, Eq, Structural)]
pub enum DABAppState {
    Stopped,
    Background,
    Foreground,
}

/// The name of a DAB application state.
pub open spec fn app_state_name(s: DABAppState) -> Seq<char> {
    match s {
        DABAppState::Stopped => "STOPPED"@,
        DABAppState::Background => "BACKGROUND"@,
        DABAppState::Foreground => "FOREGROUND"@,
    }
}

impl DABAppState {
    /// The name of the state.
    pub fn as_str(&self) -> (r: &'static str)
        ensures
            r@ == app_state_name(*self),
    {
        match *self {
            DABAppState::Stopped => "STOPPED",
            DABAppState::Background => "BACKGROUND",
            DABAppState::Foreground => "FOREGROUND",
        }
    }
}

/// One entry of the answer of `org.rdk.RDKShell.getState`.
pub struct AppStateEntry {
    pub callsign: String,
    pub state: String,
}

/// What the RDK Shell state of an app says of its DAB state.
#[derive(Clone, Copy, Debug, PartialEq, Eq, Structural)]
pub enum AppStateLookup {
    /// The DAB state follows from the RDK state alone.
    Known(DABAppState),
    /// The app runs; its visibility decides between foreground and background.
    NeedsVisibility,
}

/// The DAB reading of the RDK Shell state of an app.
pub open spec fn spec_lookup_of_state(callsign: Seq<char>, state: Seq<char>) -> Result<AppStateLookup, Seq<char>> {
    if state == "suspended"@ {
        Ok(AppStateLookup::Known(DABAppState::Background))
    } else if state == "activated"@ || state == "resumed"@ {
        Ok(AppStateLookup::NeedsVisibility)
    } else {
        Err("RDKShell.getState; "@ + callsign + " is in invalid state "@ + state + "."@)
    }
}

/// Reads the DAB state of the app `callsign` from the RDK Shell states: the first entry
/// of the app decides, and an app without an entry is stopped.
pub fn get_dab_app_state(states: &Vec<AppStateEntry>, callsign: &str) -> (r: Result<AppStateLookup, DabError>)
    ensures
        match r {
            Ok(AppStateLookup::Known(DABAppState::Stopped)) =>
                forall|j: int| 0 <= j < states@.len() ==> (#[trigger] states@[j]).callsign@ != callsign@,
            _ => exists|i: int| 0 <= i < states@.len() && (#[trigger] states@[i]).callsign@ == callsign@
                && (forall|j: int| 0 <= j < i ==> (#[trigger] states@[j]).callsign@ != callsign@)
                && match spec_lookup_of_state(callsign@, states@[i].state@) {
                    Ok(l) => r == Ok::<AppStateLookup, DabError>(l),
                    Err(m) => r matches Err(DabError::Err500(e)) && e@ == m,
                },
        },
{
    let mut i: usize = 0;
    while i < states.len()
        invariant
            i <= states@.len(),
            forall|j: int| 0 <= j < i ==> (#[trigger] states@[j]).callsign@ != callsign@,
        decreases states@.len() - i,
    {
        let item = &states[i];
        if str_eq(item.callsign.as_str(), callsign) {
            let st = &item.state;
            if *st == String::from_str("suspended") {
                return Ok(AppStateLookup::Known(DABAppState::Background));
            } else if *st == String::from_str("activated") || *st == String::from_str("resumed") {
                return Ok(AppStateLookup::NeedsVisibility);
            } else {
                return Err(DabError::Err500(join5("RDKShell.getState; ", callsign, " is in invalid state ",
                    st.as_str(), ".")));
            }
        }
        i += 1;
    }
    Ok(AppStateLookup::Known(DABAppState::Stopped))
}

/// The DAB state of a running app: foreground when visible, else background.
pub fn visible_app_state(visible: bool) -> (r: DABAppState)
    ensures
        r == (if visible { DABAppState::Foreground } else { DABAppState::Background }),
{
    if visible { DABAppState::Foreground } else { DABAppState::Background }
}

/// Checks that a request names an app.
pub fn check_app_id(app_id: &str) -> (r: Result<(), DabError>)
    ensures
        app_id@.len() > 0 ==> r is Ok,
        app_id@.len() == 0 ==> (r matches Err(DabError::Err400(m)) && m@ == "request missing 'appId' parameter"@),
{
    if app_id.is_empty() {
        return Err(DabError::Err400(String::from_str("request missing 'appId' parameter")));
    }
    Ok(())
}

/// The answer of `org.rdk.RDKShell.getVisibility`: the app's visibility when the call
/// succeeded.
pub fn get_visibility(success: bool, visible: bool, message: Option<String>) -> (r: Result<bool, DabError>)
    ensures
        success ==> r == Ok::<bool, DabError>(visible),
        !success ==> (r matches Err(DabError::Err500(m)) && m@ == "Error RDKShell.getVisibility "@ + match message {
            Some(t) => t@,
            None => Seq::<char>::empty(),
        }),
{
    if !success {
        let msg = match message {
            Some(t) => t,
            None => String::new(),
        };
        return Err(DabError::Err500(join2("Error RDKShell.getVisibility ", msg.as_str())));
    }
    Ok(visible)
}

/// The answer of `org.rdk.RDKShell.launch`.
pub fn send_rdkshell_launch_request(success: bool, message: Option<String>) -> (r: Result<(), DabError>)
    ensures
        success ==> r is Ok,
        !success ==> (r matches Err(DabError::Err500(m)) && m@ == "Error from org.rdk.RDKShell.launch "@ + match message {
            Some(t) => t@,
            None => Seq::<char>::empty(),
        }),
{
    if !success {
        let msg = match message {
            Some(t) => t,
            None => String::new(),
        };
        return Err(DabError::Err500(join2("Error from org.rdk.RDKShell.launch ", msg.as_str())));
    }
    Ok(())
}

// ------------------------------------------------------------------ exit

/// The RDK Shell state of an app as exiting it needs it.
#[derive(Clone, Copy, Debug, PartialEq, Eq, Structural)]
pub enum AppState {
    Visible,
    Invisible,
    Suspended,
    Hibernated,
    Stopped,
}

/// The RDK Shell call that exiting an app takes.
#[derive(Clone, Copy, Debug, PartialEq, Eq, Structural)]
pub enum ExitAction {
    Suspend,
    Destroy,
    Nothing,
}

/// What exiting an app in state `state` asks of RDK Shell: a running app is suspended to
/// go to the background and destroyed otherwise; a hibernated app is only destroyed, and
/// a stopped app is left alone.
pub fn exit_action(state: AppState, to_background: bool) -> (r: ExitAction)
    ensures
        (state == AppState::Visible || state == AppState::Invisible || state == AppState::Suspended)
            ==> r == (if to_background { ExitAction::Suspend } else { ExitAction::Destroy }),
        state == AppState::Hibernated ==> r == (if to_background { ExitAction::Nothing } else { ExitAction::Destroy }),
        state == AppState::Stopped ==> r == ExitAction::Nothing,
{
    match state {
        AppState::Visible | AppState::Invisible | AppState::Suspended => {
            if to_background { ExitAction::Suspend } else { ExitAction::Destroy }
        },
        AppState::Hibernated => {
            if to_background { ExitAction::Nothing } else { ExitAction::Destroy }
        },
        AppState::Stopped => ExitAction::Nothing,
    }
}

/// How many times the state of an exiting app is checked.
pub const EXIT_POLL_ATTEMPTS: u32 = 8;

/// How many times the state of a launched app is checked.
pub const START_POLL_ATTEMPTS: u32 = 20;

/// The pause before each check of an app's state, in milliseconds.
pub const POLL_INTERVAL_MS: u64 = 250;

/// Whether `state` is the state an exit asked for: background when sending the app to
/// the background, stopped otherwise.
pub fn is_state_match(state: &str, to_background: bool) -> (r: bool)
    ensures
        r == ((to_background && state@ == "BACKGROUND"@) || (!to_background && state@ == "STOPPED"@)),
{
    (to_background && str_eq(state, "BACKGROUND")) || (!to_background && str_eq(state, "STOPPED"))
}

/// An app that was stopped before being sent to the background is not watched.
pub fn exit_skips_polling(was_stopped: bool, to_background: bool) -> (r: bool)
    ensures
        r == (was_stopped && to_background),
{
    was_stopped && to_background
}

/// The lifecycle timeout to wait for after an exit.
pub fn exit_timeout_type(to_background: bool) -> (r: &'static str)
    ensures
        to_background ==> r@ == "exit_to_background_timeout_ms"@,
        !to_background ==> r@ == "exit_to_destroy_timeout_ms"@,
{
    if to_background { "exit_to_background_timeout_ms" } else { "exit_to_destroy_timeout_ms" }
}

/// The lifecycle timeout to wait for once a launched app is in the foreground: the cold
/// launch timeout after a cold launch (the app was created), the resume timeout after a
/// resume.
pub fn launch_timeout_type(app_created: bool) -> (r: &'static str)
    ensures
        app_created ==> r@ == "cold_launch_timeout_ms"@,
        !app_created ==> r@ == "resume_launch_timeout_ms"@,
{
    if app_created { "cold_launch_timeout_ms" } else { "resume_launch_timeout_ms" }
}

/// Checks the state a launched app reached after the last check.
pub fn check_app_started(state: &str) -> (r: Result<(), DabError>)
    ensures
        state@ == "FOREGROUND"@ ==> r is Ok,
        state@ != "FOREGROUND"@ ==> (r matches Err(DabError::Err500(m))
            && m@ == "Check state request(5 second) timeout, app may not be visible to user."@),
{
    if !str_eq(state, "FOREGROUND") {
        return Err(DabError::Err500(String::from_str(
            "Check state request(5 second) timeout, app may not be visible to user.")));
    }
    Ok(())
}

// ------------------------------------------------------------------ launch

/// The parameters of an RDK Shell call that names an app.
pub struct RDKShellRequestParams {
    pub callsign: String,
}

/// A JSON-RPC request to the device.
pub struct RdkRequest<T> {
    pub jsonrpc: String,
    pub id: i32,
    pub method: String,
    pub params: T,
}

/// The parameters of a cold launch by RDK Shell.
pub struct RDKShellParams {
    pub callsign: String,
    /// The plugin type (the `type` member).
    pub app_type: String,
    pub configuration: Option<String>,
}

/// A cold launch request to RDK Shell.
pub struct RDKShellRequestWithParamConfig {
    pub jsonrpc: String,
    pub id: i32,
    pub method: String,
    pub params: RDKShellParams,
}

/// The app is launched by the Cobalt (YouTube) plugin.
pub open spec fn is_cobalt_app(app_id: Seq<char>) -> bool {
    lowercase(app_id) == "cobalt"@ || lowercase(app_id) == "youtube"@
}

/// The app is Netflix.
pub open spec fn is_netflix_app(app_id: Seq<char>) -> bool {
    lowercase(app_id) == "netflix"@
}

/// The texts of `v`, each decoded from percent-encoding; `None` where one does not decode
/// to valid UTF-8.
pub open spec fn all_url_decoded(v: Seq<String>) -> Option<Seq<Seq<char>>>
    decreases v.len(),
{
    if v.len() == 0 {
        Some(Seq::empty())
    } else {
        match (all_url_decoded(v.drop_last()), url_decoded(v.last()@)) {
            (Some(init), Some(d)) => Some(init.push(d)),
            _ => None,
        }
    }
}

/// Decodes each parameter from percent-encoding.
pub fn decode_parameters(parameters: &Vec<String>) -> (r: Option<Vec<String>>)
    ensures
        match all_url_decoded(parameters@) {
            Some(d) => r matches Some(v) && views(v@) == d,
            None => r is None,
        },
{
    let mut out: Vec<String> = Vec::new();
    let mut i: usize = 0;
    assert(parameters@.take(0) =~= Seq::<String>::empty());
    while i < parameters.len()
        invariant
            i <= parameters@.len(),
            all_url_decoded(parameters@.take(i as int)) == Some(views(out@)),
        decreases parameters@.len() - i,
    {
        assert(parameters@.take(i + 1).drop_last() =~= parameters@.take(i as int));
        assert(parameters@.take(i + 1).last() == parameters@[i as int]);
        match url_decode(parameters[i].as_str()) {
            Some(d) => {
                let ghost before = out@;
                out.push(d);
                assert(views(out@) =~= views(before).push(d@));
            },
            None => {
                proof { lemma_decoded_prefix_none(parameters@, i as int + 1); }
                return None;
            },
        }
        i += 1;
    }
    assert(parameters@.take(parameters@.len() as int) =~= parameters@);
    Some(out)
}

proof fn lemma_decoded_prefix_none(v: Seq<String>, k: int)
    requires
        0 <= k <= v.len(),
        all_url_decoded(v.take(k)) is None,
    ensures
        all_url_decoded(v) is None,
    decreases v.len() - k,
{
    if k < v.len() {
        assert(v.take(k + 1).drop_last() =~= v.take(k));
        lemma_decoded_prefix_none(v, k + 1);
    } else {
        assert(v.take(k) =~= v);
    }
}

/// The parameters a launch passes to the app: those of the request, percent-decoded for
/// Cobalt; `None` where a Cobalt parameter does not decode to valid UTF-8.
pub fn launch_parameters(app_id: &str, parameters: &Option<Vec<String>>) -> (r: Option<Vec<String>>)
    ensures
        match parameters {
            None => r matches Some(v) && v@.len() == 0,
            Some(p) => if is_cobalt_app(app_id@) {
                match all_url_decoded(p@) {
                    Some(d) => r matches Some(v) && views(v@) == d,
                    None => r is None,
                }
            } else {
                r matches Some(v) && views(v@) == views(p@)
            },
        },
{
    let lower = to_lowercase(app_id);
    let is_cobalt = lower == String::from_str("cobalt") || lower == String::from_str("youtube");
    match parameters {
        None => Some(Vec::new()),
        Some(p) => {
            if is_cobalt {
                decode_parameters(p)
            } else {
                Some(clone_strings(p))
            }
        },
    }
}

fn clone_strings(v: &Vec<String>) -> (r: Vec<String>)
    ensures
        views(r@) == views(v@),
{
    let mut r: Vec<String> = Vec::new();
    let mut i: usize = 0;
    while i < v.len()
        invariant
            i <= v@.len(),
            views(r@) == views(v@).take(i as int),
        decreases v@.len() - i,
    {
        let ghost before = r@;
        r.push(v[i].clone());
        assert(views(r@) =~= views(before).push(v@[i as int]@));
        assert(views(r@) =~= views(v@).take(i + 1));
        i += 1;
    }
    assert(views(v@).take(v@.len() as int) =~= views(v@));
    r
}

/// What launching an app asks of RDK Shell.
pub enum LaunchPlan {
    /// Start the app with these parameters (by `org.rdk.RDKShell.launch`).
    ColdLaunch(RDKShellParams),
    /// Bring back a running app: first the deep link, if any, then the launch request.
    Resume {
        deeplink: Option<RdkRequest<String>>,
        launch: RdkRequest<RDKShellRequestParams>,
    },
    /// The app's state is none the adapter knows: nothing is asked.
    NoAction,
}

impl LaunchPlan {
    /// Whether the plan creates the app (every plan but a resume).
    pub open spec fn spec_app_created(&self) -> bool {
        !(self is Resume)
    }

    /// Whether the plan creates the app (every plan but a resume).
    pub fn app_created(&self) -> (r: bool)
        ensures
            r == self.spec_app_created(),
    {
        match self {
            LaunchPlan::Resume { .. } => false,
            _ => true,
        }
    }
}

/// The YouTube TV address that carries `params`.
pub open spec fn youtube_url(params: Seq<Seq<char>>) -> Seq<char> {
    "https://www.youtube.com/tv?"@ + joined(params, "&"@)
}

/// What launching an app in DAB state `app_state` asks, for an app launched by Cobalt:
/// a stopped app is started with the YouTube address of its parameters; a running app is
/// deep-linked to that address when there are parameters, then launched.
pub open spec fn spec_cobalt_plan(app_id: Seq<char>, params: Seq<Seq<char>>, app_state: Seq<char>, plan: LaunchPlan) -> bool {
    if app_state == "STOPPED"@ {
        plan matches LaunchPlan::ColdLaunch(p) && p.callsign@ == app_id && p.app_type@ == "Cobalt"@
            && (p.configuration matches Some(c) && c@ == "{\"url\":"@ + json_quoted(youtube_url(params)) + "}"@)
    } else if app_state == "BACKGROUND"@ || app_state == "FOREGROUND"@ {
        plan matches LaunchPlan::Resume { deeplink, launch }
            && launch.jsonrpc@ == "2.0"@ && launch.id == 3 && launch.method@ == "org.rdk.RDKShell.launch"@
            && launch.params.callsign@ == app_id
            && (params.len() == 0 ==> deeplink is None)
            && (params.len() > 0 ==> (deeplink matches Some(d) && d.jsonrpc@ == "2.0"@ && d.id == 3
                && d.method@ == app_id + ".1.deeplink"@ && d.params@ == youtube_url(params)))
    } else {
        plan is NoAction
    }
}

fn resume_request(app_id: &str) -> (r: RdkRequest<RDKShellRequestParams>)
    ensures
        r.jsonrpc@ == "2.0"@ && r.id == 3 && r.method@ == "org.rdk.RDKShell.launch"@ && r.params.callsign@ == app_id@,
{
    RdkRequest {
        jsonrpc: String::from_str("2.0"),
        id: 3,
        method: String::from_str("org.rdk.RDKShell.launch"),
        params: RDKShellRequestParams { callsign: String::from_str(app_id) },
    }
}

fn cobalt_plan(app_id: &str, params: &Vec<String>, app_state: &str) -> (r: LaunchPlan)
    ensures
        spec_cobalt_plan(app_id@, views(params@), app_state@, r),
{
    let url = join2("https://www.youtube.com/tv?", join_with(params, "&").as_str());
    if str_eq(app_state, "STOPPED") {
        let config = join3("{\"url\":", json_quote(url.as_str()).as_str(), "}");
        LaunchPlan::ColdLaunch(RDKShellParams {
            callsign: String::from_str(app_id),
            app_type: String::from_str("Cobalt"),
            configuration: Some(config),
        })
    } else if str_eq(app_state, "BACKGROUND") || str_eq(app_state, "FOREGROUND") {
        let deeplink = if params.len() > 0 {
            Some(RdkRequest {
                jsonrpc: String::from_str("2.0"),
                id: 3,
                method: join2(app_id, ".1.deeplink"),
                params: url,
            })
        } else {
            None
        };
        LaunchPlan::Resume { deeplink, launch: resume_request(app_id) }
    } else {
        LaunchPlan::NoAction
    }
}

/// What launching `app_id`, in DAB state `app_state`, with the parameters `params` asks of
/// RDK Shell. Cobalt apps follow `spec_cobalt_plan`; a stopped Netflix is started with its
/// parameters as query string, any other stopped app as a Lightning app; a running app
/// other than Cobalt cannot take parameters.
pub fn launch_plan(app_id: &str, params: &Vec<String>, app_state: &str) -> (r: Result<LaunchPlan, DabError>)
    ensures
        is_cobalt_app(app_id@) ==> (r matches Ok(p) && spec_cobalt_plan(app_id@, views(params@), app_state@, p)),
        !is_cobalt_app(app_id@) && app_state@ == "STOPPED"@ ==> (r matches Ok(LaunchPlan::ColdLaunch(p))
            && p.callsign@ == app_id@
            && (is_netflix_app(app_id@) ==> p.app_type@ == "Netflix"@ && (p.configuration matches Some(c)
                && c@ == "{\"querystring\":"@ + json_quoted(joined(views(params@), "&"@)) + "}"@))
            && (!is_netflix_app(app_id@) ==> p.app_type@ == "LightningApp"@ && p.configuration is None)),
        !is_cobalt_app(app_id@) && (app_state@ == "BACKGROUND"@ || app_state@ == "FOREGROUND"@) ==> (
            if params@.len() > 0 {
                r matches Err(DabError::Err500(m)) && m@ == "Require App specific deeplinking implementation."@
            } else {
                r matches Ok(LaunchPlan::Resume { deeplink, launch }) && deeplink is None
                    && launch.jsonrpc@ == "2.0"@ && launch.id == 3 && launch.method@ == "org.rdk.RDKShell.launch"@
                    && launch.params.callsign@ == app_id@
            }),
        !is_cobalt_app(app_id@) && !(app_state@ == "STOPPED"@ || app_state@ == "BACKGROUND"@
            || app_state@ == "FOREGROUND"@) ==> r matches Ok(LaunchPlan::NoAction),
{
    proof {
        reveal_strlit("STOPPED");
        reveal_strlit("BACKGROUND");
        reveal_strlit("FOREGROUND");
        assert("BACKGROUND"@.len() != "STOPPED"@.len());
        assert("FOREGROUND"@.len() != "STOPPED"@.len());
    }
    let lower = to_lowercase(app_id);
    let is_cobalt = lower == String::from_str("cobalt") || lower == String::from_str("youtube");
    let is_netflix = lower == String::from_str("netflix");
    if is_cobalt {
        return Ok(cobalt_plan(app_id, params, app_state));
    }
    if str_eq(app_state, "STOPPED") {
        if is_netflix {
            let query = join_with(params, "&");
            let config = join3("{\"querystring\":", json_quote(query.as_str()).as_str(), "}");
            Ok(LaunchPlan::ColdLaunch(RDKShellParams {
                callsign: String::from_str(app_id),
                app_type: String::from_str("Netflix"),
                configuration: Some(config),
            }))
        } else {
            Ok(LaunchPlan::ColdLaunch(RDKShellParams {
                callsign: String::from_str(app_id),
                app_type: String::from_str("LightningApp"),
                configuration: None,
            }))
        }
    } else if str_eq(app_state, "BACKGROUND") || str_eq(app_state, "FOREGROUND") {
        if params.len() > 0 {
            return Err(DabError::Err500(String::from_str("Require App specific deeplinking implementation.")));
        }
        Ok(LaunchPlan::Resume { deeplink: None, launch: resume_request(app_id) })
    } else {
        Ok(LaunchPlan::NoAction)
    }
}

/// The app ids that launching with content accepts.
pub open spec fn is_content_app(app_id: Seq<char>) -> bool {
    app_id == "Cobalt"@ || app_id == "Youtube"@ || app_id == "YouTube"@
}

/// The parameters of a launch with content: `v=` and the content id when there is one,
/// then the request's parameters percent-decoded. Only YouTube is accepted. `Ok(None)`
/// where a parameter does not decode to valid UTF-8.
pub fn launch_with_content_parameters(app_id: &str, content_id: &str, parameters: &Option<Vec<String>>)
    -> (r: Result<Option<Vec<String>>, DabError>)
    ensures
        app_id@.len() == 0 ==> (r matches Err(DabError::Err400(m)) && m@ == "request missing 'appId' parameter"@),
        app_id@.len() > 0 && !is_content_app(app_id@) ==> (r matches Err(DabError::Err400(m))
            && m@ == "This operator currently only supports Youtube"@),
        app_id@.len() > 0 && is_content_app(app_id@) ==> ({
            let head: Seq<Seq<char>> = if content_id@.len() > 0 { seq!["v="@ + content_id@] } else { Seq::empty() };
            match parameters {
                None => r matches Ok(Some(v)) && views(v@) == head,
                Some(p) => match all_url_decoded(p@) {
                    Some(d) => r matches Ok(Some(v)) && views(v@) == head + d,
                    None => r matches Ok(None),
                },
            }
        }),
{
    check_app_id(app_id)?;
    let is_cobalt = str_eq(app_id, "Cobalt") || str_eq(app_id, "Youtube") || str_eq(app_id, "YouTube");
    if !is_cobalt {
        return Err(DabError::Err400(String::from_str("This operator currently only supports Youtube")));
    }
    let mut param_list: Vec<String> = Vec::new();
    if !content_id.is_empty() {
        param_list.push(join2("v=", content_id));
    }
    let ghost head = views(param_list@);
    assert(head =~= (if content_id@.len() > 0 { seq!["v="@ + content_id@] } else { Seq::<Seq<char>>::empty() }));
    match parameters {
        None => Ok(Some(param_list)),
        Some(p) => {
            match decode_parameters(p) {
                Some(d) => {
                    let mut i: usize = 0;
                    while i < d.len()
                        invariant
                            i <= d@.len(),
                            views(param_list@) == head + views(d@).take(i as int),
                        decreases d@.len() - i,
                    {
                        let ghost before = param_list@;
                        param_list.push(d[i].clone());
                        assert(views(param_list@) =~= views(before).push(d@[i as int]@));
                        assert(views(d@).take(i + 1) =~= views(d@).take(i as int).push(d@[i as int]@));
                        i += 1;
                    }
                    assert(views(d@).take(d@.len() as int) =~= views(d@));
                    Ok(Some(param_list))
                },
                None => Ok(None),
            }
        },
    }
}

/// What launching YouTube with content, in DAB state `app_state`, asks of RDK Shell:
/// as for any launch of Cobalt (`spec_cobalt_plan`).
pub fn launch_with_content_plan(app_id: &str, params: &Vec<String>, app_state: &str) -> (r: LaunchPlan)
    ensures
        spec_cobalt_plan(app_id@, views(params@), app_state@, r),
{
    cobalt_plan(app_id, params, app_state)
}

// ------------------------------------------------------------------ application list

/// The DAB app id of an RDK Shell app type, for the types the adapter offers.
pub open spec fn spec_app_of_type(t: Seq<char>) -> Option<Seq<char>> {
    if t == "YouTube"@ {
        Some("YouTube"@)
    } else if t == "Amazon"@ {
        Some("PrimeVideo"@)
    } else if t == "Netflix"@ {
        Some("Netflix"@)
    } else {
        None
    }
}

/// The app ids for the available RDK Shell types, in order.
pub open spec fn spec_app_list(types: Seq<String>) -> Seq<Seq<char>>
    decreases types.len(),
{
    if types.len() == 0 {
        Seq::empty()
    } else {
        match spec_app_of_type(types.last()@) {
            Some(a) => spec_app_list(types.drop_last()).push(a),
            None => spec_app_list(types.drop_last()),
        }
    }
}

/// The DAB apps for the app types RDK Shell reports as available.
pub fn list_applications(types: &Vec<String>) -> (r: Vec<String>)
    ensures
        views(r@) == spec_app_list(types@),
{
    let mut r: Vec<String> = Vec::new();
    let mut i: usize = 0;
    assert(types@.take(0) =~= Seq::<String>::empty());
    while i < types.len()
        invariant
            i <= types@.len(),
            views(r@) == spec_app_list(types@.take(i as int)),
        decreases types@.len() - i,
    {
        assert(types@.take(i + 1).drop_last() =~= types@.take(i as int));
        assert(types@.take(i + 1).last() == types@[i as int]);
        let t = &types[i];
        let app = if *t == String::from_str("YouTube") {
            Some("YouTube")
        } else if *t == String::from_str("Amazon") {
            Some("PrimeVideo")
        } else if *t == String::from_str("Netflix") {
            Some("Netflix")
        } else {
            None
        };
        match app {
            Some(a) => {
                let ghost before = r@;
                r.push(String::from_str(a));
                assert(views(r@) =~= views(before).push(a@));
            },
            None => {},
        }
        i += 1;
    }
    assert(types@.take(types@.len() as int) =~= types@);
    r
}

} // verus!

verus! {

// ------------------------------------------------------------------ RDK Shell calls

/// The parameters of an RDK Shell call that names an app by its callsign.
pub open spec fn callsign_params(callsign: Seq<char>) -> Seq<char> {
    "{\"callsign\":"@ + json_quoted(callsign) + "}"@
}

/// The parameters of an RDK Shell call that names an app as client and callsign.
pub open spec fn client_params(client: Seq<char>) -> Seq<char> {
    "{\"client\":"@ + json_quoted(client) + ",\"callsign\":"@ + json_quoted(client) + "}"@
}

fn callsign_call(method: &str, callsign: &str) -> (r: RdkCall)
    ensures
        call_is(r, method@, callsign_params(callsign@)),
{
    let p = join3("{\"callsign\":", json_quote(callsign).as_str(), "}");
    RdkCall { method: String::from_str(method), params: Some(p) }
}

fn client_call(method: &str, client: &str) -> (r: RdkCall)
    ensures
        call_is(r, method@, client_params(client@)),
{
    let q = json_quote(client);
    let p = join5("{\"client\":", q.as_str(), ",\"callsign\":", q.as_str(), "}");
    RdkCall { method: String::from_str(method), params: Some(p) }
}

/// The call that suspends an app.
pub fn rdkshell_suspend(callsign: &str) -> (r: RdkCall)
    ensures
        call_is(r, "org.rdk.RDKShell.suspend"@, callsign_params(callsign@)),
{
    callsign_call("org.rdk.RDKShell.suspend", callsign)
}

/// The call that destroys an app.
pub fn rdkshell_destroy(callsign: &str) -> (r: RdkCall)
    ensures
        call_is(r, "org.rdk.RDKShell.destroy"@, callsign_params(callsign@)),
{
    callsign_call("org.rdk.RDKShell.destroy", callsign)
}

/// The call that an exit makes, if any.
pub fn exit_call(action: ExitAction, app_id: &str) -> (r: Option<RdkCall>)
    ensures
        action == ExitAction::Suspend ==> (r matches Some(c)
            && call_is(c, "org.rdk.RDKShell.suspend"@, callsign_params(app_id@))),
        action == ExitAction::Destroy ==> (r matches Some(c)
            && call_is(c, "org.rdk.RDKShell.destroy"@, callsign_params(app_id@))),
        action == ExitAction::Nothing ==> r is None,
{
    match action {
        ExitAction::Suspend => Some(rdkshell_suspend(app_id)),
        ExitAction::Destroy => Some(rdkshell_destroy(app_id)),
        ExitAction::Nothing => None,
    }
}

/// The two calls that bring an app to the front and give it the focus, in that order.
pub fn move_to_front_set_focus(callsign: &str) -> (r: Vec<RdkCall>)
    ensures
        r@.len() == 2,
        call_is(r@[0], "org.rdk.RDKShell.moveToFront"@, client_params(callsign@)),
        call_is(r@[1], "org.rdk.RDKShell.1.setFocus"@, client_params(callsign@)),
{
    let mut r: Vec<RdkCall> = Vec::new();
    r.push(client_call("org.rdk.RDKShell.moveToFront", callsign));
    r.push(client_call("org.rdk.RDKShell.1.setFocus", callsign));
    r
}

/// The call that asks whether an app is visible.
pub fn visibility_query(client: &str) -> (r: RdkCall)
    ensures
        call_is(r, "org.rdk.RDKShell.getVisibility"@, client_params(client@)),
{
    client_call("org.rdk.RDKShell.getVisibility", client)
}

/// The call that shows or hides an app.
pub fn set_visibility(client: &str, visible: bool) -> (r: RdkCall)
    ensures
        call_is(r, "org.rdk.RDKShell.setVisibility"@, "{\"client\":"@ + json_quoted(client@)
            + ",\"callsign\":"@ + json_quoted(client@) + ",\"visible\":"@ + json_bool(visible) + "}"@),
{
    let q = json_quote(client);
    let p = join5("{\"client\":", q.as_str(), ",\"callsign\":", q.as_str(), ",\"visible\":");
    let p = join3(p.as_str(), if visible { "true" } else { "false" }, "}");
    RdkCall { method: String::from_str("org.rdk.RDKShell.setVisibility"), params: Some(p) }
}

// ------------------------------------------------------------------ watching a launch

/// What follows a check of a launched app's state.
#[derive(Clone, Copy, Debug, PartialEq, Eq, Structural)]
pub enum StartStep {
    /// The app is in the foreground: wait for its launch timeout, then make sure it is
    /// visible and focused.
    Started,
    /// Check again after the poll interval.
    Poll,
    /// The app did not come to the foreground in time.
    TimedOut,
}

/// The step after a check that comes after `checks` earlier ones.
pub open spec fn spec_start_step(checks: nat, foreground: bool) -> StartStep {
    if foreground {
        StartStep::Started
    } else if checks + 1 >= START_POLL_ATTEMPTS {
        StartStep::TimedOut
    } else {
        StartStep::Poll
    }
}

/// The checks made so far of a launched app's state.
pub struct StartWatch {
    pub checks: u32,
}

impl StartWatch {
    /// A watch that has made no check yet.
    pub fn new() -> (w: Self)
        ensures
            w.checks == 0,
    {
        StartWatch { checks: 0 }
    }

    /// Counts a check that found the app in DAB state `state`, and says what follows.
    pub fn on_state(&mut self, state: &str) -> (r: StartStep)
        requires
            old(self).checks < START_POLL_ATTEMPTS,
        ensures
            final(self).checks == old(self).checks + 1,
            r == spec_start_step(old(self).checks as nat, state@ == "FOREGROUND"@),
    {
        self.checks = self.checks + 1;
        if str_eq(state, "FOREGROUND") {
            StartStep::Started
        } else if self.checks >= START_POLL_ATTEMPTS {
            StartStep::TimedOut
        } else {
            StartStep::Poll
        }
    }
}

/// A launch is not watched forever: counting the checks that do not find the app in the
/// foreground from a new watch, every one before the last lets it poll again and the
/// last one times it out; a check that finds it in the foreground always ends the watch.
pub proof fn law_launch_watch_times_out(n: nat)
    requires
        1 <= n <= START_POLL_ATTEMPTS,
    ensures
        spec_start_step((n - 1) as nat, false) == (if n == START_POLL_ATTEMPTS {
            StartStep::TimedOut
        } else {
            StartStep::Poll
        }),
        spec_start_step((n - 1) as nat, true) == StartStep::Started,
{
}

// ------------------------------------------------------------------ watching an exit

/// What follows a check of an exiting app's state.
#[derive(Clone, Copy, Debug, PartialEq, Eq, Structural)]
pub enum ExitStep {
    /// The app reached the state asked for: wait for its exit timeout and answer.
    Settle,
    /// Check again after the poll interval.
    Poll,
    /// Stop checking and answer with the last state seen.
    GiveUp,
}

/// The step after a check that comes after `checks` earlier ones.
pub open spec fn spec_exit_step(checks: nat, to_background: bool, state: Seq<char>) -> ExitStep {
    if (to_background && state == "BACKGROUND"@) || (!to_background && state == "STOPPED"@) {
        ExitStep::Settle
    } else if checks + 1 >= EXIT_POLL_ATTEMPTS {
        ExitStep::GiveUp
    } else {
        ExitStep::Poll
    }
}

/// The checks made so far of an exiting app's state.
pub struct ExitWatch {
    pub checks: u32,
    pub to_background: bool,
}

impl ExitWatch {
    /// A watch of an exit to the background (`to_background`) or to the stopped state,
    /// that has made no check yet.
    pub fn new(to_background: bool) -> (w: Self)
        ensures
            w.checks == 0,
            w.to_background == to_background,
    {
        ExitWatch { checks: 0, to_background }
    }

    /// Counts a check that found the app in DAB state `state`, and says what follows.
    pub fn on_state(&mut self, state: &str) -> (r: ExitStep)
        requires
            old(self).checks < EXIT_POLL_ATTEMPTS,
        ensures
            final(self).checks == old(self).checks + 1,
            final(self).to_background == old(self).to_background,
            r == spec_exit_step(old(self).checks as nat, old(self).to_background, state@),
    {
        self.checks = self.checks + 1;
        if is_state_match(state, self.to_background) {
            ExitStep::Settle
        } else if self.checks >= EXIT_POLL_ATTEMPTS {
            ExitStep::GiveUp
        } else {
            ExitStep::Poll
        }
    }
}

/// An exit is not watched forever: counting the checks that do not find the app in the
/// state asked for from a new watch, every one before the last lets it poll again and
/// the last one gives up.
pub proof fn law_exit_watch_gives_up(n: nat, to_background: bool, state: Seq<char>)
    requires
        1 <= n <= EXIT_POLL_ATTEMPTS,
        !((to_background && state == "BACKGROUND"@) || (!to_background && state == "STOPPED"@)),
    ensures
        spec_exit_step((n - 1) as nat, to_background, state) == (if n == EXIT_POLL_ATTEMPTS {
            ExitStep::GiveUp
        } else {
            ExitStep::Poll
        }),
{
}

} // verus!

verus! {

/// The call that asks for the app types the device can run; its parameters are the text
/// `{}` as a JSON string.
pub fn available_types_call() -> (r: RdkCall)
    ensures
        call_is(r, "org.rdk.RDKShell.getAvailableTypes"@, json_quoted("{}"@)),
{
    RdkCall { method: String::from_str("org.rdk.RDKShell.getAvailableTypes"), params: Some(json_quote("{}")) }
}

} // verus!

verus! {

/// The RDK Shell state an exit starts from, read from the app's DAB state: a stopped app
/// is stopped, an app in the background is suspended and one in the foreground visible.
/// The DAB state does not tell a hibernated app apart, so this reading never gives
/// `AppState::Hibernated` (nor `AppState::Invisible`).
pub fn exit_state_of(state: DABAppState) -> (r: AppState)
    ensures
        state == DABAppState::Stopped ==> r == AppState::Stopped,
        state == DABAppState::Background ==> r == AppState::Suspended,
        state == DABAppState::Foreground ==> r == AppState::Visible,
{
    match state {
        DABAppState::Stopped => AppState::Stopped,
        DABAppState::Background => AppState::Suspended,
        DABAppState::Foreground => AppState::Visible,
    }
}

} // verus!

verus! {

/// How the RDK Shell state of an app is read: a suspended app is in the background
/// without further question; an activated or resumed app is running, and its visibility
/// decides between foreground and background; any other state is refused.
pub proof fn law_running_app_state_follows_visibility(callsign: Seq<char>, state: Seq<char>)
    ensures
        state == "suspended"@ ==> spec_lookup_of_state(callsign, state)
            == Ok::<AppStateLookup, Seq<char>>(AppStateLookup::Known(DABAppState::Background)),
        state == "activated"@ ==> spec_lookup_of_state(callsign, state)
            == Ok::<AppStateLookup, Seq<char>>(AppStateLookup::NeedsVisibility),
        state == "resumed"@ ==> spec_lookup_of_state(callsign, state)
            == Ok::<AppStateLookup, Seq<char>>(AppStateLookup::NeedsVisibility),
        state != "suspended"@ && state != "activated"@ && state != "resumed"@
            ==> spec_lookup_of_state(callsign, state) is Err,
{
    reveal_strlit("suspended");
    reveal_strlit("activated");
    reveal_strlit("resumed");
    assert("suspended"@[0] != "activated"@[0]);
    assert("suspended"@.len() != "resumed"@.len());
}

/// Launching a Cobalt (YouTube) app that is running, in the foreground as in the
/// background, resumes it: the launch goes to `org.rdk.RDKShell.launch` for that app, and
/// it is preceded by a deep link of the app to the YouTube address carrying the
/// parameters exactly when there are parameters. A stopped Cobalt app is started cold
/// as a Cobalt app.
pub proof fn law_cobalt_launch_by_state(app_id: Seq<char>, params: Seq<Seq<char>>, app_state: Seq<char>, plan: LaunchPlan)
    requires
        spec_cobalt_plan(app_id, params, app_state, plan),
    ensures
        (app_state == "BACKGROUND"@ || app_state == "FOREGROUND"@) ==> plan is Resume,
        plan matches LaunchPlan::Resume { deeplink, launch } ==> {
            &&& app_state == "BACKGROUND"@ || app_state == "FOREGROUND"@
            &&& launch.method@ == "org.rdk.RDKShell.launch"@
            &&& launch.params.callsign@ == app_id
            &&& (params.len() > 0 <==> deeplink is Some)
            &&& (deeplink matches Some(d) ==> d.method@ == app_id + ".1.deeplink"@
                && d.params@ == "https://www.youtube.com/tv?"@ + joined(params, "&"@))
        },
        app_state == "STOPPED"@ ==> (plan matches LaunchPlan::ColdLaunch(p) && p.callsign@ == app_id
            && p.app_type@ == "Cobalt"@),
{
    reveal_strlit("STOPPED");
    reveal_strlit("BACKGROUND");
    reveal_strlit("FOREGROUND");
    assert("BACKGROUND"@.len() != "STOPPED"@.len());
    assert("FOREGROUND"@.len() != "STOPPED"@.len());
}

} // verus!
