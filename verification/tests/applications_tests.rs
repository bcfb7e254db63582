use dab_adapter::applications::{
    available_types_call, check_app_id, check_app_started, decode_parameters, exit_action, exit_call,
    exit_skips_polling, exit_timeout_type, get_dab_app_state, get_visibility, is_state_match,
    launch_parameters, launch_plan, launch_timeout_type, launch_with_content_parameters,
    launch_with_content_plan, list_applications, move_to_front_set_focus, rdkshell_destroy,
    rdkshell_suspend, send_rdkshell_launch_request, set_visibility, visibility_query,
    visible_app_state, AppState, AppStateEntry, AppStateLookup, DABAppState, ExitAction, ExitStep,
    ExitWatch, LaunchPlan, StartStep, StartWatch, EXIT_POLL_ATTEMPTS, START_POLL_ATTEMPTS,
};
use dab_adapter::calls::rdk_request_body;
use dab_adapter::dab::DabError;

fn strings(v: &[&str]) -> Vec<String> {
    v.iter().map(|s| s.to_string()).collect()
}

fn entry(callsign: &str, state: &str) -> AppStateEntry {
    AppStateEntry { callsign: callsign.to_string(), state: state.to_string() }
}

fn message(e: DabError) -> String {
    match e {
        DabError::Err400(m) | DabError::Err500(m) | DabError::Err501(m) => m,
    }
}

#[test]
fn dab_state_names() {
    assert_eq!(DABAppState::Stopped.as_str(), "STOPPED");
    assert_eq!(DABAppState::Background.as_str(), "BACKGROUND");
    assert_eq!(DABAppState::Foreground.as_str(), "FOREGROUND");
    assert_eq!(visible_app_state(true), DABAppState::Foreground);
    assert_eq!(visible_app_state(false), DABAppState::Background);
}

#[test]
fn app_states_from_rdk_shell() {
    let states = vec![entry("Netflix", "suspended"), entry("YouTube", "resumed"), entry("Netflix", "activated")];
    assert_eq!(get_dab_app_state(&states, "Netflix").ok(), Some(AppStateLookup::Known(DABAppState::Background)));
    assert_eq!(get_dab_app_state(&states, "YouTube").ok(), Some(AppStateLookup::NeedsVisibility));
    assert_eq!(get_dab_app_state(&states, "Amazon").ok(), Some(AppStateLookup::Known(DABAppState::Stopped)));
    let states = vec![entry("YouTube", "hibernated")];
    match get_dab_app_state(&states, "YouTube") {
        Err(DabError::Err500(m)) => assert_eq!(m, "RDKShell.getState; YouTube is in invalid state hibernated."),
        _ => panic!("expected a 500 error"),
    }
}

#[test]
fn app_id_is_required() {
    assert!(check_app_id("YouTube").is_ok());
    match check_app_id("") {
        Err(DabError::Err400(m)) => assert_eq!(m, "request missing 'appId' parameter"),
        _ => panic!("expected a 400 error"),
    }
}

#[test]
fn rdk_shell_answers() {
    assert_eq!(get_visibility(true, false, None).ok(), Some(false));
    assert_eq!(message(get_visibility(false, true, Some("no such client".to_string())).err().unwrap()),
        "Error RDKShell.getVisibility no such client");
    assert!(send_rdkshell_launch_request(true, None).is_ok());
    assert_eq!(message(send_rdkshell_launch_request(false, None).err().unwrap()), "Error from org.rdk.RDKShell.launch ");
}

#[test]
fn exit_actions() {
    assert_eq!(exit_action(AppState::Visible, true), ExitAction::Suspend);
    assert_eq!(exit_action(AppState::Suspended, false), ExitAction::Destroy);
    assert_eq!(exit_action(AppState::Hibernated, true), ExitAction::Nothing);
    assert_eq!(exit_action(AppState::Hibernated, false), ExitAction::Destroy);
    assert_eq!(exit_action(AppState::Stopped, false), ExitAction::Nothing);
    assert!(exit_call(ExitAction::Nothing, "YouTube").is_none());
    assert_eq!(
        rdk_request_body(3, &exit_call(ExitAction::Suspend, "YouTube").unwrap()),
        r#"{"jsonrpc":"2.0","id":3,"method":"org.rdk.RDKShell.suspend","params":{"callsign":"YouTube"}}"#
    );
    assert_eq!(
        rdk_request_body(3, &rdkshell_destroy("Netflix")),
        r#"{"jsonrpc":"2.0","id":3,"method":"org.rdk.RDKShell.destroy","params":{"callsign":"Netflix"}}"#
    );
    assert_eq!(rdk_request_body(3, &rdkshell_suspend("a")), rdk_request_body(3, &exit_call(ExitAction::Suspend, "a").unwrap()));
}

#[test]
fn exit_state_matching() {
    assert!(is_state_match("BACKGROUND", true));
    assert!(!is_state_match("STOPPED", true));
    assert!(is_state_match("STOPPED", false));
    assert!(exit_skips_polling(true, true));
    assert!(!exit_skips_polling(true, false));
    assert_eq!(exit_timeout_type(true), "exit_to_background_timeout_ms");
    assert_eq!(exit_timeout_type(false), "exit_to_destroy_timeout_ms");
    assert_eq!(launch_timeout_type(true), "cold_launch_timeout_ms");
    assert_eq!(launch_timeout_type(false), "resume_launch_timeout_ms");
}

#[test]
fn launch_watch_times_out() {
    let mut w = StartWatch::new();
    for _ in 1..START_POLL_ATTEMPTS {
        assert_eq!(w.on_state("BACKGROUND"), StartStep::Poll);
    }
    assert_eq!(w.on_state("STOPPED"), StartStep::TimedOut);
    let mut w = StartWatch::new();
    assert_eq!(w.on_state("BACKGROUND"), StartStep::Poll);
    assert_eq!(w.on_state("FOREGROUND"), StartStep::Started);
    assert!(check_app_started("FOREGROUND").is_ok());
    assert_eq!(message(check_app_started("BACKGROUND").err().unwrap()),
        "Check state request(5 second) timeout, app may not be visible to user.");
}

#[test]
fn exit_watch_gives_up() {
    let mut w = ExitWatch::new(false);
    for _ in 1..EXIT_POLL_ATTEMPTS {
        assert_eq!(w.on_state("FOREGROUND"), ExitStep::Poll);
    }
    assert_eq!(w.on_state("BACKGROUND"), ExitStep::GiveUp);
    let mut w = ExitWatch::new(true);
    assert_eq!(w.on_state("BACKGROUND"), ExitStep::Settle);
}

#[test]
fn bringing_an_app_forward() {
    let calls = move_to_front_set_focus("YouTube");
    assert_eq!(calls.len(), 2);
    assert_eq!(
        rdk_request_body(3, &calls[0]),
        r#"{"jsonrpc":"2.0","id":3,"method":"org.rdk.RDKShell.moveToFront","params":{"client":"YouTube","callsign":"YouTube"}}"#
    );
    assert_eq!(
        rdk_request_body(3, &calls[1]),
        r#"{"jsonrpc":"2.0","id":3,"method":"org.rdk.RDKShell.1.setFocus","params":{"client":"YouTube","callsign":"YouTube"}}"#
    );
    assert_eq!(
        rdk_request_body(3, &set_visibility("YouTube", true)),
        r#"{"jsonrpc":"2.0","id":3,"method":"org.rdk.RDKShell.setVisibility","params":{"client":"YouTube","callsign":"YouTube","visible":true}}"#
    );
    assert_eq!(
        rdk_request_body(3, &visibility_query("a\"b")),
        r#"{"jsonrpc":"2.0","id":3,"method":"org.rdk.RDKShell.getVisibility","params":{"client":"a\"b","callsign":"a\"b"}}"#
    );
}

#[test]
fn launch_parameters_are_decoded_for_cobalt() {
    let p = Some(strings(&["a%20b", "c%3Dd"]));
    assert_eq!(launch_parameters("YouTube", &p), Some(strings(&["a b", "c=d"])));
    assert_eq!(launch_parameters("Netflix", &p), Some(strings(&["a%20b", "c%3Dd"])));
    assert_eq!(launch_parameters("cobalt", &None), Some(vec![]));
    assert_eq!(launch_parameters("Cobalt", &Some(strings(&["%FF"]))), None);
    assert_eq!(decode_parameters(&strings(&["%E2%82%AC", "+"])), Some(strings(&["\u{20ac}", "+"])));
}

#[test]
fn cold_launch_plans() {
    match launch_plan("YouTube", &strings(&["a=1", "b=2"]), "STOPPED") {
        Ok(LaunchPlan::ColdLaunch(p)) => {
            assert_eq!(p.callsign, "YouTube");
            assert_eq!(p.app_type, "Cobalt");
            assert_eq!(p.configuration, Some(r#"{"url":"https://www.youtube.com/tv?a=1&b=2"}"#.to_string()));
        },
        _ => panic!("expected a cold launch"),
    }
    match launch_plan("Netflix", &strings(&["x=1"]), "STOPPED") {
        Ok(LaunchPlan::ColdLaunch(p)) => {
            assert_eq!(p.app_type, "Netflix");
            assert_eq!(p.configuration, Some(r#"{"querystring":"x=1"}"#.to_string()));
        },
        _ => panic!("expected a cold launch"),
    }
    match launch_plan("MyApp", &vec![], "STOPPED") {
        Ok(LaunchPlan::ColdLaunch(p)) => {
            assert_eq!(p.app_type, "LightningApp");
            assert!(p.configuration.is_none());
        },
        _ => panic!("expected a cold launch"),
    }
}

#[test]
fn resume_plans() {
    match launch_plan("youtube", &strings(&["v=abc"]), "BACKGROUND") {
        Ok(plan) => {
            assert!(!plan.app_created());
            match plan {
                LaunchPlan::Resume { deeplink: Some(d), launch } => {
                    assert_eq!(d.method, "youtube.1.deeplink");
                    assert_eq!(d.params, "https://www.youtube.com/tv?v=abc");
                    assert_eq!(launch.method, "org.rdk.RDKShell.launch");
                    assert_eq!(launch.params.callsign, "youtube");
                },
                _ => panic!("expected a resume with deep link"),
            }
        },
        Err(_) => panic!("launch refused"),
    }
    match launch_plan("MyApp", &strings(&["x"]), "FOREGROUND") {
        Err(DabError::Err500(m)) => assert_eq!(m, "Require App specific deeplinking implementation."),
        _ => panic!("expected a 500 error"),
    }
    match launch_plan("MyApp", &vec![], "FOREGROUND") {
        Ok(LaunchPlan::Resume { deeplink: None, .. }) => {},
        _ => panic!("expected a plain resume"),
    }
    match launch_plan("MyApp", &vec![], "UNKNOWN") {
        Ok(p) => {
            assert!(p.app_created());
            assert!(matches!(p, LaunchPlan::NoAction));
        },
        Err(_) => panic!("launch refused"),
    }
}

#[test]
fn launch_with_content() {
    match launch_with_content_parameters("YouTube", "abc", &Some(strings(&["t%3D10"]))) {
        Ok(Some(p)) => assert_eq!(p, strings(&["v=abc", "t=10"])),
        _ => panic!("parameters refused"),
    }
    match launch_with_content_parameters("Cobalt", "", &None) {
        Ok(Some(p)) => assert!(p.is_empty()),
        _ => panic!("parameters refused"),
    }
    match launch_with_content_parameters("Netflix", "abc", &None) {
        Err(DabError::Err400(m)) => assert_eq!(m, "This operator currently only supports Youtube"),
        _ => panic!("expected a 400 error"),
    }
    match launch_with_content_parameters("", "abc", &None) {
        Err(DabError::Err400(m)) => assert_eq!(m, "request missing 'appId' parameter"),
        _ => panic!("expected a 400 error"),
    }
    match launch_with_content_plan("YouTube", &strings(&["v=abc"]), "STOPPED") {
        LaunchPlan::ColdLaunch(p) => assert_eq!(p.configuration, Some(r#"{"url":"https://www.youtube.com/tv?v=abc"}"#.to_string())),
        _ => panic!("expected a cold launch"),
    }
}

#[test]
fn application_list() {
    let types = strings(&["Netflix", "WebKitBrowser", "YouTube", "Amazon", "Netflix"]);
    assert_eq!(list_applications(&types), strings(&["Netflix", "YouTube", "PrimeVideo", "Netflix"]));
    assert_eq!(
        rdk_request_body(3, &available_types_call()),
        r#"{"jsonrpc":"2.0","id":3,"method":"org.rdk.RDKShell.getAvailableTypes","params":"{}"}"#
    );
}
