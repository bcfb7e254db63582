//! The operations the adapter offers.
use vstd::prelude::*;
use vstd::string::*;
use crate::codec::{json_quote, json_quoted};
use crate::dab::DabError;
use crate::table::views;
use crate::text::{decimal, join2, join3, str_eq, u64_to_decimal};

verus! {

fn push_name(v: &mut Vec<String>, name: &str)
    ensures
        views(final(v)@) == views(old(v)@).push(name@),
{
    v.push(String::from_str(name));
    assert(views(final(v)@) =~= views(old(v)@).push(name@));
}

/// The operations of the first interface, in the order it lists them.
pub open spec fn listed_operators() -> Seq<Seq<char>> {
    seq![
        "operations/list"@,
        "applications/list"@,
        "applications/launch"@,
        "applications/launch-with-content"@,
        "applications/get-state"@,
        "applications/exit"@,
        "device/info"@,
        "system/restart"@,
        "system/settings/list"@,
        "system/settings/get"@,
        "system/settings/set"@,
        "input/key/list"@,
        "input/key-press"@,
        "input/long-key-press"@,
        "output/image"@,
        "device-telemetry/start"@,
        "device-telemetry/stop"@,
        "app-telemetry/start"@,
        "app-telemetry/stop"@,
        "health-check/get"@,
        "voice/list"@,
        "voice/set"@,
        "voice/send-audio"@,
        "voice/send-text"@,
        "version"@,
        "system/language/list"@,
        "system/language/get"@,
        "system/language/set"@,
    ]
}

/// The answer to an operations list request of the first interface.
pub struct Response {
    pub status: u16,
    pub operators: Vec<String>,
}

/// The operations list of the first interface: status 200 and its operations.
pub fn operators_response() -> (r: Response)
    ensures
        r.status == 200,
        views(r.operators@) == listed_operators(),
{
    let mut v: Vec<String> = Vec::new();
    assert(views(v@) =~= Seq::<Seq<char>>::empty());
    push_name(&mut v, "operations/list");
    push_name(&mut v, "applications/list");
    push_name(&mut v, "applications/launch");
    push_name(&mut v, "applications/launch-with-content");
    push_name(&mut v, "applications/get-state");
    push_name(&mut v, "applications/exit");
    push_name(&mut v, "device/info");
    push_name(&mut v, "system/restart");
    push_name(&mut v, "system/settings/list");
    push_name(&mut v, "system/settings/get");
    push_name(&mut v, "system/settings/set");
    push_name(&mut v, "input/key/list");
    push_name(&mut v, "input/key-press");
    push_name(&mut v, "input/long-key-press");
    push_name(&mut v, "output/image");
    push_name(&mut v, "device-telemetry/start");
    push_name(&mut v, "device-telemetry/stop");
    push_name(&mut v, "app-telemetry/start");
    push_name(&mut v, "app-telemetry/stop");
    push_name(&mut v, "health-check/get");
    push_name(&mut v, "voice/list");
    push_name(&mut v, "voice/set");
    push_name(&mut v, "voice/send-audio");
    push_name(&mut v, "voice/send-text");
    push_name(&mut v, "version");
    push_name(&mut v, "system/language/list");
    push_name(&mut v, "system/language/get");
    push_name(&mut v, "system/language/set");
    Response { status: 200, operators: v }
}

/// The operations the RDK adapter supports, in the order it lists them.
pub open spec fn supported_operations() -> Seq<Seq<char>> {
    seq![
        "operations/list"@,
        "applications/list"@,
        "applications/launch"@,
        "applications/get-state"@,
        "applications/exit"@,
        "device/info"@,
        "system/restart"@,
        "input/key/list"@,
        "input/key-press"@,
        "output/image"@,
        "health-check/get"@,
        "version"@,
        "system/language/list"@,
        "system/language/get"@,
        "system/language/set"@,
    ]
}

/// The operations the RDK adapter supports (the answer also carries status 200).
pub fn list_supported_operations() -> (r: Vec<String>)
    ensures
        views(r@) == supported_operations(),
{
    let mut v: Vec<String> = Vec::new();
    assert(views(v@) =~= Seq::<Seq<char>>::empty());
    push_name(&mut v, "operations/list");
    push_name(&mut v, "applications/list");
    push_name(&mut v, "applications/launch");
    push_name(&mut v, "applications/get-state");
    push_name(&mut v, "applications/exit");
    push_name(&mut v, "device/info");
    push_name(&mut v, "system/restart");
    push_name(&mut v, "input/key/list");
    push_name(&mut v, "input/key-press");
    push_name(&mut v, "output/image");
    push_name(&mut v, "health-check/get");
    push_name(&mut v, "version");
    push_name(&mut v, "system/language/list");
    push_name(&mut v, "system/language/get");
    push_name(&mut v, "system/language/set");
    v
}

} // verus!

verus! {

/// The DAB protocol versions the adapter speaks.
pub fn versions() -> (r: Vec<String>)
    ensures
        views(r@) == seq!["2.0"@],
{
    let mut v: Vec<String> = Vec::new();
    assert(views(v@) =~= Seq::<Seq<char>>::empty());
    push_name(&mut v, "2.0");
    v
}

/// The answer to a health check: the adapter that answers is healthy.
pub fn health_check() -> (healthy: bool)
    ensures
        healthy,
{
    true
}

} // verus!

verus! {

// ------------------------------------------------------------------ request topics

/// The operations that requests on the message bus are dispatched to.
#[derive(Clone, Copy, Debug, PartialEq, Eq, Structural)]
pub enum Operation {
    OperationsList,
    ApplicationsList,
    ApplicationsLaunch,
    ApplicationsGetState,
    ApplicationsExit,
    DeviceInfo,
    InputKeyList,
    InputKeyPress,
    SystemRestart,
    SystemSettingsList,
    HealthCheckGet,
    Version,
    SystemLanguageList,
    SystemLanguageGet,
    SystemLanguageSet,
}

/// The name of an operation, as its topic ends.
pub open spec fn operation_name(op: Operation) -> Seq<char> {
    match op {
        Operation::OperationsList => "operations/list"@,
        Operation::ApplicationsList => "applications/list"@,
        Operation::ApplicationsLaunch => "applications/launch"@,
        Operation::ApplicationsGetState => "applications/get-state"@,
        Operation::ApplicationsExit => "applications/exit"@,
        Operation::DeviceInfo => "device/info"@,
        Operation::InputKeyList => "input/key/list"@,
        Operation::InputKeyPress => "input/key-press"@,
        Operation::SystemRestart => "system/restart"@,
        Operation::SystemSettingsList => "system/settings/list"@,
        Operation::HealthCheckGet => "health-check/get"@,
        Operation::Version => "version"@,
        Operation::SystemLanguageList => "system/language/list"@,
        Operation::SystemLanguageGet => "system/language/get"@,
        Operation::SystemLanguageSet => "system/language/set"@,
    }
}

/// The topic on which requests for an operation arrive.
pub open spec fn operation_topic(op: Operation) -> Seq<char> {
    "dab/"@ + operation_name(op)
}

fn name_of(op: Operation) -> (r: &'static str)
    ensures
        r@ == operation_name(op),
{
    match op {
        Operation::OperationsList => "operations/list",
        Operation::ApplicationsList => "applications/list",
        Operation::ApplicationsLaunch => "applications/launch",
        Operation::ApplicationsGetState => "applications/get-state",
        Operation::ApplicationsExit => "applications/exit",
        Operation::DeviceInfo => "device/info",
        Operation::InputKeyList => "input/key/list",
        Operation::InputKeyPress => "input/key-press",
        Operation::SystemRestart => "system/restart",
        Operation::SystemSettingsList => "system/settings/list",
        Operation::HealthCheckGet => "health-check/get",
        Operation::Version => "version",
        Operation::SystemLanguageList => "system/language/list",
        Operation::SystemLanguageGet => "system/language/get",
        Operation::SystemLanguageSet => "system/language/set",
    }
}

fn on_topic(topic: &str, op: Operation) -> (r: bool)
    ensures
        r == (topic@ == operation_topic(op)),
{
    str_eq(topic, join2("dab/", name_of(op)).as_str())
}

/// The operation that requests on `topic` are for; `None` for a topic no operation
/// answers (such requests are answered as not implemented).
pub fn route(topic: &str) -> (r: Option<Operation>)
    ensures
        match r {
            Some(op) => topic@ == operation_topic(op),
            None => forall|op: Operation| topic@ != #[trigger] operation_topic(op),
        },
{
    let ops = [
        Operation::OperationsList,
        Operation::ApplicationsList,
        Operation::ApplicationsLaunch,
        Operation::ApplicationsGetState,
        Operation::ApplicationsExit,
        Operation::DeviceInfo,
        Operation::InputKeyList,
        Operation::InputKeyPress,
        Operation::SystemRestart,
        Operation::SystemSettingsList,
        Operation::HealthCheckGet,
        Operation::Version,
        Operation::SystemLanguageList,
        Operation::SystemLanguageGet,
        Operation::SystemLanguageSet,
    ];
    let mut i: usize = 0;
    while i < 15
        invariant
            i <= 15,
            ops@.len() == 15,
            forall|j: int| 0 <= j < i ==> topic@ != #[trigger] operation_topic(ops@[j]),
            forall|op: Operation| #[trigger] ops@.contains(op),
        decreases 15 - i,
    {
        if on_topic(topic, ops[i]) {
            return Some(ops[i]);
        }
        i += 1;
    }
    assert forall|op: Operation| topic@ != #[trigger] operation_topic(op) by {
        assert(ops@.contains(op));
        let j = choose|j: int| 0 <= j < ops@.len() && ops@[j] == op;
        assert(topic@ != operation_topic(ops@[j]));
    }
    None
}

/// The answer to a request that failed: the error's status and message.
pub open spec fn error_body(e: DabError) -> Seq<char> {
    "{\"status\":"@ + decimal(e.spec_status() as nat) + ",\"error\":"@ + json_quoted(e.spec_message()) + "}"@
}

/// Writes the answer to a request that failed.
pub fn error_response(e: &DabError) -> (r: String)
    ensures
        r@ == error_body(*e),
{
    let status = u64_to_decimal(e.status() as u64);
    let r = join3("{\"status\":", status.as_str(), ",\"error\":");
    join3(r.as_str(), json_quote(e.message().as_str()).as_str(), "}")
}

} // verus!

verus! {

proof fn lemma_operation_name_marks(op: Operation)
    ensures
        op == Operation::OperationsList ==> operation_name(op).len() == 15 && operation_name(op)[0] == 'o' && operation_name(op)[7] == 'o' && operation_name(op)[13] == 's',
        op == Operation::ApplicationsList ==> operation_name(op).len() == 17 && operation_name(op)[0] == 'a' && operation_name(op)[7] == 't' && operation_name(op)[13] == 'l' && operation_name(op)[16] == 't',
        op == Operation::ApplicationsLaunch ==> operation_name(op).len() == 19 && operation_name(op)[0] == 'a' && operation_name(op)[7] == 't' && operation_name(op)[13] == 'l' && operation_name(op)[16] == 'n',
        op == Operation::ApplicationsGetState ==> operation_name(op).len() == 22 && operation_name(op)[0] == 'a' && operation_name(op)[7] == 't' && operation_name(op)[13] == 'g' && operation_name(op)[16] == '-',
        op == Operation::ApplicationsExit ==> operation_name(op).len() == 17 && operation_name(op)[0] == 'a' && operation_name(op)[7] == 't' && operation_name(op)[13] == 'e' && operation_name(op)[16] == 't',
        op == Operation::DeviceInfo ==> operation_name(op).len() == 11 && operation_name(op)[0] == 'd' && operation_name(op)[7] == 'i',
        op == Operation::InputKeyList ==> operation_name(op).len() == 14 && operation_name(op)[0] == 'i' && operation_name(op)[7] == 'e' && operation_name(op)[13] == 't',
        op == Operation::InputKeyPress ==> operation_name(op).len() == 15 && operation_name(op)[0] == 'i' && operation_name(op)[7] == 'e' && operation_name(op)[13] == 's',
        op == Operation::SystemRestart ==> operation_name(op).len() == 14 && operation_name(op)[0] == 's' && operation_name(op)[7] == 'r' && operation_name(op)[13] == 't',
        op == Operation::SystemSettingsList ==> operation_name(op).len() == 20 && operation_name(op)[0] == 's' && operation_name(op)[7] == 's' && operation_name(op)[13] == 'g' && operation_name(op)[16] == 'l',
        op == Operation::HealthCheckGet ==> operation_name(op).len() == 16 && operation_name(op)[0] == 'h' && operation_name(op)[7] == 'c' && operation_name(op)[13] == 'g',
        op == Operation::Version ==> operation_name(op).len() == 7 && operation_name(op)[0] == 'v',
        op == Operation::SystemLanguageList ==> operation_name(op).len() == 20 && operation_name(op)[0] == 's' && operation_name(op)[7] == 'l' && operation_name(op)[13] == 'g' && operation_name(op)[16] == 'l',
        op == Operation::SystemLanguageGet ==> operation_name(op).len() == 19 && operation_name(op)[0] == 's' && operation_name(op)[7] == 'l' && operation_name(op)[13] == 'g' && operation_name(op)[16] == 'g',
        op == Operation::SystemLanguageSet ==> operation_name(op).len() == 19 && operation_name(op)[0] == 's' && operation_name(op)[7] == 'l' && operation_name(op)[13] == 'g' && operation_name(op)[16] == 's',
{
    match op {
        Operation::OperationsList => {
            reveal_strlit("operations/list");
            assert(operation_name(op).len() == 15 && operation_name(op)[0] == 'o' && operation_name(op)[7] == 'o' && operation_name(op)[13] == 's');
        },
        Operation::ApplicationsList => {
            reveal_strlit("applications/list");
            assert(operation_name(op).len() == 17 && operation_name(op)[0] == 'a' && operation_name(op)[7] == 't' && operation_name(op)[13] == 'l' && operation_name(op)[16] == 't');
        },
        Operation::ApplicationsLaunch => {
            reveal_strlit("applications/launch");
            assert(operation_name(op).len() == 19 && operation_name(op)[0] == 'a' && operation_name(op)[7] == 't' && operation_name(op)[13] == 'l' && operation_name(op)[16] == 'n');
        },
        Operation::ApplicationsGetState => {
            reveal_strlit("applications/get-state");
            assert(operation_name(op).len() == 22 && operation_name(op)[0] == 'a' && operation_name(op)[7] == 't' && operation_name(op)[13] == 'g' && operation_name(op)[16] == '-');
        },
        Operation::ApplicationsExit => {
            reveal_strlit("applications/exit");
            assert(operation_name(op).len() == 17 && operation_name(op)[0] == 'a' && operation_name(op)[7] == 't' && operation_name(op)[13] == 'e' && operation_name(op)[16] == 't');
        },
        Operation::DeviceInfo => {
            reveal_strlit("device/info");
            assert(operation_name(op).len() == 11 && operation_name(op)[0] == 'd' && operation_name(op)[7] == 'i');
        },
        Operation::InputKeyList => {
            reveal_strlit("input/key/list");
            assert(operation_name(op).len() == 14 && operation_name(op)[0] == 'i' && operation_name(op)[7] == 'e' && operation_name(op)[13] == 't');
        },
        Operation::InputKeyPress => {
            reveal_strlit("input/key-press");
            assert(operation_name(op).len() == 15 && operation_name(op)[0] == 'i' && operation_name(op)[7] == 'e' && operation_name(op)[13] == 's');
        },
        Operation::SystemRestart => {
            reveal_strlit("system/restart");
            assert(operation_name(op).len() == 14 && operation_name(op)[0] == 's' && operation_name(op)[7] == 'r' && operation_name(op)[13] == 't');
        },
        Operation::SystemSettingsList => {
            reveal_strlit("system/settings/list");
            assert(operation_name(op).len() == 20 && operation_name(op)[0] == 's' && operation_name(op)[7] == 's' && operation_name(op)[13] == 'g' && operation_name(op)[16] == 'l');
        },
        Operation::HealthCheckGet => {
            reveal_strlit("health-check/get");
            assert(operation_name(op).len() == 16 && operation_name(op)[0] == 'h' && operation_name(op)[7] == 'c' && operation_name(op)[13] == 'g');
        },
        Operation::Version => {
            reveal_strlit("version");
            assert(operation_name(op).len() == 7 && operation_name(op)[0] == 'v');
        },
        Operation::SystemLanguageList => {
            reveal_strlit("system/language/list");
            assert(operation_name(op).len() == 20 && operation_name(op)[0] == 's' && operation_name(op)[7] == 'l' && operation_name(op)[13] == 'g' && operation_name(op)[16] == 'l');
        },
        Operation::SystemLanguageGet => {
            reveal_strlit("system/language/get");
            assert(operation_name(op).len() == 19 && operation_name(op)[0] == 's' && operation_name(op)[7] == 'l' && operation_name(op)[13] == 'g' && operation_name(op)[16] == 'g');
        },
        Operation::SystemLanguageSet => {
            reveal_strlit("system/language/set");
            assert(operation_name(op).len() == 19 && operation_name(op)[0] == 's' && operation_name(op)[7] == 'l' && operation_name(op)[13] == 'g' && operation_name(op)[16] == 's');
        },
    }
}

proof fn lemma_operation_names_differ(a: Operation, b: Operation)
    requires
        a != b,
    ensures
        operation_name(a) != operation_name(b),
{
    lemma_operation_name_marks(a);
    lemma_operation_name_marks(b);
}

/// A request on the topic of an operation is dispatched to that operation, and to no
/// other: no two operations share a topic.
pub proof fn law_topics_name_one_operation(a: Operation, b: Operation)
    ensures
        operation_topic(a) == operation_topic(b) ==> a == b,
{
    if a != b {
        lemma_operation_names_differ(a, b);
        if operation_topic(a) == operation_topic(b) {
            reveal_strlit("dab/");
            assert(operation_topic(a).skip(4) =~= operation_name(a));
            assert(operation_topic(b).skip(4) =~= operation_name(b));
        }
    }
}


/// A request on the topic of an operation is routed to that operation: whatever `route`
/// may answer for that topic (as its contract describes the answer) is that operation.
pub proof fn law_route_finds_each_operation(op: Operation, r: Option<Operation>)
    requires
        r matches Some(found) ==> operation_topic(op) == operation_topic(found),
        r is None ==> forall|other: Operation| operation_topic(op) != #[trigger] operation_topic(other),
    ensures
        r == Some(op),
{
    match r {
        Some(found) => {
            law_topics_name_one_operation(op, found);
        },
        None => {
            let t = operation_topic(op);
            assert(t != operation_topic(op));
        },
    }
}

} // verus!
