use plugin_host::plugin::capability::{
    is_allowed_url, respond, ApprovedUrl, Capability, HostEffect,
};
use plugin_host::plugin::error::PluginError;
use plugin_host::plugin::invoke::{resolve, script_file_name, ScriptLookup, Step};
use plugin_host::plugin::run_plugin_command;
use plugin_host::plugin::sandbox::eval_outcome;
use std::cell::RefCell;
use std::rc::Rc;

fn invoke(command: &str, lookup: ScriptLookup) -> (Result<String, PluginError>, usize) {
    let calls: Rc<RefCell<usize>> = Rc::new(RefCell::new(0));
    let counter = calls.clone();
    let outcome =
        run_plugin_command(command, lookup, move |_effect: HostEffect| *counter.borrow_mut() += 1);
    let seen = *calls.borrow();
    (outcome, seen)
}

#[test]
fn script_file_is_named_after_the_command() {
    assert_eq!(script_file_name("hello"), "hello.js");
    assert_eq!(script_file_name(""), ".js");
    assert_eq!(script_file_name("a.b"), "a.b.js");
}

#[test]
fn missing_script_is_not_found() {
    let (outcome, effects) = invoke("nothing", ScriptLookup::Missing);
    match outcome {
        Err(PluginError::ScriptNotFound(command)) => assert_eq!(command, "nothing"),
        other => panic!("unexpected: {:?}", other),
    }
    assert_eq!(effects, 0);
}

#[test]
fn missing_script_stops_before_evaluation() {
    assert!(matches!(
        resolve("nothing", ScriptLookup::Missing),
        Step::Fail(PluginError::ScriptNotFound(command)) if command == "nothing"
    ));
    assert!(matches!(
        resolve("x", ScriptLookup::Unreadable("denied".to_string())),
        Step::Fail(PluginError::ScriptRead(reason)) if reason == "denied"
    ));
    assert!(matches!(
        resolve("x", ScriptLookup::Source("1".to_string())),
        Step::Evaluate(source) if source == "1"
    ));
}

#[test]
fn unreadable_script_is_a_read_error() {
    let (outcome, _) = invoke("hello", ScriptLookup::Unreadable("permission denied".to_string()));
    match outcome {
        Err(error) => {
            assert!(matches!(&error, PluginError::ScriptRead(reason) if reason == "permission denied"));
            assert_eq!(error.message(), "Failed to read plugin script: permission denied");
        }
        other => panic!("unexpected: {:?}", other),
    }
}

#[test]
fn script_returning_a_literal() {
    let (outcome, effects) = invoke("hello", ScriptLookup::Source("\"hello\"".to_string()));
    assert_eq!(outcome.unwrap(), "hello");
    assert_eq!(effects, 0);
}

#[test]
fn throwing_script_fails_with_its_message() {
    let (outcome, _) =
        invoke("bad", ScriptLookup::Source("throw new Error(\"boom\")".to_string()));
    let error = outcome.unwrap_err();
    assert!(matches!(&error, PluginError::Eval(detail) if detail.contains("boom")));
    let line = error.message();
    assert!(line.starts_with("Plugin execution failed: "));
    assert!(line.contains("boom"));
    let (next, _) = invoke("good", ScriptLookup::Source("\"fine\"".to_string()));
    assert_eq!(next.unwrap(), "fine");
}

#[test]
fn same_plugin_twice_shares_nothing() {
    let source = "var seen = typeof globalThis.counter; globalThis.counter = 1; seen";
    let (first, _) = invoke("count", ScriptLookup::Source(source.to_string()));
    let (second, _) = invoke("count", ScriptLookup::Source(source.to_string()));
    assert_eq!(first.unwrap(), "undefined");
    assert_eq!(second.unwrap(), "undefined");
}

#[test]
fn script_sees_only_the_two_capabilities() {
    let probe = "[typeof log, typeof openUrl, typeof require, typeof process, typeof fetch, typeof console_log].join(\",\")";
    let (outcome, _) = invoke("probe", ScriptLookup::Source(probe.to_string()));
    assert_eq!(outcome.unwrap(), "function,function,undefined,undefined,undefined,undefined");
}

#[test]
fn capability_calls_return_nothing_to_the_script() {
    let source = "String(openUrl(\"javascript:alert(1)\")) + \",\" + String(openUrl(\"https://example.com\")) + \",\" + String(log(\"x\"))";
    let (outcome, effects) = invoke("quiet", ScriptLookup::Source(source.to_string()));
    assert_eq!(outcome.unwrap(), "undefined,undefined,undefined");
    assert_eq!(effects, 3);
}

#[test]
fn interpreter_result_maps_to_outcome() {
    assert_eq!(eval_outcome(Ok("v".to_string())).unwrap(), "v");
    assert!(matches!(
        eval_outcome(Err("SyntaxError".to_string())),
        Err(PluginError::Eval(detail)) if detail == "SyntaxError"
    ));
}

#[test]
fn error_messages() {
    assert_eq!(
        PluginError::ScriptNotFound("hello".to_string()).message(),
        "Plugin script not found: hello"
    );
    assert_eq!(
        PluginError::ScriptRead("denied".to_string()).message(),
        "Failed to read plugin script: denied"
    );
    assert_eq!(
        PluginError::Eval("Error: boom".to_string()).message(),
        "Plugin execution failed: Error: boom"
    );
    assert_eq!(PluginError::Directory("no such dir".to_string()).message(), "no such dir");
    assert_eq!(PluginError::Engine("out of memory".to_string()).message(), "out of memory");
    assert_eq!(
        PluginError::Binding("taken".to_string()).message(),
        "Failed to install capability: taken"
    );
    assert_eq!(
        PluginError::ManifestParse { path: "a.json".to_string(), detail: "bad".to_string() }
            .message(),
        "a.json: bad"
    );
}

#[test]
fn url_policy() {
    assert!(is_allowed_url("https://example.com"));
    assert!(is_allowed_url("http://example.com"));
    assert!(is_allowed_url("http://"));
    assert!(is_allowed_url("https://"));
    assert!(!is_allowed_url("javascript:alert(1)"));
    assert!(!is_allowed_url("file:///etc/passwd"));
    assert!(!is_allowed_url("ftp://example.com"));
    assert!(!is_allowed_url("HTTP://example.com"));
    assert!(!is_allowed_url("Https://example.com"));
    assert!(!is_allowed_url(" https://example.com"));
    assert!(!is_allowed_url("http:/example.com"));
    assert!(!is_allowed_url("https:/"));
    assert!(!is_allowed_url("http"));
    assert!(!is_allowed_url(""));
}

#[test]
fn approved_url_keeps_the_address() {
    let approved = ApprovedUrl::check("https://example.com/a?b=c".to_string()).ok().unwrap();
    assert_eq!(approved.as_str(), "https://example.com/a?b=c");
    match ApprovedUrl::check("javascript:alert(1)".to_string()) {
        Err(refused) => assert_eq!(refused, "javascript:alert(1)"),
        Ok(_) => panic!("the policy let a script address through"),
    }
}

#[test]
fn responses() {
    assert!(matches!(
        respond(Capability::Log, "https://example.com".to_string()),
        HostEffect::Log(message) if message == "https://example.com"
    ));
    assert!(matches!(
        respond(Capability::OpenUrl, "https://example.com".to_string()),
        HostEffect::OpenUrl(url) if url.as_str() == "https://example.com"
    ));
    assert!(matches!(
        respond(Capability::OpenUrl, "mailto:a@b.c".to_string()),
        HostEffect::RejectedUrl(url) if url == "mailto:a@b.c"
    ));
}

#[test]
fn capability_names() {
    assert_eq!(Capability::Log.name(), "log");
    assert_eq!(Capability::OpenUrl.name(), "openUrl");
}
