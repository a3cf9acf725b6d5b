use stpl::dynamic::{
    classify, failed, finished, handle_dynamic, invocation, not_found, respond, same_text,
    startup, succeeded, Exit, Outcome, Report, Startup, Template, ENV_NAME, EXIT_CODE_FAILED,
    EXIT_CODE_NOT_FOUND, EXIT_CODE_SUCCESS,
};
use stpl::html::{body, h1, html, p, RenderExt};
use stpl::templates::home::page;
use stpl::templates::{base, home, home_tpl};
use stpl::{Bytes, Encoding, Render, Renderer, Text};

fn william() -> home::Data {
    home::Data { page: base::Data { title: "Hello!".into() }, name: "William".into() }
}

fn exited(code: Option<i32>, stdout: &[u8], stderr: &[u8]) -> Report {
    Report::Exit { code, stdout: stdout.to_vec(), stderr: stderr.to_vec() }
}

/// What the parent sees of a child that put `stdout` out and ended as `exit`.
fn seen(stdout: Vec<u8>, exit: Exit) -> Report {
    Report::Exit { code: Some(exit.code), stdout, stderr: exit.message.into_bytes() }
}

#[test]
fn exit_codes_are_those_of_the_protocol() {
    assert_eq!(EXIT_CODE_SUCCESS, 66);
    assert_eq!(EXIT_CODE_FAILED, 67);
    assert_eq!(EXIT_CODE_NOT_FOUND, 68);
}

#[test]
fn exit_codes_are_distinct_and_not_zero() {
    let codes = [0, EXIT_CODE_SUCCESS, EXIT_CODE_FAILED, EXIT_CODE_NOT_FOUND];
    for i in 0..codes.len() {
        for j in 0..i {
            assert_ne!(codes[i], codes[j]);
        }
    }
}

#[test]
fn environment_variable_has_a_fixed_name() {
    assert_eq!(ENV_NAME, "RUST_STPL_DYNAMIC_TEMPLATE_KEY");
}

#[test]
fn same_text_compares_contents() {
    assert!(same_text("", ""));
    assert!(same_text("home", "home"));
    assert!(!same_text("home", "Home"));
    assert!(!same_text("home", "homes"));
    assert!(!same_text("home", ""));
    assert!(same_text("zażółć", "zażółć"));
    assert!(!same_text("zażółć", "zazolc"));
}

#[test]
fn invocation_carries_key_and_argument() {
    let call = invocation("home", vec![1, 2, 3]);
    assert_eq!(call.env_name, ENV_NAME);
    assert_eq!(call.env_value, "home");
    assert_eq!(call.input, vec![1, 2, 3]);
}

#[test]
fn success_code_yields_stdout() {
    assert_eq!(
        classify("home", exited(Some(66), b"<p>x</p>", b"noise")),
        Outcome::Success(b"<p>x</p>".to_vec())
    );
}

#[test]
fn not_found_code_names_the_key() {
    assert_eq!(
        classify("nonexistent", exited(Some(68), b"out", b"err")),
        Outcome::NotFound("nonexistent".to_string())
    );
}

#[test]
fn failed_code_carries_everything() {
    assert_eq!(
        classify("home", exited(Some(67), b"part", b"why")),
        Outcome::Failed { exit_code: Some(67), stdout: b"part".to_vec(), stderr: b"why".to_vec() }
    );
}

#[test]
fn clean_exit_is_a_failure() {
    assert_eq!(
        classify("home", exited(Some(0), b"hello", b"")),
        Outcome::Failed { exit_code: Some(0), stdout: b"hello".to_vec(), stderr: Vec::new() }
    );
}

#[test]
fn other_codes_are_failures() {
    for code in [-1, 1, 2, 65, 69, 101, 127, 255, i32::MIN, i32::MAX] {
        assert_eq!(
            classify("home", exited(Some(code), b"o", b"e")),
            Outcome::Failed { exit_code: Some(code), stdout: b"o".to_vec(), stderr: b"e".to_vec() }
        );
    }
}

#[test]
fn missing_code_is_a_failure() {
    assert_eq!(
        classify("home", exited(None, b"o", b"killed")),
        Outcome::Failed { exit_code: None, stdout: b"o".to_vec(), stderr: b"killed".to_vec() }
    );
}

#[test]
fn fault_is_an_io_error() {
    assert_eq!(
        classify("home", Report::Fault("No such file or directory".to_string())),
        Outcome::IoError("No such file or directory".to_string())
    );
}

#[test]
fn exits_carry_code_and_message() {
    assert_eq!(succeeded(), Exit { code: 66, message: String::new() });
    assert_eq!(
        failed("broken pipe"),
        Exit { code: 67, message: "Dynamic template failed: broken pipe".to_string() }
    );
    assert_eq!(
        not_found("about"),
        Exit { code: 68, message: "Couldn't find dynamic template by key: about".to_string() }
    );
}

#[test]
fn finished_follows_the_write() {
    assert_eq!(finished(Ok(())), succeeded());
    assert_eq!(finished(Err("stdout closed".to_string())), failed("stdout closed"));
}

#[test]
fn guard_matches_the_requested_key_once() {
    let mut guard = handle_dynamic(Some("home".to_string()));
    assert!(!guard.try_dispatch("about"));
    assert!(guard.try_dispatch("home"));
    assert!(!guard.try_dispatch("home"));
    assert!(!guard.try_dispatch("about"));
    assert_eq!(guard.finish(), None);
}

#[test]
fn guard_without_request_matches_nothing() {
    let mut guard = handle_dynamic(None);
    assert!(!guard.try_dispatch("home"));
    assert!(!guard.try_dispatch(""));
    assert_eq!(guard.finish(), None);
}

#[test]
fn guard_reports_an_unmatched_key() {
    let mut guard = handle_dynamic(Some("nonexistent".to_string()));
    assert!(!guard.try_dispatch("home"));
    assert!(!guard.try_dispatch("about"));
    assert_eq!(guard.finish(), Some(not_found("nonexistent")));
}

#[test]
fn guard_reports_with_no_template_at_all() {
    let guard = handle_dynamic(Some("home".to_string()));
    assert_eq!(guard.finish(), Some(not_found("home")));
}

#[test]
fn guard_ignores_an_empty_request() {
    let mut guard = handle_dynamic(Some(String::new()));
    assert!(!guard.try_dispatch("home"));
    assert_eq!(guard.finish(), None);
}

#[test]
fn at_most_one_of_many_templates_dispatches() {
    let keys = ["a", "home", "b", "home", "c", "home"];
    for requested in [None, Some(""), Some("home"), Some("a"), Some("c"), Some("zzz")] {
        let mut guard = handle_dynamic(requested.map(String::from));
        let hits = keys.iter().filter(|key| guard.try_dispatch(key)).count();
        let registered = requested.map_or(false, |key| keys.contains(&key));
        assert_eq!(hits, if registered { 1 } else { 0 });
        let end = guard.finish();
        match requested {
            Some(key) if !registered && !key.is_empty() => assert_eq!(end, Some(not_found(key))),
            _ => assert_eq!(end, None),
        }
    }
}

#[test]
fn startup_dispatches_the_first_match() {
    let keys: Vec<String> = vec!["about".into(), "home".into(), "home".into()];
    assert_eq!(startup(Some("home".to_string()), &keys), Startup::Dispatch(1));
    assert_eq!(startup(Some("about".to_string()), &keys), Startup::Dispatch(0));
}

#[test]
fn startup_reports_an_unregistered_key() {
    let keys: Vec<String> = vec!["about".into(), "home".into()];
    assert_eq!(
        startup(Some("nonexistent".to_string()), &keys),
        Startup::NotFound(not_found("nonexistent"))
    );
    assert_eq!(startup(Some("home".to_string()), &Vec::new()), Startup::NotFound(not_found("home")));
}

#[test]
fn startup_proceeds_without_a_request() {
    let keys: Vec<String> = vec!["about".into(), "home".into()];
    assert_eq!(startup(None, &keys), Startup::Proceed);
    assert_eq!(startup(Some(String::new()), &keys), Startup::Proceed);
    assert_eq!(startup(None, &Vec::new()), Startup::Proceed);
}

#[test]
fn startup_dispatches_an_empty_key_that_is_registered() {
    let keys: Vec<String> = vec!["home".into(), String::new()];
    assert_eq!(startup(Some(String::new()), &keys), Startup::Dispatch(1));
}

#[test]
fn respond_renders_the_template() {
    assert_eq!(respond(&home_tpl(), Ok(william())), Ok(page(&william()).render_to_vec()));
}

#[test]
fn respond_fails_without_an_argument() {
    assert_eq!(
        respond(&home_tpl(), Err("unexpected end of input".to_string())),
        Err(failed("unexpected end of input"))
    );
}

#[test]
fn registered_key_yields_the_direct_render() {
    let argument = bincode::serialize(&(("Hello!",), "William")).unwrap();
    let call = invocation(home_tpl().key(), argument);
    let keys: Vec<String> = vec!["about".into(), home_tpl().key().into()];
    assert_eq!(startup(Some(call.env_value), &keys), Startup::Dispatch(1));
    let ((title,), name): ((String,), String) = bincode::deserialize(&call.input).unwrap();
    let data = home::Data { page: base::Data { title }, name };
    let reply = respond(&home_tpl(), Ok(data)).unwrap();
    let report = seen(reply, finished(Ok(())));
    assert_eq!(
        classify(home_tpl().key(), report),
        Outcome::Success(page(&william()).render_to_vec())
    );
}

/// A page that greets by name.
struct Greeting;

impl Template for Greeting {
    type Argument = String;

    fn key_text(&self) -> Text {
        unreachable!()
    }

    fn page(&self, _: &String, _: Encoding) -> Bytes {
        unreachable!()
    }

    fn key(&self) -> &str {
        "home"
    }

    fn render<R: Renderer>(&self, name: &String, r: &mut R) -> Result<(), std::io::Error> {
        let heading = h1().class("main").call_once("Welcome!");
        let greeting = p().call_once(("Hi, ", name.as_str()));
        html().call_once(body().call_once((heading, greeting))).render(r)
    }
}

#[test]
fn call_of_home_for_william_succeeds() {
    let argument = bincode::serialize(&("William",)).unwrap();
    let call = invocation("home", argument);
    let keys: Vec<String> = vec![Greeting.key().into()];
    assert_eq!(startup(Some(call.env_value), &keys), Startup::Dispatch(0));
    let (name,): (String,) = bincode::deserialize(&call.input).unwrap();
    let reply = respond(&Greeting, Ok(name)).unwrap();
    let exit = finished(Ok(()));
    assert_eq!(exit.code, EXIT_CODE_SUCCESS);
    assert_eq!(
        classify("home", seen(reply, exit)),
        Outcome::Success(
            b"<html><body><h1 class=\"main\">Welcome!</h1><p>Hi, William</p></body></html>"
                .to_vec()
        )
    );
}

#[test]
fn call_of_unknown_key_is_not_found() {
    let argument = bincode::serialize(&("William",)).unwrap();
    let call = invocation("nonexistent", argument);
    let keys: Vec<String> = vec![Greeting.key().into()];
    let exit = match startup(Some(call.env_value), &keys) {
        Startup::NotFound(exit) => exit,
        other => panic!("{:?}", other),
    };
    assert_eq!(exit.code, EXIT_CODE_NOT_FOUND);
    assert!(exit.message.contains("nonexistent"));
    let report = seen(Vec::new(), exit);
    match &report {
        Report::Exit { stderr, .. } => {
            assert!(String::from_utf8_lossy(stderr).contains("nonexistent"))
        },
        Report::Fault(cause) => panic!("{}", cause),
    }
    assert_eq!(classify("nonexistent", report), Outcome::NotFound("nonexistent".to_string()));
}

#[test]
fn call_that_fails_after_decoding_is_failed() {
    let argument = bincode::serialize(&("William",)).unwrap();
    let call = invocation("home", argument);
    let (name,): (String,) = bincode::deserialize(&call.input).unwrap();
    let reply = respond(&Greeting, Ok(name)).unwrap();
    let exit = finished(Err("Broken pipe (os error 32)".to_string()));
    assert_eq!(exit.code, EXIT_CODE_FAILED);
    assert_ne!(exit.code, EXIT_CODE_SUCCESS);
    assert_ne!(exit.code, EXIT_CODE_NOT_FOUND);
    let partial = reply[..10].to_vec();
    match classify("home", seen(partial.clone(), exit)) {
        Outcome::Failed { exit_code, stdout, stderr } => {
            assert_eq!(exit_code, Some(EXIT_CODE_FAILED));
            assert_eq!(stdout, partial);
            assert!(!stderr.is_empty());
        },
        other => panic!("{:?}", other),
    }
}

#[test]
fn call_with_undecodable_argument_is_failed() {
    let call = invocation("home", vec![0xff]);
    let decoded = bincode::deserialize::<(String,)>(&call.input).map(|(name,)| name);
    let exit = respond(&Greeting, decoded.map_err(|e| e.to_string())).unwrap_err();
    assert_eq!(exit.code, EXIT_CODE_FAILED);
    match classify("home", seen(Vec::new(), exit)) {
        Outcome::Failed { exit_code, stdout, stderr } => {
            assert_eq!(exit_code, Some(67));
            assert_eq!(stdout, Vec::<u8>::new());
            assert!(String::from_utf8_lossy(&stderr).starts_with("Dynamic template failed: "));
        },
        other => panic!("{:?}", other),
    }
}

#[test]
fn panicking_child_is_failed() {
    assert_eq!(
        classify("home", exited(Some(101), b"", b"thread 'main' panicked")),
        Outcome::Failed {
            exit_code: Some(101),
            stdout: Vec::new(),
            stderr: b"thread 'main' panicked".to_vec()
        }
    );
}
