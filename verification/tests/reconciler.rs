use rtwod2::config::{Config, ProviderMode, TwoDNSConfig, UpdateConfig};
use rtwod2::cycle::{Action, CycleOutcome, Event, HttpResponse, Reconciler, StepResult};

fn make_machine() -> Reconciler {
    let config = Config {
        twodns: TwoDNSConfig {
            url: String::from("http://provider.example/record"),
            user: String::from("alice"),
            token: String::from("hunter2"),
            timeout: 7,
        },
        update: UpdateConfig {
            interval: 300,
            timeout: 5,
            mode: ProviderMode::RoundRobin,
            urls: vec![String::from("http://echo.example")],
        },
    };
    Reconciler::new(config).unwrap()
}

fn ok(status: u16, body: &str) -> Result<HttpResponse, String> {
    Ok(HttpResponse { status, body: String::from(body) })
}

#[test]
fn equal_ips_never_invoke_the_writer() {
    let mut machine = make_machine();
    machine.begin_cycle();
    let r = machine.step(Event::FetchDone(ok(200, "203.0.113.7\n")));
    match r {
        StepResult::Next(Action::ReadRecorded { url, user, token, timeout }) => {
            assert_eq!(url, "http://provider.example/record");
            assert_eq!(user, "alice");
            assert_eq!(token, "hunter2");
            assert_eq!(timeout, 7);
        },
        _ => panic!("a successful fetch must lead to the provider read"),
    }
    let r = machine.step(Event::ReadDone(ok(200, "{\"ip_address\":\"203.0.113.7\"}")));
    match r {
        StepResult::Done(CycleOutcome::InSync(ip)) => {
            assert_eq!(ip.ip_address, "203.0.113.7");
        },
        _ => panic!("equal IPs must end the cycle without a write"),
    }
}

#[test]
fn differing_ips_invoke_the_writer_once_with_the_fetched_value() {
    let mut machine = make_machine();
    machine.begin_cycle();
    machine.step(Event::FetchDone(ok(200, "198.51.100.9")));
    let r = machine.step(Event::ReadDone(ok(200, "{\"ip_address\":\"198.51.100.1\"}")));
    match r {
        StepResult::Next(Action::WriteRecorded { url, user, token, timeout, body }) => {
            assert_eq!(url, "http://provider.example/record");
            assert_eq!(user, "alice");
            assert_eq!(token, "hunter2");
            assert_eq!(timeout, 7);
            assert_eq!(body, "{\"ip_address\":\"198.51.100.9\"}");
        },
        _ => panic!("differing IPs must lead to exactly one write"),
    }
    let r = machine.step(Event::WriteDone(ok(200, "")));
    match r {
        StepResult::Done(CycleOutcome::Updated(ip)) => {
            assert_eq!(ip, "198.51.100.9");
        },
        _ => panic!("a successful write must report the written value"),
    }
}

#[test]
fn fetch_failure_skips_reader_and_writer() {
    let mut machine = make_machine();
    machine.begin_cycle();
    let r = machine.step(Event::FetchDone(Err(String::from("connection refused"))));
    match r {
        StepResult::Done(CycleOutcome::FetchFailed(e)) => {
            assert_eq!(e.message(), "failed to fetch IP: connection refused");
        },
        _ => panic!("a transport failure must end the cycle at once"),
    }
    // The machine is back between cycles: the next tick starts afresh.
    machine.begin_cycle();
}

#[test]
fn non_success_fetch_status_is_a_fetch_error() {
    let mut machine = make_machine();
    machine.begin_cycle();
    let r = machine.step(Event::FetchDone(ok(503, "overloaded")));
    match r {
        StepResult::Done(CycleOutcome::FetchFailed(e)) => {
            assert_eq!(e.message(), "failed to fetch IP: unexpected HTTP status 503");
        },
        _ => panic!("a non-2xx fetch must end the cycle at once"),
    }
}

#[test]
fn non_success_read_status_surfaces_as_fetch_error() {
    let mut machine = make_machine();
    machine.begin_cycle();
    machine.step(Event::FetchDone(ok(200, "203.0.113.7")));
    let r = machine.step(Event::ReadDone(ok(500, "boom")));
    match r {
        StepResult::Done(CycleOutcome::ReadFailed(e)) => {
            assert_eq!(e.message(), "failed to fetch IP: unexpected HTTP status 500");
        },
        _ => panic!("a non-2xx read must surface as a fetch error"),
    }
    // The loop proceeds to the next tick without crashing.
    machine.begin_cycle();
}

#[test]
fn non_success_write_status_surfaces_as_update_error() {
    let mut machine = make_machine();
    machine.begin_cycle();
    machine.step(Event::FetchDone(ok(200, "198.51.100.9")));
    machine.step(Event::ReadDone(ok(200, "{\"ip_address\":\"198.51.100.1\"}")));
    let r = machine.step(Event::WriteDone(ok(403, "forbidden")));
    match r {
        StepResult::Done(CycleOutcome::WriteFailed(e)) => {
            assert_eq!(e.message(), "failed to update recorded IP: unexpected HTTP status 403");
        },
        _ => panic!("a non-2xx write must surface as an update error"),
    }
    machine.begin_cycle();
}

#[test]
fn malformed_provider_payload_is_a_fetch_error() {
    let mut machine = make_machine();
    machine.begin_cycle();
    machine.step(Event::FetchDone(ok(200, "203.0.113.7")));
    let r = machine.step(Event::ReadDone(ok(200, "not a payload")));
    match r {
        StepResult::Done(CycleOutcome::ReadFailed(e)) => {
            assert_eq!(e.message(), "failed to fetch IP: malformed provider payload");
        },
        _ => panic!("a body without an ip_address field must be malformed"),
    }
}

#[test]
fn end_to_end_update_scenario() {
    let mut machine = make_machine();
    let a = machine.begin_cycle();
    match a {
        Action::Fetch { url, timeout } => {
            assert_eq!(url, "http://echo.example");
            assert_eq!(timeout, 5);
        },
        _ => panic!("a cycle must start with a fetch"),
    }
    let r = machine.step(Event::FetchDone(ok(200, "198.51.100.9")));
    assert!(matches!(r, StepResult::Next(Action::ReadRecorded { .. })));
    let r = machine.step(Event::ReadDone(ok(200, "{\"ip_address\":\"198.51.100.1\"}")));
    match r {
        StepResult::Next(Action::WriteRecorded { body, .. }) => {
            assert_eq!(body, "{\"ip_address\":\"198.51.100.9\"}");
        },
        _ => panic!("the writer must be called with the fetched value"),
    }
    let r = machine.step(Event::WriteDone(ok(200, "")));
    match r {
        StepResult::Done(CycleOutcome::Updated(ip)) => {
            assert_eq!(ip, "198.51.100.9");
        },
        _ => panic!("the loop must report the successful update"),
    }
}

#[test]
fn transport_failure_on_write_is_an_update_error() {
    let mut machine = make_machine();
    machine.begin_cycle();
    machine.step(Event::FetchDone(ok(200, "198.51.100.9")));
    machine.step(Event::ReadDone(ok(200, "{\"ip_address\":\"198.51.100.1\"}")));
    let r = machine.step(Event::WriteDone(Err(String::from("timed out"))));
    match r {
        StepResult::Done(CycleOutcome::WriteFailed(e)) => {
            assert_eq!(e.message(), "failed to update recorded IP: timed out");
        },
        _ => panic!("a transport failure on write must surface as an update error"),
    }
}
