use padm_exporter::client::auth::AuthData;
use padm_exporter::client::padm_client::{PADMClient, Phase, PollFailure, WorkerAction, WorkerEvent};
use padm_exporter::config::schema::Target;
use padm_exporter::metrics::catalog::PADMMetric;
use padm_exporter::metrics::observation::Reading;
use padm_exporter::target::schema::{ApiResponse, Attributes, Variable};

fn client(interval: u64) -> PADMClient {
    PADMClient::new(
        "rack.example:8443".to_string(),
        "https://rack.example:8443".to_string(),
        true,
        interval,
        "admin",
        "secret",
        vec!["RackA".to_string(), "RackB".to_string()],
    )
}

fn auth(token: &str) -> AuthData {
    AuthData {
        access_token: token.to_string(),
        refresh_token: "refresh".to_string(),
        msg: "ok".to_string(),
    }
}

fn response() -> ApiResponse {
    ApiResponse {
        data: vec![Variable {
            attributes: Attributes {
                device_name: "RackA".to_string(),
                label: "Temperature (C)".to_string(),
                value: "21.5".to_string(),
                raw_value: "21.5".to_string(),
                enum_values: Vec::new(),
            },
        }],
    }
}

fn assert_login(action: WorkerAction) {
    match action {
        WorkerAction::Authenticate { url, username, password } => {
            assert_eq!(url, "https://rack.example:8443/api/oauth/token?grant_type=password");
            assert_eq!(username, "admin");
            assert_eq!(password, "secret");
        }
        other => panic!("no login: {:?}", other),
    }
}

fn assert_request(action: WorkerAction, token: &str) {
    match action {
        WorkerAction::Fetch { url, authorization } => {
            assert_eq!(url, "https://rack.example:8443/api/variables");
            assert_eq!(authorization, format!("Bearer {}", token));
        }
        other => panic!("no request: {:?}", other),
    }
}

#[test]
fn new_worker_holds_its_settings() {
    let worker = client(30);
    assert_eq!(worker.addr(), "rack.example:8443");
    assert_eq!(worker.url(), "https://rack.example:8443");
    assert!(worker.tls_insecure());
    assert_eq!(worker.interval(), 30);
    assert!(!worker.is_manual());
    assert_eq!(worker.phase(), Phase::Sleeping);
    assert_eq!(worker.current_token(), "");
    assert!(worker.snapshot().is_none());
    assert!(worker.registry().is_empty());
    assert!(!worker.is_ready());
    let manual = client(0);
    assert!(manual.is_manual());
    assert_eq!(manual.phase(), Phase::Waiting);
}

#[test]
fn worker_for_a_target_of_the_settings() {
    let target = Target::new(
        "rack.example".to_string(),
        Some(8443),
        None,
        Some(true),
        Some(0),
        "admin".to_string(),
        "secret".to_string(),
        None,
    );
    let mut worker = PADMClient::for_target(&target);
    assert_eq!(worker.addr(), "rack.example:8443");
    assert_eq!(worker.url(), "https://rack.example:8443");
    assert!(worker.tls_insecure());
    assert!(worker.is_manual());
    assert!(worker.request_probe());
    assert_login(worker.advance(WorkerEvent::Woken));
    worker.advance(WorkerEvent::Authenticated(auth("t")));
    worker.advance(WorkerEvent::Responded(200));
    match worker.advance(WorkerEvent::Decoded(response())) {
        WorkerAction::Publish { observations, .. } => assert_eq!(observations.len(), 1),
        other => panic!("nothing published: {:?}", other),
    }
}

#[test]
fn interval_worker_logs_in_fetches_and_publishes() {
    let mut worker = client(30);
    assert_login(worker.advance(WorkerEvent::Woken));
    assert_eq!(worker.phase(), Phase::Authenticating);
    assert_request(worker.advance(WorkerEvent::Authenticated(auth("first"))), "first");
    assert_eq!(worker.current_token(), "first");
    assert_eq!(worker.phase(), Phase::Fetching);
    assert!(matches!(worker.advance(WorkerEvent::Responded(200)), WorkerAction::Decode));
    assert_eq!(worker.phase(), Phase::Decoding);
    match worker.advance(WorkerEvent::Decoded(response())) {
        WorkerAction::Publish { observations, announce } => {
            assert!(announce);
            assert_eq!(observations.len(), 3);
            assert_eq!(observations[0].key, PADMMetric::Temperature.to_metric_key());
            assert_eq!(observations[0].label_values, vec!["RackA".to_string()]);
            assert_eq!(observations[1].label_values, vec!["RackA".to_string()]);
            assert!(matches!(observations[1].value, Reading::Flag(true)));
            assert_eq!(observations[2].label_values, vec!["RackB".to_string()]);
            assert!(matches!(observations[2].value, Reading::Flag(false)));
        }
        other => panic!("nothing published: {:?}", other),
    }
    assert_eq!(worker.phase(), Phase::Settling);
    assert_eq!(worker.snapshot().unwrap().data.len(), 1);
    assert!(matches!(worker.advance(WorkerEvent::Settled), WorkerAction::Sleep(30)));
    assert_eq!(worker.phase(), Phase::Sleeping);
    assert_request(worker.advance(WorkerEvent::Woken), "first");
}

#[test]
fn data_is_announced_until_the_worker_is_ready() {
    let mut worker = client(30);
    worker.advance(WorkerEvent::Woken);
    worker.advance(WorkerEvent::Authenticated(auth("t")));
    worker.advance(WorkerEvent::Responded(200));
    let plan = match worker.advance(WorkerEvent::Decoded(response())) {
        WorkerAction::Publish { observations, announce } => {
            assert!(announce);
            observations
        }
        other => panic!("nothing published: {:?}", other),
    };
    assert!(!worker.is_ready());
    assert!(worker
        .write_metric(&plan[0].key, &plan[0].label_values, &prometheus::core::Atomic::new(21.5))
        .is_ok());
    assert!(worker.is_ready());
    assert_eq!(
        String::from_utf8(worker.registry().encode().unwrap()).unwrap(),
        "# HELP padm_temperature_celsius Ambient temperature currently reported by the device, in degrees Celsius.\n\
         # TYPE padm_temperature_celsius gauge\n\
         padm_temperature_celsius{device=\"RackA\"} 21.5\n"
    );
    worker.advance(WorkerEvent::Settled);
    worker.advance(WorkerEvent::Woken);
    worker.advance(WorkerEvent::Responded(200));
    match worker.advance(WorkerEvent::Decoded(response())) {
        WorkerAction::Publish { announce, .. } => assert!(!announce),
        other => panic!("nothing published: {:?}", other),
    }
}

#[test]
fn unauthorized_request_is_retried_once_after_one_login() {
    let mut worker = client(30);
    worker.advance(WorkerEvent::Woken);
    assert_request(worker.advance(WorkerEvent::Authenticated(auth("stale"))), "stale");
    assert_login(worker.advance(WorkerEvent::Responded(401)));
    assert_eq!(worker.phase(), Phase::Reauthenticating);
    assert_request(worker.advance(WorkerEvent::Authenticated(auth("fresh"))), "fresh");
    assert_eq!(worker.phase(), Phase::Refetching);
    assert!(matches!(worker.advance(WorkerEvent::Responded(200)), WorkerAction::Decode));
}

#[test]
fn second_unauthorized_answer_fails_the_poll() {
    let mut worker = client(30);
    worker.advance(WorkerEvent::Woken);
    worker.advance(WorkerEvent::Authenticated(auth("stale")));
    assert_login(worker.advance(WorkerEvent::Responded(401)));
    assert_request(worker.advance(WorkerEvent::Authenticated(auth("fresh"))), "fresh");
    assert!(matches!(
        worker.advance(WorkerEvent::Responded(401)),
        WorkerAction::Report(PollFailure::Status(401))
    ));
    assert_eq!(worker.phase(), Phase::Settling);
    assert_eq!(worker.current_token(), "fresh");
    assert!(matches!(worker.advance(WorkerEvent::Settled), WorkerAction::Sleep(30)));
    assert_request(worker.advance(WorkerEvent::Woken), "fresh");
}

#[test]
fn failed_login_keeps_the_credentials() {
    let mut worker = client(30);
    assert_login(worker.advance(WorkerEvent::Woken));
    assert!(matches!(
        worker.advance(WorkerEvent::AuthenticationFailed),
        WorkerAction::Report(PollFailure::Authentication)
    ));
    assert_eq!(worker.current_token(), "");
    worker.advance(WorkerEvent::Settled);
    assert_login(worker.advance(WorkerEvent::Woken));
    worker.advance(WorkerEvent::Authenticated(auth("one")));
    assert_login(worker.advance(WorkerEvent::Responded(401)));
    assert!(matches!(
        worker.advance(WorkerEvent::AuthenticationFailed),
        WorkerAction::Report(PollFailure::Authentication)
    ));
    assert_eq!(worker.current_token(), "one");
}

#[test]
fn credentials_with_an_empty_field_count_as_empty() {
    assert!(AuthData::new().is_empty());
    assert!(!auth("t").is_empty());
    let mut partial = auth("t");
    partial.msg = String::new();
    assert!(partial.is_empty());
    let mut partial = auth("t");
    partial.refresh_token = String::new();
    assert!(partial.is_empty());
    assert!(auth("").is_empty());
    let mut worker = client(30);
    worker.advance(WorkerEvent::Woken);
    let mut empty_message = auth("t");
    empty_message.msg = String::new();
    assert_request(worker.advance(WorkerEvent::Authenticated(empty_message)), "t");
    worker.advance(WorkerEvent::Responded(500));
    worker.advance(WorkerEvent::Settled);
    assert_login(worker.advance(WorkerEvent::Woken));
}

#[test]
fn failures_of_a_poll() {
    let mut worker = client(30);
    worker.advance(WorkerEvent::Woken);
    worker.advance(WorkerEvent::Authenticated(auth("t")));
    assert!(matches!(
        worker.advance(WorkerEvent::Unreachable),
        WorkerAction::Report(PollFailure::Transport)
    ));
    worker.advance(WorkerEvent::Settled);
    worker.advance(WorkerEvent::Woken);
    assert!(matches!(
        worker.advance(WorkerEvent::Responded(503)),
        WorkerAction::Report(PollFailure::Status(503))
    ));
    worker.advance(WorkerEvent::Settled);
    worker.advance(WorkerEvent::Woken);
    assert!(matches!(
        worker.advance(WorkerEvent::Responded(302)),
        WorkerAction::Report(PollFailure::Status(302))
    ));
    worker.advance(WorkerEvent::Settled);
    worker.advance(WorkerEvent::Woken);
    assert!(matches!(worker.advance(WorkerEvent::Responded(204)), WorkerAction::Decode));
    assert!(matches!(
        worker.advance(WorkerEvent::Undecodable),
        WorkerAction::Report(PollFailure::Malformed)
    ));
    assert!(worker.snapshot().is_none());
    worker.advance(WorkerEvent::Settled);
    worker.advance(WorkerEvent::Woken);
    assert!(matches!(
        worker.advance(WorkerEvent::Decoded(response())),
        WorkerAction::Report(PollFailure::Unexpected)
    ));
    assert!(worker.snapshot().is_none());
}

#[test]
fn malformed_response_keeps_the_last_variables() {
    let mut worker = client(30);
    worker.advance(WorkerEvent::Woken);
    worker.advance(WorkerEvent::Authenticated(auth("t")));
    worker.advance(WorkerEvent::Responded(200));
    worker.advance(WorkerEvent::Decoded(response()));
    worker.advance(WorkerEvent::Settled);
    worker.advance(WorkerEvent::Woken);
    worker.advance(WorkerEvent::Responded(200));
    assert!(matches!(
        worker.advance(WorkerEvent::Undecodable),
        WorkerAction::Report(PollFailure::Malformed)
    ));
    assert_eq!(worker.snapshot().unwrap().data[0].attributes.device_name, "RackA");
}

#[test]
fn manual_worker_waits_for_a_probe_and_is_never_ready() {
    let mut worker = client(0);
    assert!(!worker.is_ready());
    assert!(matches!(worker.advance(WorkerEvent::Woken), WorkerAction::AwaitTrigger));
    assert!(matches!(worker.advance(WorkerEvent::Woken), WorkerAction::AwaitTrigger));
    assert_eq!(worker.phase(), Phase::Waiting);
    let plan = worker.begin_scrape();
    assert!(plan.wake);
    assert!(plan.wait);
    assert_login(worker.advance(WorkerEvent::Woken));
    assert_request(worker.advance(WorkerEvent::Authenticated(auth("t"))), "t");
    worker.advance(WorkerEvent::Responded(200));
    let observations = match worker.advance(WorkerEvent::Decoded(response())) {
        WorkerAction::Publish { observations, announce } => {
            assert!(announce);
            observations
        }
        other => panic!("nothing published: {:?}", other),
    };
    assert!(worker
        .write_metric(&observations[0].key, &observations[0].label_values, &prometheus::core::Atomic::new(1.0))
        .is_ok());
    assert!(!worker.is_ready());
    assert!(matches!(worker.advance(WorkerEvent::Settled), WorkerAction::AwaitTrigger));
    assert!(matches!(worker.advance(WorkerEvent::Woken), WorkerAction::AwaitTrigger));
    assert!(worker.begin_scrape().wait);
    assert_request(worker.advance(WorkerEvent::Woken), "t");
    worker.advance(WorkerEvent::Responded(200));
    match worker.advance(WorkerEvent::Decoded(response())) {
        WorkerAction::Publish { announce, .. } => assert!(announce),
        other => panic!("nothing published: {:?}", other),
    }
}

#[test]
fn probe_requested_during_a_poll_is_kept() {
    let mut worker = client(0);
    assert!(worker.request_probe());
    assert_login(worker.advance(WorkerEvent::Woken));
    assert!(worker.request_probe());
    assert!(worker.request_probe());
    assert!(matches!(
        worker.advance(WorkerEvent::AuthenticationFailed),
        WorkerAction::Report(PollFailure::Authentication)
    ));
    assert_login(worker.advance(WorkerEvent::Settled));
    worker.advance(WorkerEvent::AuthenticationFailed);
    assert!(matches!(worker.advance(WorkerEvent::Settled), WorkerAction::AwaitTrigger));
}

#[test]
fn interval_worker_notes_no_probe() {
    let mut worker = client(30);
    assert!(!worker.request_probe());
    let plan = worker.begin_scrape();
    assert!(!plan.wake);
    assert!(plan.wait);
    worker.advance(WorkerEvent::Woken);
    worker.advance(WorkerEvent::AuthenticationFailed);
    assert!(matches!(worker.advance(WorkerEvent::Settled), WorkerAction::Sleep(30)));
}

#[test]
fn readiness_needs_samples_and_interval_mode() {
    assert!(client(30).is_ready_with(true));
    assert!(!client(30).is_ready_with(false));
    assert!(!client(0).is_ready_with(true));
    assert!(!client(0).is_ready_with(false));
}

#[test]
fn announcement_follows_readiness() {
    for (interval, had_samples, expected) in
        [(30, false, true), (30, true, false), (0, false, true), (0, true, true)]
    {
        let mut worker = client(interval);
        worker.request_probe();
        worker.advance_with(WorkerEvent::Woken, had_samples);
        worker.advance_with(WorkerEvent::Authenticated(auth("t")), had_samples);
        worker.advance_with(WorkerEvent::Responded(200), had_samples);
        match worker.advance_with(WorkerEvent::Decoded(response()), had_samples) {
            WorkerAction::Publish { announce, .. } => assert_eq!(announce, expected),
            other => panic!("nothing published: {:?}", other),
        }
    }
}

#[test]
fn stopped_worker_ends_its_loop() {
    let mut worker = client(30);
    worker.advance(WorkerEvent::Woken);
    worker.advance(WorkerEvent::Authenticated(auth("t")));
    worker.stop();
    assert_eq!(worker.phase(), Phase::Stopped);
    assert!(matches!(worker.advance(WorkerEvent::Responded(200)), WorkerAction::Stop));
    assert!(matches!(worker.advance(WorkerEvent::Woken), WorkerAction::Stop));
    assert_eq!(worker.phase(), Phase::Stopped);
    assert_eq!(worker.current_token(), "t");
    let mut manual = client(0);
    manual.request_probe();
    manual.stop();
    assert!(matches!(manual.advance(WorkerEvent::Woken), WorkerAction::Stop));
}

#[test]
fn scrape_waits_unless_the_worker_is_ready() {
    for (interval, has_samples, wake, wait) in [
        (30, false, false, true),
        (30, true, false, false),
        (0, false, true, true),
        (0, true, true, true),
    ] {
        let mut worker = client(interval);
        let plan = worker.begin_scrape_with(has_samples);
        assert_eq!(plan.wake, wake);
        assert_eq!(plan.wait, wait);
    }
    let mut worker = client(30);
    assert!(worker.begin_scrape().wait);
    worker.advance(WorkerEvent::Woken);
    worker.advance(WorkerEvent::Authenticated(auth("t")));
    worker.advance(WorkerEvent::Responded(200));
    let plan = match worker.advance(WorkerEvent::Decoded(response())) {
        WorkerAction::Publish { observations, .. } => observations,
        other => panic!("nothing published: {:?}", other),
    };
    assert!(worker
        .write_metric(&plan[0].key, &plan[0].label_values, &prometheus::core::Atomic::new(21.5))
        .is_ok());
    assert!(!worker.begin_scrape().wait);
}

#[test]
fn data_types_can_be_copied() {
    let copy = response().clone();
    assert_eq!(copy.data.len(), 1);
    assert_eq!(copy.data[0].attributes.clone().label, "Temperature (C)");
}
