use rtwod2::config::{Config, ProviderMode, TwoDNSConfig, UpdateConfig};
use rtwod2::cycle::{Action, Event, Reconciler, StepResult};

fn make_config(mode: ProviderMode, urls: Vec<&str>) -> Config {
    Config {
        twodns: TwoDNSConfig {
            url: String::from("http://provider.example/record"),
            user: String::from("user"),
            token: String::from("hunter2"),
            timeout: 5,
        },
        update: UpdateConfig {
            interval: 300,
            timeout: 5,
            mode,
            urls: urls.into_iter().map(String::from).collect(),
        },
    }
}

fn fetched_url(machine: &mut Reconciler) -> String {
    let action = machine.begin_cycle();
    let url = match action {
        Action::Fetch { url, timeout } => {
            assert_eq!(timeout, 5);
            url
        },
        _ => panic!("a cycle must start with a fetch"),
    };
    // End the cycle so the machine is ready for the next one.
    let r = machine.step(Event::FetchDone(Err(String::from("test over"))));
    assert!(matches!(r, StepResult::Done(_)));
    url
}

#[test]
fn round_robin_visits_every_endpoint_once_per_pass() {
    let config = make_config(
        ProviderMode::RoundRobin,
        vec!["http://a.example", "http://b.example", "http://c.example"],
    );
    let mut machine = Reconciler::new(config).unwrap();
    let mut seen: Vec<String> = Vec::new();
    for _ in 0..6 {
        seen.push(fetched_url(&mut machine));
    }
    let expected = [
        "http://a.example",
        "http://b.example",
        "http://c.example",
        "http://a.example",
        "http://b.example",
        "http://c.example",
    ];
    for (got, want) in seen.iter().zip(expected.iter()) {
        assert_eq!(got, want);
    }
}

#[test]
fn round_robin_wraps_on_single_endpoint() {
    let config = make_config(ProviderMode::RoundRobin, vec!["http://only.example"]);
    let mut machine = Reconciler::new(config).unwrap();
    for _ in 0..4 {
        assert_eq!(fetched_url(&mut machine), "http://only.example");
    }
}

#[test]
fn random_selection_reaches_every_endpoint() {
    let config = make_config(
        ProviderMode::Random,
        vec!["http://a.example", "http://b.example", "http://c.example"],
    );
    let mut machine = Reconciler::new(config).unwrap();
    let mut counts = [0usize; 3];
    for _ in 0..300 {
        let url = fetched_url(&mut machine);
        if url == "http://a.example" {
            counts[0] += 1;
        } else if url == "http://b.example" {
            counts[1] += 1;
        } else if url == "http://c.example" {
            counts[2] += 1;
        } else {
            panic!("selected a URL outside the configured list");
        }
    }
    // The last endpoint must be reachable too: a sampling range short
    // by one would leave counts[2] at zero.
    assert!(counts[0] > 0);
    assert!(counts[1] > 0);
    assert!(counts[2] > 0);
}

#[test]
fn random_selection_on_single_endpoint_always_picks_it() {
    let config = make_config(ProviderMode::Random, vec!["http://only.example"]);
    let mut machine = Reconciler::new(config).unwrap();
    for _ in 0..20 {
        assert_eq!(fetched_url(&mut machine), "http://only.example");
    }
}

#[test]
fn empty_endpoint_list_is_rejected_at_construction() {
    let config = make_config(ProviderMode::RoundRobin, vec![]);
    assert!(!config.is_valid());
    assert!(Reconciler::new(config).is_none());
}
