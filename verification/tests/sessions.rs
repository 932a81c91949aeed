use traceroute::config::SessionConfig;
use traceroute::destination::{Destination, PROBE_PORT};
use traceroute::prober::{ProbeAction, ProbeEvent};
use traceroute::report::Line;
use traceroute::session::{Action, Event, Session, READ_TIMEOUT_MS};

/// A network to trace through: the hops up to `depth` answer, each from
/// an address and under a name of its own; whatever lies beyond is silent.
/// The clock moves only while the session sleeps.
struct Network {
    addresses: Vec<String>,
    depth: u32,
    silent: Vec<u32>,
    names: bool,
    clock: u64,
    ttl: u32,
    in_flight: Option<String>,
    probes: Vec<(u32, Destination, Vec<u8>)>,
}

impl Network {
    fn new(depth: u32) -> Network {
        Network {
            addresses: vec!["203.0.113.1".to_string(), "203.0.113.2".to_string()],
            depth,
            silent: Vec::new(),
            names: true,
            clock: 0,
            ttl: 0,
            in_flight: None,
            probes: Vec::new(),
        }
    }

    fn with_silent_hops(depth: u32, silent: &[u32]) -> Network {
        Network { silent: silent.to_vec(), ..Network::new(depth) }
    }

    fn without_names(depth: u32) -> Network {
        Network { names: false, ..Network::new(depth) }
    }

    fn perform(&mut self, action: ProbeAction) -> ProbeEvent {
        match action {
            ProbeAction::Configure { ttl } => {
                self.ttl = ttl;
                ProbeEvent::Configured
            }
            ProbeAction::Send { destination, payload } => {
                self.probes.push((self.ttl, destination, payload));
                if self.ttl <= self.depth && !self.silent.contains(&self.ttl) {
                    self.in_flight = Some(format!("10.0.0.{}", self.ttl));
                }
                ProbeEvent::Sent
            }
            ProbeAction::Receive => match self.in_flight.take() {
                Some(source) => ProbeEvent::Datagram { source },
                None => ProbeEvent::NoData,
            },
            ProbeAction::Identify { address } => ProbeEvent::Identified {
                name: if self.names { Some(format!("hop-{}.example", address)) } else { None },
            },
            ProbeAction::Sleep { millis } => {
                self.clock += millis;
                ProbeEvent::Slept
            }
            ProbeAction::Rest => panic!("a session asked for nothing"),
        }
    }
}

/// Runs a session to its end on `network`; gives what it printed and its
/// exit status.
fn trace(config: SessionConfig, network: &mut Network) -> (Vec<String>, i32) {
    let mut session = Session::new(config);
    let mut printed = Vec::new();
    loop {
        let event = match session.pending() {
            Action::Start => Event::Started,
            Action::Resolve { .. } => Event::Resolved { addresses: network.addresses.clone() },
            Action::Bind { .. } => Event::Bound,
            Action::Probe(action) => Event::Probe(network.perform(action)),
            Action::Exit { code } => {
                assert!(session.is_over());
                return (printed, code);
            }
        };
        let (next, lines) = session.step(network.clock, event);
        printed.extend(lines.iter().map(|line| line.render()));
        session = next;
    }
}

fn config(max_hops: u32) -> SessionConfig {
    SessionConfig::new("example.org".to_string()).with_max_hops(max_hops).unwrap()
}

/// Takes a session with these settings to the first action of its first hop.
fn probing(config: SessionConfig) -> Session {
    let session = Session::new(config);
    let (session, _) = session.step(0, Event::Started);
    let (session, _) = session.step(
        0,
        Event::Resolved { addresses: vec!["203.0.113.1".to_string(), "203.0.113.2".to_string()] },
    );
    let (session, _) = session.step(0, Event::Bound);
    session
}

#[test]
fn five_real_hops_of_thirty() {
    let mut network = Network::new(5);
    let (printed, code) = trace(SessionConfig::new("example.org".to_string()), &mut network);
    assert_eq!(code, 0);
    assert_eq!(printed[0], "Tracing route to: example.org");
    let hops = &printed[1..];
    assert_eq!(hops.len(), 30);
    assert_eq!(hops[0], "1 hop-10.0.0.1.example (10.0.0.1)");
    assert_eq!(hops[1], "2 hop-10.0.0.2.example (10.0.0.2)");
    assert_eq!(hops[2], "3 hop-10.0.0.3.example (10.0.0.3)");
    assert_eq!(hops[3], "4 hop-10.0.0.4.example (10.0.0.4)");
    assert_eq!(hops[4], "5 hop-10.0.0.5.example (10.0.0.5)");
    for line in &hops[5..] {
        assert_eq!(line, "* * *");
    }
    assert_eq!(network.probes.len(), 30);
    assert_eq!(network.clock, 30 * 3000);
}

#[test]
fn every_hop_count_gives_that_many_outcomes_in_order() {
    for max_hops in [1u32, 2, 3, 7, 30, 64] {
        let mut network = Network::new(max_hops);
        let settings = config(max_hops).with_timing(20, 5);
        let (printed, code) = trace(settings, &mut network);
        assert_eq!(code, 0);
        assert_eq!(printed.len() as u32, 1 + max_hops);
        for ttl in 1..=max_hops {
            assert_eq!(
                printed[ttl as usize],
                format!("{} hop-10.0.0.{}.example (10.0.0.{})", ttl, ttl, ttl)
            );
        }
        let ttls: Vec<u32> = network.probes.iter().map(|probe| probe.0).collect();
        assert_eq!(ttls, (1..=max_hops).collect::<Vec<u32>>());
    }
}

#[test]
fn answers_show_at_the_place_of_their_hop() {
    let mut network = Network::with_silent_hops(5, &[1, 3, 4]);
    let (printed, code) = trace(config(6).with_timing(30, 5), &mut network);
    assert_eq!(code, 0);
    assert_eq!(
        printed,
        vec![
            "Tracing route to: example.org",
            "* * *",
            "2 hop-10.0.0.2.example (10.0.0.2)",
            "* * *",
            "* * *",
            "5 hop-10.0.0.5.example (10.0.0.5)",
            "* * *",
        ]
    );
}

#[test]
fn silent_network_gives_only_stars() {
    let mut network = Network::new(0);
    let (printed, code) = trace(config(4).with_timing(30, 5), &mut network);
    assert_eq!(code, 0);
    assert_eq!(printed, vec!["Tracing route to: example.org", "* * *", "* * *", "* * *", "* * *"]);
}

#[test]
fn hops_without_names_show_their_addresses() {
    let mut network = Network::without_names(2);
    let (printed, code) = trace(config(3).with_timing(30, 5), &mut network);
    assert_eq!(code, 0);
    assert_eq!(
        printed,
        vec![
            "Tracing route to: example.org",
            "1 10.0.0.1 (10.0.0.1)",
            "2 10.0.0.2 (10.0.0.2)",
            "* * *",
        ]
    );
}

#[test]
fn session_starts_by_naming_the_host_and_resolving_it() {
    let session = Session::new(SessionConfig::new("example.org".to_string()));
    assert!(!session.is_over());
    assert_eq!(session.pending(), Action::Start);
    let (session, lines) = session.step(0, Event::Started);
    assert_eq!(lines, vec![Line::Heading { hostname: "example.org".to_string() }]);
    assert_eq!(session.pending(), Action::Resolve { hostname: "example.org".to_string() });
}

#[test]
fn socket_is_bound_to_the_probe_port_with_the_read_timeout() {
    assert_eq!(PROBE_PORT, 33434);
    assert_eq!(READ_TIMEOUT_MS, 10000);
    let session = Session::new(SessionConfig::new("example.org".to_string()));
    let (session, _) = session.step(0, Event::Started);
    let (session, lines) = session.step(
        0,
        Event::Resolved { addresses: vec!["203.0.113.1".to_string(), "203.0.113.2".to_string()] },
    );
    assert!(lines.is_empty());
    assert_eq!(
        session.pending(),
        Action::Bind { address: "127.0.0.1".to_string(), port: 33434, read_timeout_ms: 10000 }
    );
    let (session, lines) = session.step(0, Event::Bound);
    assert!(lines.is_empty());
    assert_eq!(session.pending(), Action::Probe(ProbeAction::Configure { ttl: 1 }));
}

#[test]
fn probes_go_to_the_second_address_at_the_probe_port() {
    let session = probing(config(2));
    let (session, _) = session.step(0, Event::Probe(ProbeEvent::Configured));
    assert_eq!(
        session.pending(),
        Action::Probe(ProbeAction::Send {
            destination: Destination { address: "203.0.113.2".to_string(), port: 33434 },
            payload: vec![0u8],
        })
    );
    let chosen = Destination::select(&vec![
        "2001:db8::1".to_string(),
        "198.51.100.7".to_string(),
        "198.51.100.8".to_string(),
    ])
    .unwrap();
    assert_eq!(chosen, Destination { address: "198.51.100.7".to_string(), port: 33434 });
    assert_eq!(chosen.duplicate(), chosen);
}

#[test]
fn host_without_any_address_fails_the_session() {
    assert!(Destination::select(&vec![]).is_none());
    let session = Session::new(SessionConfig::new("example.org".to_string()));
    let (session, _) = session.step(0, Event::Started);
    let (session, lines) = session.step(0, Event::Resolved { addresses: vec![] });
    assert_eq!(lines.len(), 1);
    assert_eq!(lines[0].render(), "Something went wrong: no address to probe");
    assert!(session.is_over());
    assert_eq!(session.pending(), Action::Exit { code: 1 });
}

#[test]
fn only_address_of_a_host_is_the_destination() {
    let only = Destination::select(&vec!["203.0.113.1".to_string()]).unwrap();
    assert_eq!(only, Destination { address: "203.0.113.1".to_string(), port: 33434 });

    let session = Session::new(SessionConfig::new("example.org".to_string()));
    let (session, _) = session.step(0, Event::Started);
    let (session, lines) =
        session.step(0, Event::Resolved { addresses: vec!["203.0.113.1".to_string()] });
    assert!(lines.is_empty());
    assert!(!session.is_over());
    assert_eq!(
        session.pending(),
        Action::Bind { address: "127.0.0.1".to_string(), port: 33434, read_timeout_ms: 10000 }
    );
    let (session, _) = session.step(0, Event::Bound);
    assert_eq!(session.pending(), Action::Probe(ProbeAction::Configure { ttl: 1 }));
    let (session, _) = session.step(0, Event::Probe(ProbeEvent::Configured));
    assert_eq!(
        session.pending(),
        Action::Probe(ProbeAction::Send {
            destination: Destination { address: "203.0.113.1".to_string(), port: 33434 },
            payload: vec![0u8],
        })
    );
}

#[test]
fn host_with_one_address_is_traced_to_its_last_hop() {
    for max_hops in [1u32, 4, 30] {
        let mut network = Network::new(2);
        network.addresses = vec!["203.0.113.1".to_string()];
        let (printed, code) = trace(config(max_hops).with_timing(20, 5), &mut network);
        assert_eq!(code, 0);
        assert_eq!(printed[0], "Tracing route to: example.org");
        assert_eq!(printed.len() as u32, 1 + max_hops);
        for ttl in 1..=max_hops {
            let expected = if ttl <= 2 {
                format!("{} hop-10.0.0.{}.example (10.0.0.{})", ttl, ttl, ttl)
            } else {
                "* * *".to_string()
            };
            assert_eq!(printed[ttl as usize], expected);
        }
        assert_eq!(network.probes.len() as u32, max_hops);
        for (index, probe) in network.probes.iter().enumerate() {
            assert_eq!(probe.0, index as u32 + 1);
            assert_eq!(probe.1, Destination { address: "203.0.113.1".to_string(), port: 33434 });
            assert_eq!(probe.2, vec![0u8]);
        }
    }
}

#[test]
fn failed_resolution_is_fatal() {
    let session = Session::new(SessionConfig::new("nowhere.invalid".to_string()));
    let (session, lines) = session.step(0, Event::Started);
    assert_eq!(lines[0].render(), "Tracing route to: nowhere.invalid");
    let (session, lines) =
        session.step(0, Event::ResolveFailed { detail: "name not known".to_string() });
    assert_eq!(lines.len(), 1);
    assert_eq!(lines[0].render(), "Something went wrong: name not known");
    assert!(session.is_over());
    assert_eq!(session.pending(), Action::Exit { code: 1 });
    let (session, lines) = session.step(0, Event::Bound);
    assert!(lines.is_empty());
    assert_eq!(session.pending(), Action::Exit { code: 1 });
}

#[test]
fn failed_bind_is_fatal() {
    let session = Session::new(SessionConfig::new("example.org".to_string()));
    let (session, _) = session.step(0, Event::Started);
    let (session, _) = session.step(
        0,
        Event::Resolved { addresses: vec!["203.0.113.1".to_string(), "203.0.113.2".to_string()] },
    );
    let (session, lines) =
        session.step(0, Event::BindFailed { detail: "address in use".to_string() });
    assert_eq!(lines.len(), 1);
    assert_eq!(lines[0].render(), "Something went wrong: address in use");
    assert_eq!(session.pending(), Action::Exit { code: 1 });
}

#[test]
fn refused_ttl_stops_the_session() {
    let mut session = probing(config(5).with_timing(10, 5));
    let mut clock = 0;
    let mut printed = Vec::new();
    loop {
        let event = match session.pending() {
            Action::Probe(ProbeAction::Configure { ttl }) if ttl == 3 => {
                ProbeEvent::ConfigureFailed { detail: "not permitted".to_string() }
            }
            Action::Probe(ProbeAction::Configure { .. }) => ProbeEvent::Configured,
            Action::Probe(ProbeAction::Send { .. }) => ProbeEvent::Sent,
            Action::Probe(ProbeAction::Receive) => ProbeEvent::NoData,
            Action::Probe(ProbeAction::Sleep { millis }) => {
                clock += millis;
                ProbeEvent::Slept
            }
            Action::Exit { code } => {
                assert_eq!(code, 1);
                break;
            }
            other => panic!("unexpected action {:?}", other),
        };
        let (next, lines) = session.step(clock, Event::Probe(event));
        printed.extend(lines.iter().map(|line| line.render()));
        session = next;
    }
    assert_eq!(printed, vec!["* * *", "* * *", "Something went wrong: not permitted"]);
}

#[test]
fn next_probe_waits_for_the_window_of_the_last() {
    let session = probing(config(3).with_timing(10, 5));
    let (session, _) = session.step(0, Event::Probe(ProbeEvent::Configured));
    let (session, _) = session.step(0, Event::Probe(ProbeEvent::Sent));
    let (session, _) =
        session.step(1, Event::Probe(ProbeEvent::Datagram { source: "10.0.0.1".to_string() }));
    let (session, lines) =
        session.step(1, Event::Probe(ProbeEvent::Identified { name: Some("one".to_string()) }));
    assert_eq!(lines.len(), 1);
    assert_eq!(lines[0].render(), "1 one (10.0.0.1)");
    assert_eq!(session.pending(), Action::Probe(ProbeAction::Sleep { millis: 5 }));
    let (session, _) = session.step(6, Event::Probe(ProbeEvent::Slept));
    assert_eq!(session.pending(), Action::Probe(ProbeAction::Receive));
    let (session, _) = session.step(6, Event::Probe(ProbeEvent::NoData));
    let (session, lines) = session.step(11, Event::Probe(ProbeEvent::Slept));
    assert!(lines.is_empty());
    assert_eq!(session.pending(), Action::Probe(ProbeAction::Configure { ttl: 2 }));
}

#[test]
fn session_ignores_events_that_answer_nothing() {
    let session = Session::new(SessionConfig::new("example.org".to_string()));
    let (session, lines) = session.step(0, Event::Bound);
    assert!(lines.is_empty());
    let (session, lines) = session.step(0, Event::Probe(ProbeEvent::Sent));
    assert!(lines.is_empty());
    let (session, lines) = session.step(0, Event::Resolved { addresses: vec![] });
    assert!(lines.is_empty());
    assert_eq!(session.pending(), Action::Start);

    let session = probing(config(1));
    let (session, lines) = session.step(0, Event::Started);
    assert!(lines.is_empty());
    let (session, lines) = session.step(0, Event::Probe(ProbeEvent::Slept));
    assert!(lines.is_empty());
    assert_eq!(session.pending(), Action::Probe(ProbeAction::Configure { ttl: 1 }));
}

#[test]
fn finished_session_stays_finished() {
    let mut network = Network::new(1);
    let mut session = Session::new(config(1).with_timing(5, 5));
    loop {
        let event = match session.pending() {
            Action::Start => Event::Started,
            Action::Resolve { .. } => Event::Resolved {
                addresses: vec!["203.0.113.1".to_string(), "203.0.113.2".to_string()],
            },
            Action::Bind { .. } => Event::Bound,
            Action::Probe(action) => Event::Probe(network.perform(action)),
            Action::Exit { .. } => break,
        };
        let (next, _) = session.step(network.clock, event);
        session = next;
    }
    assert!(session.is_over());
    assert_eq!(session.pending(), Action::Exit { code: 0 });
    let (session, lines) = session.step(99, Event::Probe(ProbeEvent::Slept));
    assert!(lines.is_empty());
    let (session, lines) = session.step(99, Event::Started);
    assert!(lines.is_empty());
    assert_eq!(session.pending(), Action::Exit { code: 0 });
}

#[test]
fn last_hop_can_have_the_largest_ttl() {
    let hops = u32::MAX;
    let session = probing(config(hops).with_timing(0, 5));
    let (session, _) = session.step(0, Event::Probe(ProbeEvent::Configured));
    let (session, lines) = session.step(0, Event::Probe(ProbeEvent::Sent));
    assert_eq!(lines.len(), 1);
    assert_eq!(session.pending(), Action::Probe(ProbeAction::Configure { ttl: 2 }));
}
