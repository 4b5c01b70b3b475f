use wifi_supervisor::credentials::ConfigError;
use wifi_supervisor::supervisor::{
    Action, Event, Phase, Supervisor, RETRY_BACKOFF_MS, SETTLE_DELAY_MS,
};

/// A radio stand-in with a clock that only moves when asked to.
struct StubRadio {
    now: u64,
    started: bool,
    connected: bool,
    connect_outcomes: Vec<bool>,
    disassociate_after_ms: Option<u64>,
    connected_at: u64,
    configs_applied: usize,
    starts: usize,
    connect_times: Vec<u64>,
    failure_times: Vec<u64>,
    disassociated_at: Vec<u64>,
    sleeps: Vec<(u64, u64)>,
    log: Vec<String>,
}

fn stub(connect_outcomes: Vec<bool>, disassociate_after_ms: Option<u64>) -> StubRadio {
    StubRadio {
        now: 1_000,
        started: false,
        connected: false,
        connect_outcomes,
        disassociate_after_ms,
        connected_at: 0,
        configs_applied: 0,
        starts: 0,
        connect_times: Vec::new(),
        failure_times: Vec::new(),
        disassociated_at: Vec::new(),
        sleeps: Vec::new(),
        log: Vec::new(),
    }
}

/// Performs the supervisor's operations on the stub until it would block for
/// good (waiting for a disassociation that never comes) or halts.
fn drive(sup: &mut Supervisor, radio: &mut StubRadio, max_steps: usize) -> Action {
    let mut action = sup.first_action();
    for _ in 0..max_steps {
        let event = match action {
            Action::Yield => Event::Resumed,
            Action::QueryLink => Event::Link { connected: radio.connected },
            Action::WaitForDisassociation => match radio.disassociate_after_ms.take() {
                Some(after) => {
                    radio.now = radio.connected_at + after;
                    radio.connected = false;
                    radio.disassociated_at.push(radio.now);
                    Event::Disassociated
                }
                None => return action,
            },
            Action::SleepUntil { deadline_ms } => {
                radio.sleeps.push((radio.now, deadline_ms));
                radio.now = radio.now.max(deadline_ms);
                Event::TimerFired
            }
            Action::QueryStarted => Event::Started { started: radio.started },
            Action::ApplyConfiguration => {
                radio.configs_applied += 1;
                radio.log.push(format!("Attempting to connect to {}...", sup.config().ssid().as_str()));
                Event::Configured { ok: true }
            }
            Action::StartRadio => {
                radio.starts += 1;
                radio.started = true;
                Event::StartFinished { ok: true }
            }
            Action::Connect => {
                radio.connect_times.push(radio.now);
                radio.now += 50;
                let ok = if radio.connect_outcomes.is_empty() { true } else { radio.connect_outcomes.remove(0) };
                if ok {
                    radio.connected = true;
                    radio.connected_at = radio.now;
                } else {
                    radio.failure_times.push(radio.now);
                    radio.log.push("Failed to connect to wifi: Timeout".to_string());
                }
                Event::ConnectFinished { ok }
            }
            Action::AnnounceConnected => {
                radio.log.push("Connected.".to_string());
                Event::Resumed
            }
            Action::Halt => return action,
        };
        action = sup.step(event, radio.now);
    }
    action
}

#[test]
fn two_failures_then_connected() {
    let mut sup = Supervisor::new("TestNet", "secret123").unwrap();
    let mut radio = stub(vec![false, false, true], None);
    let last = drive(&mut sup, &mut radio, 200);
    assert_eq!(last, Action::WaitForDisassociation);
    assert_eq!(sup.phase(), Phase::AwaitDisassociation);
    let failures = radio.log.iter().filter(|l| l.starts_with("Failed to connect")).count();
    let connected = radio.log.iter().filter(|l| *l == "Connected.").count();
    assert_eq!(failures, 2);
    assert_eq!(connected, 1);
    assert_eq!(radio.connect_times.len(), 3);
    assert_eq!(radio.failure_times.len(), 2);
    for k in 0..2 {
        assert!(radio.connect_times[k + 1] >= radio.failure_times[k] + RETRY_BACKOFF_MS);
    }
    assert_eq!(radio.starts, 1);
    assert_eq!(radio.configs_applied, 1);
}

#[test]
fn disassociation_is_followed_by_settle_delay() {
    let mut sup = Supervisor::new("TestNet", "secret123").unwrap();
    let mut radio = stub(vec![true, true], Some(100));
    let last = drive(&mut sup, &mut radio, 200);
    assert_eq!(last, Action::WaitForDisassociation);
    assert_eq!(radio.disassociated_at.len(), 1);
    let lost = radio.disassociated_at[0];
    assert_eq!(lost, radio.connect_times[0] + 50 + 100);
    assert_eq!(radio.connect_times.len(), 2);
    assert!(radio.connect_times[1] >= lost + SETTLE_DELAY_MS);
    assert!(radio.sleeps.contains(&(lost, lost + SETTLE_DELAY_MS)));
    assert_eq!(radio.starts, 1);
}

#[test]
fn started_radio_is_not_started_again() {
    let mut sup = Supervisor::new("TestNet", "secret123").unwrap();
    assert_eq!(sup.step(Event::Resumed, 0), Action::QueryLink);
    assert_eq!(sup.step(Event::Link { connected: false }, 0), Action::QueryStarted);
    assert_eq!(sup.step(Event::Started { started: true }, 0), Action::Connect);
    assert_eq!(sup.phase(), Phase::AwaitConnect);
}

#[test]
fn stopped_radio_is_configured_then_started() {
    let mut sup = Supervisor::new("TestNet", "secret123").unwrap();
    assert_eq!(sup.first_action(), Action::Yield);
    assert_eq!(sup.step(Event::Resumed, 0), Action::QueryLink);
    assert_eq!(sup.step(Event::Link { connected: false }, 0), Action::QueryStarted);
    assert_eq!(sup.step(Event::Started { started: false }, 0), Action::ApplyConfiguration);
    assert_eq!(sup.step(Event::Configured { ok: true }, 0), Action::StartRadio);
    assert_eq!(sup.step(Event::StartFinished { ok: true }, 0), Action::Connect);
}

#[test]
fn start_failure_retries_without_backoff() {
    let mut sup = Supervisor::new("TestNet", "secret123").unwrap();
    sup.step(Event::Resumed, 0);
    sup.step(Event::Link { connected: false }, 0);
    sup.step(Event::Started { started: false }, 0);
    sup.step(Event::Configured { ok: true }, 0);
    assert_eq!(sup.step(Event::StartFinished { ok: false }, 10), Action::Yield);
    assert_eq!(sup.phase(), Phase::Idle);
    assert_eq!(sup.step(Event::Resumed, 10), Action::QueryLink);
}

#[test]
fn connect_failure_backs_off_from_the_failure_instant() {
    let mut sup = Supervisor::new("TestNet", "secret123").unwrap();
    sup.step(Event::Resumed, 0);
    sup.step(Event::Link { connected: false }, 0);
    sup.step(Event::Started { started: true }, 0);
    assert_eq!(sup.step(Event::ConnectFinished { ok: false }, 7_000), Action::SleepUntil { deadline_ms: 12_000 });
    assert_eq!(sup.phase(), Phase::BackingOff);
    assert_eq!(sup.step(Event::TimerFired, 11_999), Action::SleepUntil { deadline_ms: 12_000 });
    assert_eq!(sup.step(Event::Link { connected: false }, 11_999), Action::SleepUntil { deadline_ms: 12_000 });
    assert_eq!(sup.step(Event::TimerFired, 12_000), Action::QueryLink);
}

#[test]
fn settle_delay_ignores_other_events() {
    let mut sup = Supervisor::new("TestNet", "secret123").unwrap();
    sup.step(Event::Resumed, 0);
    assert_eq!(sup.step(Event::Link { connected: true }, 0), Action::WaitForDisassociation);
    assert_eq!(sup.step(Event::Link { connected: false }, 5), Action::WaitForDisassociation);
    assert_eq!(sup.step(Event::Disassociated, 300), Action::SleepUntil { deadline_ms: 5_300 });
    assert_eq!(sup.step(Event::Started { started: true }, 400), Action::SleepUntil { deadline_ms: 5_300 });
    assert_eq!(sup.step(Event::TimerFired, 5_299), Action::SleepUntil { deadline_ms: 5_300 });
    assert_eq!(sup.step(Event::TimerFired, 5_300), Action::QueryLink);
}

#[test]
fn deadline_saturates_at_the_end_of_time() {
    let mut sup = Supervisor::new("TestNet", "secret123").unwrap();
    sup.step(Event::Resumed, 0);
    sup.step(Event::Link { connected: false }, 0);
    sup.step(Event::Started { started: true }, 0);
    assert_eq!(
        sup.step(Event::ConnectFinished { ok: false }, u64::MAX - 1),
        Action::SleepUntil { deadline_ms: u64::MAX }
    );
}

#[test]
fn refused_configuration_halts_for_good() {
    let mut sup = Supervisor::new("TestNet", "secret123").unwrap();
    sup.step(Event::Resumed, 0);
    sup.step(Event::Link { connected: false }, 0);
    sup.step(Event::Started { started: false }, 0);
    assert_eq!(sup.step(Event::Configured { ok: false }, 0), Action::Halt);
    assert_eq!(sup.phase(), Phase::Halted);
    assert_eq!(sup.step(Event::Resumed, 1), Action::Halt);
    assert_eq!(sup.step(Event::Started { started: false }, 2), Action::Halt);
    assert_eq!(sup.step(Event::TimerFired, 3), Action::Halt);
}

#[test]
fn oversized_credentials_refuse_supervision() {
    let ssid = "s".repeat(33);
    assert_eq!(Supervisor::new(&ssid, "secret123").err(), Some(ConfigError::SsidTooLong));
    let password = "p".repeat(65);
    assert_eq!(Supervisor::new("TestNet", &password).err(), Some(ConfigError::PasswordTooLong));
}

#[test]
fn supervisor_keeps_its_configuration() {
    let mut sup = Supervisor::new("TestNet", "secret123").unwrap();
    sup.step(Event::Resumed, 0);
    assert_eq!(sup.config().ssid().as_str(), "TestNet");
    assert_eq!(sup.config().password().as_str(), "secret123");
}
