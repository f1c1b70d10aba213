use pslog::connect::{advance, begin, ConnectAction, ConnectPhase, RETRY_ATTEMPTS, RETRY_DELAY_MS};

fn drive(mut answers: impl FnMut(u32) -> bool) -> (Vec<ConnectAction>, ConnectPhase) {
    let (mut phase, mut action) = begin();
    let mut actions = vec![action];
    let mut pings = 0u32;
    loop {
        let ok = match action {
            ConnectAction::Ping => {
                pings += 1;
                answers(pings)
            }
            ConnectAction::UseConnection | ConnectAction::GiveUp => return (actions, phase),
            _ => true,
        };
        let (p, a) = advance(phase, ok);
        phase = p;
        action = a;
        actions.push(a);
    }
}

#[test]
fn running_broker_is_used_at_once() {
    let (actions, phase) = drive(|_| true);
    assert_eq!(actions, vec![ConnectAction::Ping, ConnectAction::UseConnection]);
    assert_eq!(phase, ConnectPhase::Connected);
}

#[test]
fn broker_is_started_then_retried() {
    let (actions, phase) = drive(|n| n >= 3);
    assert_eq!(
        actions,
        vec![
            ConnectAction::Ping,
            ConnectAction::StartServer,
            ConnectAction::Ping,
            ConnectAction::Sleep(RETRY_DELAY_MS),
            ConnectAction::Ping,
            ConnectAction::UseConnection,
        ]
    );
    assert_eq!(phase, ConnectPhase::Connected);
}

#[test]
fn gives_up_after_all_retries() {
    let (actions, phase) = drive(|_| false);
    assert_eq!(phase, ConnectPhase::Failed);
    let pings = actions.iter().filter(|a| **a == ConnectAction::Ping).count();
    let starts = actions.iter().filter(|a| **a == ConnectAction::StartServer).count();
    let sleeps = actions.iter().filter(|a| **a == ConnectAction::Sleep(50)).count();
    assert_eq!(pings, 1 + RETRY_ATTEMPTS as usize);
    assert_eq!(starts, 1);
    assert_eq!(sleeps, 20);
    assert_eq!(actions.last(), Some(&ConnectAction::GiveUp));
    assert_eq!(actions.len(), 2 * RETRY_ATTEMPTS as usize + 3);
}

#[test]
fn final_phases_stay() {
    assert_eq!(advance(ConnectPhase::Connected, false), (ConnectPhase::Connected, ConnectAction::UseConnection));
    assert_eq!(advance(ConnectPhase::Failed, true), (ConnectPhase::Failed, ConnectAction::GiveUp));
    assert_eq!(advance(ConnectPhase::Backoff(20), true), (ConnectPhase::Failed, ConnectAction::GiveUp));
    assert_eq!(advance(ConnectPhase::Backoff(19), true), (ConnectPhase::Retry(20), ConnectAction::Ping));
}

#[test]
fn total_sleep_is_bounded() {
    let (actions, _) = drive(|_| false);
    let slept: u64 = actions
        .iter()
        .map(|a| match a {
            ConnectAction::Sleep(ms) => *ms,
            _ => 0,
        })
        .sum();
    assert_eq!(slept, RETRY_ATTEMPTS as u64 * RETRY_DELAY_MS);
}
