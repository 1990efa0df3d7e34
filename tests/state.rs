use statui::actions::{handle_action, run_tick, Action};
use statui::backend::{
    outcome, CheckResult, CheckStatus, ErrorKind, ProbeReply, Prober, ProberAction, ProberEvent,
};
use statui::config::Endpoint;
use statui::state::{App, AppMode, MAX_LATENCY_HISTORY};

fn endpoint(name: &str, interval: Option<u64>) -> Endpoint {
    Endpoint {
        name: name.to_string(),
        url: format!("http://localhost/{}", name),
        interval,
        timeout: None,
        method: None,
        headers: Vec::new(),
        skip_cert_verification: None,
    }
}

fn app_of(names: &[&str]) -> App {
    let eps: Vec<Endpoint> = names.iter().map(|n| endpoint(n, None)).collect();
    App::new(&eps)
}

fn result(name: &str, code: u16, latency_ms: u64) -> CheckResult {
    outcome(&name.to_string(), ProbeReply::Response { code }, latency_ms)
}

fn history(app: &App, name: &str) -> Vec<u64> {
    app.state_of(&name.to_string()).unwrap().latency_history.iter().copied().collect()
}

#[test]
fn new_store_is_fresh() {
    let app = app_of(&["a", "b"]);
    assert_eq!(app.endpoint_order(), &vec!["a".to_string(), "b".to_string()]);
    assert_eq!(app.selected(), Some(0));
    assert_eq!(app.mode(), AppMode::Normal);
    let a = app.state_of(&"a".to_string()).unwrap();
    assert_eq!(a.url, "http://localhost/a");
    assert_eq!(a.method, "GET");
    assert!(a.latest_status.is_none());
    assert!(a.latest_latency.is_none());
    assert!(a.latency_history.is_empty());
    assert_eq!(app.endpoint_states().len(), 2);
}

#[test]
fn empty_store_has_no_cursor() {
    let mut app = app_of(&[]);
    assert_eq!(app.selected(), None);
    app.next_row();
    assert_eq!(app.selected(), None);
    app.previous_row();
    assert_eq!(app.selected(), None);
    assert!(app.selected_state().is_none());
}

#[test]
fn cursor_wraps_both_ways() {
    let mut app = app_of(&["a", "b", "c"]);
    assert_eq!(app.selected(), Some(0));
    app.previous_row();
    assert_eq!(app.selected(), Some(2));
    app.next_row();
    assert_eq!(app.selected(), Some(0));
    app.next_row();
    assert_eq!(app.selected(), Some(1));
    app.previous_row();
    assert_eq!(app.selected(), Some(0));
    assert_eq!(app.selected_state().unwrap().name, "a");
}

#[test]
fn single_endpoint_cursor_stays() {
    let mut app = app_of(&["only"]);
    app.next_row();
    assert_eq!(app.selected(), Some(0));
    app.previous_row();
    assert_eq!(app.selected(), Some(0));
}

#[test]
fn merge_sets_latest_and_history() {
    let mut app = app_of(&["a", "b"]);
    app.on_result(result("a", 200, 30));
    let a = app.state_of(&"a".to_string()).unwrap();
    assert_eq!(a.latest_status, Some(CheckStatus::Success { code: 200, reason: "OK".to_string() }));
    assert_eq!(a.latest_latency, Some(30));
    assert_eq!(history(&app, "a"), vec![30]);
    assert!(history(&app, "b").is_empty());
}

#[test]
fn unknown_outcome_is_ignored() {
    let mut app = app_of(&["a"]);
    app.on_result(result("a", 200, 10));
    app.on_result(result("ghost", 500, 99));
    assert_eq!(app.endpoint_order(), &vec!["a".to_string()]);
    assert_eq!(app.endpoint_states().len(), 1);
    assert!(app.state_of(&"ghost".to_string()).is_none());
    assert_eq!(history(&app, "a"), vec![10]);
    assert_eq!(app.state_of(&"a".to_string()).unwrap().latest_latency, Some(10));
}

#[test]
fn history_evicts_oldest_beyond_capacity() {
    let mut app = app_of(&["a"]);
    for i in 0..100u64 {
        app.on_result(result("a", 200, i));
    }
    assert_eq!(history(&app, "a").len(), MAX_LATENCY_HISTORY);
    assert_eq!(history(&app, "a")[0], 0);
    app.on_result(result("a", 200, 100));
    let h = history(&app, "a");
    assert_eq!(h.len(), 100);
    assert_eq!(h[0], 1);
    assert_eq!(h[99], 100);
    for i in 101..350u64 {
        app.on_result(result("a", 200, i));
    }
    let h = history(&app, "a");
    assert_eq!(h.len(), 100);
    assert_eq!(h, (250..350u64).collect::<Vec<u64>>());
}

#[test]
fn drain_of_several_outcomes_for_one_endpoint() {
    let mut app = app_of(&["a", "b"]);
    let batch = vec![result("a", 200, 5), result("b", 404, 7), result("a", 503, 6), result("a", 301, 8)];
    app.merge_all(batch);
    let a = app.state_of(&"a".to_string()).unwrap();
    assert_eq!(
        a.latest_status,
        Some(CheckStatus::Success { code: 301, reason: "Moved Permanently".to_string() })
    );
    assert_eq!(a.latest_latency, Some(8));
    assert_eq!(history(&app, "a"), vec![5, 6, 8]);
    assert_eq!(history(&app, "b"), vec![7]);
}

#[test]
fn drain_of_nothing_changes_nothing() {
    let mut app = app_of(&["a"]);
    app.merge_all(Vec::new());
    assert!(history(&app, "a").is_empty());
    assert!(app.state_of(&"a".to_string()).unwrap().latest_status.is_none());
}

#[test]
fn actions_move_toggle_and_quit() {
    let mut app = app_of(&["a", "b"]);
    assert!(!handle_action(&Action::MoveUp, &mut app));
    assert_eq!(app.selected(), Some(1));
    assert!(!handle_action(&Action::MoveDown, &mut app));
    assert_eq!(app.selected(), Some(0));
    assert!(!handle_action(&Action::ToggleInspect, &mut app));
    assert_eq!(app.mode(), AppMode::Inspecting);
    assert!(!handle_action(&Action::ToggleInspect, &mut app));
    assert_eq!(app.mode(), AppMode::Normal);
    assert!(handle_action(&Action::Quit, &mut app));
    assert_eq!(app.selected(), Some(0));
}

#[test]
fn reserved_actions_change_nothing() {
    let mut app = app_of(&["a", "b"]);
    for action in [Action::CycleSort, Action::ToggleSortDirection, Action::Search, Action::Help] {
        assert!(!handle_action(&action, &mut app));
        assert_eq!(app.selected(), Some(0));
        assert_eq!(app.mode(), AppMode::Normal);
    }
}

/// Runs one prober through warm-up and its first real probe.
fn first_delivery(prober: &mut Prober, warm: CheckResult, real: CheckResult) -> CheckResult {
    assert!(matches!(prober.step(ProberEvent::Started), ProberAction::Probe { .. }));
    assert!(matches!(prober.step(ProberEvent::ProbeFinished(warm)), ProberAction::Settle { .. }));
    assert!(matches!(prober.step(ProberEvent::Slept), ProberAction::Probe { .. }));
    match prober.step(ProberEvent::ProbeFinished(real)) {
        ProberAction::Deliver(r) => r,
        other => panic!("unexpected {:?}", other),
    }
}

#[test]
fn scenario_single_healthy_endpoint() {
    let eps = vec![endpoint("api", None)];
    let mut app = App::new(&eps);
    let mut prober = Prober::new(&eps[0], 60, 5);
    assert_eq!(prober.timeout_secs, 5);
    let delivered = first_delivery(&mut prober, result("api", 200, 80), result("api", 200, 30));
    assert_eq!(delivered.status, CheckStatus::Success { code: 200, reason: "OK".to_string() });
    assert_eq!(delivered.latency_ms, 30);
    app.on_result(delivered);
    assert_eq!(history(&app, "api"), vec![30]);
    assert!(matches!(prober.step(ProberEvent::Delivered), ProberAction::Wait { secs: 60 }));
}

#[test]
fn scenario_connection_refused() {
    let eps = vec![endpoint("down", None)];
    let mut app = App::new(&eps);
    let mut prober = Prober::new(&eps[0], 60, 5);
    let refused = ProbeReply::Failure { timed_out: false, connect_failed: true };
    let warm = outcome(&"down".to_string(), refused, 1);
    let real = outcome(&"down".to_string(), refused, 2);
    let delivered = first_delivery(&mut prober, warm, real);
    assert_eq!(delivered.status, CheckStatus::Error { kind: ErrorKind::ConnectionError });
    app.on_result(delivered);
    assert_eq!(app.state_of(&"down".to_string()).unwrap().latest_latency, Some(2));
    assert_eq!(history(&app, "down"), vec![2]);
    assert!(matches!(prober.step(ProberEvent::Delivered), ProberAction::Wait { secs: 60 }));
    assert!(matches!(prober.step(ProberEvent::Slept), ProberAction::Probe { timeout_secs: 5 }));
}

/// Counts the outcomes a prober delivers within `window_ms` of simulated
/// time, when every probe completes at once.
fn deliveries_within(prober: &mut Prober, name: &str, window_ms: u64) -> usize {
    let mut now: u64 = 0;
    let mut delivered = 0;
    let mut action = prober.step(ProberEvent::Started);
    loop {
        action = match action {
            ProberAction::Probe { .. } => prober.step(ProberEvent::ProbeFinished(result(name, 200, 0))),
            ProberAction::Settle { millis } => {
                now += millis;
                prober.step(ProberEvent::Slept)
            }
            ProberAction::Wait { secs } => {
                now += secs * 1000;
                if now > window_ms {
                    return delivered;
                }
                prober.step(ProberEvent::Slept)
            }
            ProberAction::Deliver(_) => {
                delivered += 1;
                prober.step(ProberEvent::Delivered)
            }
            ProberAction::Stop => return delivered,
        };
    }
}

#[test]
fn scenario_independent_cadences() {
    let fast = endpoint("fast", Some(5));
    let slow = endpoint("slow", None);
    let window_ms = 600_000;
    let n_fast = deliveries_within(&mut Prober::new(&fast, 60, 5), "fast", window_ms);
    let n_slow = deliveries_within(&mut Prober::new(&slow, 60, 5), "slow", window_ms);
    assert_eq!(n_fast, 120);
    assert_eq!(n_slow, 10);
    assert_eq!(n_fast, 12 * n_slow);
}

#[test]
fn tick_applies_action_then_drains() {
    let mut app = app_of(&["a", "b"]);
    let quit = run_tick(&mut app, Some(Action::MoveUp), vec![result("b", 200, 12), result("b", 200, 14)]);
    assert!(!quit);
    assert_eq!(app.selected(), Some(1));
    assert_eq!(history(&app, "b"), vec![12, 14]);
    assert_eq!(app.selected_state().unwrap().latest_latency, Some(14));
}

#[test]
fn tick_without_key_only_drains() {
    let mut app = app_of(&["a"]);
    assert!(!run_tick(&mut app, None, vec![result("a", 200, 3)]));
    assert_eq!(history(&app, "a"), vec![3]);
    assert_eq!(app.selected(), Some(0));
}

#[test]
fn tick_quit_merges_nothing() {
    let mut app = app_of(&["a"]);
    assert!(run_tick(&mut app, Some(Action::Quit), vec![result("a", 200, 3)]));
    assert!(history(&app, "a").is_empty());
}
