use scrutiny::monitor::{Action, Monitor};

fn fresh(threshold: u64, deadline: u64) -> Monitor {
    Monitor::new(threshold, deadline, String::from("###kline"))
}

fn expect_private(action: Option<Action>) -> (String, String) {
    match action {
        Some(Action::SendPrivateMessage { nick, text }) => (nick, text),
        other => panic!("expected a private message, got {:?}", other),
    }
}

fn expect_channel(action: Option<Action>) -> (String, String) {
    match action {
        Some(Action::SendChannelMessage { channel, text }) => (channel, text),
        other => panic!("expected a channel message, got {:?}", other),
    }
}

fn expect_query(action: Option<Action>) -> String {
    match action {
        Some(Action::QueryIdleTime { nick }) => nick,
        other => panic!("expected an idle-time query, got {:?}", other),
    }
}

#[test]
fn pruning_keeps_only_roster() {
    let mut m = fresh(60, 900);
    for nick in ["a", "b", "c"] {
        let act = m.on_idle_sample(nick, 120, 0);
        expect_private(act);
    }
    assert_eq!(m.overdue_len(), 3);

    m.on_roster_line("a is staffing today");
    m.on_roster_line("c is staffing today");
    m.on_end_of_roster();

    assert_eq!(m.overdue_len(), 2);
    assert!(m.overdue_record("a").is_some());
    assert!(m.overdue_record("b").is_none());
    assert!(m.overdue_record("c").is_some());
}

#[test]
fn detection_creates_record_and_pings() {
    let mut m = fresh(60, 900);
    let act = m.on_idle_sample("kline", 120, 1000);
    let (nick, text) = expect_private(act);
    assert_eq!(nick, "kline");
    assert_eq!(text, "You're overdue, are you still alive?");
    let rec = m.overdue_record("kline").unwrap();
    assert_eq!(rec.baseline_idle_secs, 120);
    assert_eq!(rec.detected_at, 1000);
    assert!(!rec.escalated);
    assert_eq!(m.overdue_len(), 1);
}

#[test]
fn below_threshold_sample_is_ignored() {
    let mut m = fresh(60, 900);
    let act = m.on_idle_sample("kline", 60, 1000);
    assert!(act.is_none());
    assert_eq!(m.overdue_len(), 0);
}

#[test]
fn activity_reset_deletes_record() {
    let mut m = fresh(60, 900);
    expect_private(m.on_idle_sample("kline", 120, 0));
    let act = m.on_idle_sample("kline", 50, 300);
    assert!(act.is_none());
    assert!(m.overdue_record("kline").is_none());
    assert_eq!(m.overdue_len(), 0);
}

#[test]
fn persistence_below_deadline() {
    let mut m = fresh(60, 15 * 60);
    expect_private(m.on_idle_sample("kline", 120, 0));
    let act = m.on_idle_sample("kline", 150, 5 * 60);
    assert!(act.is_none());
    let rec = m.overdue_record("kline").unwrap();
    assert_eq!(rec.baseline_idle_secs, 120);
    assert_eq!(rec.detected_at, 0);
    assert!(!rec.escalated);
}

#[test]
fn escalation_fires_once() {
    let mut m = fresh(60, 15 * 60);
    expect_private(m.on_idle_sample("kline", 120, 0));

    let act = m.on_idle_sample("kline", 200, 20 * 60);
    let (channel, text) = expect_channel(act);
    assert_eq!(channel, "###kline");
    assert_eq!(
        text,
        "kline has been idle more than 0h3m and didn't reply to me for 0h20m. \
         They might not be around."
    );
    let rec = m.overdue_record("kline").unwrap();
    assert!(rec.escalated);
    assert_eq!(rec.baseline_idle_secs, 120);

    let again = m.on_idle_sample("kline", 250, 25 * 60);
    assert!(again.is_none());
    assert!(m.overdue_record("kline").unwrap().escalated);
}

#[test]
fn pacing_drains_one_per_tick_in_fifo_order() {
    let mut m = fresh(60, 900);
    m.on_roster_line("alpha staffing");
    m.on_roster_line("beta staffing");
    m.on_roster_line("gamma staffing");
    m.on_end_of_roster();
    assert_eq!(m.queue_len(), 3);

    assert_eq!(expect_query(m.whois_tick()), "alpha");
    assert_eq!(m.queue_len(), 2);
    assert_eq!(expect_query(m.whois_tick()), "beta");
    assert_eq!(expect_query(m.whois_tick()), "gamma");
    assert_eq!(m.queue_len(), 0);
    assert!(m.whois_tick().is_none());
}

#[test]
fn end_to_end_poll_query_detect() {
    let mut m = fresh(60, 900);
    match m.watchdog_tick() {
        Action::RequestRoster => {}
        other => panic!("expected a roster request, got {:?}", other),
    }
    m.on_roster_line("alice somewhere");
    m.on_roster_line("bob elsewhere");
    m.on_roster_line("2 staff members");
    m.on_end_of_roster();

    assert_eq!(expect_query(m.whois_tick()), "alice");
    assert_eq!(expect_query(m.whois_tick()), "bob");

    let act = m.on_idle_sample("alice", 30, 100);
    assert!(act.is_none());
    assert!(m.overdue_record("alice").is_none());

    let act = m.on_idle_sample("bob", 90, 100);
    let (nick, _) = expect_private(act);
    assert_eq!(nick, "bob");
    assert!(m.overdue_record("bob").is_some());
}

#[test]
fn summary_line_never_joins_the_snapshot() {
    let mut m = fresh(60, 900);
    m.on_roster_line("34 staff members");
    m.on_end_of_roster();
    assert_eq!(m.queue_len(), 0);
}

#[test]
fn blank_line_is_dropped() {
    let mut m = fresh(60, 900);
    m.on_roster_line("   \t ");
    m.on_roster_line("");
    m.on_end_of_roster();
    assert_eq!(m.queue_len(), 0);
}

#[test]
fn overlapping_polls_may_queue_duplicates() {
    let mut m = fresh(60, 900);
    m.on_roster_line("alice x");
    m.on_end_of_roster();
    m.on_roster_line("alice x");
    m.on_end_of_roster();
    assert_eq!(m.queue_len(), 2);
    assert_eq!(expect_query(m.whois_tick()), "alice");
    assert_eq!(expect_query(m.whois_tick()), "alice");
}

#[test]
fn clock_regression_counts_as_no_elapsed_time() {
    let mut m = fresh(60, 900);
    expect_private(m.on_idle_sample("kline", 120, 5000));
    let act = m.on_idle_sample("kline", 200, 100);
    assert!(act.is_none());
    assert!(!m.overdue_record("kline").unwrap().escalated);
}

#[test]
fn pruning_then_redetection_starts_a_fresh_episode() {
    let mut m = fresh(60, 15 * 60);
    expect_private(m.on_idle_sample("kline", 120, 0));
    expect_channel(m.on_idle_sample("kline", 200, 20 * 60));
    m.on_end_of_roster();
    assert_eq!(m.overdue_len(), 0);
    let act = m.on_idle_sample("kline", 300, 30 * 60);
    let (nick, _) = expect_private(act);
    assert_eq!(nick, "kline");
    assert!(!m.overdue_record("kline").unwrap().escalated);
}
