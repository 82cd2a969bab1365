use clash_tui::readiness::{
    auto_refresh_batch, auto_refresh_recorded, auto_refresh_started, ReadyAttempt, ReadyStep, ReadyWait, RefreshOutcome,
};

#[test]
fn provider_runtimes_wait_a_minute_and_refresh_once() {
    let mut w = ReadyWait::new(1_000, true);
    assert_eq!(w.timeout, 60_000);
    assert_eq!(w.attempted(ReadyAttempt::NotReady("策略组为空".into())), ReadyStep::RefreshProviders);
    assert_eq!(w.attempted(ReadyAttempt::NotReady("策略组为空".into())), ReadyStep::Continue);
    assert!(!w.refresh_due(10_000));
    let mut summary = auto_refresh_started(2);
    auto_refresh_recorded(&mut summary, "a", RefreshOutcome::Updated);
    auto_refresh_recorded(&mut summary, "b", RefreshOutcome::TimedOut);
    assert!(w.providers_refreshed(summary));
    assert_eq!(w.give_up(30_000), None);
    assert_eq!(
        w.give_up(61_000).unwrap(),
        "策略组为空；Provider 自动更新：候选 2，尝试 2，成功 1，失败 1，错误：b: 更新请求超过 8 秒，等待 60 秒后仍未就绪"
    );
    assert_eq!(w.attempted(ReadyAttempt::Ready), ReadyStep::Done);
}

#[test]
fn plain_runtimes_give_up_after_fifteen_seconds() {
    let mut w = ReadyWait::new(0, false);
    assert_eq!(w.attempted(ReadyAttempt::NotReady("x".into())), ReadyStep::Continue);
    assert_eq!(w.attempted(ReadyAttempt::Failed("connection refused".into())), ReadyStep::Continue);
    assert!(!w.refresh_due(5_000));
    assert_eq!(w.give_up(15_000).unwrap(), "connection refused，等待 15 秒后仍未就绪");
}

#[test]
fn late_provider_refresh_comes_two_seconds_in() {
    let mut w = ReadyWait::new(0, true);
    assert_eq!(w.attempted(ReadyAttempt::Failed("timeout".into())), ReadyStep::Continue);
    assert!(!w.refresh_due(1_999));
    assert!(w.refresh_due(2_000));
    assert!(!w.refresh_due(3_000));
    assert!(!w.providers_refreshed(auto_refresh_started(0)));
}

#[test]
fn automatic_refresh_keeps_three_examples_of_sixteen() {
    let names: Vec<String> = (0..20).map(|i| format!("p{i}")).collect();
    let batch = auto_refresh_batch(&names);
    assert_eq!(batch.len(), 16);
    assert_eq!(batch[15], "p15");
    let mut summary = auto_refresh_started(names.len());
    for name in &batch[..5] {
        auto_refresh_recorded(&mut summary, name, RefreshOutcome::Failed(format!("{name} down")));
    }
    assert_eq!(summary.attempted, 5);
    assert_eq!(summary.failed, 5);
    assert_eq!(summary.errors, vec!["p0: p0 down".to_string(), "p1: p1 down".to_string(), "p2: p2 down".to_string()]);
}
