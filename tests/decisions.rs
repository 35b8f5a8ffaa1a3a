use volo_timeout::{
    Branch, CallContext, CallOutcome, Endpoint, Plan, RaceEvent, Span, Timeout, TimeoutError,
    NANOS_PER_SEC,
};

fn cx(timeout: Option<Span>) -> CallContext {
    CallContext::new(timeout, Endpoint::named("store".to_string()))
}

#[test]
fn from_millis_splits_seconds_and_nanos() {
    assert_eq!(Span::from_millis(1500), Span { secs: 1, nanos: 500_000_000 });
    assert_eq!(Span::from_millis(50), Span { secs: 0, nanos: 50_000_000 });
    assert_eq!(Span::from_millis(0), Span { secs: 0, nanos: 0 });
    assert_eq!(Span::from_millis(3000), Span { secs: 3, nanos: 0 });
}

#[test]
fn from_millis_largest_input() {
    let s = Span::from_millis(u64::MAX);
    assert_eq!(s.secs, u64::MAX / 1000);
    assert_eq!(s.nanos, 615_000_000);
    assert!(s.nanos < NANOS_PER_SEC);
}

#[test]
fn new_keeps_parts() {
    assert_eq!(Span::new(7, 999_999_999), Span { secs: 7, nanos: 999_999_999 });
}

#[test]
fn layer_wraps_inner_unit() {
    let svc = Timeout::new().layer(41u32);
    assert_eq!(*svc.inner(), 41);
    assert_eq!(svc.into_inner(), 41);
    let svc = Timeout::default().layer("inner");
    assert_eq!(*svc.inner(), "inner");
}

#[test]
fn plan_follows_configured_timeout() {
    let svc = Timeout::new().layer(());
    assert_eq!(svc.plan(&cx(None)), Plan::Direct);
    assert_eq!(
        svc.plan(&cx(Some(Span::from_millis(50)))),
        Plan::Race(Span { secs: 0, nanos: 50_000_000 })
    );
}

#[test]
fn settle_direct_hands_over_inner_result() {
    let svc = Timeout::new().layer(());
    let c = cx(None);
    let ok = svc.settle(Plan::Direct, RaceEvent::<u32, String>::InnerResolved(Ok(7)), &c);
    assert_eq!(ok.outcome, CallOutcome::Response(7));
    assert_eq!(ok.abandoned, None);
    let err = svc.settle(
        Plan::Direct,
        RaceEvent::<u32, String>::InnerResolved(Err("down".to_string())),
        &c,
    );
    assert_eq!(err.outcome, CallOutcome::InnerError("down".to_string()));
    assert_eq!(err.abandoned, None);
}

#[test]
fn settle_race_won_by_inner_drops_timer() {
    let svc = Timeout::new().layer(());
    let c = cx(Some(Span::from_millis(50)));
    let plan = svc.plan(&c);
    let s = svc.settle(plan, RaceEvent::<u32, String>::InnerResolved(Ok(3)), &c);
    assert_eq!(s.outcome, CallOutcome::Response(3));
    assert_eq!(s.abandoned, Some(Branch::Timer));
}

#[test]
fn settle_race_won_by_timer_names_callee() {
    let svc = Timeout::new().layer(());
    let mut c = cx(Some(Span::from_millis(50)));
    c.callee.address = Some("127.0.0.1:9000".to_string());
    let plan = svc.plan(&c);
    let s = svc.settle(plan, RaceEvent::<u32, String>::TimerFired, &c);
    assert!(s.outcome.is_timeout());
    assert_eq!(s.outcome, CallOutcome::Timeout(TimeoutError { endpoint: c.callee.clone() }));
    assert_eq!(s.abandoned, Some(Branch::Inner));
}

#[test]
fn endpoint_copy_is_equal() {
    let e = Endpoint { service_name: "svc".to_string(), address: Some("host:1".to_string()) };
    assert_eq!(e.copy(), e);
    let n = Endpoint::named("bare".to_string());
    assert_eq!(n.address, None);
    assert_eq!(n.copy(), n);
}
