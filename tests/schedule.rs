use price_fetcher::schedule::{Action, Command, Event, Phase, Report, Scheduler, CYCLE_DELAY_SECS};
use price_fetcher::source::{FetchError, PriceSource};

fn price(v: u64) -> serde_json::Number {
    serde_json::Number::from(v)
}

fn fetch_of(c: &Command) -> Option<PriceSource> {
    match c {
        Command::Fetch(s) => Some(*s),
        _ => None,
    }
}

fn ok_fetch(s: &mut Scheduler, v: u64) -> Action {
    s.step(Event::Fetched(Ok(price(v))))
}

#[test]
fn zero_cycles_stop_at_once() {
    let (s, c) = Scheduler::new(Some(0));
    assert_eq!(s.phase, Phase::Finished);
    assert!(matches!(c, Command::Stop));
}

#[test]
fn full_cycle_then_sleep_then_next_cycle() {
    let (mut s, c) = Scheduler::new(None);
    assert_eq!(fetch_of(&c), Some(PriceSource::Bitcoin));
    let sources = [PriceSource::Bitcoin, PriceSource::Ethereum, PriceSource::SP500];
    for (k, src) in sources.iter().enumerate() {
        let a = ok_fetch(&mut s, k as u64);
        match a.command {
            Command::Persist(p, n) => {
                assert_eq!(p, *src);
                assert_eq!(n, price(k as u64));
            }
            _ => panic!("expected a persist"),
        }
        assert!(matches!(a.report, Report::Quiet));
        let a = s.step(Event::Persisted(Ok(())));
        assert!(matches!(a.report, Report::Saved(p) if p == *src));
        if k < 2 {
            assert_eq!(fetch_of(&a.command), Some(sources[k + 1]));
        } else {
            assert!(matches!(a.command, Command::Sleep(CYCLE_DELAY_SECS)));
        }
    }
    assert_eq!(s.phase, Phase::Sleeping);
    assert!(CYCLE_DELAY_SECS > 0);
    let a = s.step(Event::Slept);
    assert_eq!(fetch_of(&a.command), Some(PriceSource::Bitcoin));
    assert_eq!(s.phase, Phase::Fetching(0));
}

#[test]
fn fetch_failure_is_logged_and_skipped() {
    let (mut s, _) = Scheduler::new(None);
    let a = s.step(Event::Fetched(Err(FetchError::Network("GET x: refused".to_string()))));
    match a.report {
        Report::Failed(l) => assert_eq!(l, "[BTC] fetch error: network error: GET x: refused"),
        _ => panic!("expected a failure line"),
    }
    assert_eq!(fetch_of(&a.command), Some(PriceSource::Ethereum));
}

#[test]
fn write_failure_is_logged_and_skipped() {
    let (mut s, _) = Scheduler::new(None);
    ok_fetch(&mut s, 1);
    let a = s.step(Event::Persisted(Err("permission denied".to_string())));
    match a.report {
        Report::Failed(l) => assert_eq!(l, "[BTC] failed to write CSV: permission denied"),
        _ => panic!("expected a failure line"),
    }
    assert_eq!(fetch_of(&a.command), Some(PriceSource::Ethereum));
}

#[test]
fn bounded_schedule_stops_after_last_cycle() {
    let (mut s, _) = Scheduler::new(Some(2));
    let mut sleeps = 0;
    let mut steps = 0;
    loop {
        let ev = match s.phase {
            Phase::Fetching(_) => Event::Fetched(Err(FetchError::Parse("p".to_string()))),
            Phase::Persisting(_) => Event::Persisted(Ok(())),
            Phase::Sleeping => Event::Slept,
            Phase::Finished => break,
        };
        assert!(s.accepts(&ev));
        let a = s.step(ev);
        if matches!(a.command, Command::Sleep(_)) {
            sleeps += 1;
        }
        steps += 1;
    }
    assert_eq!(sleeps, 1);
    assert_eq!(steps, 7);
}

#[test]
fn events_out_of_turn_are_refused() {
    let (s, _) = Scheduler::new(None);
    assert!(!s.accepts(&Event::Slept));
    assert!(!s.accepts(&Event::Persisted(Ok(()))));
    assert!(s.accepts(&Event::Fetched(Ok(price(1)))));
}
