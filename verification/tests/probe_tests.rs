use authscrape::probe::first_visible;
use authscrape::probe::run_probe;

#[test]
fn first_visible_picks_list_order() {
    assert_eq!(first_visible(&vec![false, true, true]), Some(1));
    assert_eq!(first_visible(&vec![true, true, true]), Some(0));
    assert_eq!(first_visible(&vec![false, false, false]), None);
    assert_eq!(first_visible(&vec![]), None);
}

#[test]
fn probe_returns_first_selector_among_simultaneous_matches() {
    // tick 0: nothing; tick 1: selectors 0 and 2 both visible
    let obs = vec![
        vec![false, false, false],
        vec![true, false, true],
        vec![true, true, true],
        vec![true, true, true],
    ];
    let r = run_probe(&obs, 1000, 300);
    let hit = r.found.expect("probe should find a selector");
    assert_eq!(hit.tick, 1);
    assert_eq!(hit.selector, 0);
    assert_eq!(r.waited_ms, 300);
}

#[test]
fn probe_finds_immediately_without_waiting() {
    let obs = vec![vec![false, true], vec![true, true]];
    let r = run_probe(&obs, 400, 200);
    let hit = r.found.expect("probe should find a selector");
    assert_eq!(hit.tick, 0);
    assert_eq!(hit.selector, 1);
    assert_eq!(r.waited_ms, 0);
}

#[test]
fn probe_timeout_overshoots_by_less_than_one_interval() {
    // timeout 1000, interval 300: polls at 0, 300, 600, 900; gives up at 1200
    let obs = vec![vec![false]; 4];
    let r = run_probe(&obs, 1000, 300);
    assert!(r.found.is_none());
    assert_eq!(r.waited_ms, 1200);
    assert!(r.waited_ms >= 1000);
    assert!(r.waited_ms < 1000 + 300);
}

#[test]
fn probe_exact_timeout_when_interval_divides() {
    // timeout 600, interval 200: polls at 0, 200, 400; gives up at exactly 600
    let obs = vec![vec![false, false]; 3];
    let r = run_probe(&obs, 600, 200);
    assert!(r.found.is_none());
    assert_eq!(r.waited_ms, 600);
}

#[test]
fn probe_does_not_return_early_before_timeout() {
    // a selector turns visible only at the last poll before the timeout
    let obs = vec![vec![false], vec![false], vec![true]];
    let r = run_probe(&obs, 600, 200);
    let hit = r.found.expect("probe should reach the last poll");
    assert_eq!(hit.tick, 2);
    assert_eq!(r.waited_ms, 400);
}
