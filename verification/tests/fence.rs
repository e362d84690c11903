use adamant::sync::{Fence, WaitStatus};

#[test]
fn get_value_is_non_decreasing() {
    let mut fence = Fence::new();
    let mut last = fence.get_value();
    fence.signal(5);
    assert!(fence.get_value() >= last);
    last = fence.get_value();
    fence.complete_to(3);
    assert!(fence.get_value() >= last);
    last = fence.get_value();
    fence.complete_to(5);
    assert!(fence.get_value() >= last);
    assert_eq!(fence.get_value(), 5);
}

#[test]
fn wait_succeeds_immediately_when_value_reached() {
    // a fence whose completed value is pre-set, as by a mock
    let mut fence = Fence::new_with_value(10);
    let status = fence.wait(5);
    assert_eq!(status, WaitStatus::Reached);
    // no blocking happened: nothing changed
    assert_eq!(fence.get_value(), 10);
    assert_eq!(fence.signaled, 10);
}

#[test]
fn wait_blocks_until_signaled_value() {
    let mut fence = Fence::new();
    fence.signal(4);
    assert_eq!(fence.get_value(), 0);
    let status = fence.wait(4);
    assert_eq!(status, WaitStatus::Reached);
    assert_eq!(fence.get_value(), 4);
}

#[test]
fn wait_with_timeout_reports_timeout() {
    let mut fence = Fence::new();
    fence.signal(4);
    let status = fence.wait_with_timeout(4, true);
    assert_eq!(status, WaitStatus::TimedOut);
    assert_eq!(fence.get_value(), 0);
    let status = fence.wait_with_timeout(4, false);
    assert_eq!(status, WaitStatus::Reached);
    assert_eq!(fence.get_value(), 4);
}
