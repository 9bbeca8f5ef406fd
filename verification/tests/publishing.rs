use clocktree::config::Config;
use clocktree::plan::Clocks;
use clocktree::publisher::{ClockPublisher, PublishError};
use clocktree::rcc::Rcc;

fn sample_clocks() -> Clocks {
    let mut seq = Rcc::new(Config::default()).freeze().expect("default config must plan");
    while let Some(_a) = seq.next_action() {}
    seq.clocks().expect("snapshot must exist after completion")
}

#[test]
fn read_before_publish_is_empty() {
    let publisher = ClockPublisher::new();
    assert_eq!(publisher.get(), None);
}

#[test]
fn publish_once_then_read() {
    let clocks = sample_clocks();
    let mut publisher = ClockPublisher::new();
    assert_eq!(publisher.publish(clocks), Ok(()));
    assert_eq!(publisher.get(), Some(&clocks));
}

#[test]
fn second_publish_rejected() {
    let clocks = sample_clocks();
    let mut publisher = ClockPublisher::new();
    assert_eq!(publisher.publish(clocks), Ok(()));
    let mut other = clocks;
    other.sys = clocktree::config::Hertz(1);
    assert_eq!(publisher.publish(other), Err(PublishError::AlreadyPublished));
    // The first snapshot stays frozen.
    assert_eq!(publisher.get(), Some(&clocks));
}
