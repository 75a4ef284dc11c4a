use sysinfo::SystemExt;
use system_monitor::config::{DEFAULT_DISK_SECS, DEFAULT_MEMORY_SECS, DEFAULT_NETWORK_MILLIS};
use system_monitor::{Interval, IntervalsBuilder, MetricClass};

fn platform_floor() -> Interval {
    let floor = sysinfo::System::MINIMUM_CPU_UPDATE_INTERVAL;
    Interval::new(floor.as_secs(), floor.subsec_nanos()).unwrap()
}

#[test]
fn default_constants_have_the_documented_values() {
    assert_eq!(DEFAULT_MEMORY_SECS, 10);
    assert_eq!(DEFAULT_DISK_SECS, 30);
    assert_eq!(DEFAULT_NETWORK_MILLIS, 500);
}

#[test]
fn platform_builder_starts_at_the_sampler_floor() {
    let builder = IntervalsBuilder::new();
    assert_eq!(builder.cpu_floor(), platform_floor());
    let intervals = builder.build();
    assert_eq!(intervals.cpu, platform_floor());
    assert_eq!(intervals.memory, Interval::from_secs(10));
    assert_eq!(intervals.network, Interval::from_millis(500));
    assert_eq!(intervals.disk, Interval::from_secs(30));
}

#[test]
fn default_builder_is_the_platform_builder() {
    assert_eq!(IntervalsBuilder::default().build(), IntervalsBuilder::new().build());
}

#[test]
fn builder_with_floor_takes_the_floor_as_cpu_default() {
    let floor = Interval::from_millis(50);
    let builder = IntervalsBuilder::with_cpu_floor(floor);
    assert_eq!(builder.cpu_floor(), floor);
    let intervals = builder.build();
    assert_eq!(intervals.cpu, floor);
    assert_eq!(intervals.memory, Interval::from_secs(10));
    assert_eq!(intervals.network, Interval::from_millis(500));
    assert_eq!(intervals.disk, Interval::from_secs(30));
}

#[test]
fn cpu_interval_below_the_floor_is_raised_to_it() {
    let floor = Interval::from_millis(200);
    let intervals = IntervalsBuilder::with_cpu_floor(floor).cpu(Interval::from_millis(100)).build();
    assert_eq!(intervals.cpu, floor);
    let zero = IntervalsBuilder::with_cpu_floor(floor).cpu(Interval::from_secs(0)).build();
    assert_eq!(zero.cpu, floor);
}

#[test]
fn cpu_interval_at_or_above_the_floor_is_kept() {
    let floor = Interval::from_millis(200);
    let at = IntervalsBuilder::with_cpu_floor(floor).cpu(floor).build();
    assert_eq!(at.cpu, floor);
    let above = IntervalsBuilder::with_cpu_floor(floor).cpu(Interval::from_secs(1)).build();
    assert_eq!(above.cpu, Interval::from_secs(1));
}

#[test]
fn platform_builder_never_goes_below_the_platform_floor() {
    let intervals = IntervalsBuilder::new().cpu(Interval::from_secs(0)).build();
    assert_eq!(intervals.cpu, platform_floor());
    let long = IntervalsBuilder::new().cpu(Interval::from_secs(3_600)).build();
    assert_eq!(long.cpu, Interval::from_secs(3_600));
}

#[test]
fn each_class_is_set_independently() {
    let floor = Interval::from_millis(200);
    let intervals = IntervalsBuilder::with_cpu_floor(floor)
        .cpu(Interval::from_secs(1))
        .memory(Interval::from_secs(10))
        .network(Interval::from_secs(1))
        .disk(Interval::from_secs(30))
        .build();
    assert_eq!(intervals.cpu, Interval::from_secs(1));
    assert_eq!(intervals.memory, Interval::from_secs(10));
    assert_eq!(intervals.network, Interval::from_secs(1));
    assert_eq!(intervals.disk, Interval::from_secs(30));

    let only_disk = IntervalsBuilder::with_cpu_floor(floor).disk(Interval::from_secs(7)).build();
    assert_eq!(only_disk.cpu, floor);
    assert_eq!(only_disk.memory, Interval::from_secs(10));
    assert_eq!(only_disk.network, Interval::from_millis(500));
    assert_eq!(only_disk.disk, Interval::from_secs(7));

    let only_memory = IntervalsBuilder::with_cpu_floor(floor).memory(Interval::from_millis(1)).build();
    assert_eq!(only_memory.cpu, floor);
    assert_eq!(only_memory.memory, Interval::from_millis(1));
    assert_eq!(only_memory.network, Interval::from_millis(500));
    assert_eq!(only_memory.disk, Interval::from_secs(30));

    let only_network = IntervalsBuilder::with_cpu_floor(floor).network(Interval::from_secs(2)).build();
    assert_eq!(only_network.cpu, floor);
    assert_eq!(only_network.memory, Interval::from_secs(10));
    assert_eq!(only_network.network, Interval::from_secs(2));
    assert_eq!(only_network.disk, Interval::from_secs(30));
}

#[test]
fn a_later_setting_replaces_an_earlier_one() {
    let floor = Interval::from_millis(200);
    let intervals = IntervalsBuilder::with_cpu_floor(floor)
        .cpu(Interval::from_secs(5))
        .cpu(Interval::from_millis(10))
        .memory(Interval::from_secs(1))
        .memory(Interval::from_secs(2))
        .build();
    assert_eq!(intervals.cpu, floor);
    assert_eq!(intervals.memory, Interval::from_secs(2));
}

#[test]
fn interval_of_a_class_is_its_field() {
    let intervals = IntervalsBuilder::with_cpu_floor(Interval::from_millis(1))
        .cpu(Interval::from_secs(1))
        .memory(Interval::from_secs(2))
        .network(Interval::from_secs(3))
        .disk(Interval::from_secs(4))
        .build();
    assert_eq!(intervals.of(MetricClass::Cpu), Interval::from_secs(1));
    assert_eq!(intervals.of(MetricClass::Memory), Interval::from_secs(2));
    assert_eq!(intervals.of(MetricClass::Network), Interval::from_secs(3));
    assert_eq!(intervals.of(MetricClass::Disk), Interval::from_secs(4));
}
