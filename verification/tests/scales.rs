use procplot::config::ChartConfig;
use procplot::sample::{Metric, Sample};
use procplot::scale::{
    generate_scale_cpu, generate_scale_mem, generate_scale_x, observed_max, Scale,
};

fn sample(ts: u64, cpu: u64, rss: u64) -> Sample {
    Sample { ts, cpu, rss }
}

#[test]
fn x_domain_ends_at_largest_timestamp() {
    let data = vec![sample(0, 1, 1), sample(1000, 2, 2), sample(2500, 3, 3)];
    let s = generate_scale_x(&data, &ChartConfig::default());
    assert_eq!(s, Scale { domain_start: 0, domain_end: 2500, range_start: 0, range_end: 1500 });
}

#[test]
fn x_domain_does_not_depend_on_order() {
    let data = vec![sample(2500, 1, 1), sample(0, 2, 2), sample(1000, 3, 3)];
    let s = generate_scale_x(&data, &ChartConfig::default());
    assert_eq!(s.domain_end, 2500);
    let mut reversed = data.clone();
    reversed.reverse();
    assert_eq!(generate_scale_x(&reversed, &ChartConfig::default()), s);
}

#[test]
fn cpu_domain_ends_at_highest_utilisation() {
    let data = vec![sample(0, 12_500, 1), sample(1, 250_000, 2), sample(2, 99_999, 3)];
    let s = generate_scale_cpu(&data, &ChartConfig::default());
    assert_eq!(s, Scale { domain_start: 0, domain_end: 250_000, range_start: 800, range_end: 0 });
}

#[test]
fn memory_domain_ends_at_largest_size_to_the_byte() {
    let big: u64 = 9_007_199_254_740_993;
    let data = vec![sample(0, 1, 4096), sample(1, 2, big), sample(2, 3, big - 1)];
    let s = generate_scale_mem(&data, &ChartConfig::default());
    assert_eq!(s, Scale { domain_start: 0, domain_end: big, range_start: 800, range_end: 0 });
}

#[test]
fn memory_domain_holds_the_largest_machine_value() {
    let data = vec![sample(0, 0, u64::MAX), sample(1, 0, 5)];
    assert_eq!(generate_scale_mem(&data, &ChartConfig::default()).domain_end, u64::MAX);
}

#[test]
fn scales_of_no_samples_are_flat_at_zero() {
    let data: Vec<Sample> = Vec::new();
    let cfg = ChartConfig::default();
    for s in [generate_scale_x(&data, &cfg), generate_scale_cpu(&data, &cfg), generate_scale_mem(&data, &cfg)] {
        assert_eq!(s.domain_start, 0);
        assert_eq!(s.domain_end, 0);
        assert!(s.is_degenerate());
    }
}

#[test]
fn scales_of_one_zero_sample_are_flat_at_zero() {
    let data = vec![sample(0, 0, 0)];
    let cfg = ChartConfig::default();
    let x = generate_scale_x(&data, &cfg);
    let cpu = generate_scale_cpu(&data, &cfg);
    let mem = generate_scale_mem(&data, &cfg);
    assert_eq!((x.domain_start, x.domain_end), (0, 0));
    assert_eq!((cpu.domain_start, cpu.domain_end), (0, 0));
    assert_eq!((mem.domain_start, mem.domain_end), (0, 0));
    assert_eq!(x.span(), 0);
    assert_eq!(x.drawing_end(), 1);
    assert_eq!(cpu.drawing_end(), 1);
    assert_eq!(mem.drawing_end(), 1);
}

#[test]
fn drawing_end_of_a_proper_scale_is_its_end() {
    let s = Scale { domain_start: 0, domain_end: 77, range_start: 800, range_end: 0 };
    assert!(!s.is_degenerate());
    assert_eq!(s.span(), 77);
    assert_eq!(s.drawing_end(), 77);
}

#[test]
fn ranges_follow_the_drawing_area() {
    let cfg = ChartConfig::new(640, 480, 10);
    let data = vec![sample(3, 4, 5)];
    let x = generate_scale_x(&data, &cfg);
    let cpu = generate_scale_cpu(&data, &cfg);
    let mem = generate_scale_mem(&data, &cfg);
    assert_eq!((x.range_start, x.range_end), (0, 640));
    assert_eq!((cpu.range_start, cpu.range_end), (480, 0));
    assert_eq!((mem.range_start, mem.range_end), (480, 0));
}

#[test]
fn observed_max_picks_each_quantity() {
    let data = vec![sample(9, 1, 5), sample(2, 8, 6), sample(3, 4, 7)];
    assert_eq!(observed_max(&data, Metric::Time), 9);
    assert_eq!(observed_max(&data, Metric::Cpu), 8);
    assert_eq!(observed_max(&data, Metric::Memory), 7);
    assert_eq!(data[1].get(Metric::Cpu), 8);
}
