use procplot::sample::{Metric, Sample};
use procplot::series::{generate_data_cpu, generate_data_mem, project};

fn data() -> Vec<Sample> {
    vec![
        Sample { ts: 0, cpu: 500, rss: 1024 },
        Sample { ts: 1000, cpu: 150_000, rss: 4096 },
        Sample { ts: 2000, cpu: 0, rss: 2048 },
    ]
}

#[test]
fn cpu_series_has_one_point_per_sample_in_order() {
    assert_eq!(generate_data_cpu(&data()), vec![(0, 500), (1000, 150_000), (2000, 0)]);
}

#[test]
fn memory_series_has_one_point_per_sample_in_order() {
    assert_eq!(generate_data_mem(&data()), vec![(0, 1024), (1000, 4096), (2000, 2048)]);
}

#[test]
fn series_keep_input_order_when_unsorted() {
    let d = vec![Sample { ts: 7, cpu: 1, rss: 2 }, Sample { ts: 3, cpu: 4, rss: 5 }];
    assert_eq!(generate_data_cpu(&d), vec![(7, 1), (3, 4)]);
    assert_eq!(generate_data_mem(&d), vec![(7, 2), (3, 5)]);
}

#[test]
fn series_of_no_samples_are_empty() {
    let d: Vec<Sample> = Vec::new();
    assert!(generate_data_cpu(&d).is_empty());
    assert!(generate_data_mem(&d).is_empty());
}

#[test]
fn both_series_share_their_timestamps() {
    let cpu = generate_data_cpu(&data());
    let mem = generate_data_mem(&data());
    assert_eq!(cpu.len(), 3);
    assert_eq!(mem.len(), 3);
    for i in 0..3 {
        assert_eq!(cpu[i].0, mem[i].0);
    }
}

#[test]
fn time_series_pairs_each_timestamp_with_itself() {
    assert_eq!(project(&data(), Metric::Time), vec![(0, 0), (1000, 1000), (2000, 2000)]);
}
