use druns::disk::DiskSampler;
use druns::disk::children_of;
use druns::disk::get_child_pids;
use druns::disk::sum_io_pairs;
use druns::disk::total_io_bytes;

#[test]
fn test_descendant_walk_includes_root() {
    // the walk starts from the root pid and never repeats a pid
    let pids = get_child_pids(1);
    assert!(!pids.is_empty());
    assert_eq!(pids[0], 1);
    for i in 0..pids.len() {
        for j in (i + 1)..pids.len() {
            assert_ne!(pids[i], pids[j]);
        }
    }
}

#[test]
fn test_total_io_bytes_runs() {
    // an unreadable process contributes nothing
    let totals = total_io_bytes(&vec![u32::MAX]);
    assert_eq!(totals, (0, 0));
}

#[test]
fn test_sample_cycle_never_negative() {
    let mut sampler = DiskSampler::new();
    let first = sampler.sample_cycle(1);
    // deltas are unsigned by construction; a second cycle against the
    // stored totals stays well-defined even if counters moved
    let second = sampler.sample_cycle(1);
    let _ = (first.read_delta, first.write_delta);
    let _ = (second.read_delta, second.write_delta);
}

#[test]
fn test_children_of_filters_by_parent() {
    let links = vec![(10u32, 1u32), (11, 2), (12, 1), (13, 3), (14, 1)];
    assert_eq!(children_of(&links, 1), vec![10, 12, 14]);
    assert_eq!(children_of(&links, 2), vec![11]);
    assert_eq!(children_of(&links, 9), Vec::<u32>::new());
}

#[test]
fn test_sum_io_pairs_exact() {
    let counters = vec![(1u64, 10u64), (2, 20), (3, 30)];
    assert_eq!(sum_io_pairs(&counters), (6, 60));
    assert_eq!(sum_io_pairs(&Vec::new()), (0, 0));
}

#[test]
fn test_sum_io_pairs_saturates() {
    let counters = vec![(u64::MAX, 1u64), (5, u64::MAX), (7, 2)];
    assert_eq!(sum_io_pairs(&counters), (u64::MAX, u64::MAX));
}
