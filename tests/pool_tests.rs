use std::collections::HashSet;

use shm_window::pool::{BufferLayout, PoolBuilder, PoolStep};

#[test]
fn layout_of_a_window() {
    let l = BufferLayout::new(320, 240).unwrap();
    assert_eq!(l.stride(), 1280);
    assert_eq!(l.size(), 307200);
    assert_eq!(l.byte_len(), 307200);
}

#[test]
fn layout_rejects_bad_sizes() {
    assert!(BufferLayout::new(0, 240).is_none());
    assert!(BufferLayout::new(320, -1).is_none());
    assert!(BufferLayout::new(1, 1).is_none());
    assert!(BufferLayout::new(2, 2).is_some());
    assert!(BufferLayout::new(i32::MAX, i32::MAX).is_none());
    assert!(BufferLayout::new(32768, 16384).is_none());
    assert!(BufferLayout::new(32768, 16383).is_some());
}

fn name_of(b: &PoolBuilder, i: usize) -> String {
    String::from_utf8(b.name(i).to_vec()).unwrap()
}

#[test]
fn pool_completes_when_every_segment_exists() {
    let l = BufferLayout::new(4, 4).unwrap();
    let mut b = PoolBuilder::new(b"title", l, 2);
    assert_eq!(b.count(), 2);
    assert_eq!(b.next_step(), PoolStep::Create(0));
    assert_eq!(name_of(&b, 0), "/title-0");
    b.segment_created();
    assert_eq!(b.next_step(), PoolStep::Create(1));
    assert_eq!(name_of(&b, 1), "/title-1");
    b.segment_created();
    assert_eq!(b.next_step(), PoolStep::Complete);
    let w = b.finish();
    assert_eq!(w.count(), 2);
    assert_eq!(w.current(), 0);
    assert!(!w.callback_pending());
}

/// Drives a pool whose segment `k` fails, keeping the set of live names as
/// the system would; returns it at the end.
fn run_failing_at(n: usize, k: usize, opened: bool) -> HashSet<String> {
    let l = BufferLayout::new(8, 8).unwrap();
    let mut b = PoolBuilder::new(b"pool", l, n);
    let mut live: HashSet<String> = HashSet::new();
    loop {
        match b.next_step() {
            PoolStep::Create(i) => {
                if i == k {
                    if opened {
                        live.insert(name_of(&b, i));
                    }
                    b.segment_failed(opened);
                } else {
                    live.insert(name_of(&b, i));
                    b.segment_created();
                }
            }
            PoolStep::Unlink(i) => {
                assert!(live.remove(&name_of(&b, i)), "unlinked twice or never made");
                b.segment_unlinked();
            }
            PoolStep::Complete => panic!("a failed pool completed"),
            PoolStep::Abandoned => break,
        }
    }
    live
}

#[test]
fn failed_pool_leaves_no_namespace() {
    for n in 1..6 {
        for k in 0..n {
            assert!(run_failing_at(n, k, false).is_empty());
            assert!(run_failing_at(n, k, true).is_empty());
        }
    }
}

#[test]
fn failure_at_first_segment_needs_no_unlink() {
    let l = BufferLayout::new(8, 8).unwrap();
    let mut b = PoolBuilder::new(b"pool", l, 2);
    b.segment_failed(false);
    assert_eq!(b.next_step(), PoolStep::Abandoned);
}

#[test]
fn failure_after_open_unlinks_that_segment_too() {
    let l = BufferLayout::new(8, 8).unwrap();
    let mut b = PoolBuilder::new(b"pool", l, 2);
    b.segment_created();
    b.segment_failed(true);
    assert_eq!(b.next_step(), PoolStep::Unlink(0));
    b.segment_unlinked();
    assert_eq!(b.next_step(), PoolStep::Unlink(1));
    b.segment_unlinked();
    assert_eq!(b.next_step(), PoolStep::Abandoned);
}
