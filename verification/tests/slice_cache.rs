use headjack::utils::sampling::SliceAxis;
use headjack::utils::slice_cache::{CachableSlicerParams, SliceCache, DEFAULT_CAPACITY};

fn params(depth: f64) -> CachableSlicerParams {
    CachableSlicerParams::new(SliceAxis::X, depth.to_bits(), 0f64.to_bits(), (2, 2))
}

fn numbered(n: u64) -> CachableSlicerParams {
    CachableSlicerParams::new(SliceAxis::Z, n, 0, (1, 1))
}

#[test]
fn key_holds_every_field() {
    let p = CachableSlicerParams::new(SliceAxis::Y, 11, 22, (33, 44));
    assert_eq!(p.key(), (1, 11, 22, 33, 44));
    assert_eq!(p.axis, SliceAxis::Y);
    assert_eq!(p.depth, 11);
    assert_eq!(p.default_value, 22);
    assert_eq!(p.resolution, (33, 44));
}

#[test]
fn second_get_does_not_recompute() {
    let mut cache = SliceCache::new();
    let mut computed = 0;
    let first = cache
        .get(params(1.5), || {
            computed += 1;
            vec![1, 2, 3, 4]
        })
        .clone();
    let second = cache
        .get(params(1.5), || {
            computed += 1;
            vec![9, 9, 9, 9]
        })
        .clone();
    assert_eq!(computed, 1);
    assert_eq!(first, vec![1, 2, 3, 4]);
    assert_eq!(second, first);
}

#[test]
fn distinct_keys_compute_once_each() {
    let mut cache = SliceCache::with_capacity(8);
    let mut computed = 0u64;
    for n in 0..8u64 {
        let got = cache
            .get(numbered(n), || {
                computed += 1;
                vec![n]
            })
            .clone();
        assert_eq!(got, vec![n]);
    }
    assert_eq!(computed, 8);
    for n in 0..8u64 {
        let got = cache
            .get(numbered(n), || {
                computed += 1;
                vec![1000 + n]
            })
            .clone();
        assert_eq!(got, vec![n]);
    }
    assert_eq!(computed, 8);
}

#[test]
fn one_key_over_capacity_evicts_the_least_recently_requested() {
    let capacity = 3;
    let mut cache = SliceCache::with_capacity(capacity);
    for n in 0..3u64 {
        cache.get(numbered(n), || vec![n]);
    }
    // Key 0 is requested again, so key 1 is now the one requested longest ago.
    cache.get(numbered(0), || vec![100]);
    cache.get(numbered(3), || vec![3]);
    let mut recomputed = Vec::new();
    for n in [0u64, 2, 3] {
        let got = cache
            .get(numbered(n), || {
                recomputed.push(n);
                vec![200 + n]
            })
            .clone();
        assert_eq!(got, vec![n]);
    }
    assert!(recomputed.is_empty());
    let again = cache
        .get(numbered(1), || {
            recomputed.push(1);
            vec![201]
        })
        .clone();
    assert_eq!(again, vec![201]);
    assert_eq!(recomputed, vec![1]);
}

#[test]
fn default_capacity_is_fifty() {
    assert_eq!(DEFAULT_CAPACITY, 50);
    let mut cache = SliceCache::new();
    let mut computed = 0;
    for n in 0..51u64 {
        cache.get(numbered(n), || {
            computed += 1;
            vec![n]
        });
    }
    assert_eq!(computed, 51);
    for n in 1..51u64 {
        cache.get(numbered(n), || {
            computed += 1;
            vec![n]
        });
    }
    assert_eq!(computed, 51);
    cache.get(numbered(0), || {
        computed += 1;
        vec![0]
    });
    assert_eq!(computed, 52);
}

#[test]
fn capacity_of_one_keeps_what_it_returns() {
    let mut cache = SliceCache::with_capacity(1);
    for n in 0..5u64 {
        let got = cache.get(numbered(n), || vec![n, n]).clone();
        assert_eq!(got, vec![n, n]);
        let again = cache.get(numbered(n), || vec![0]).clone();
        assert_eq!(again, vec![n, n]);
    }
}

#[test]
fn depths_that_differ_in_a_bit_are_cached_apart() {
    let close = 0.1f64 + 0.2f64;
    assert_ne!(close.to_bits(), 0.3f64.to_bits());
    let mut cache = SliceCache::new();
    let mut computed = 0;
    cache.get(params(0.3), || {
        computed += 1;
        vec![1]
    });
    cache.get(params(close), || {
        computed += 1;
        vec![2]
    });
    assert_eq!(computed, 2);
    cache.get(params(0.0), || {
        computed += 1;
        vec![3]
    });
    cache.get(params(-0.0), || {
        computed += 1;
        vec![4]
    });
    assert_eq!(computed, 4);
    cache.get(params(0.3), || {
        computed += 1;
        vec![5]
    });
    assert_eq!(computed, 4);
}

#[test]
fn every_part_of_the_key_counts() {
    let base = CachableSlicerParams::new(SliceAxis::X, 1, 2, (3, 4));
    let others = [
        CachableSlicerParams::new(SliceAxis::Y, 1, 2, (3, 4)),
        CachableSlicerParams::new(SliceAxis::X, 9, 2, (3, 4)),
        CachableSlicerParams::new(SliceAxis::X, 1, 9, (3, 4)),
        CachableSlicerParams::new(SliceAxis::X, 1, 2, (9, 4)),
        CachableSlicerParams::new(SliceAxis::X, 1, 2, (3, 9)),
        CachableSlicerParams::new(SliceAxis::X, 1, 2, (4, 3)),
    ];
    let mut cache = SliceCache::new();
    let mut computed = 0;
    cache.get(base, || {
        computed += 1;
        vec![0]
    });
    for other in others {
        assert_ne!(other.key(), base.key());
        cache.get(other, || {
            computed += 1;
            vec![1]
        });
    }
    assert_eq!(computed, 7);
}
