use simple_eq::{Bands, NUM_BANDS};

fn chain_order(b: &Bands<u32>) -> Vec<usize> {
    let mut out = Vec::new();
    let mut next = b.next_active(0);
    while let Some(i) = next {
        out.push(i);
        next = b.next_active(i + 1);
    }
    out
}

#[test]
fn new_chain_is_fully_bypassed() {
    let b = Bands::new(7u32);
    for i in 0..NUM_BANDS {
        assert!(b.is_bypassed(i));
        assert_eq!(b.band(i), 7);
    }
    assert_eq!(b.next_active(0), None);
    assert_eq!(NUM_BANDS, 32);
}

#[test]
fn set_bypass_touches_one_band() {
    let mut b = Bands::new(0u32);
    b.set_band(3, 42);
    b.set_bypass(3, false);
    assert!(!b.is_bypassed(3));
    assert!(b.is_bypassed(2));
    assert!(b.is_bypassed(4));
    assert_eq!(b.band(3), 42);
    b.set_bypass(3, true);
    assert!(b.is_bypassed(3));
    assert_eq!(b.band(3), 42);
}

#[test]
fn chain_visits_active_bands_in_order() {
    let mut b = Bands::new(0u32);
    b.set_bypass(31, false);
    b.set_bypass(0, false);
    b.set_bypass(17, false);
    b.set_bypass(5, false);
    assert_eq!(chain_order(&b), vec![0, 5, 17, 31]);
    assert_eq!(b.next_active(6), Some(17));
    assert_eq!(b.next_active(17), Some(17));
    assert_eq!(b.next_active(32), None);
    assert_eq!(b.next_active(usize::MAX), None);
}

#[test]
fn bypass_all_switches_every_band_and_keeps_payloads() {
    let mut b = Bands::new(1u32);
    b.set_band(9, 99);
    b.bypass_all(false);
    assert_eq!(chain_order(&b), (0..NUM_BANDS).collect::<Vec<usize>>());
    assert_eq!(b.band(9), 99);
    b.bypass_all(true);
    assert!(chain_order(&b).is_empty());
    assert_eq!(b.band(9), 99);
    assert_eq!(b.band(10), 1);
}

#[test]
fn set_band_leaves_other_bands_alone() {
    let mut b = Bands::new(0.5f32);
    b.set_band(0, 2.0);
    assert_eq!(b.band(0), 2.0);
    assert_eq!(b.band(1), 0.5);
    assert!(b.is_bypassed(0));
}
