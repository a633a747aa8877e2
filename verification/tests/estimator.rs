use telegram_id::anchors::AnchorTable;
use telegram_id::anchors::get_age_data;
use telegram_id::dates::MonthDate;
use telegram_id::estimator::{AgeEstimate, MsEstimate};

#[test]
fn age_data_is_sorted_and_complete() {
    let data = get_age_data();
    assert_eq!(data.len(), 43);
    assert_eq!(data[0], (2768409, 1383264000000));
    assert_eq!(data[42], (1974255900, 1634000000000));
    for w in data.windows(2) {
        assert!(w[0].0 < w[1].0);
    }
}

#[test]
fn below_minimum_anchor_is_older_than_minimum_date() {
    let t = AnchorTable::new();
    assert_eq!(t.estimate_ms(1000), MsEstimate::Older(1383264000000));
    assert_eq!(
        t.estimate(1000),
        AgeEstimate::OlderThan(MonthDate { month: 11, year: 2013 })
    );
}

#[test]
fn above_maximum_anchor_is_newer_than_maximum_date() {
    let t = AnchorTable::new();
    assert_eq!(t.estimate_ms(3000000000), MsEstimate::Newer(1634000000000));
    assert_eq!(
        t.estimate(3000000000),
        AgeEstimate::NewerThan(MonthDate { month: 10, year: 2021 })
    );
}

#[test]
fn exact_first_anchor_gives_its_own_date() {
    let t = AnchorTable::new();
    assert_eq!(t.estimate_ms(2768409), MsEstimate::Approx(1383264000000));
    assert_eq!(
        t.estimate(2768409),
        AgeEstimate::Approx(MonthDate { month: 11, year: 2013 })
    );
}

#[test]
fn exact_interior_anchor_gives_its_own_date() {
    let t = AnchorTable::new();
    assert_eq!(t.estimate_ms(7679610), MsEstimate::Approx(1388448000000));
    assert_eq!(
        t.estimate(7679610),
        AgeEstimate::Approx(MonthDate { month: 12, year: 2013 })
    );
    assert_eq!(t.estimate_ms(103258382), MsEstimate::Approx(1432771000000));
}

#[test]
fn interpolation_between_first_two_anchors() {
    // Anchors 2768409 -> 1383264000000 (Nov 2013) and
    // 7679610 -> 1388448000000 (Dec 2013); id 5000000 sits between them.
    let t = AnchorTable::new();
    let expected: u64 =
        1383264000000 + (((5000000u128 - 2768409) * (1388448000000u128 - 1383264000000)
            / (7679610 - 2768409)) as u64);
    match t.estimate_ms(5000000) {
        MsEstimate::Approx(ms) => {
            assert_eq!(ms, expected);
            assert!(1383264000000 < ms && ms < 1388448000000);
        }
        other => panic!("expected an interpolated estimate, got {:?}", other),
    }
    assert_eq!(
        t.estimate(5000000),
        AgeEstimate::Approx(MonthDate { month: 11, year: 2013 })
    );
}

#[test]
fn interpolation_with_descending_timestamps_stays_bracketed() {
    // Between 103151531 and 103258382 the anchor timestamps descend; the
    // estimate must still stay within the interval the two anchors span.
    let t = AnchorTable::new();
    match t.estimate_ms(103200000) {
        MsEstimate::Approx(ms) => {
            assert!(1432771000000 <= ms && ms <= 1433376000000);
        }
        other => panic!("expected an interpolated estimate, got {:?}", other),
    }
}
