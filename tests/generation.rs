use problem_picker::ids::{next_id, MAX_PROBLEM_ID, MIN_PROBLEM_ID};
use problem_picker::locator::{build_url, BASE_URL};

#[test]
fn next_id_stays_in_range() {
    for _ in 0..20000 {
        let id = next_id();
        assert!(id >= MIN_PROBLEM_ID && id <= MAX_PROBLEM_ID);
    }
}

#[test]
fn next_id_is_roughly_uniform() {
    let trials = 60000;
    let mut buckets = [0u32; 12];
    for _ in 0..trials {
        let id = next_id();
        buckets[((id - 1) / 1000) as usize] += 1;
    }
    for count in buckets {
        assert!(count > 4000 && count < 6000, "bucket count {}", count);
    }
}

#[test]
fn build_url_of_seven() {
    assert_eq!(build_url(7), "https://eolymp.com/uk/problems/7");
    assert_eq!(build_url(7), format!("{}/7", BASE_URL));
}

#[test]
fn build_url_of_bounds_and_beyond() {
    assert_eq!(build_url(0), "https://eolymp.com/uk/problems/0");
    assert_eq!(build_url(12000), "https://eolymp.com/uk/problems/12000");
    assert_eq!(build_url(u32::MAX), "https://eolymp.com/uk/problems/4294967295");
}
