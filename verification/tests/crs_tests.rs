use halo2_cli::crs::read_cached_common_reference_string;
use halo2_cli::crs::update_common_reference_string;
use halo2_cli::crs::CrsAction;

#[test]
fn absent_cache_reads_as_empty() {
    let r = read_cached_common_reference_string(None);
    assert!(r.is_empty());
}

#[test]
fn present_cache_reads_back_its_bytes() {
    let r = read_cached_common_reference_string(Some(vec![1, 2, 3]));
    assert_eq!(r, vec![1, 2, 3]);
}

#[test]
fn empty_crs_routes_to_generate() {
    let existing: Vec<u8> = Vec::new();
    assert!(matches!(update_common_reference_string(&existing), CrsAction::Generate));
}

#[test]
fn nonempty_crs_routes_to_update() {
    let existing: Vec<u8> = vec![0];
    assert!(matches!(update_common_reference_string(&existing), CrsAction::Update));
}

#[test]
fn bootstrap_from_missing_cache_generates() {
    let read = read_cached_common_reference_string(None);
    assert!(matches!(update_common_reference_string(&read), CrsAction::Generate));
}
