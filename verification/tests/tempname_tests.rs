use rtrim::tempname::generate_temp_path;
use rtrim::tempname::u64_to_dec;

#[test]
fn test_generate_temp_path_format() {
    let temp = generate_temp_path("/tmp/test.txt", 4242, 1700000000123456789);
    let temp_name = temp.rsplit('/').next().unwrap();
    assert!(temp_name.starts_with(".test.txt."));
    assert!(temp_name.ends_with(".tmp"));
    assert!(temp.starts_with("/tmp/"));
}

#[test]
fn test_generate_temp_path_uniqueness() {
    // Two readings of the clock differ, so the names differ.
    let temp1 = generate_temp_path("/tmp/test.txt", 4242, 1000);
    let temp2 = generate_temp_path("/tmp/test.txt", 4242, 1001);
    assert_ne!(temp1, temp2);
}

#[test]
fn test_generate_temp_path_hidden() {
    let temp = generate_temp_path("/tmp/test.txt", 4242, 1700000000123456789);
    let temp_name = temp.rsplit('/').next().unwrap();
    assert!(temp_name.starts_with('.'), "Temp file should be hidden");
}

#[test]
fn test_generate_temp_path_exact() {
    assert_eq!(
        generate_temp_path("/tmp/test.txt", 77, 12345),
        "/tmp/.test.txt.77.12345.tmp"
    );
}

#[test]
fn test_generate_temp_path_distinct_pids() {
    let temp1 = generate_temp_path("/w/a.txt", 12, 3);
    let temp2 = generate_temp_path("/w/a.txt", 1, 23);
    assert_ne!(temp1, temp2);
}

#[test]
fn test_generate_temp_path_no_parent() {
    // A bare file name gets its temporary sibling in the same
    // (current) directory: no separator is prepended.
    assert_eq!(generate_temp_path("notes.md", 5, 6), ".notes.md.5.6.tmp");
}

#[test]
fn test_u64_to_dec() {
    assert_eq!(u64_to_dec(0), "0");
    assert_eq!(u64_to_dec(7), "7");
    assert_eq!(u64_to_dec(10), "10");
    assert_eq!(u64_to_dec(18446744073709551615), "18446744073709551615");
}
