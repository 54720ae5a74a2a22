use clash_service_ipc::logs::{read_log_snapshot, snapshot_start, MAX_SNAPSHOT_BYTES};
use clash_service_ipc::text::{decimal_text, hex_text};

#[test]
fn short_logs_are_kept_whole() {
    assert_eq!(snapshot_start(0), 0);
    assert_eq!(snapshot_start(MAX_SNAPSHOT_BYTES), 0);
    assert_eq!(snapshot_start(MAX_SNAPSHOT_BYTES + 5), 5);
    assert_eq!(read_log_snapshot(3, &b"a\nb".to_vec()), "610a62");
    assert_eq!(read_log_snapshot(0, &Vec::new()), "");
}

#[test]
fn cut_logs_begin_with_a_whole_line() {
    let long = MAX_SNAPSHOT_BYTES + 1;
    assert_eq!(read_log_snapshot(long, &b"ut\nline\n".to_vec()), "6c696e650a");
    assert_eq!(read_log_snapshot(long, &b"\nb".to_vec()), "62");
    assert_eq!(read_log_snapshot(long, &b"no end".to_vec()), "6e6f20656e64");
    assert_eq!(read_log_snapshot(long, &b"cut\n".to_vec()), "");
}

#[test]
fn bytes_are_written_as_two_lower_case_digits() {
    assert_eq!(hex_text(&vec![0, 9, 10, 15, 16, 171, 255]), "00090a0f10abff");
    assert_eq!(decimal_text(0), "0");
    assert_eq!(decimal_text(1_020), "1020");
}

#[test]
fn longest_snapshot_fits_into_an_answer() {
    let content = vec![255u8; MAX_SNAPSHOT_BYTES as usize];
    let text = read_log_snapshot(MAX_SNAPSHOT_BYTES * 3, &content);
    assert_eq!(text.len() as u64, 2 * MAX_SNAPSHOT_BYTES);
    assert!(text.len() < 10 * 1024 * 1024);
}
