use statx_sys::call::{nul_terminated, record_after_call};
use statx_sys::statx;

#[test]
fn path_gets_one_nul() {
    assert_eq!(nul_terminated(b"/etc/passwd"), Some(b"/etc/passwd\0".to_vec()));
    assert_eq!(nul_terminated(b"rel/dir"), Some(b"rel/dir\0".to_vec()));
}

#[test]
fn empty_path_is_a_lone_nul() {
    assert_eq!(nul_terminated(b""), Some(vec![0u8]));
}

#[test]
fn path_with_nul_is_refused() {
    assert_eq!(nul_terminated(b"/etc\0/passwd"), None);
    assert_eq!(nul_terminated(b"\0"), None);
    assert_eq!(nul_terminated(b"name\0"), None);
}

#[test]
fn failed_call_gives_no_record() {
    let buf = [7u8; 256];
    assert_eq!(record_after_call(-1, &buf), None);
    assert_eq!(record_after_call(i32::MIN, &buf), None);
}

#[test]
fn successful_call_gives_the_written_record() {
    let mut buf = [0u8; 256];
    buf[0] = 0xff;
    buf[1] = 0x07;
    let r = record_after_call(0, &buf).unwrap();
    assert_eq!(r.stx_mask, 0x7ff);
    assert_eq!(r, statx::from_bytes(&buf).unwrap());
}

#[test]
fn short_buffer_gives_no_record() {
    assert_eq!(record_after_call(0, &[0u8; 100]), None);
}
