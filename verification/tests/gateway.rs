use decofs::libc_wrapper::{
    c_string, check_status, close_result, descriptor, open_result, SysError, ENOENT, FAILURE,
    S_IFBLK, S_IFCHR, S_IFDIR, S_IFIFO, S_IFLNK, S_IFMT, S_IFREG, S_IFSOCK,
};
use decofs::unmanaged_file::UnmanagedFile;

#[test]
fn constants_have_their_values() {
    assert_eq!(S_IFMT, 0o170000);
    assert_eq!(S_IFIFO, 0o010000);
    assert_eq!(S_IFCHR, 0o020000);
    assert_eq!(S_IFDIR, 0o040000);
    assert_eq!(S_IFBLK, 0o060000);
    assert_eq!(S_IFREG, 0o100000);
    assert_eq!(S_IFLNK, 0o120000);
    assert_eq!(S_IFSOCK, 0o140000);
    assert_eq!(ENOENT, 2);
    assert_eq!(FAILURE, -1);
}

#[test]
fn constants_agree_with_the_platform() {
    assert_eq!(S_IFMT, libc::S_IFMT);
    assert_eq!(S_IFIFO, libc::S_IFIFO);
    assert_eq!(S_IFCHR, libc::S_IFCHR);
    assert_eq!(S_IFDIR, libc::S_IFDIR);
    assert_eq!(S_IFBLK, libc::S_IFBLK);
    assert_eq!(S_IFREG, libc::S_IFREG);
    assert_eq!(S_IFLNK, libc::S_IFLNK);
    assert_eq!(S_IFSOCK, libc::S_IFSOCK);
    assert_eq!(ENOENT, libc::ENOENT);
}

#[test]
fn errno_is_the_reported_code() {
    assert_eq!(SysError::Os(13).errno(), 13);
    assert_eq!(SysError::Os(5).errno(), 5);
    assert_eq!(SysError::Os(0).errno(), 0);
    assert_eq!(SysError::Os(-7).errno(), -7);
}

#[test]
fn errno_defaults_to_no_such_entry() {
    assert_eq!(SysError::Uncoded.errno(), 2);
    assert_eq!(SysError::Uncoded.errno(), libc::ENOENT);
}

#[test]
fn raw_os_error_round_trip() {
    assert_eq!(SysError::from_raw_os_error(Some(9)), SysError::Os(9));
    assert_eq!(SysError::from_raw_os_error(None), SysError::Uncoded);
    assert_eq!(SysError::Os(9).raw_os_error(), Some(9));
    assert_eq!(SysError::Uncoded.raw_os_error(), None);
}

#[test]
fn c_string_appends_the_terminator() {
    assert_eq!(c_string(&b"/data/notes.txt".to_vec()), Ok(b"/data/notes.txt\0".to_vec()));
    assert_eq!(c_string(&Vec::new()), Ok(vec![0u8]));
}

#[test]
fn c_string_refuses_a_zero_byte() {
    assert_eq!(c_string(&b"/da\0ta".to_vec()), Err(SysError::Uncoded));
    assert_eq!(c_string(&b"\0".to_vec()), Err(SysError::Uncoded));
    assert_eq!(c_string(&b"/data\0".to_vec()), Err(SysError::Uncoded));
    assert_eq!(c_string(&b"/da\0ta".to_vec()).unwrap_err().errno(), 2);
}

#[test]
fn check_status_splits_on_the_failure_value() {
    assert_eq!(check_status(0, 0), Ok(()));
    assert_eq!(check_status(0, 13), Ok(()));
    assert_eq!(check_status(7, 13), Ok(()));
    assert_eq!(check_status(-2, 13), Ok(()));
    assert_eq!(check_status(-1, 13), Err(SysError::Os(13)));
    assert_eq!(check_status(-1, 2), Err(SysError::Os(2)));
}

#[test]
fn open_result_hands_out_the_descriptor() {
    assert_eq!(open_result(3, 0), Ok(3));
    assert_eq!(open_result(0, 0), Ok(0));
    assert_eq!(open_result(i32::MAX, 0), Ok(2147483647));
    assert_eq!(open_result(5, 2), Ok(5));
}

#[test]
fn open_result_reports_the_code() {
    assert_eq!(open_result(-1, 2), Err(SysError::Os(2)));
    assert_eq!(open_result(-1, 13), Err(SysError::Os(13)));
}

#[test]
fn open_result_sign_extends_other_negatives() {
    assert_eq!(open_result(-2, 0), Ok(u64::MAX - 1));
    assert_eq!(open_result(i32::MIN, 0), Ok(0xffff_ffff_8000_0000));
}

#[test]
fn close_result_is_zero_or_the_code() {
    assert_eq!(close_result(0, 0), Ok(0));
    assert_eq!(close_result(0, 9), Ok(0));
    assert_eq!(close_result(5, 9), Ok(0));
    assert_eq!(close_result(-1, 9), Err(SysError::Os(9)));
}

#[test]
fn descriptor_is_the_low_half_of_the_handle() {
    assert_eq!(descriptor(3), 3);
    assert_eq!(descriptor(0), 0);
    assert_eq!(descriptor(0x7fff_ffff), i32::MAX);
    assert_eq!(descriptor(0x8000_0000), i32::MIN);
    assert_eq!(descriptor(0xffff_ffff), -1);
    assert_eq!(descriptor(0x1_0000_0005), 5);
    assert_eq!(descriptor(u64::MAX), -1);
}

#[test]
fn handle_and_descriptor_round_trip() {
    for fd in [0, 1, 2, 3, 1023, i32::MAX, -2, i32::MIN] {
        let fh = open_result(fd, 0).unwrap();
        assert_eq!(descriptor(fh), fd);
    }
}

#[test]
fn unmanaged_file_views_the_descriptor() {
    let file = UnmanagedFile::new(7);
    assert_eq!(file.as_raw_fd(), 7);
    assert_eq!(file.into_raw_fd(), 7);
}

#[test]
fn unmanaged_files_on_one_handle_are_independent() {
    let first = UnmanagedFile::new(11);
    let second = UnmanagedFile::new(11);
    assert_eq!(first.into_raw_fd(), 11);
    assert_eq!(second.as_raw_fd(), 11);
    let third = UnmanagedFile::new(11);
    assert_eq!(third.as_raw_fd(), 11);
}

#[test]
fn unmanaged_file_takes_the_low_half_of_a_handle() {
    assert_eq!(UnmanagedFile::new(0x2_0000_0004).as_raw_fd(), 4);
    assert_eq!(UnmanagedFile::new(0xffff_ffff).as_raw_fd(), -1);
}
