use fanotify_rs::linux::{
    fanotify_response, AT_FDCWD, FAN_MARK_ADD, FAN_MARK_DONT_FOLLOW, FAN_MARK_ONLYDIR,
    FAN_MARK_REMOVE,
};
use fanotify_rs::session::syscall_result;
use fanotify_rs::{
    Event, EventFlags, FanotifyError, FanotifyFlags, MarkOp, MaskFlags, Session,
};
use tempfile::tempdir;

fn watch(s: &mut Session, path: &str, mask: MaskFlags) -> fanotify_rs::Result<()> {
    let req = s.add_watch_request(path, mask)?;
    s.complete_mark(&req, 0, 0)
}

fn unwatch(s: &mut Session, path: &str) -> fanotify_rs::Result<()> {
    let req = s.remove_watch_request(path)?;
    s.complete_mark(&req, 0, 0)
}

fn mask(bits: u64) -> MaskFlags {
    MaskFlags::from_bits_retain(bits)
}

fn permission_event(fd: i32) -> Event {
    let mut b = Vec::new();
    b.extend_from_slice(&24u32.to_le_bytes());
    b.extend_from_slice(&[3, 0]);
    b.extend_from_slice(&24u16.to_le_bytes());
    b.extend_from_slice(&MaskFlags::OPEN_PERM.to_le_bytes());
    b.extend_from_slice(&fd.to_le_bytes());
    b.extend_from_slice(&10i32.to_le_bytes());
    Event::from_raw_data(&b).unwrap()
}

#[test]
fn test_add_watch() {
    let mut fanotify = Session::new();
    let temp_dir = tempdir().unwrap();
    let path = temp_dir.path().to_str().unwrap();

    let result = watch(&mut fanotify, path, mask(MaskFlags::ACCESS) | mask(MaskFlags::MODIFY));
    assert!(result.is_ok(), "add_watch failed: {:?}", result.err());
    assert!(fanotify.is_watched(path));
}

#[test]
fn test_remove_watch() {
    let mut fanotify = Session::new();
    let temp_dir = tempdir().unwrap();
    let path = temp_dir.path().to_str().unwrap();

    let result = watch(&mut fanotify, path, mask(MaskFlags::ACCESS) | mask(MaskFlags::MODIFY));
    assert!(result.is_ok(), "add_watch failed: {:?}", result.err());
    assert!(fanotify.is_watched(path));

    let result = unwatch(&mut fanotify, path);
    assert!(result.is_ok(), "remove_watch failed: {:?}", result.err());
    assert!(!fanotify.is_watched(path));
}

#[test]
fn test_buffer_size() {
    let mut fanotify = Session::new();
    assert_eq!(fanotify.buffer_size(), 4096);
    fanotify.set_buffer_size(8192);
    assert_eq!(fanotify.buffer_size(), 8192);
}

#[test]
fn test_watched_paths() {
    let temp_dir = tempdir().unwrap();
    let path = temp_dir.path().to_str().unwrap();
    let mut fanotify = Session::new();

    let result = watch(&mut fanotify, path, mask(MaskFlags::ACCESS) | mask(MaskFlags::MODIFY));
    assert!(result.is_ok(), "add_watch failed: {:?}", result.err());
    let result = watch(&mut fanotify, "/tmp", mask(MaskFlags::ACCESS) | mask(MaskFlags::MODIFY));
    assert!(result.is_ok(), "add_watch failed: {:?}", result.err());

    let watched_paths = fanotify.watched_paths();
    assert_eq!(watched_paths.len(), 2);
    assert!(watched_paths.iter().any(|(p, _)| p == path));
    assert!(watched_paths.iter().any(|(p, _)| p == "/tmp"));

    let m = fanotify.get_mask(path);
    assert_eq!(m, Some(mask(MaskFlags::ACCESS) | mask(MaskFlags::MODIFY)));
}

#[test]
fn add_then_remove_then_remove_again() {
    let mut s = Session::new();
    assert!(!s.is_watched("/srv"));
    unwatch(&mut s, "/srv").unwrap();
    assert!(!s.is_watched("/srv"));
    assert_eq!(s.watched_paths().len(), 0);
    watch(&mut s, "/srv", mask(MaskFlags::CREATE)).unwrap();
    watch(&mut s, "/srv", mask(MaskFlags::DELETE)).unwrap();
    assert_eq!(s.get_mask("/srv"), Some(mask(MaskFlags::DELETE)));
    assert_eq!(s.watched_paths().len(), 1);
    unwatch(&mut s, "/srv").unwrap();
    assert!(!s.is_watched("/srv"));
    assert_eq!(s.get_mask("/srv"), None);
}

#[test]
fn failed_mark_leaves_the_table() {
    let mut s = Session::new();
    let req = s.add_watch_request("/missing", mask(MaskFlags::OPEN)).unwrap();
    let r = s.complete_mark(&req, -1, 2);
    assert!(matches!(r, Err(FanotifyError::InvalidPath { .. })));
    assert!(!s.is_watched("/missing"));
    watch(&mut s, "/x", mask(MaskFlags::OPEN)).unwrap();
    let req = s.remove_watch_request("/x").unwrap();
    let r = s.complete_mark(&req, -1, 9);
    assert_eq!(r, Err(FanotifyError::InvalidFd));
    assert!(s.is_watched("/x"));
}

#[test]
fn mark_requests_carry_the_call_arguments() {
    let s = Session::new();
    let m = mask(MaskFlags::CREATE | MaskFlags::ONLYDIR | MaskFlags::DONT_FOLLOW);
    let req = s.add_watch_request("/data", m).unwrap();
    assert_eq!(req.op, MarkOp::Add);
    assert_eq!(req.flags, FAN_MARK_ADD | FAN_MARK_DONT_FOLLOW | FAN_MARK_ONLYDIR);
    assert_eq!(req.mask, MaskFlags::CREATE);
    assert_eq!(req.dirfd, AT_FDCWD);
    assert_eq!(req.path, "/data");
    assert_eq!(req.watch_mask, m);
    let req = s.remove_watch_request("/data").unwrap();
    assert_eq!(req.op, MarkOp::Remove);
    assert_eq!(req.flags, FAN_MARK_REMOVE);
    assert_eq!(req.mask, 0);
}

#[test]
fn remove_request_uses_the_registered_mask() {
    let mut s = Session::new();
    watch(&mut s, "/d", mask(MaskFlags::OPEN | MaskFlags::CLOSE_WRITE)).unwrap();
    let req = s.remove_watch_request("/d").unwrap();
    assert_eq!(req.mask, MaskFlags::OPEN | MaskFlags::CLOSE_WRITE);
}

#[test]
fn path_with_nul_is_invalid_path() {
    let s = Session::new();
    let r = s.add_watch_request("/a\0b", mask(MaskFlags::OPEN));
    assert_eq!(r.err(), Some(FanotifyError::InvalidPath { path: "/a\0b".to_string() }));
    assert!(s.remove_watch_request("\0").is_err());
}

#[test]
fn respond_builds_the_record() {
    let e = permission_event(17);
    let r = Session::response_for(&e, EventFlags::deny()).unwrap();
    assert_eq!(r, fanotify_response { fd: 17, response: 2 });
    assert_eq!(r.to_bytes(), vec![17, 0, 0, 0, 2, 0, 0, 0]);
    let r = Session::response_for(&e, EventFlags::allow()).unwrap();
    assert_eq!(r.response, 1);
}

#[test]
fn respond_rejects_other_events() {
    let e = permission_event(17);
    let mut not_perm = e.clone();
    not_perm.info.mask = mask(MaskFlags::OPEN);
    assert!(matches!(
        Session::response_for(&not_perm, EventFlags::allow()),
        Err(FanotifyError::InvalidEventData { .. })
    ));
    let no_fd = permission_event(-1);
    assert!(matches!(
        Session::response_for(&no_fd, EventFlags::allow()),
        Err(FanotifyError::InvalidEventData { .. })
    ));
}

#[test]
fn repeated_response_does_not_disturb_the_next() {
    let a = permission_event(5);
    let b = permission_event(6);
    let mut stream = Vec::new();
    for (e, d) in [(&a, EventFlags::deny()), (&a, EventFlags::deny()), (&b, EventFlags::allow())] {
        stream.extend(Session::response_for(e, d).unwrap().to_bytes());
    }
    assert_eq!(stream.len(), 24);
    assert_eq!(fanotify_response::from_bytes(&stream[16..]), Some(fanotify_response { fd: 6, response: 1 }));
    assert_eq!(fanotify_response::from_bytes(&stream[8..]), Some(fanotify_response { fd: 5, response: 2 }));
}

#[test]
fn errno_mapping() {
    assert_eq!(FanotifyError::from_errno("fanotify_init", libc::ENOSYS), FanotifyError::NotSupported);
    assert!(matches!(
        FanotifyError::from_errno("fanotify_init", libc::EPERM),
        FanotifyError::PermissionDenied { .. }
    ));
    assert!(matches!(
        FanotifyError::from_errno("fanotify_init", libc::EACCES),
        FanotifyError::PermissionDenied { .. }
    ));
    assert!(matches!(
        FanotifyError::from_errno("fanotify_init", libc::EINVAL),
        FanotifyError::InvalidFlags { .. }
    ));
    assert!(matches!(
        FanotifyError::from_errno("fanotify_mark", libc::ENOENT),
        FanotifyError::InvalidPath { .. }
    ));
    assert_eq!(FanotifyError::from_errno("read", libc::EAGAIN), FanotifyError::WouldBlock);
    assert_eq!(FanotifyError::from_errno("read", libc::EBADF), FanotifyError::InvalidFd);
    assert_eq!(FanotifyError::from_errno("read", libc::EOVERFLOW), FanotifyError::BufferOverflow);
    assert_eq!(
        FanotifyError::from_errno("write", libc::EIO),
        FanotifyError::SyscallFailed { syscall: "write", errno: libc::EIO }
    );
    assert_eq!(syscall_result("write", 8, 0), Ok(()));
    assert_eq!(syscall_result("write", -1, libc::EBADF), Err(FanotifyError::InvalidFd));
}

#[test]
fn error_constructors() {
    assert_eq!(
        FanotifyError::permission_denied("no"),
        FanotifyError::PermissionDenied { message: "no".to_string() }
    );
    assert_eq!(
        FanotifyError::invalid_flags("f"),
        FanotifyError::InvalidFlags { message: "f".to_string() }
    );
    assert_eq!(FanotifyError::invalid_path("/p"), FanotifyError::InvalidPath { path: "/p".to_string() });
    assert_eq!(
        FanotifyError::syscall_failed("read", 5),
        FanotifyError::SyscallFailed { syscall: "read", errno: 5 }
    );
    assert_eq!(
        FanotifyError::invalid_event_data("d"),
        FanotifyError::InvalidEventData { message: "d".to_string() }
    );
    assert_eq!(
        FanotifyError::invalid_mask("m"),
        FanotifyError::InvalidMask { message: "m".to_string() }
    );
}

#[test]
fn flag_defaults_and_queries() {
    assert_eq!(MaskFlags::default().bits(), MaskFlags::ALL_EVENTS);
    assert_eq!(MaskFlags::ALL_EVENTS, 0x3fff);
    assert_eq!(EventFlags::default().bits(), 1);
    assert_eq!(FanotifyFlags::default().bits(), FanotifyFlags::CLOEXEC);
    assert!((FanotifyFlags::default() | FanotifyFlags::from_bits_retain(FanotifyFlags::NONBLOCK))
        .contains(FanotifyFlags::from_bits_retain(FanotifyFlags::NONBLOCK)));
    assert!(mask(MaskFlags::OPEN).has_access_events());
    assert!(!mask(MaskFlags::MODIFY).has_access_events());
    assert!(mask(MaskFlags::MOVED_TO).has_modify_events());
    assert!(!mask(MaskFlags::OPEN).has_modify_events());
    assert!(mask(MaskFlags::ACCESS_PERM).has_permission_events());
    assert!(!mask(MaskFlags::ACCESS).has_permission_events());
    assert!(mask(MaskFlags::ONLYDIR).is_directory_only());
    assert!(!mask(0).is_directory_only());
    assert!(mask(0).follows_symlinks());
    assert!(!mask(MaskFlags::DONT_FOLLOW).follows_symlinks());
    let all = MaskFlags::default();
    assert!(all.contains(mask(MaskFlags::CREATE | MaskFlags::OPEN_PERM)));
    assert!(!all.contains(mask(MaskFlags::ISDIR)));
    assert!(all.intersects(mask(MaskFlags::ISDIR | MaskFlags::CREATE)));
    assert!(MaskFlags::empty().is_empty());
}

#[test]
fn constants_match_the_system() {
    assert_eq!(fanotify_rs::linux::EPERM, libc::EPERM);
    assert_eq!(fanotify_rs::linux::ENOENT, libc::ENOENT);
    assert_eq!(fanotify_rs::linux::EBADF, libc::EBADF);
    assert_eq!(fanotify_rs::linux::EAGAIN, libc::EAGAIN);
    assert_eq!(fanotify_rs::linux::EACCES, libc::EACCES);
    assert_eq!(fanotify_rs::linux::EINVAL, libc::EINVAL);
    assert_eq!(fanotify_rs::linux::ENOSYS, libc::ENOSYS);
    assert_eq!(fanotify_rs::linux::EOVERFLOW, libc::EOVERFLOW);
    assert_eq!(AT_FDCWD, libc::AT_FDCWD);
    assert_eq!(fanotify_rs::linux::FAN_CLOEXEC, libc::FAN_CLOEXEC);
    assert_eq!(fanotify_rs::linux::FAN_NONBLOCK, libc::FAN_NONBLOCK);
    assert_eq!(fanotify_rs::linux::FAN_REPORT_NAME, libc::FAN_REPORT_NAME);
    assert_eq!(FAN_MARK_ONLYDIR, libc::FAN_MARK_ONLYDIR);
    assert_eq!(FAN_MARK_DONT_FOLLOW, libc::FAN_MARK_DONT_FOLLOW);
    assert_eq!(MaskFlags::CREATE, libc::FAN_CREATE);
    assert_eq!(MaskFlags::Q_OVERFLOW, libc::FAN_Q_OVERFLOW);
    assert_eq!(MaskFlags::ISDIR, libc::FAN_ONDIR);
    assert_eq!(EventFlags::DENY, libc::FAN_DENY);
}

#[test]
fn session_mask_is_union_of_flags() {
    let m = mask(MaskFlags::ACCESS) | mask(MaskFlags::MODIFY);
    assert_eq!(m.bits(), 3);
}
