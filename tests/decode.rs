use fanotify_rs::decode_events;
use fanotify_rs::info::InfoRecord;
use fanotify_rs::linux::{fanotify_event_metadata, fanotify_response};
use fanotify_rs::{Event, EventInfo, FanotifyError, MaskFlags};

fn record(event_len: u32, metadata_len: u16, mask: u64, fd: i32, pid: i32) -> Vec<u8> {
    let mut b = Vec::new();
    b.extend_from_slice(&event_len.to_le_bytes());
    b.push(3);
    b.push(0);
    b.extend_from_slice(&metadata_len.to_le_bytes());
    b.extend_from_slice(&mask.to_le_bytes());
    b.extend_from_slice(&fd.to_le_bytes());
    b.extend_from_slice(&pid.to_le_bytes());
    b
}

fn event(mask: u64) -> Event {
    Event::from_raw_data(&record(24, 24, mask, 5, 42)).unwrap()
}

#[test]
fn decode_single_record() {
    let data = record(24, 24, MaskFlags::CREATE | MaskFlags::ISDIR, 7, 1234);
    let e = Event::from_raw_data(&data).unwrap();
    assert_eq!(e.info.mask.bits(), MaskFlags::CREATE | MaskFlags::ISDIR);
    assert_eq!(e.info.fd, Some(7));
    assert_eq!(e.info.pid, 1234);
    assert!(e.info.is_directory);
    assert!(e.info.path.is_none());
    assert_eq!(e.raw_data, data);
}

#[test]
fn decode_negative_fd_has_no_descriptor() {
    let e = Event::from_raw_data(&record(24, 24, MaskFlags::Q_OVERFLOW, -1, 0)).unwrap();
    assert_eq!(e.info.fd, None);
    assert!(e.is_overflow());
    assert_eq!(e.event_type(), "OVERFLOW");
    assert_eq!(e.description(), "overflow event");
}

#[test]
fn header_round_trip() {
    let data = record(24, 24, MaskFlags::MODIFY, -3, -9);
    let h = fanotify_event_metadata::from_bytes(&data).unwrap();
    assert_eq!(h.event_len, 24);
    assert_eq!(h.vers, 3);
    assert_eq!(h.metadata_len, 24);
    assert_eq!(h.mask, MaskFlags::MODIFY);
    assert_eq!(h.fd, -3);
    assert_eq!(h.pid, -9);
    assert_eq!(h.to_bytes(), data);
    assert!(fanotify_event_metadata::from_bytes(&data[..23]).is_none());
}

#[test]
fn two_records_in_kernel_order() {
    let mut data = record(24, 24, MaskFlags::OPEN, 3, 100);
    data.extend(record(24, 24, MaskFlags::CLOSE_WRITE, 4, 200));
    let evs = decode_events(&data).unwrap();
    assert_eq!(evs.len(), 2);
    assert_eq!(evs[0].info.mask.bits(), MaskFlags::OPEN);
    assert_eq!(evs[0].info.pid, 100);
    assert_eq!(evs[0].info.fd, Some(3));
    assert_eq!(evs[1].info.mask.bits(), MaskFlags::CLOSE_WRITE);
    assert_eq!(evs[1].info.pid, 200);
    assert_eq!(evs[1].info.fd, Some(4));
    assert_eq!(evs[0].raw_data, data[..24].to_vec());
    assert_eq!(evs[1].raw_data, data[24..].to_vec());
}

#[test]
fn empty_buffer_has_no_events() {
    assert_eq!(decode_events(&[]).unwrap().len(), 0);
}

#[test]
fn truncated_header_is_invalid_event_data() {
    let data = record(24, 24, MaskFlags::OPEN, 3, 100);
    for cut in 1..24 {
        let r = decode_events(&data[..cut]);
        assert!(matches!(r, Err(FanotifyError::InvalidEventData { .. })));
        let r = Event::from_raw_data(&data[..cut]);
        assert!(matches!(r, Err(FanotifyError::InvalidEventData { .. })));
    }
    let mut two = data.clone();
    two.extend_from_slice(&data[..10]);
    assert!(matches!(decode_events(&two), Err(FanotifyError::InvalidEventData { .. })));
}

#[test]
fn zero_or_overrunning_length_is_invalid_event_data() {
    let zero = record(0, 24, MaskFlags::OPEN, 3, 1);
    assert!(matches!(decode_events(&zero), Err(FanotifyError::InvalidEventData { .. })));
    let over = record(48, 24, MaskFlags::OPEN, 3, 1);
    assert!(matches!(decode_events(&over), Err(FanotifyError::InvalidEventData { .. })));
    let bad_meta = record(24, 28, MaskFlags::OPEN, 3, 1);
    assert!(matches!(decode_events(&bad_meta), Err(FanotifyError::InvalidEventData { .. })));
}

#[test]
fn unknown_mask_bits_are_invalid_mask() {
    let data = record(24, 24, 0x0800_0000, 3, 1);
    assert!(matches!(decode_events(&data), Err(FanotifyError::InvalidMask { .. })));
    assert!(matches!(Event::from_raw_data(&data), Err(FanotifyError::InvalidMask { .. })));
    assert!(MaskFlags::from_bits(0x0800_0000).is_none());
    assert_eq!(MaskFlags::from_bits(MaskFlags::ALL_EVENTS).unwrap().bits(), MaskFlags::ALL_EVENTS);
}

#[test]
fn delete_of_directory_is_both() {
    let e = event(MaskFlags::DELETE | MaskFlags::ISDIR);
    assert!(e.is_delete());
    assert!(e.info.is_directory);
    assert!(!e.is_create());
    assert_eq!(e.event_type(), "DELETE");
}

#[test]
fn classification_is_per_bit() {
    let e = event(MaskFlags::CLOSE_NOWRITE);
    assert!(e.is_close());
    assert!(!e.is_open());
    let e = event(MaskFlags::MOVED_TO);
    assert!(e.is_move());
    let e = event(MaskFlags::DELETE_SELF);
    assert!(e.is_delete());
    let e = event(MaskFlags::OPEN_PERM);
    assert!(e.is_permission());
    assert!(!e.is_access());
    let e = event(MaskFlags::ACCESS | MaskFlags::MODIFY);
    assert!(e.is_access());
    assert!(e.is_modify());
}

#[test]
fn description_names_every_category() {
    assert_eq!(event(MaskFlags::ACCESS | MaskFlags::MODIFY).description(), "access, modify event");
    assert_eq!(event(MaskFlags::CREATE).description(), "create event");
    assert_eq!(event(0).description(), "unknown event");
    assert_eq!(
        event(MaskFlags::OPEN | MaskFlags::OPEN_PERM).description(),
        "open, permission event"
    );
}

#[test]
fn event_type_takes_the_first_category() {
    assert_eq!(event(MaskFlags::ACCESS | MaskFlags::MODIFY).event_type(), "ACCESS");
    assert_eq!(event(MaskFlags::MODIFY).event_type(), "MODIFY");
    assert_eq!(event(MaskFlags::CREATE).event_type(), "CREATE");
    assert_eq!(event(MaskFlags::OPEN_PERM).event_type(), "PERMISSION");
    assert_eq!(event(0).event_type(), "UNKNOWN");
}

#[test]
fn created_file_event_gives_its_name() {
    let data = record(24, 24, MaskFlags::CREATE, 9, 77);
    let evs = decode_events(&data).unwrap();
    let e = &evs[0];
    assert!(e.is_create());
    let info = e.info.clone().with_path("/tmp/watched/test.txt".to_string());
    assert_eq!(info.path_str(), Some("/tmp/watched/test.txt"));
    assert_eq!(info.filename(), Some("test.txt"));
}

#[test]
fn filename_follows_path_rules() {
    let info = |p: &str| EventInfo::new(MaskFlags::empty(), 1).with_path(p.to_string());
    assert_eq!(info("/a/b.txt").filename(), Some("b.txt"));
    assert_eq!(info("/a/b/").filename(), Some("b"));
    assert_eq!(info("a/b/.").filename(), Some("b"));
    assert_eq!(info("name").filename(), Some("name"));
    assert_eq!(info("/").filename(), None);
    assert_eq!(info("/a/..").filename(), None);
    assert_eq!(info("").filename(), None);
    assert_eq!(EventInfo::new(MaskFlags::empty(), 1).filename(), None);
    assert_eq!(EventInfo::new(MaskFlags::empty(), 1).path_str(), None);
}

#[test]
fn event_info_builders() {
    let i = EventInfo::new(MaskFlags::from_bits_retain(MaskFlags::ISDIR | MaskFlags::OPEN), 12);
    assert!(i.is_directory);
    assert_eq!(i.pid, 12);
    assert_eq!(i.fd, None);
    let i = i.with_fd(8);
    assert_eq!(i.fd, Some(8));
    assert!(!EventInfo::new(MaskFlags::from_bits_retain(MaskFlags::OPEN), 1).is_directory);
}

fn with_infos(infos: &[Vec<u8>]) -> Event {
    let total: usize = 24 + infos.iter().map(|i| i.len()).sum::<usize>();
    let mut data = record(total as u32, 24, MaskFlags::CREATE, -1, 5);
    for i in infos {
        data.extend_from_slice(i);
    }
    Event::from_raw_data(&data).unwrap()
}

fn info(t: u8, payload: &[u8]) -> Vec<u8> {
    let mut b = vec![t, 0];
    b.extend_from_slice(&((payload.len() + 4) as u16).to_le_bytes());
    b.extend_from_slice(payload);
    b
}

#[test]
fn extension_records_are_read_in_order() {
    let mut fid = Vec::new();
    fid.extend_from_slice(&7i32.to_le_bytes());
    fid.extend_from_slice(&(-8i32).to_le_bytes());
    fid.extend_from_slice(&[1, 2, 3]);
    let mut err = Vec::new();
    err.extend_from_slice(&(-5i32).to_le_bytes());
    err.extend_from_slice(&9u64.to_le_bytes());
    let e = with_infos(&[
        info(1, &fid),
        info(4, &33i32.to_le_bytes()),
        info(5, &err),
        info(2, &[9, 9, b'x', 0]),
        info(99, &[]),
    ]);
    let rs = e.info_records().unwrap();
    assert_eq!(rs.len(), 5);
    match &rs[0] {
        InfoRecord::Fid(f) => {
            assert_eq!(f.hdr.info_type, 1);
            assert_eq!(f.hdr.len, 15);
            assert_eq!(f.fsid, [7, -8]);
            assert_eq!(f.file_handle, vec![1, 2, 3]);
        }
        other => panic!("{:?}", other),
    }
    match &rs[1] {
        InfoRecord::Pidfd(p) => assert_eq!(p.pidfd, 33),
        other => panic!("{:?}", other),
    }
    match &rs[2] {
        InfoRecord::Error(x) => {
            assert_eq!(x.error, -5);
            assert_eq!(x.error_count, 9);
        }
        other => panic!("{:?}", other),
    }
    match &rs[3] {
        InfoRecord::Name(n) => assert_eq!(n.dir_fh, vec![9, 9, b'x', 0]),
        other => panic!("{:?}", other),
    }
    match &rs[4] {
        InfoRecord::Other(h) => assert_eq!(h.info_type, 99),
        other => panic!("{:?}", other),
    }
    assert_eq!(event(MaskFlags::OPEN).info_records().unwrap().len(), 0);
}

#[test]
fn malformed_extension_records_are_invalid_event_data() {
    let short_pidfd = info(4, &[1, 2]);
    let e = with_infos(&[short_pidfd]);
    assert!(matches!(e.info_records(), Err(FanotifyError::InvalidEventData { .. })));
    let mut bad = info(3, &[0; 8]);
    bad[2] = 200;
    let e = with_infos(&[bad]);
    assert!(matches!(e.info_records(), Err(FanotifyError::InvalidEventData { .. })));
    let e = with_infos(&[vec![1, 0]]);
    assert!(matches!(e.info_records(), Err(FanotifyError::InvalidEventData { .. })));
}

#[test]
fn response_round_trip() {
    let r = fanotify_response { fd: -2, response: 2 };
    let b = r.to_bytes();
    assert_eq!(b, vec![0xfe, 0xff, 0xff, 0xff, 2, 0, 0, 0]);
    assert_eq!(fanotify_response::from_bytes(&b), Some(r));
    assert_eq!(fanotify_response::from_bytes(&b[..7]), None);
}
