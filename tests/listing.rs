use ftr::listing::{from_ascii_wire, listing, to_ascii_wire, Entry};
use ftr::log_message;

#[test]
fn ascii_mode_line_breaks() {
    assert_eq!(to_ascii_wire(&b"a\nb\n".to_vec()), b"a\r\nb\r\n".to_vec());
    assert_eq!(to_ascii_wire(&b"".to_vec()), Vec::<u8>::new());
    assert_eq!(from_ascii_wire(&b"a\r\nb\r\n".to_vec()), b"a\nb\n".to_vec());
    assert_eq!(from_ascii_wire(&b"a\rb\r\r\n".to_vec()), b"a\rb\r\n".to_vec());
    let data = b"one\ntwo\n\nthree".to_vec();
    assert_eq!(from_ascii_wire(&to_ascii_wire(&data)), data);
}

#[test]
fn directory_listings() {
    let entries = vec![
        Entry { name: "docs".to_string(), is_dir: true, size: 4096 },
        Entry { name: "a.txt".to_string(), is_dir: false, size: 12345678901 },
    ];
    assert_eq!(listing(&entries, true, false), "docs\r\na.txt\r\n");
    assert_eq!(listing(&entries, false, false), "d 4096 docs\r\n- 12345678901 a.txt\r\n");
    assert_eq!(
        listing(&entries, false, true),
        "type=dir;size=4096; docs\r\ntype=file;size=12345678901; a.txt\r\n"
    );
    assert_eq!(listing(&Vec::new(), false, false), "");
}

#[test]
fn log_message_is_stamped() {
    let line = log_message("server started");
    assert!(line.starts_with('['));
    assert!(line.ends_with("] server started\n"));
    let stamp = &line[1..line.len() - "] server started\n".len()];
    assert_eq!(stamp.len(), 19);
    assert_eq!(&stamp[4..5], "/");
}
