use moosync_host::manifest::expand_permission_paths;
use moosync_host::sockets::{finish_read, read_cap, SocketTable};

#[test]
fn read_cap_defaults_and_limits() {
    assert_eq!(read_cap(0), 1024);
    assert_eq!(read_cap(1025), 1024);
    assert_eq!(read_cap(u64::MAX), 1024);
    assert_eq!(read_cap(1024), 1024);
    assert_eq!(read_cap(10), 10);
}

#[test]
fn full_size_read_is_discarded() {
    assert!(finish_read(vec![7u8; 1024], 1024).is_empty());
    assert_eq!(finish_read(vec![7u8; 1024], 1023).len(), 1023);
    assert_eq!(finish_read(vec![1, 2, 3, 4], 2), vec![1, 2]);
    assert!(finish_read(vec![1, 2, 3], 0).is_empty());
}

#[test]
fn open_without_grants_fails() {
    let mut t: SocketTable<u32> = SocketTable::new(None);
    assert!(t.open_candidates("/home/u/sock/x.sock").is_empty());
    assert_eq!(t.open_clientfd("/home/u/sock/x.sock", Some(5)), -1);
    assert_eq!(t.len(), 0);
}

#[test]
fn open_outside_grants_fails() {
    let grants = vec![("/home/u/sock".to_string(), "/var/run/app".to_string())];
    let mut t: SocketTable<u32> = SocketTable::new(Some(grants));
    assert!(t.open_candidates("/tmp/other.sock").is_empty());
    assert_eq!(t.open_clientfd("/tmp/other.sock", Some(1)), -1);
    assert_eq!(t.len(), 0);
}

#[test]
fn open_maps_into_granted_root_and_counts_handles() {
    let declared = vec![("{HOME}/sock".to_string(), "/var/run/app".to_string())];
    let vars = vec![("HOME".to_string(), "/home/u".to_string())];
    let grants = expand_permission_paths(&declared, &vars);
    assert_eq!(grants[0].0, "/home/u/sock");
    let mut t: SocketTable<u32> = SocketTable::new(Some(grants));
    let tried = t.open_candidates("/home/u/sock/x.sock");
    assert_eq!(tried, vec!["/var/run/app//x.sock".to_string()]);
    assert_eq!(t.open_clientfd("/home/u/sock/x.sock", Some(10)), 0);
    assert_eq!(t.open_clientfd("/home/u/sock/y.sock", Some(11)), 1);
    assert_eq!(t.len(), 2);
    assert_eq!(t.handle_index(1), Some(1));
    assert_eq!(*t.socket_mut(1), 11);
}

#[test]
fn failed_connection_gives_no_handle() {
    let grants = vec![("/a".to_string(), "/b".to_string())];
    let mut t: SocketTable<u32> = SocketTable::new(Some(grants));
    assert_eq!(t.open_clientfd("/a/s", None), -1);
    assert_eq!(t.len(), 0);
}

#[test]
fn grants_are_tried_in_declaration_order() {
    let grants = vec![
        ("/a".to_string(), "/first".to_string()),
        ("/x".to_string(), "/never".to_string()),
        ("/a/b".to_string(), "/second".to_string()),
    ];
    let t: SocketTable<u32> = SocketTable::new(Some(grants));
    assert_eq!(
        t.open_candidates("/a/b/c"),
        vec!["/first//b/c".to_string(), "/second//c".to_string()]
    );
}

#[test]
fn table_refuses_past_its_limit() {
    let grants = vec![("/a".to_string(), "/b".to_string())];
    let mut t: SocketTable<u32> = SocketTable::new(Some(grants));
    for i in 0..256 {
        assert_eq!(t.open_clientfd("/a/s", Some(i)), i as i64);
    }
    assert!(t.open_candidates("/a/s").is_empty());
    assert_eq!(t.open_clientfd("/a/s", Some(999)), -1);
    assert_eq!(t.len(), 256);
}

#[test]
fn handle_index_rejects_invalid_handles() {
    let grants = vec![("/a".to_string(), "/b".to_string())];
    let mut t: SocketTable<u32> = SocketTable::new(Some(grants));
    t.open_clientfd("/a/s", Some(1));
    assert_eq!(t.handle_index(0), Some(0));
    assert_eq!(t.handle_index(1), None);
    assert_eq!(t.handle_index(-1), None);
}
