use host_ops::add::{add_delay_ms, delay_from_draw};
use host_ops::dispatch::{exec_mode, ExecMode, OpCode, OpRegistry, Reply};
use host_ops::error::{ErrorKind, OpError, PermissionKind};
use host_ops::files::{
    finish_open, lookup_file, op_close, open_permitted, seek_origin, seek_target, OpenOptions,
    SeekOrigin,
};
use host_ops::resource_table::{Resource, ResourceTable};

fn read_only() -> OpenOptions {
    OpenOptions { read: true, ..OpenOptions::default() }
}

fn registry() -> OpRegistry {
    let mut r = OpRegistry::new();
    host_ops::add::init(&mut r);
    host_ops::files::init(&mut r);
    r
}

#[test]
fn end_to_end_open_seek_close() {
    let reg = registry();
    let mut table: ResourceTable<Resource<String>> = ResourceTable::new();
    assert_eq!(reg.lookup("open").unwrap(), OpCode::Open);
    let cap = read_only();
    assert!(open_permitted(&cap, true, false).is_ok());
    let reply = finish_open(&mut table, Ok("t.txt".to_string())).unwrap();
    let rid = match reply {
        Reply::Rid(n) => n,
        Reply::Empty => panic!("open must reply with a handle"),
    };
    assert_eq!(reg.lookup("seek").unwrap(), OpCode::Seek);
    let (file, origin) = seek_target(&table, rid as i32, 5, 0).unwrap();
    assert_eq!(file, "t.txt");
    assert_eq!(origin, SeekOrigin::Start(5));
    assert_eq!(reg.lookup("close").unwrap(), OpCode::Close);
    assert_eq!(op_close(&mut table, rid as i32).unwrap(), Reply::Empty);
    assert!(matches!(seek_target(&table, rid as i32, 5, 0), Err(OpError::BadResource)));
}

#[test]
fn read_denied_creates_no_entry() {
    let mut table: ResourceTable<Resource<String>> = ResourceTable::new();
    let res = open_permitted(&read_only(), false, true);
    assert!(matches!(res, Err(OpError::PermissionDenied(PermissionKind::Read))));
    assert_eq!(table.len(), 0);
    for rid in 0..4 {
        assert!(matches!(op_close(&mut table, rid), Err(OpError::BadResource)));
    }
}

#[test]
fn write_and_append_need_write_permission() {
    let write = OpenOptions { write: true, ..OpenOptions::default() };
    let append = OpenOptions { append: true, ..OpenOptions::default() };
    assert!(matches!(
        open_permitted(&write, true, false),
        Err(OpError::PermissionDenied(PermissionKind::Write))
    ));
    assert!(matches!(
        open_permitted(&append, true, false),
        Err(OpError::PermissionDenied(PermissionKind::Write))
    ));
    assert!(open_permitted(&write, false, true).is_ok());
}

#[test]
fn read_is_checked_before_write() {
    let both = OpenOptions { read: true, write: true, ..OpenOptions::default() };
    assert!(matches!(
        open_permitted(&both, false, false),
        Err(OpError::PermissionDenied(PermissionKind::Read))
    ));
}

#[test]
fn create_alone_needs_no_permission() {
    let create = OpenOptions { create: true, truncate: true, create_new: true, ..OpenOptions::default() };
    assert!(!create.read_check());
    assert!(!create.write_check());
    assert!(open_permitted(&create, false, false).is_ok());
}

#[test]
fn default_capability_sets_no_flag() {
    let d = OpenOptions::default();
    assert!(!d.read && !d.write && !d.create && !d.truncate && !d.append && !d.create_new);
}

#[test]
fn handle_lifecycle() {
    let mut table: ResourceTable<Resource<u8>> = ResourceTable::new();
    let rid = match finish_open(&mut table, Ok(7)).unwrap() {
        Reply::Rid(n) => n,
        Reply::Empty => panic!("open must reply with a handle"),
    };
    assert_eq!(rid, 0);
    assert_eq!(*lookup_file(&table, rid).unwrap(), 7);
    assert_eq!(op_close(&mut table, rid as i32).unwrap(), Reply::Empty);
    assert!(matches!(lookup_file(&table, rid), Err(OpError::BadResource)));
    assert!(matches!(op_close(&mut table, rid as i32), Err(OpError::BadResource)));
}

#[test]
fn closed_handle_is_not_reissued() {
    let mut table: ResourceTable<u8> = ResourceTable::new();
    let first = table.add(1);
    assert!(table.close(first).is_ok());
    let second = table.add(2);
    assert_ne!(first, second);
    assert!(!table.contains(first));
    assert_eq!(*table.get(second).unwrap(), 2);
}

#[test]
fn open_seek_close_round_trip_empties_table() {
    let mut table: ResourceTable<Resource<u8>> = ResourceTable::new();
    let rid = match finish_open(&mut table, Ok(3)).unwrap() {
        Reply::Rid(n) => n,
        Reply::Empty => panic!("open must reply with a handle"),
    };
    let (_, origin) = seek_target(&table, rid as i32, 0, 0).unwrap();
    assert_eq!(origin, SeekOrigin::Start(0));
    op_close(&mut table, rid as i32).unwrap();
    assert!(!table.contains(rid));
    assert_eq!(table.len(), 0);
}

#[test]
fn many_opens_get_distinct_handles() {
    let mut table: ResourceTable<Resource<u32>> = ResourceTable::new();
    let mut rids = Vec::new();
    for i in 0..10u32 {
        match finish_open(&mut table, Ok(i)).unwrap() {
            Reply::Rid(n) => rids.push(n),
            Reply::Empty => panic!("open must reply with a handle"),
        }
    }
    for i in 0..rids.len() {
        for j in (i + 1)..rids.len() {
            assert_ne!(rids[i], rids[j]);
        }
    }
    assert_eq!(table.len(), 10);
}

#[test]
fn failed_open_leaves_table_unchanged() {
    let mut table: ResourceTable<Resource<u8>> = ResourceTable::new();
    let res = finish_open(&mut table, Err("No such file or directory".to_string()));
    match res {
        Err(OpError::IoFailure(msg)) => assert_eq!(msg, "No such file or directory"),
        _ => panic!("expected an I/O failure"),
    }
    assert_eq!(table.len(), 0);
    let rid = match finish_open(&mut table, Ok(1)).unwrap() {
        Reply::Rid(n) => n,
        Reply::Empty => panic!("open must reply with a handle"),
    };
    assert_eq!(rid, 0);
}

#[test]
fn invalid_whence_is_rejected_before_lookup() {
    let mut table: ResourceTable<Resource<u8>> = ResourceTable::new();
    let rid = table.add(Resource::FsFile(9));
    assert!(matches!(seek_target(&table, rid as i32, 0, 3), Err(OpError::InvalidSeekMode(3))));
    assert!(matches!(seek_target(&table, 42, 0, 3), Err(OpError::InvalidSeekMode(3))));
    assert!(matches!(
        seek_target(&table, rid as i32, 0, -1),
        Err(OpError::InvalidSeekMode(4294967295))
    ));
    assert!(table.contains(rid));
    assert_eq!(seek_target(&table, rid as i32, 0, 1).unwrap().1, SeekOrigin::Current(0));
}

#[test]
fn seek_origins() {
    assert_eq!(seek_origin(5, 0).unwrap(), SeekOrigin::Start(5));
    assert_eq!(seek_origin(-3, 1).unwrap(), SeekOrigin::Current(-3));
    assert_eq!(seek_origin(-7, 2).unwrap(), SeekOrigin::End(-7));
    assert_eq!(seek_origin(-1, 0).unwrap(), SeekOrigin::Start(u64::MAX));
    assert!(matches!(seek_origin(0, 9), Err(OpError::InvalidSeekMode(9))));
}

#[test]
fn seek_on_unknown_handle_is_bad_resource() {
    let table: ResourceTable<Resource<u8>> = ResourceTable::new();
    assert!(matches!(seek_target(&table, 0, 0, 0), Err(OpError::BadResource)));
}

#[test]
fn add_delay_window() {
    assert_eq!(delay_from_draw(0), 1000);
    assert_eq!(delay_from_draw(4999), 5999);
    assert_eq!(delay_from_draw(5000), 1000);
    assert_eq!(delay_from_draw(12345), 3345);
    assert_eq!(delay_from_draw(u64::MAX), 2615);
    assert_eq!(add_delay_ms(None), 0);
    for _ in 0..100 {
        let d = add_delay_ms(Some(1));
        assert!((1000..6000).contains(&d));
    }
}

#[test]
fn correlation_id_selects_async() {
    assert_eq!(exec_mode(None), ExecMode::Sync);
    assert_eq!(exec_mode(Some(17)), ExecMode::Async(17));
}

#[test]
fn unknown_operation_is_reported() {
    let reg = registry();
    assert_eq!(reg.lookup("add").unwrap(), OpCode::Add);
    match reg.lookup("read") {
        Err(OpError::UnknownOp(name)) => assert_eq!(name, "read"),
        _ => panic!("expected an unknown operation"),
    }
    assert!(matches!(OpRegistry::new().lookup("open"), Err(OpError::UnknownOp(_))));
}

#[test]
fn later_registration_overrides() {
    let mut reg = registry();
    reg.register("open", OpCode::Seek);
    assert_eq!(reg.lookup("open").unwrap(), OpCode::Seek);
    assert_eq!(reg.lookup("close").unwrap(), OpCode::Close);
}

#[test]
fn error_kinds() {
    assert_eq!(OpError::InvalidArgs("x".to_string()).kind(), ErrorKind::InvalidArgs);
    assert_eq!(OpError::InvalidSeekMode(4).kind(), ErrorKind::InvalidSeekMode);
    assert_eq!(OpError::PermissionDenied(PermissionKind::Read).kind(), ErrorKind::PermissionDenied);
    assert_eq!(OpError::BadResource.kind(), ErrorKind::BadResource);
    assert_eq!(OpError::IoFailure("x".to_string()).kind(), ErrorKind::IoFailure);
    assert_eq!(OpError::UnknownOp("x".to_string()).kind(), ErrorKind::UnknownOp);
}

#[test]
fn fresh_table_is_not_exhausted() {
    let table: ResourceTable<u8> = ResourceTable::new();
    assert!(!table.is_exhausted());
    assert_eq!(table.len(), 0);
}
