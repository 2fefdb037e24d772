use squire::connection::{open_outcome, open_v2_flags};
use squire::database::{has_no_nul, Endpoint as Place};
use squire::{ConnectionBuilder, Database, Endpoint, Local, Memory, Uri, Vfs};

const READONLY: i32 = 0x01;
const READWRITE: i32 = 0x02;
const CREATE: i32 = 0x04;
const URI: i32 = 0x40;
const MEMORY: i32 = 0x80;
const NOMUTEX: i32 = 0x8000;
const FULLMUTEX: i32 = 0x10000;
const NOFOLLOW: i32 = 0x0100_0000;

#[test]
fn databases() {
    let memory = Database::memory();
    assert_eq!(memory.endpoint(), &Place::Memory(None));
    assert_eq!(memory.endpoint().location(), "");
    assert_eq!(memory.endpoint().flags(), MEMORY);
    let named = Database::memory().named("shared");
    assert_eq!(named.endpoint().location(), "shared");
    let renamed = Database::memory().named("first").named("second");
    assert_eq!(renamed.endpoint(), &Place::Memory(Some("second".to_owned())));
    let path = Database::path("./data.sqlite3");
    assert_eq!(path.endpoint().location(), "./data.sqlite3");
    assert_eq!(path.endpoint().flags(), 0);
    let uri = Database::uri("file:data.db?mode=ro");
    assert_eq!(uri.endpoint().flags(), URI);
    assert_eq!(uri.clone().into_endpoint(), Place::Uri("file:data.db?mode=ro".to_owned()));
}

#[test]
fn locations_hold_no_nul() {
    assert!(has_no_nul("./data.sqlite3"));
    assert!(has_no_nul(""));
    assert!(!has_no_nul("bad\0path"));
}

#[test]
fn builder_defaults() {
    let builder = ConnectionBuilder::new(Database::path("./data.sqlite3"));
    assert_eq!(builder.open_flags(), READWRITE | CREATE);
    assert_eq!(builder.location(), "./data.sqlite3");
    assert_eq!(builder.vfs_name(), None);
    let builder = ConnectionBuilder::new(Database::memory());
    assert_eq!(builder.open_flags(), READWRITE | CREATE | MEMORY);
}

#[test]
fn builder_open_modes() {
    let builder = ConnectionBuilder::new(Database::path("a.db"));
    assert_eq!(builder.read_only().open_flags(), READONLY);
    let builder = ConnectionBuilder::new(Database::path("a.db"));
    assert_eq!(builder.read_only().read_write(false).open_flags(), READWRITE);
    let builder = ConnectionBuilder::new(Database::path("a.db"));
    assert_eq!(builder.read_write(true).read_only().open_flags(), READONLY);
}

#[test]
fn builder_threading_and_links() {
    let builder = ConnectionBuilder::new(Database::path("a.db")).mutex(true);
    assert_eq!(builder.open_flags(), READWRITE | CREATE | FULLMUTEX);
    let builder = builder.mutex(false);
    assert_eq!(builder.open_flags(), READWRITE | CREATE | NOMUTEX);
    let builder = builder.follow_symbolic_links(false);
    assert_eq!(builder.open_flags(), READWRITE | CREATE | NOMUTEX | NOFOLLOW);
    let builder = builder.follow_symbolic_links(true);
    assert_eq!(builder.open_flags(), READWRITE | CREATE | NOMUTEX);
    let builder = builder.uri_filenames(true);
    assert_eq!(builder.open_flags(), READWRITE | CREATE | NOMUTEX | URI);
    let builder = builder.uri_filenames(false).read_only();
    assert_eq!(builder.open_flags(), READONLY | NOMUTEX);
}

#[test]
fn builder_vfs() {
    let builder = ConnectionBuilder::new(Database::path("a.db")).vfs("unix-dotfile");
    assert_eq!(builder.vfs_name(), Some("unix-dotfile"));
    assert_eq!(builder.open_flags(), READWRITE | CREATE);
}

#[test]
fn endpoints() {
    assert_eq!(Memory.location(), "");
    assert_eq!(Memory.flags(), MEMORY);
    assert_eq!(Memory.vfs(), None);
    let local = Local::new("./data.sqlite3");
    assert_eq!(local.location(), "./data.sqlite3");
    assert_eq!(local.flags(), 0);
    let uri = Uri::new("file:data.db");
    assert_eq!(uri.location(), "file:data.db");
    assert_eq!(uri.flags(), URI);
    let vfs = Vfs::new(Uri::new("file:data.db"), "memdb");
    assert_eq!(vfs.location(), "file:data.db");
    assert_eq!(vfs.flags(), 0);
    assert_eq!(vfs.vfs(), Some("memdb"));
}

#[test]
fn opening_connections() {
    assert_eq!(open_v2_flags(READWRITE | CREATE), READWRITE | CREATE | 0x0200_0000);
    assert!(open_outcome(0, true, None).is_ok());
    let error = open_outcome(14, true, Some("unable to open database file".to_owned()))
        .unwrap_err();
    assert_eq!(error.code().raw(), 14);
    assert_eq!(error.message(), Some("unable to open database file"));
    let error = open_outcome(7, false, Some("ignored".to_owned())).unwrap_err();
    assert_eq!(error.code().raw(), 7);
    assert_eq!(error.message(), None);
    assert_eq!(open_outcome(0, false, None).unwrap_err().code().raw(), 1);
}
