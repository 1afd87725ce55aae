use memfile::close;
use memfile::close_fallible;
use memfile::close_unreliable;
use memfile::open;
use memfile::open_fallible;
use memfile::open_unreliable;
use memfile::File;
use memfile::FileError;
use memfile::FileState;

#[test]
fn new_starts_closed_and_empty() {
    let f = File::new("empty.txt");
    assert_eq!(f.name, "empty.txt");
    assert!(f.data.is_empty());
    assert_eq!(f.state, FileState::Closed);
}

#[test]
fn new_with_data_copies_payload() {
    let payload: Vec<u8> = vec![1, 2, 3];
    let f = File::new_with_data("p.txt", &payload);
    assert_eq!(f.name, "p.txt");
    assert_eq!(f.data, payload);
    assert_eq!(f.state, FileState::Closed);
}

#[test]
fn open_read_yields_payload_and_length() {
    let payload: Vec<u8> = vec![10, 20, 30, 40];
    let f = File::new_with_data("a.txt", &payload);
    let f = open(f).unwrap();
    let mut buffer: Vec<u8> = vec![];
    let n = f.read(&mut buffer).unwrap();
    assert_eq!(n, 4);
    assert_eq!(buffer, payload);
}

#[test]
fn read_while_closed_fails_and_leaves_buffer() {
    let f = File::new_with_data("c.txt", &vec![7, 8]);
    let mut buffer: Vec<u8> = vec![9];
    let r = f.read(&mut buffer);
    assert_eq!(r, Err(FileError::NotOpen));
    assert_eq!(buffer, vec![9]);
}

#[test]
fn not_open_error_message() {
    assert_eq!(
        FileError::NotOpen.message(),
        "File is not open for reading"
    );
}

#[test]
fn permission_denied_error_message() {
    assert_eq!(FileError::PermissionDenied.message(), "Permission denied");
}

#[test]
fn open_then_close_is_closed() {
    let f = File::new("t.txt");
    let f = open(f).unwrap();
    assert_eq!(f.state, FileState::Open);
    let f = close(f).unwrap();
    assert_eq!(f.state, FileState::Closed);
}

#[test]
fn close_then_open_is_open() {
    let f = File::new("t.txt");
    let f = close(f).unwrap();
    assert_eq!(f.state, FileState::Closed);
    let f = open(f).unwrap();
    assert_eq!(f.state, FileState::Open);
}

#[test]
fn open_twice_is_a_no_op() {
    let payload: Vec<u8> = vec![5];
    let f = File::new_with_data("t.txt", &payload);
    let f = open(f).unwrap();
    let f = open(f).unwrap();
    assert_eq!(f.state, FileState::Open);
    assert_eq!(f.name, "t.txt");
    assert_eq!(f.data, payload);
}

#[test]
fn render_open_and_closed() {
    let f = File::new("3.txt");
    let f = open(f).unwrap();
    assert_eq!(f.render(), "<3.txt (OPEN)>");
    let f = close(f).unwrap();
    assert_eq!(f.render(), "<3.txt (CLOSED)>");
}

#[test]
fn rust_payload_scenario() {
    let f = File::new_with_data("3.txt", &vec![114, 117, 115, 116, 33]);
    let f = open(f).unwrap();
    let mut buffer: Vec<u8> = vec![];
    let n = f.read(&mut buffer).unwrap();
    assert_eq!(n, 5);
    assert_eq!(String::from_utf8_lossy(&buffer), "rust!");
    let f = close(f).unwrap();
    assert_eq!(f.state, FileState::Closed);
}

#[test]
fn reading_twice_appends_twice() {
    let payload: Vec<u8> = vec![1, 2];
    let f = File::new_with_data("d.txt", &payload);
    let f = open(f).unwrap();
    let mut buffer: Vec<u8> = vec![];
    let first = f.read(&mut buffer).unwrap();
    let second = f.read(&mut buffer).unwrap();
    assert_eq!(first, 2);
    assert_eq!(second, 2);
    assert_eq!(buffer, vec![1, 2, 1, 2]);
}

#[test]
fn fallible_open_denied() {
    let f = File::new("f.txt");
    let r = open_fallible(f, true);
    assert!(matches!(r, Err(FileError::PermissionDenied)));
}

#[test]
fn fallible_open_granted() {
    let f = File::new("f.txt");
    let f = open_fallible(f, false).unwrap();
    assert_eq!(f.state, FileState::Open);
}

#[test]
fn fallible_close_denied() {
    let f = File::new("f.txt");
    let r = close_fallible(f, true);
    assert!(matches!(r, Err(FileError::PermissionDenied)));
}

#[test]
fn fallible_close_granted() {
    let f = open(File::new("f.txt")).unwrap();
    let f = close_fallible(f, false).unwrap();
    assert_eq!(f.state, FileState::Closed);
}

#[test]
fn unreliable_open_outcome_is_open_or_denied() {
    let f = File::new("u.txt");
    match open_unreliable(f) {
        Ok(g) => {
            assert_eq!(g.state, FileState::Open);
            assert_eq!(g.name, "u.txt");
        }
        Err(e) => assert_eq!(e, FileError::PermissionDenied),
    }
}

#[test]
fn unreliable_close_outcome_is_closed_or_denied() {
    let f = open(File::new("u.txt")).unwrap();
    match close_unreliable(f) {
        Ok(g) => {
            assert_eq!(g.state, FileState::Closed);
            assert_eq!(g.name, "u.txt");
        }
        Err(e) => assert_eq!(e, FileError::PermissionDenied),
    }
}
