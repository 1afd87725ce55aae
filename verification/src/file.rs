//! The `File` entity: a name, an owned byte payload, and an open/closed
//! state. Reading is permitted only while the file is open; it appends the
//! whole payload to a caller-supplied buffer.
use vstd::prelude::*;
use vstd::string::StrSliceExecFns;
use vstd::string::StringExecFns;

verus! {

/// Whether a file is currently open for reading.
#[derive(Debug, Clone, Copy, PartialEq, Eq, Structural)]
pub enum FileState {
    Open,
    Closed,
}

/// Why a lifecycle operation failed.
#[derive(Debug, Clone, Copy, PartialEq, Eq, Structural)]
pub enum FileError {
    /// A read was attempted while the file was closed.
    NotOpen,
    /// A transient, randomly injected permission failure.
    PermissionDenied,
}

/// The message text carried by each error.
pub open spec fn spec_message(e: FileError) -> Seq<char> {
    match e {
        FileError::NotOpen => "File is not open for reading"@,
        FileError::PermissionDenied => "Permission denied"@,
    }
}

impl FileError {
    /// A human-readable description of the error.
    pub fn message(&self) -> (r: String)
        ensures
            r@ == spec_message(*self),
    {
        match self {
            FileError::NotOpen => String::from_str("File is not open for reading"),
            FileError::PermissionDenied => String::from_str("Permission denied"),
        }
    }
}

/// An in-memory file: an immutable name, an owned byte payload, and the
/// open/closed state. The payload is set at construction and never mutated
/// afterwards; only `open` and `close` toggle the state.
#[derive(Debug)]
pub struct File {
    pub name: String,
    pub data: Vec<u8>,
    pub state: FileState,
}

/// Reading is permitted exactly while the file is open.
pub open spec fn read_allowed(f: File) -> bool {
    f.state == FileState::Open
}

/// What a buffer holds after a read: the whole payload appended to its
/// previous contents if the file is open, the previous contents untouched
/// otherwise.
pub open spec fn spec_read_bytes(f: File, buf: Seq<u8>) -> Seq<u8> {
    if read_allowed(f) {
        buf + f.data@
    } else {
        buf
    }
}

/// What a read returns: the payload's length if the file is open, the
/// not-open error otherwise.
pub open spec fn spec_read_result(f: File) -> Result<usize, FileError> {
    if read_allowed(f) {
        Ok(f.data@.len() as usize)
    } else {
        Err(FileError::NotOpen)
    }
}

/// The display label of each state.
pub open spec fn state_label(s: FileState) -> Seq<char> {
    match s {
        FileState::Open => "OPEN"@,
        FileState::Closed => "CLOSED"@,
    }
}

/// How a file renders: `<name (STATE)>`.
pub open spec fn spec_render(f: File) -> Seq<char> {
    "<"@ + f.name@ + " ("@ + state_label(f.state) + ")>"@
}

/// Copies a byte vector element for element.
fn clone_bytes(data: &Vec<u8>) -> (r: Vec<u8>)
    ensures
        r@ == data@,
{
    let r = data.clone();
    proof {
        assert forall|i: int| 0 <= i < r@.len() implies r@[i] == data@[i] by {
            assert(cloned::<u8>(data@[i], r@[i]));
        }
        assert(r@ =~= data@);
    }
    r
}

impl File {
    /// A closed file with the given name and an empty payload.
    pub fn new(name: &str) -> (f: File)
        ensures
            f.name@ == name@,
            f.data@ == Seq::<u8>::empty(),
            f.state == FileState::Closed,
    {
        File { name: name.to_owned(), data: Vec::new(), state: FileState::Closed }
    }

    /// A closed file with the given name and a copy of the given payload.
    pub fn new_with_data(name: &str, data: &Vec<u8>) -> (f: File)
        ensures
            f.name@ == name@,
            f.data@ == data@,
            f.state == FileState::Closed,
    {
        let mut f = File::new(name);
        f.data = clone_bytes(data);
        f
    }

    /// Appends the whole payload to `save_to` and returns its length, when
    /// the file is open; fails with the not-open error and leaves `save_to`
    /// unchanged, when it is closed.
    pub fn read(&self, save_to: &mut Vec<u8>) -> (r: Result<usize, FileError>)
        ensures
            final(save_to)@ == spec_read_bytes(*self, old(save_to)@),
            r == spec_read_result(*self),
    {
        if self.state == FileState::Closed {
            return Err(FileError::NotOpen);
        }
        let mut tmp = clone_bytes(&self.data);
        let read_length = tmp.len();
        // Size the buffer up front so the append does not reallocate
        // incrementally.
        save_to.reserve(read_length);
        save_to.append(&mut tmp);
        Ok(read_length)
    }

    /// The display form `<name (STATE)>`, with STATE one of `OPEN`, `CLOSED`.
    pub fn render(&self) -> (r: String)
        ensures
            r@ == spec_render(*self),
    {
        let mut r = String::from_str("<");
        r.append(self.name.as_str());
        r.append(" (");
        match self.state {
            FileState::Open => r.append("OPEN"),
            FileState::Closed => r.append("CLOSED"),
        }
        r.append(")>");
        proof {
            assert(r@ =~= spec_render(*self));
        }
        r
    }
}

} // verus!
