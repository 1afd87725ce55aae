//! Laws relating the lifecycle operations, stated over the same spec
//! functions that the operations' contracts use.
use vstd::prelude::*;
use crate::file::File;
use crate::file::FileError;
use crate::file::FileState;
use crate::file::read_allowed;
use crate::file::spec_read_bytes;
use crate::file::spec_read_result;
use crate::lifecycle::spec_close;
use crate::lifecycle::spec_open;

verus! {

/// For every freshly constructed file (any name, any payload): opening it
/// and reading into an empty buffer yields a buffer equal to the payload
/// and a returned length equal to the payload's length.
pub proof fn lemma_open_then_read_yields_payload(f: File, buf: Seq<u8>)
    requires
        f.state == FileState::Closed,
        buf == Seq::<u8>::empty(),
    ensures
        read_allowed(spec_open(f)),
        spec_read_bytes(spec_open(f), buf) == f.data@,
        spec_read_result(spec_open(f)) == Ok::<usize, FileError>(f.data@.len() as usize),
{
    assert(spec_read_bytes(spec_open(f), buf) =~= f.data@);
}

/// Reading a file in the closed state always fails with the not-open error
/// and leaves the output buffer unchanged, whatever the buffer held.
pub proof fn lemma_read_closed_fails(f: File, buf: Seq<u8>)
    requires
        f.state == FileState::Closed,
    ensures
        spec_read_result(f) == Err::<usize, FileError>(FileError::NotOpen),
        spec_read_bytes(f, buf) == buf,
{
}

/// `open` followed by `close` leaves the state closed; `close` followed by
/// `open` leaves it open; and opening an already open file changes nothing,
/// so opening twice in a row equals opening once.
pub proof fn lemma_transitions(f: File)
    ensures
        spec_close(spec_open(f)).state == FileState::Closed,
        spec_open(spec_close(f)).state == FileState::Open,
        spec_open(spec_open(f)) == spec_open(f),
{
}

/// Reading twice after a single open appends the payload twice into the
/// same buffer: the second read accumulates, it does not overwrite.
pub proof fn lemma_read_twice_appends_twice(f: File, buf: Seq<u8>)
    requires
        f.state == FileState::Open,
    ensures
        spec_read_bytes(f, spec_read_bytes(f, buf)) == buf + f.data@ + f.data@,
{
    assert(spec_read_bytes(f, spec_read_bytes(f, buf)) =~= buf + f.data@ + f.data@);
}

} // verus!
