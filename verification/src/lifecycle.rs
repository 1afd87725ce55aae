//! Lifecycle operations on a `File`. Each takes the file by value and hands
//! it back, modelling exclusive access handed to the operation. `open` and
//! `close` always succeed; the `_fallible` variants take an injected fault
//! flag, and the `_unreliable` variants draw that flag at random, failing
//! with a permission error about one time in three.
use vstd::prelude::*;
use crate::file::File;
use crate::file::FileError;
use crate::file::FileState;
use rand::Rng;

verus! {

/// The file after `open`: the same name and payload, state `Open`.
pub open spec fn spec_open(f: File) -> File {
    File { state: FileState::Open, ..f }
}

/// The file after `close`: the same name and payload, state `Closed`.
pub open spec fn spec_close(f: File) -> File {
    File { state: FileState::Closed, ..f }
}

/// Opens the file. Always succeeds.
pub fn open(f: File) -> (r: Result<File, FileError>)
    ensures
        r matches Ok(g) && g == spec_open(f),
{
    let mut f = f;
    f.state = FileState::Open;
    Ok(f)
}

/// Closes the file. Always succeeds.
pub fn close(f: File) -> (r: Result<File, FileError>)
    ensures
        r matches Ok(g) && g == spec_close(f),
{
    let mut f = f;
    f.state = FileState::Closed;
    Ok(f)
}

/// Opens the file under an injected fault policy: succeeds exactly when
/// `deny` is false, and fails with a permission error otherwise.
pub fn open_fallible(f: File, deny: bool) -> (r: Result<File, FileError>)
    ensures
        !deny ==> (r matches Ok(g) && g == spec_open(f)),
        deny ==> (r matches Err(e) && e == FileError::PermissionDenied),
{
    if deny {
        Err(FileError::PermissionDenied)
    } else {
        open(f)
    }
}

/// Closes the file under an injected fault policy: succeeds exactly when
/// `deny` is false, and fails with a permission error otherwise.
pub fn close_fallible(f: File, deny: bool) -> (r: Result<File, FileError>)
    ensures
        !deny ==> (r matches Ok(g) && g == spec_close(f)),
        deny ==> (r matches Err(e) && e == FileError::PermissionDenied),
{
    if deny {
        Err(FileError::PermissionDenied)
    } else {
        close(f)
    }
}

/// Relies on rand's `thread_rng` and `Rng::gen_ratio`: returns true with
/// probability 1 in `n`, and is documented to return true whenever the
/// numerator equals the denominator. `gen_ratio` panics when the
/// denominator is 0, so that input is excluded. Nothing more can be
/// promised of a random outcome.
#[verifier::external_body]
fn one_in(n: u32) -> (r: bool)
    requires
        1 <= n,
    ensures
        n == 1 ==> r,
{
    rand::thread_rng().gen_ratio(1, n)
}

/// Opens the file, failing at random (about one time in three) with a
/// permission error. Whatever the draw, a success carries the opened file
/// and a failure is the permission error.
pub fn open_unreliable(f: File) -> (r: Result<File, FileError>)
    ensures
        r matches Ok(g) ==> g == spec_open(f),
        r matches Err(e) ==> e == FileError::PermissionDenied,
{
    let deny = one_in(3);
    open_fallible(f, deny)
}

/// Closes the file, failing at random (about one time in three) with a
/// permission error. Whatever the draw, a success carries the closed file
/// and a failure is the permission error.
pub fn close_unreliable(f: File) -> (r: Result<File, FileError>)
    ensures
        r matches Ok(g) ==> g == spec_close(f),
        r matches Err(e) ==> e == FileError::PermissionDenied,
{
    let deny = one_in(3);
    close_fallible(f, deny)
}

} // verus!
