//! Blocking reads and writes over the host's stream primitives.
//!
//! The host answers a read of up to `n` bytes with a chunk and an
//! end-of-stream flag, and a write with the number of bytes it took. The
//! functions here take that answer and decide what the caller sees.

use vstd::prelude::*;

use crate::error::{AdapterError, StreamError};

verus! {

/// The message of the error for a host that returns more bytes than asked for.
pub const READ_TOO_LONG: &'static str = "blocking_read returned too much data";

/// The message of the error for a host that returns no bytes before the end
/// of the stream.
pub const READ_EMPTY: &'static str = "blocking_read returned no data before the end of the stream";

/// What a read of at most `len` bytes yields when the host answered `outcome`:
/// more bytes than asked for, or none for a read of some bytes before the end
/// of the stream, break the host's contract.
pub open spec fn checked_read(len: usize, outcome: Result<(Vec<u8>, bool), StreamError>) -> Result<
    Vec<u8>,
    AdapterError,
> {
    match outcome {
        Err(e) => Err(AdapterError::WasiStream(e)),
        Ok((data, end_of_stream)) => if data.len() > len {
            Err(AdapterError::Other(READ_TOO_LONG))
        } else if data.len() == 0 && len > 0 && !end_of_stream {
            Err(AdapterError::Other(READ_EMPTY))
        } else {
            Ok(data)
        },
    }
}

/// What a read into `buf` does when the host answered `outcome`: the bytes go
/// to the front of the buffer and their count is returned; on an error the
/// buffer stays as it was.
pub open spec fn read_into(
    old_buf: Seq<u8>,
    new_buf: Seq<u8>,
    outcome: Result<(Vec<u8>, bool), StreamError>,
    r: Result<usize, AdapterError>,
) -> bool {
    match checked_read(old_buf.len() as usize, outcome) {
        Ok(data) => r == Ok::<usize, AdapterError>(data.len()) && new_buf == data@ + old_buf.skip(
            data.len() as int,
        ),
        Err(e) => r == Err::<usize, AdapterError>(e) && new_buf == old_buf,
    }
}

/// A read from a source with fewer bytes left than asked for yields those
/// bytes and their count, without error; one from an exhausted source yields
/// zero. A read of some bytes yields zero only at the end of the stream.
pub proof fn lemma_short_read(
    old_buf: Seq<u8>,
    new_buf: Seq<u8>,
    data: Vec<u8>,
    end_of_stream: bool,
    r: Result<usize, AdapterError>,
)
    requires
        data@.len() <= old_buf.len(),
        old_buf.len() <= usize::MAX,
        data@.len() > 0 || end_of_stream || old_buf.len() == 0,
        read_into(old_buf, new_buf, Ok((data, end_of_stream)), r),
    ensures
        r == Ok::<usize, AdapterError>(data@.len() as usize),
        new_buf.take(data@.len() as int) == data@,
        data@.len() == 0 ==> r == Ok::<usize, AdapterError>(0),
        r == Ok::<usize, AdapterError>(0) && old_buf.len() > 0 ==> end_of_stream,
{
    assert(new_buf.take(data@.len() as int) =~= data@);
}

/// A host input stream, by its handle.
pub struct InputStream {
    pub handle: u32,
}

impl InputStream {
    /// Checks the host's answer to a blocking read of at most `len` bytes.
    pub fn blocking_read(&self, len: usize, outcome: Result<(Vec<u8>, bool), StreamError>) -> (r:
        Result<Vec<u8>, AdapterError>)
        ensures
            r == checked_read(len, outcome),
    {
        match outcome {
            Err(e) => Err(AdapterError::WasiStream(e)),
            Ok((data, end_of_stream)) => {
                if data.len() > len {
                    Err(AdapterError::other(READ_TOO_LONG))
                } else if data.len() == 0 && len > 0 && !end_of_stream {
                    Err(AdapterError::other(READ_EMPTY))
                } else {
                    Ok(data)
                }
            },
        }
    }

    /// Reads into `buf` the bytes of the host's answer to a blocking read of
    /// `buf.len()` bytes, and returns how many there were; zero only at the end
    /// of the stream.
    pub fn read(&self, buf: &mut [u8], outcome: Result<(Vec<u8>, bool), StreamError>) -> (r: Result<
        usize,
        AdapterError,
    >)
        ensures
            read_into(old(buf)@, final(buf)@, outcome, r),
            r == Ok::<usize, AdapterError>(0) && old(buf)@.len() > 0 ==> outcome matches Ok((_, true)),
    {
        let data = match self.blocking_read(buf.len(), outcome) {
            Ok(data) => data,
            Err(e) => return Err(e),
        };
        let n = data.len();
        let mut i: usize = 0;
        while i < n
            invariant
                n == data@.len(),
                n <= buf@.len(),
                i <= n,
                buf@.len() == old(buf)@.len(),
                forall|j: int| 0 <= j < i ==> buf@[j] == data@[j],
                forall|j: int| i <= j < buf@.len() ==> buf@[j] == old(buf)@[j],
            decreases n - i,
        {
            buf[i] = data[i];
            i = i + 1;
        }
        assert(buf@ =~= data@ + old(buf)@.skip(n as int));
        Ok(n)
    }
}

/// A host output stream, by its handle.
pub struct OutputStream {
    pub handle: u32,
}

impl OutputStream {
    /// The count of bytes that the host's blocking write took, as the result of
    /// a write of `buf`: the caller writes the rest again.
    pub fn blocking_write(&self, buf: &[u8], outcome: Result<u64, StreamError>) -> (r: Result<
        usize,
        AdapterError,
    >)
        ensures
            match outcome {
                Ok(n) => r == Ok::<usize, AdapterError>(n as usize),
                Err(e) => r == Err::<usize, AdapterError>(AdapterError::WasiStream(e)),
            },
    {
        match outcome {
            Ok(n) => Ok(n as usize),
            Err(e) => Err(AdapterError::WasiStream(e)),
        }
    }

    /// Nothing is buffered here, so a flush always succeeds.
    pub fn flush(&self) -> (r: Result<(), AdapterError>)
        ensures
            r is Ok,
    {
        Ok(())
    }
}

} // verus!
