//! What the host writes into a fresh buffer and what it makes of the bytes
//! that come back.

use vstd::prelude::*;

verus! {

/// How many bytes the marker takes.
pub const MARKER_LEN: usize = 3;

/// How many leading bytes of a readback the host shows.
pub const PREVIEW_LEN: usize = 10;

/// The bytes that mark the start of a freshly made buffer.
pub open spec fn marker() -> Seq<u8> {
    seq![0xffu8, 0xfeu8, 0xfdu8]
}

/// `data` starts with the marker.
pub open spec fn starts_with_marker(data: Seq<u8>) -> bool {
    data.len() >= MARKER_LEN && data.take(MARKER_LEN as int) == marker()
}

/// The leading bytes of `data` that the host shows: the first
/// [`PREVIEW_LEN`], or all of them where there are fewer.
pub open spec fn preview(data: Seq<u8>) -> Seq<u8> {
    if data.len() <= PREVIEW_LEN {
        data
    } else {
        data.take(PREVIEW_LEN as int)
    }
}

/// Writes the marker over the first bytes of a buffer's contents and leaves
/// the rest as it is.
pub fn stamp(contents: &mut Vec<u8>)
    requires
        old(contents).len() >= MARKER_LEN,
    ensures
        final(contents)@ == marker() + old(contents)@.skip(MARKER_LEN as int),
{
    contents.set(0, 0xff);
    contents.set(1, 0xfe);
    contents.set(2, 0xfd);
}

/// What the host learned from a readback.
#[derive(Debug, PartialEq, Eq)]
pub struct Readback {
    /// How many bytes came back.
    pub len: usize,
    /// The leading bytes.
    pub head: Vec<u8>,
    /// The bytes still start with the marker: nothing wrote over it.
    pub marker_intact: bool,
}

/// Why a readback was refused.
#[derive(Clone, Copy, Debug, PartialEq, Eq, Structural)]
pub enum ReadbackError {
    /// The mapped range does not have the size of the buffer.
    WrongLength { expected: u64, actual: u64 },
}

/// Checks that a readback has the expected number of bytes and reports its
/// length, its leading bytes and whether the marker survived.
pub fn inspect(data: &[u8], expected: u64) -> (result: Result<Readback, ReadbackError>)
    ensures
        match result {
            Ok(report) => {
                &&& data@.len() == expected
                &&& report.len == data@.len()
                &&& report.head@ == preview(data@)
                &&& report.marker_intact == starts_with_marker(data@)
            },
            Err(error) => {
                &&& data@.len() != expected
                &&& error == (ReadbackError::WrongLength {
                    expected,
                    actual: data@.len() as u64,
                })
            },
        },
{
    let len: usize = data.len();
    if len as u64 != expected {
        return Err(ReadbackError::WrongLength { expected, actual: len as u64 });
    }
    let shown: usize = if len <= PREVIEW_LEN {
        len
    } else {
        PREVIEW_LEN
    };
    let mut head: Vec<u8> = Vec::new();
    let mut i: usize = 0;
    while i < shown
        invariant
            i <= shown <= data@.len(),
            head@ == data@.take(i as int),
        decreases shown - i,
    {
        head.push(data[i]);
        i = i + 1;
    }
    let marker_intact = len >= MARKER_LEN && data[0] == 0xff && data[1] == 0xfe && data[2] == 0xfd;
    proof {
        assert(data@.take(data@.len() as int) =~= data@);
        if len >= MARKER_LEN {
            let start = data@.take(MARKER_LEN as int);
            assert(marker_intact ==> start =~= marker());
            assert(start == marker() ==> start[0] == 0xff && start[1] == 0xfe && start[2] == 0xfd);
        }
    }
    Ok(Readback { len, head, marker_intact })
}

} // verus!
