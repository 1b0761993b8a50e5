use vstd::prelude::*;

verus! {

/// The zstd frame that compressing `data` at `level` gives.
pub uninterp spec fn zstd_frame(data: Seq<u8>, level: int) -> Seq<u8>;

/// The bytes that decompressing the zstd frame `frame` gives.
pub uninterp spec fn zstd_content(frame: Seq<u8>) -> Seq<u8>;

/// Relies on zstd::encode_all: on success, the zstd frame of all of `data`
/// at `level`.
#[verifier::external_body]
fn zstd_encode(data: &[u8], level: i32) -> (r: Option<Vec<u8>>)
    ensures
        r matches Some(v) ==> v@ == zstd_frame(data@, level as int),
{
    zstd::encode_all(data, level).ok()
}

/// Relies on zstd::decode_all: on success, everything the frames in `frame`
/// decompress to.
#[verifier::external_body]
fn zstd_decode(frame: &[u8]) -> (r: Option<Vec<u8>>)
    ensures
        r matches Some(v) ==> v@ == zstd_content(frame@),
{
    zstd::decode_all(frame).ok()
}

/// Why the compression check failed.
#[derive(Clone, Copy, Debug, PartialEq, Eq)]
pub enum CodecError {
    Encode,
    Decode,
}

/// Compresses `data` into one zstd frame at `level` (`0` is zstd's default).
pub fn compress(data: &Vec<u8>, level: i32) -> (r: Result<Vec<u8>, CodecError>)
    ensures
        r matches Ok(v) ==> v@ == zstd_frame(data@, level as int),
        r matches Err(e) ==> e == CodecError::Encode,
{
    match zstd_encode(data.as_slice(), level) {
        Some(f) => Ok(f),
        None => Err(CodecError::Encode),
    }
}

/// Decompresses the zstd frames in `frame`.
pub fn decompress(frame: &Vec<u8>) -> (r: Result<Vec<u8>, CodecError>)
    ensures
        r matches Ok(v) ==> v@ == zstd_content(frame@),
        r matches Err(e) ==> e == CodecError::Decode,
{
    match zstd_decode(frame.as_slice()) {
        Some(v) => Ok(v),
        None => Err(CodecError::Decode),
    }
}

/// Compresses `data` at the default level and decompresses it again,
/// returning the bytes that came back.
pub fn round_trip(data: &Vec<u8>) -> (r: Result<Vec<u8>, CodecError>)
    ensures
        r matches Ok(v) ==> v@ == zstd_content(zstd_frame(data@, 0)),
{
    let frame = match compress(data, 0) {
        Ok(f) => f,
        Err(e) => {
            return Err(e);
        },
    };
    decompress(&frame)
}

/// Checks that the compression library is usable: compresses `data` and
/// decompresses it, and says whether the same bytes came back.
pub fn codec_check(data: &Vec<u8>) -> (r: Result<bool, CodecError>)
    ensures
        r matches Ok(same) ==> same == (zstd_content(zstd_frame(data@, 0)) == data@),
{
    match round_trip(data) {
        Ok(v) => Ok(same_bytes(&v, data)),
        Err(e) => Err(e),
    }
}

fn same_bytes(a: &Vec<u8>, b: &Vec<u8>) -> (r: bool)
    ensures
        r == (a@ == b@),
{
    if a.len() != b.len() {
        return false;
    }
    let mut i: usize = 0;
    while i < a.len()
        invariant
            i <= a.len(),
            a.len() == b.len(),
            forall|j: int| 0 <= j < i ==> a@[j] == b@[j],
        decreases a.len() - i,
    {
        if a[i] != b[i] {
            return false;
        }
        i = i + 1;
    }
    assert(a@ =~= b@);
    true
}

} // verus!
