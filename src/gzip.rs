use std::io::Write;
use vstd::prelude::*;
use crate::buffers::{
    bytes_contents, bytes_from_vec, bytes_mut_contents, bytes_mut_extend, bytes_mut_slice,
    bytes_slice, new_bytes_mut,
};
use crate::error::{DecodeError, EncodeError};

verus! {

/// What flate2's write-side `GzDecoder` makes of a byte sequence: the
/// decompressed bytes of the single gzip member it holds, or `None` when the
/// input is malformed, truncated, fails its checksum or size check, or has
/// bytes after the member (a second member included).
pub uninterp spec fn gunzip_of(c: Seq<u8>) -> Option<Seq<u8>>;

/// `c` is a complete gzip member that decodes to `s`.
pub open spec fn encodes(c: Seq<u8>, s: Seq<u8>) -> bool {
    gunzip_of(c) == Some(s)
}

/// Relies on flate2::write::GzEncoder at the default level, writing into a
/// `Vec`: the output is one gzip member that `GzDecoder` turns back into the
/// input. Writes into a `Vec` never fail, and deflate fails only on bad
/// parameters or a full output buffer, so `write_all` and `finish` succeed.
#[verifier::external_body]
fn gzip_encode(data: &[u8]) -> (r: Result<Vec<u8>, String>)
    ensures
        r is Ok,
        r matches Ok(c) ==> encodes(c@, data@),
{
    let mut e = flate2::write::GzEncoder::new(Vec::new(), flate2::Compression::default());
    match e.write_all(data) {
        Ok(()) => e.finish().map_err(|err| format!("Failed to compress gzip: {}", err)),
        Err(err) => Err(format!("Failed to compress gzip: {}", err)),
    }
}

/// Relies on flate2::write::GzDecoder: `write_all` then `finish` succeed
/// exactly on a well-formed member, and hand out its decompressed bytes.
#[verifier::external_body]
fn gzip_decode(data: &[u8]) -> (r: Result<Vec<u8>, String>)
    ensures
        r is Ok <==> gunzip_of(data@) is Some,
        r matches Ok(d) ==> gunzip_of(data@) == Some(d@),
{
    let mut d = flate2::write::GzDecoder::new(Vec::new());
    match d.write_all(data) {
        Ok(()) => d.finish().map_err(|err| format!("Failed to decompress gzip: {}", err)),
        Err(err) => Err(format!("Failed to decompress gzip: {}", err)),
    }
}

/// What a compression returns once the producer has returned `out`.
pub open spec fn produced<R, E>(out: Result<R, E>) -> Result<R, EncodeError<E>> {
    match out {
        Ok(v) => Ok(v),
        Err(e) => Err(EncodeError::Inner(e)),
    }
}

/// What a decompression returns once the consumer has produced `out`.
pub open spec fn consumed<R, E>(out: Result<R, E>) -> Result<R, DecodeError<E>> {
    match out {
        Ok(v) => Ok(v),
        Err(e) => Err(DecodeError::Inner(e)),
    }
}

/// Two members that `Gzip::compress` appended for the same producer bytes `s`
/// decompress to the same bytes, whether or not they are equal byte for byte.
pub proof fn lemma_same_content(c1: Seq<u8>, c2: Seq<u8>, s: Seq<u8>)
    requires
        encodes(c1, s),
        encodes(c2, s),
    ensures
        gunzip_of(c1) == gunzip_of(c2),
{
}

/// Compresses `payload` into one gzip member.
pub fn compress_bytes(payload: &[u8]) -> (r: Result<Vec<u8>, String>)
    ensures
        r is Ok,
        r matches Ok(c) ==> encodes(c@, payload@),
{
    gzip_encode(payload)
}

/// Decompresses one gzip member; fails exactly on malformed input.
pub fn decompress_bytes(data: &[u8]) -> (r: Result<Vec<u8>, String>)
    ensures
        r is Ok <==> gunzip_of(data@) is Some,
        r matches Ok(d) ==> gunzip_of(data@) == Some(d@),
{
    gzip_decode(data)
}

/// Compresses `payload` with `Gzip::compress` and decompresses the member
/// with `Gzip::decompress`: the bytes that come back are `payload` itself.
pub fn round_trip(payload: &[u8]) -> (r: Vec<u8>)
    requires
        payload@.len() <= isize::MAX,
    ensures
        r@ == payload@,
{
    let produce = |b: &mut bytes::BytesMut| -> (o: Result<u8, u8>)
        requires
            bytes_mut_contents(*old(b)) == Seq::<u8>::empty(),
        ensures
            bytes_mut_contents(*final(b)) == payload@,
            o == Ok::<u8, u8>(0u8),
        {
            bytes_mut_extend(b, payload);
            assert(Seq::<u8>::empty() + payload@ =~= payload@);
            Ok(0u8)
        };
    let consume = |d: &mut bytes::Bytes| -> (o: Result<Vec<u8>, u8>)
        ensures
            (o matches Ok(v) && v@ == bytes_contents(*old(d))),
        {
            Ok(vstd::slice::slice_to_vec(bytes_slice(d)))
        };
    let mut member: Vec<u8> = Vec::new();
    let _packed = Gzip::compress(&mut member, produce);
    assert(gunzip_of(member@) == Some(payload@));
    let unpacked = Gzip::decompress(&mut member, consume);
    match unpacked {
        Ok(v) => v,
        Err(_) => Vec::new(),
    }
}

/// The gzip codec. It carries no state.
pub struct Gzip;

impl Gzip {
    /// Runs `f` once on a fresh empty buffer. If `f` fails, its error comes
    /// back as `Inner` and `target` is left untouched. Otherwise the gzip
    /// member of exactly what `f` wrote is appended to `target` and the value
    /// of `f` is returned. Compressing into memory does not fail, so `Io`
    /// never comes back.
    pub fn compress<R, E, F>(target: &mut Vec<u8>, f: F) -> (r: Result<R, EncodeError<E>>)
        where
            F: FnOnce(&mut bytes::BytesMut) -> Result<R, E>,
        requires
            forall|b: &mut bytes::BytesMut|
                bytes_mut_contents(*b) == Seq::<u8>::empty() ==> f.requires((b,)),
        ensures
            exists|b: &mut bytes::BytesMut, out: Result<R, E>|
                bytes_mut_contents(*b) == Seq::<u8>::empty() && f.ensures((b,), out) && r
                    == produced(out) && (match out {
                    Ok(_) => exists|c: Seq<u8>|
                        final(target)@ == old(target)@ + c && encodes(
                            c,
                            bytes_mut_contents(*final(b)),
                        ),
                    Err(_) => final(target)@ == old(target)@,
                }),
    {
        let mut tmp = new_bytes_mut();
        let res = f(&mut tmp);
        match res {
            Err(e) => Err(EncodeError::Inner(e)),
            Ok(v) => {
                match gzip_encode(bytes_mut_slice(&tmp)) {
                    Ok(c) => {
                        let mut c = c;
                        target.append(&mut c);
                        Ok(v)
                    },
                    Err(msg) => Err(EncodeError::Io(msg)),
                }
            },
        }
    }

    /// Drains `source`, decompresses it into a fresh buffer and hands that to
    /// `f`, whose result is returned unchanged (its error as `Inner`). When
    /// the input is malformed `f` is not called and the error is `Io`.
    pub fn decompress<R, E, F>(source: &mut Vec<u8>, f: F) -> (r: Result<R, DecodeError<E>>)
        where
            F: FnOnce(&mut bytes::Bytes) -> Result<R, E>,
        requires
            forall|d: &mut bytes::Bytes| f.requires((d,)),
        ensures
            final(source)@.len() == 0,
            gunzip_of(old(source)@) is None ==> r matches Err(DecodeError::Io(_)),
            gunzip_of(old(source)@) matches Some(s) ==> exists|d: &mut bytes::Bytes, out: Result<R, E>|
                bytes_contents(*d) == s && f.ensures((d,), out) && r == consumed(out),
    {
        let res = gzip_decode(source.as_slice());
        source.clear();
        match res {
            Err(msg) => Err(DecodeError::Io(msg)),
            Ok(d) => {
                let mut d = bytes_from_vec(d);
                match f(&mut d) {
                    Ok(v) => Ok(v),
                    Err(e) => Err(DecodeError::Inner(e)),
                }
            },
        }
    }
}

} // verus!
