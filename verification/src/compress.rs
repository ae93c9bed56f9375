//! Compression of request bodies with gzip, under a [`GzipPolicy`].

use crate::error::ExpoNotificationError;
use crate::gzip_policy::GzipPolicy;
use std::io::Write;
use vstd::prelude::*;

verus! {

/// Trusted: `std::io::Error`, carried through without looking inside.
#[verifier::external_type_specification]
#[verifier::external_body]
pub struct ExIoError(std::io::Error);

/// Trusted name: the gzip stream that `flate2` writes for some data at its
/// default level, or `None` where it fails.
pub uninterp spec fn gzip_stream(data: Seq<u8>) -> Option<Seq<u8>>;

/// Trusted: `flate2::write::GzEncoder` over a `Vec<u8>`, at
/// `Compression::default()`: the data is written to it with `write_all`, and
/// `finish` hands out what it wrote. The header holds no time stamp and no
/// name, so the stream is a function of the data alone: it is `gzip_stream`
/// of the data, and the call fails exactly where `gzip_stream` has no stream.
#[verifier::external_body]
pub(crate) fn gzip(data: &[u8]) -> (res: Result<Vec<u8>, std::io::Error>)
    ensures
        match res {
            Ok(stream) => gzip_stream(data@) == Some(stream@),
            Err(_) => gzip_stream(data@) is None,
        },
{
    let mut encoder = flate2::write::GzEncoder::new(Vec::new(), flate2::Compression::default());
    encoder.write_all(data)?;
    encoder.finish()
}

/// A request body as it goes on the wire.
#[derive(Debug, PartialEq, Eq)]
pub struct EncodedBody {
    pub bytes: Vec<u8>,
    /// Whether `bytes` is a gzip stream.
    pub gzipped: bool,
}

/// The body that goes on the wire for a serialized body under a policy: the
/// gzip stream of it where the policy compresses a body of its size, and else
/// the serialized body itself. `None` where the compression fails.
pub open spec fn encoded_body(policy: GzipPolicy, plain: Seq<u8>) -> Option<(Seq<u8>, bool)> {
    if policy.compresses(plain.len()) {
        match gzip_stream(plain) {
            Some(stream) => Some((stream, true)),
            None => None,
        }
    } else {
        Some((plain, false))
    }
}

/// Applies the policy to a serialized body. The size that the policy looks
/// at is that of the body before compression. A failure of the compression
/// is reported, and the body is not sent uncompressed in its place.
pub fn encode_body(policy: GzipPolicy, plain: Vec<u8>) -> (res: Result<
    EncodedBody,
    ExpoNotificationError,
>)
    ensures
        match res {
            Ok(body) => encoded_body(policy, plain@) == Some((body.bytes@, body.gzipped)),
            Err(e) => e == ExpoNotificationError::Io && encoded_body(policy, plain@) is None,
        },
{
    if policy.should_compress(plain.len()) {
        match gzip(plain.as_slice()) {
            Ok(stream) => Ok(EncodedBody { bytes: stream, gzipped: true }),
            Err(_) => Err(ExpoNotificationError::Io),
        }
    } else {
        Ok(EncodedBody { bytes: plain, gzipped: false })
    }
}

} // verus!
