//! Compressed records: a record whose flags say so holds, in place of its
//! fields, a 4-byte length and a zlib stream of them.

use vstd::prelude::*;
use crate::cursor::{ESMParser2, ParserModel};
use crate::engine::{nested, parse_fields_outcome, FieldHandler, Handled};
use crate::error::Error;

verus! {

/// What inflating the zlib stream at the start of `bytes` gives: the bytes
/// that were compressed, or `None` where the stream is corrupt or ends
/// early.
pub uninterp spec fn inflated(bytes: Seq<u8>) -> Option<Seq<u8>>;

/// Inflates a zlib stream with `flate2::read::ZlibDecoder`: a decoder made
/// by `ZlibDecoder::new` over `bytes` is read to its end.
///
/// Nothing is proved of this function. Its contract claims that what it
/// returns depends on `bytes` alone, which gives that result the name
/// [`inflated`]: all the output where the decoder reached the end of the
/// stream, `None` where it reported an error.
#[verifier::external_body]
fn inflate(bytes: &[u8]) -> (r: Option<Vec<u8>>)
    ensures
        match r {
            Some(out) => inflated(bytes@) == Some(out@),
            None => inflated(bytes@) is None,
        },
{
    let mut decoder = flate2::read::ZlibDecoder::new(bytes);
    let mut out: Vec<u8> = Vec::new();
    match std::io::Read::read_to_end(&mut decoder, &mut out) {
        Ok(_) => Some(out),
        Err(_) => None,
    }
}

/// The bytes of an optional buffer.
pub open spec fn payload_bytes(payload: Option<Vec<u8>>) -> Option<Seq<u8>> {
    match payload {
        Some(bytes) => Some(bytes@),
        None => None,
    }
}

/// The state of the parser that reads an inflated payload: at the start
/// of the payload, with the depth and the localisation flag of `outer`.
pub open spec fn payload_parser(outer: ParserModel, bytes: Seq<u8>) -> ParserModel {
    ParserModel { data: bytes, pos: 0, depth: outer.depth, localised: outer.localised }
}

/// What the fields of a payload give, from handler state `h`, for a
/// record met by a parser in state `outer`.
///
/// A payload that could not be inflated is an
/// [`Error::DecompressionFailure`]. Else the payload is a list of fields of
/// its whole length, parsed one level deeper than `outer` by a parser of
/// its own.
pub open spec fn payload_outcome<H: FieldHandler>(
    h: H::V,
    outer: ParserModel,
    payload: Option<Seq<u8>>,
) -> Result<H::V, Error> {
    match payload {
        None => Err(Error::DecompressionFailure),
        Some(bytes) => match nested(
            payload_parser(outer, bytes),
            parse_fields_outcome::<H>(h, payload_parser(outer, bytes).deeper(), bytes.len()),
        ) {
            Ok((h1, _)) => Ok(h1),
            Err(e) => Err(e),
        },
    }
}

/// What the fields of a compressed record of `declared_size` bytes give.
///
/// The first four bytes are the length that the content is said to have
/// when inflated, and are passed over: the length that counts is that of
/// what the stream in the other bytes inflates to.
pub open spec fn compressed_outcome<H: FieldHandler>(
    h: H::V,
    m: ParserModel,
    declared_size: nat,
) -> Handled<H::V> {
    if declared_size < 4 {
        Err(Error::DecompressionFailure)
    } else if !m.can_read(declared_size) {
        Err(Error::Truncated)
    } else {
        match payload_outcome::<H>(
            h,
            m,
            inflated(m.at(m.pos + 4).window((declared_size - 4) as nat)),
        ) {
            Ok(h1) => Ok((h1, m.at(m.pos + declared_size))),
            Err(e) => Err(e),
        }
    }
}

impl ESMParser2 {
    /// Hands the fields of an inflated payload to `handler`, or fails for
    /// a payload that could not be inflated. The payload gets a parser of
    /// its own, with the depth and the localisation flag of this one,
    /// which does not move.
    pub fn parse_inflated_fields<H: FieldHandler>(
        &self,
        handler: &mut H,
        payload: Option<Vec<u8>>,
    ) -> (r: Result<(), Error>)
        ensures
            match payload_outcome::<H>(old(handler)@, self@, payload_bytes(payload)) {
                Ok(h) => r is Ok && final(handler)@ == h,
                Err(e) => r == Err::<(), Error>(e),
            },
    {
        let bytes = match payload {
            None => {
                return Err(Error::DecompressionFailure);
            },
            Some(bytes) => bytes,
        };
        let total = bytes.len();
        let mut inner = self.nested(bytes);
        if inner.depth() == u64::MAX {
            return Err(Error::Unimplemented);
        }
        inner.push();
        let r = if total == 0 {
            Ok(())
        } else {
            inner.fields_until(handler, total as u64)
        };
        inner.pop();
        r
    }

    /// Hands the fields of a compressed record to `handler`: passes over
    /// the 4-byte length, inflates the other `declared_size - 4` bytes and
    /// parses what they hold as a list of fields. On success the cursor
    /// stands behind the record.
    pub fn parse_compressed_fields<H: FieldHandler>(
        &mut self,
        handler: &mut H,
        declared_size: u32,
    ) -> (r: Result<(), Error>)
        ensures
            old(self)@.same_frame(final(self)@),
            match compressed_outcome::<H>(old(handler)@, old(self)@, declared_size as nat) {
                Ok((h, m)) => r is Ok && final(handler)@ == h && final(self)@ == m,
                Err(e) => r == Err::<(), Error>(e),
            },
    {
        if declared_size < 4 {
            return Err(Error::DecompressionFailure);
        }
        let _stated: u32 = self.read::<u32>()?;
        let stream = self.read_exact((declared_size - 4) as usize)?;
        let payload = inflate(stream.as_slice());
        self.parse_inflated_fields(handler, payload)
    }
}

} // verus!
