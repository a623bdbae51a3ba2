//! Extraction of generated-image bytes from a generation-service reply.
//!
//! The reply, already parsed from its wire format into plain values, may
//! carry base64 text in the first candidate's parts; the first part that
//! carries any is stripped of newlines and decoded. Everything around this
//! (the request, the wire format, writing the file) lives with the caller.

use vstd::prelude::*;
use base64::Engine;

verus! {

/// One part of a candidate's content, possibly carrying the base64 text of
/// an image (as its raw bytes).
pub struct Part {
    pub inline_data: Option<Vec<u8>>,
}

/// The content of one candidate.
pub struct Content {
    pub parts: Vec<Part>,
}

/// One candidate of the reply.
pub struct Candidate {
    pub content: Content,
}

/// The reply: a candidate list, if the service returned any.
pub struct GenResponse {
    pub candidates: Option<Vec<Candidate>>,
}

/// Why no image came out of a reply.
#[derive(Clone, Copy, Debug, PartialEq, Eq, Structural)]
pub enum GenError {
    /// No candidate part carries inline data.
    NoImage,
    /// The inline data is not valid base64.
    BadBase64,
}

/// The first inline data among a candidate's parts, in order.
pub open spec fn first_inline_in(parts: Seq<Part>) -> Option<Seq<u8>>
    decreases parts.len(),
{
    if parts.len() == 0 {
        None
    } else {
        match parts[0].inline_data {
            Some(d) => Some(d@),
            None => first_inline_in(parts.drop_first()),
        }
    }
}

/// The inline data the reply carries: the first carrying part of the first
/// candidate; later candidates are never consulted.
pub open spec fn first_inline(r: GenResponse) -> Option<Seq<u8>> {
    match r.candidates {
        Some(cs) => if cs@.len() == 0 {
            None
        } else {
            first_inline_in(cs@[0].content.parts@)
        },
        None => None,
    }
}

/// The bytes with every newline removed.
pub open spec fn spec_strip_newlines(s: Seq<u8>) -> Seq<u8>
    decreases s.len(),
{
    if s.len() == 0 {
        Seq::empty()
    } else if s.last() == 10u8 {
        spec_strip_newlines(s.drop_last())
    } else {
        spec_strip_newlines(s.drop_last()).push(s.last())
    }
}

/// Removes the newlines the service wraps its base64 text with.
#[verifier::loop_isolation(false)]
fn strip_newlines(data: &Vec<u8>) -> (out: Vec<u8>)
    ensures
        out@ == spec_strip_newlines(data@),
{
    let n = data.len();
    let mut out: Vec<u8> = Vec::new();
    let mut i: usize = 0;
    while i < n
        invariant
            i <= n,
            out@ == spec_strip_newlines(data@.subrange(0, i as int)),
        decreases n - i,
    {
        let b = data[i];
        proof {
            assert(data@.subrange(0, (i + 1) as int).drop_last() =~= data@.subrange(0, i as int));
        }
        if b != 10 {
            out.push(b);
        }
        i = i + 1;
    }
    proof {
        assert(data@.subrange(0, n as int) =~= data@);
    }
    out
}

/// What base64 decoding yields for a given input: the decoded bytes, or
/// nothing when the decoder rejects the input.
pub uninterp spec fn b64_decode_of(data: Seq<u8>) -> Option<Seq<u8>>;

/// Relies on base64's standard-alphabet engine: the whole outcome,
/// acceptance included, is a function of the input bytes alone, so the
/// call returns exactly the named decode — bytes where the name holds
/// bytes, rejection where it holds nothing.
#[verifier::external_body]
fn decode_base64(data: &Vec<u8>) -> (r: Option<Vec<u8>>)
    ensures
        match r {
            Some(v) => b64_decode_of(data@) == Some(v@),
            None => b64_decode_of(data@) is None,
        },
{
    base64::engine::general_purpose::STANDARD.decode(data.as_slice()).ok()
}

/// Pulls the generated image out of a reply: the first part of the first
/// candidate that carries inline data, stripped of newlines and decoded
/// from base64. Succeeds exactly when such a part exists and the decoder
/// accepts its cleaned data; a reply with no carrying part has no image,
/// and data the decoder rejects is bad base64.
#[verifier::loop_isolation(false)]
pub fn extract_image_bytes(resp: &GenResponse) -> (r: Result<Vec<u8>, GenError>)
    ensures
        match r {
            Ok(bytes) => first_inline(*resp) matches Some(d) && b64_decode_of(
                spec_strip_newlines(d),
            ) == Some(bytes@),
            Err(e) => match e {
                GenError::NoImage => first_inline(*resp) is None,
                GenError::BadBase64 => first_inline(*resp) matches Some(d) && b64_decode_of(
                    spec_strip_newlines(d),
                ) is None,
            },
        },
{
    if resp.candidates.is_none() {
        return Err(GenError::NoImage);
    }
    let cs = resp.candidates.as_ref().unwrap();
    if cs.len() == 0 {
        return Err(GenError::NoImage);
    }
    let parts = &cs[0].content.parts;
    let n = parts.len();
    proof {
        assert(parts@.skip(0) =~= parts@);
    }
    let mut j: usize = 0;
    while j < n
        invariant
            j <= n,
            first_inline_in(parts@.skip(j as int)) == first_inline(*resp),
        decreases n - j,
    {
        proof {
            assert(parts@.skip(j as int)[0] == parts@[j as int]);
        }
        if parts[j].inline_data.is_some() {
            let d = parts[j].inline_data.as_ref().unwrap();
            let clean = strip_newlines(d);
            return match decode_base64(&clean) {
                Some(v) => Ok(v),
                None => Err(GenError::BadBase64),
            };
        }
        proof {
            assert(parts@.skip(j as int).drop_first() =~= parts@.skip(j as int + 1));
        }
        j = j + 1;
    }
    Err(GenError::NoImage)
}

} // verus!
