//! The `X-Registry-Auth` header value: an opaque credential payload held in
//! decoded form, converted to and from its base64 wire representation.

use vstd::prelude::*;
use vstd::string::StringExecFns;
use vstd::utf8::encode_utf8;

use crate::codec::b64_decode;
use crate::codec::b64_decode_of;
use crate::codec::b64_encode;
use crate::codec::b64_encode_of;
use crate::codec::lossy_of;
use crate::codec::utf8_lossy;

verus! {

/// The canonical field name of this header.
pub open spec fn spec_header_name() -> Seq<char> {
    "X-Registry-Auth"@
}

/// The wire form of a payload: standard base64 of its UTF-8 bytes.
pub open spec fn wire_of(payload: Seq<char>) -> Seq<char> {
    b64_encode_of(encode_utf8(payload))
}

/// The result of parsing one raw header value: the lossy UTF-8 reading of its
/// base64 decoding, or `None` when the value is not valid standard base64.
pub open spec fn parse_of(value: Seq<char>) -> Option<Seq<char>> {
    match b64_decode_of(value) {
        Some(bytes) => Some(lossy_of(bytes)),
        None => None,
    }
}

/// The single outbound header line of a payload: `X-Registry-Auth: ` followed
/// by the payload's wire form.
pub open spec fn line_of(payload: Seq<char>) -> Seq<char> {
    spec_header_name() + ": "@ + wire_of(payload)
}

/// Failure of header parsing: a missing, repeated, or undecodable value.
#[derive(Debug, Clone, Copy, PartialEq, Eq, Structural)]
pub enum HeaderError {
    Malformed,
}

/// The `X-Registry-Auth` HTTP header.
///
/// Holds the raw payload in decoded form; base64 encoding happens only when
/// producing the wire form, decoding only when parsing one.
#[derive(Debug, Clone)]
pub struct XRegistryAuth {
    /// The decoded payload. Its meaning is the caller's business: typically a
    /// serialized credential record.
    body: String,
}

impl View for XRegistryAuth {
    type V = Seq<char>;

    closed spec fn view(&self) -> Seq<char> {
        self.body@
    }
}

impl XRegistryAuth {
    /// Wraps a payload unchanged. Any string is accepted: the payload is
    /// opaque to this type.
    pub fn new(body: String) -> (r: Self)
        ensures
            r@ == body@,
    {
        Self { body }
    }

    /// The decoded payload.
    pub fn body(&self) -> (r: &str)
        ensures
            r@ == self@,
    {
        self.body.as_str()
    }

    /// The header's field name, the same for every value of this type.
    pub fn header_name() -> (r: &'static str)
        ensures
            r@ == spec_header_name(),
    {
        "X-Registry-Auth"
    }

    /// Encodes the payload for the wire: standard base64, with padding.
    /// Total and deterministic: the result depends on the payload alone.
    pub fn to_wire(&self) -> (r: String)
        ensures
            r@ == wire_of(self@),
    {
        b64_encode(self.body.as_str().as_bytes())
    }

    /// Formats the one `name: value` line that carries this header in an
    /// outbound message. The surrounding transport appends it verbatim.
    pub fn header_line(&self) -> (r: String)
        ensures
            r@ == line_of(self@),
    {
        let mut line = Self::header_name().to_owned();
        line.append(": ");
        let wire = self.to_wire();
        line.append(wire.as_str());
        proof {
            assert(line@ =~= line_of(self@));
        }
        line
    }

    /// Parses the raw values found under this header's name. Succeeds exactly
    /// when there is one value and it is valid standard base64; the decoded
    /// bytes are read as UTF-8 with lossy substitution, so decoding itself
    /// never fails on malformed UTF-8. In particular, parsing a payload's own
    /// wire form gives that payload back.
    pub fn parse_header(raw: &Vec<String>) -> (r: Result<Self, HeaderError>)
        ensures
            raw@.len() != 1 ==> r == Err::<Self, HeaderError>(HeaderError::Malformed),
            raw@.len() == 1 ==> match r {
                Ok(h) => parse_of(raw@[0]@) == Some(h@),
                Err(e) => parse_of(raw@[0]@) is None && e == HeaderError::Malformed,
            },
            forall|p: Seq<char>|
                raw@.len() == 1 && raw@[0]@ == #[trigger] wire_of(p) ==> (r matches Ok(h)
                    && h@ == p),
    {
        if raw.len() != 1 {
            return Err(HeaderError::Malformed);
        }
        let value: &String = &raw[0];
        match b64_decode(value.as_str()) {
            Some(bytes) => {
                let body = utf8_lossy(bytes.as_slice());
                proof {
                    assert forall|p: Seq<char>| value@ == wire_of(p) implies body@ == p by {
                        vstd::utf8::encode_utf8_valid_utf8(p);
                        vstd::utf8::encode_utf8_decode_utf8(p);
                    }
                }
                Ok(Self { body })
            },
            None => {
                proof {
                    // A wire form always decodes, so no payload's wire form
                    // can have landed here.
                    assert forall|p: Seq<char>| value@ != wire_of(p) by {
                        assert(value@ == wire_of(p) ==> value@ == b64_encode_of(encode_utf8(p)));
                    }
                }
                Err(HeaderError::Malformed)
            },
        }
    }
}

/// Encoding is deterministic: the wire form is a function of the payload
/// alone, so two values holding equal payloads always encode to the same
/// text, byte for byte.
pub proof fn lemma_to_wire_deterministic(a: &XRegistryAuth, b: &XRegistryAuth)
    requires
        a@ == b@,
    ensures
        wire_of(a@) == wire_of(b@),
{
}

} // verus!
