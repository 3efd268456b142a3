use vstd::prelude::*;
use crate::bytes::{bytes_eq, copy_bytes};
use crate::hexcode::{is_hex, hex_bytes, hex_decode};

verus! {

/// One request header: its lower-case name and its raw value bytes.
pub struct Header {
    pub name: Vec<u8>,
    pub value: Vec<u8>,
}

/// The ghost shape of a `Header`.
pub struct HeaderShape {
    pub name: Seq<u8>,
    pub value: Seq<u8>,
}

impl View for Header {
    type V = HeaderShape;

    open spec fn view(&self) -> HeaderShape {
        HeaderShape { name: self.name@, value: self.value@ }
    }
}

/// The shapes of a run of headers.
pub open spec fn headers_shape(hs: Seq<Header>) -> Seq<HeaderShape> {
    hs.map_values(|h: Header| h@)
}

/// The value of the first header carried under `name`, searched in order.
pub open spec fn header_lookup(hs: Seq<HeaderShape>, name: Seq<u8>) -> Option<Seq<u8>>
    decreases hs.len(),
{
    if hs.len() == 0 {
        Option::None
    } else if hs[0].name == name {
        Option::Some(hs[0].value)
    } else {
        header_lookup(hs.skip(1), name)
    }
}

/// The request method the endpoint accepts, `POST`.
pub open spec fn post_method() -> Seq<u8> {
    seq![80u8, 79, 83, 84]
}

/// The one path the endpoint serves, `/`.
pub open spec fn root_path() -> Seq<u8> {
    seq![47u8]
}

/// The header naming the request's send time, `x-signature-timestamp`.
pub open spec fn timestamp_header() -> Seq<u8> {
    seq![120u8, 45, 115, 105, 103, 110, 97, 116, 117, 114, 101, 45, 116, 105, 109, 101, 115, 116,
        97, 109, 112]
}

/// The header carrying the hex-encoded signature, `x-signature-ed25519`.
pub open spec fn signature_header() -> Seq<u8> {
    seq![120u8, 45, 115, 105, 103, 110, 97, 116, 117, 114, 101, 45, 101, 100, 50, 53, 53, 49, 57]
}

/// What the Request Validator decides.
pub enum Validation {
    /// Every check passed: the timestamp header's raw bytes and the
    /// decoded 64-byte signature.
    Proceed { timestamp: Vec<u8>, signature: Vec<u8> },
    /// Some check failed; the HTTP status that answers the request.
    Reject { status: u16 },
}

/// The ghost shape of a `Validation`.
pub enum ValidationShape {
    Proceed { timestamp: Seq<u8>, signature: Seq<u8> },
    Reject { status: u16 },
}

impl View for Validation {
    type V = ValidationShape;

    open spec fn view(&self) -> ValidationShape {
        match self {
            Validation::Proceed { timestamp, signature } => (ValidationShape::Proceed {
                timestamp: timestamp@,
                signature: signature@,
            }),
            Validation::Reject { status } => (ValidationShape::Reject { status: *status }),
        }
    }
}

/// The Request Validator's decision, checks in this order: 405 unless the
/// method is POST, 404 unless the path is the webhook path, 400 unless
/// both signature headers stand and the signature header is well-formed
/// hexadecimal text for 64 bytes. None of it reads the body.
pub open spec fn spec_validate(method: Seq<u8>, path: Seq<u8>, headers: Seq<HeaderShape>) -> ValidationShape {
    if method != post_method() {
        ValidationShape::Reject { status: 405 }
    } else if path != root_path() {
        ValidationShape::Reject { status: 404 }
    } else {
        match (header_lookup(headers, timestamp_header()), header_lookup(headers, signature_header())) {
            (Option::Some(ts), Option::Some(sig_hex)) => {
                if is_hex(sig_hex) && hex_bytes(sig_hex).len() == 64 {
                    ValidationShape::Proceed { timestamp: ts, signature: hex_bytes(sig_hex) }
                } else {
                    ValidationShape::Reject { status: 400 }
                }
            },
            _ => ValidationShape::Reject { status: 400 },
        }
    }
}

/// Finds the first header of the given name.
fn find_header(headers: &Vec<Header>, name: &[u8]) -> (r: Option<Vec<u8>>)
    ensures
        match r {
            Some(v) => header_lookup(headers_shape(headers@), name@) == Option::Some(v@),
            None => header_lookup(headers_shape(headers@), name@) is None,
        },
{
    let ghost hs = headers_shape(headers@);
    proof {
        assert(hs.skip(0) =~= hs);
    }
    let mut i: usize = 0;
    while i < headers.len()
        invariant
            i <= headers@.len(),
            hs == headers_shape(headers@),
            header_lookup(hs, name@) == header_lookup(hs.skip(i as int), name@),
        decreases headers@.len() - i,
    {
        proof {
            assert(hs.skip(i as int)[0] == headers@[i as int]@);
        }
        if bytes_eq(headers[i].name.as_slice(), name) {
            let v = copy_bytes(headers[i].value.as_slice());
            return Some(v);
        }
        proof {
            assert(hs.skip(i as int).skip(1) =~= hs.skip(i + 1));
        }
        i += 1;
    }
    proof {
        assert(hs.skip(headers@.len() as int).len() == 0);
    }
    None
}

/// The Request Validator: decides from method, path and headers alone
/// whether the request may proceed to signature verification, and with
/// which status it is otherwise answered. The body plays no part.
pub fn validate_request(method: &[u8], path: &[u8], headers: &Vec<Header>) -> (r: Validation)
    ensures
        r@ == spec_validate(method@, path@, headers_shape(headers@)),
{
    let post: Vec<u8> = vec![80u8, 79, 83, 84];
    proof {
        assert(post@ == post_method());
    }
    if !bytes_eq(method, post.as_slice()) {
        proof {
            assert(method@ != post_method());
        }
        return Validation::Reject { status: 405 };
    }
    proof {
        assert(method@ == post_method());
    }
    let root: Vec<u8> = vec![47u8];
    proof {
        assert(root@ == root_path());
    }
    if !bytes_eq(path, root.as_slice()) {
        proof {
            assert(path@ != root_path());
        }
        return Validation::Reject { status: 404 };
    }
    proof {
        assert(path@ == root_path());
    }
    let ts_name: Vec<u8> = vec![120u8, 45, 115, 105, 103, 110, 97, 116, 117, 114, 101, 45, 116,
        105, 109, 101, 115, 116, 97, 109, 112];
    proof {
        assert(ts_name@ == timestamp_header());
    }
    let timestamp = match find_header(headers, ts_name.as_slice()) {
        Some(ts) => ts,
        None => return Validation::Reject { status: 400 },
    };
    let sig_name: Vec<u8> = vec![120u8, 45, 115, 105, 103, 110, 97, 116, 117, 114, 101, 45, 101,
        100, 50, 53, 53, 49, 57];
    proof {
        assert(sig_name@ == signature_header());
    }
    let sig_hex = match find_header(headers, sig_name.as_slice()) {
        Some(s) => s,
        None => return Validation::Reject { status: 400 },
    };
    let signature = match hex_decode(sig_hex.as_slice()) {
        Some(s) => s,
        None => return Validation::Reject { status: 400 },
    };
    if signature.len() != 64 {
        return Validation::Reject { status: 400 };
    }
    Validation::Proceed { timestamp, signature }
}

} // verus!
