use vstd::prelude::*;
use crate::jsonval::{JsonShape, json_of, json_parse, json_get, json_as_u64, json_text_bytes};

verus! {

/// A single authenticated inbound event, after decoding. Never built from
/// bytes whose signature did not verify.
pub enum Interaction {
    /// The platform's health check of the endpoint.
    Ping,
    /// A user invoked the named command.
    ApplicationCommand { name: Vec<u8> },
    /// A well-formed interaction of a kind this core does not handle.
    Other,
}

/// The ghost shape of an `Interaction`.
pub enum InteractionShape {
    Ping,
    ApplicationCommand { name: Seq<u8> },
    Other,
}

impl View for Interaction {
    type V = InteractionShape;

    open spec fn view(&self) -> InteractionShape {
        match self {
            Interaction::Ping => InteractionShape::Ping,
            Interaction::ApplicationCommand { name } => InteractionShape::ApplicationCommand {
                name: name@,
            },
            Interaction::Other => InteractionShape::Other,
        }
    }
}

/// An authenticated body that is not a JSON document, or whose document
/// does not carry any known interaction shape.
#[derive(PartialEq, Eq, Structural)]
pub struct DecodeError;

/// What the command member of a `type` 2 document decodes to: the command
/// name from `data.name`, or a refusal where that path is missing.
pub open spec fn spec_decode_command(members: Map<Seq<char>, JsonShape>) -> Result<
    InteractionShape,
    DecodeError,
> {
    if members.contains_key("data"@) {
        match members["data"@] {
            JsonShape::Object { members: data } => {
                if data.contains_key("name"@) {
                    match data["name"@] {
                        JsonShape::Text { bytes } => Result::Ok(
                            InteractionShape::ApplicationCommand { name: bytes },
                        ),
                        _ => Result::Err(DecodeError),
                    }
                } else {
                    Result::Err(DecodeError)
                }
            },
            _ => Result::Err(DecodeError),
        }
    } else {
        Result::Err(DecodeError)
    }
}

/// What decoding makes of the parse of an authenticated body: the
/// document must be an object whose `type` member is a number; 1 is the
/// ping, 2 a command carrying `data.name`, any other number a kind this
/// core does not handle.
pub open spec fn spec_decode(doc: Option<JsonShape>) -> Result<InteractionShape, DecodeError> {
    match doc {
        Option::None => Result::Err(DecodeError),
        Option::Some(shape) => match shape {
            JsonShape::Object { members } => {
                if members.contains_key("type"@) {
                    match members["type"@] {
                        JsonShape::UInt { n } => {
                            if n == 1 {
                                Result::Ok(InteractionShape::Ping)
                            } else if n == 2 {
                                spec_decode_command(members)
                            } else {
                                Result::Ok(InteractionShape::Other)
                            }
                        },
                        _ => Result::Err(DecodeError),
                    }
                } else {
                    Result::Err(DecodeError)
                }
            },
            _ => Result::Err(DecodeError),
        },
    }
}

/// The shape of a decoder's answer.
pub open spec fn decode_shape(r: Result<Interaction, DecodeError>) -> Result<
    InteractionShape,
    DecodeError,
> {
    match r {
        Result::Ok(i) => Result::Ok(i@),
        Result::Err(e) => Result::Err(e),
    }
}

/// The Interaction Decoder: reads the interaction an authenticated body
/// carries. Only bytes whose signature verified ever reach it.
pub fn decode_interaction(body: &[u8]) -> (r: Result<Interaction, DecodeError>)
    ensures
        decode_shape(r) == spec_decode(json_of(body@)),
{
    let parsed = match json_parse(body) {
        Some(v) => v,
        None => return Err(DecodeError),
    };
    let type_member = match json_get(&parsed, "type") {
        Some(t) => t,
        None => return Err(DecodeError),
    };
    let kind = match json_as_u64(type_member) {
        Some(n) => n,
        None => return Err(DecodeError),
    };
    if kind == 1 {
        return Ok(Interaction::Ping);
    }
    if kind != 2 {
        return Ok(Interaction::Other);
    }
    let data = match json_get(&parsed, "data") {
        Some(d) => d,
        None => return Err(DecodeError),
    };
    let name_member = match json_get(data, "name") {
        Some(m) => m,
        None => return Err(DecodeError),
    };
    match json_text_bytes(name_member) {
        Some(name) => Ok(Interaction::ApplicationCommand { name }),
        None => Err(DecodeError),
    }
}

} // verus!
