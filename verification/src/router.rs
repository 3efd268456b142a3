use vstd::prelude::*;
use crate::bytes::{bytes_eq, copy_bytes};
use crate::interaction::{Interaction, InteractionShape};

verus! {

/// A structured reply to an authenticated interaction.
pub enum InteractionResponse {
    /// The fixed answer to a `Ping`.
    Pong,
    /// A visible message answering a command; `content` is its text as
    /// UTF-8 bytes.
    ChannelMessageWithSource { content: Vec<u8> },
}

/// The ghost shape of an `InteractionResponse`.
pub enum ResponseShape {
    Pong,
    ChannelMessageWithSource { content: Seq<u8> },
}

impl View for InteractionResponse {
    type V = ResponseShape;

    open spec fn view(&self) -> ResponseShape {
        match self {
            InteractionResponse::Pong => ResponseShape::Pong,
            InteractionResponse::ChannelMessageWithSource { content } => (
            ResponseShape::ChannelMessageWithSource { content: content@ }),
        }
    }
}

/// A command handler failed. The handlers of this core never do, but the
/// router's contract reserves the outcome.
#[derive(PartialEq, Eq, Structural)]
pub struct HandlerError;

/// The name of the one specifically routed command, `vroom`.
pub open spec fn vroom_name() -> Seq<u8> {
    seq![118u8, 114, 111, 111, 109]
}

/// The fixed reply text of the `vroom` command, `Vroom vroom`.
pub open spec fn vroom_content() -> Seq<u8> {
    seq![86u8, 114, 111, 111, 109, 32, 118, 114, 111, 111, 109]
}

/// What the fallback handler echoes for an interaction: the command name
/// for a command, a fixed word for anything else.
pub open spec fn echoed_text(i: InteractionShape) -> Seq<u8> {
    match i {
        InteractionShape::ApplicationCommand { name } => name,
        InteractionShape::Ping => seq![80u8, 105, 110, 103],
        InteractionShape::Other => seq![79u8, 116, 104, 101, 114],
    }
}

/// The fallback handler's reply text: the echoed interaction fenced as a
/// code block, a backquote fence and `rust` above, a fence below.
pub open spec fn debug_content(i: InteractionShape) -> Seq<u8> {
    seq![96u8, 96, 96, 114, 117, 115, 116, 10] + echoed_text(i) + seq![10u8, 96, 96, 96]
}

/// What the Command Router answers: a command named `vroom` gets the fixed
/// reply, every other command falls back to the echo of the fallback
/// handler, and anything that is not a command is refused.
pub open spec fn spec_handler(i: InteractionShape) -> Result<ResponseShape, HandlerError> {
    match i {
        InteractionShape::ApplicationCommand { name } => {
            if name == vroom_name() {
                Result::Ok(ResponseShape::ChannelMessageWithSource { content: vroom_content() })
            } else {
                Result::Ok(ResponseShape::ChannelMessageWithSource { content: debug_content(i) })
            }
        },
        _ => Result::Err(HandlerError),
    }
}

/// The shape of a handler's answer.
pub open spec fn handler_shape(r: Result<InteractionResponse, HandlerError>) -> Result<
    ResponseShape,
    HandlerError,
> {
    match r {
        Result::Ok(resp) => Result::Ok(resp@),
        Result::Err(e) => Result::Err(e),
    }
}

/// The `vroom` command: replies with the fixed `Vroom vroom` message,
/// whatever the interaction carried.
pub fn vroom(_i: &Interaction) -> (r: Result<InteractionResponse, HandlerError>)
    ensures
        r matches Ok(resp) && resp@ == (ResponseShape::ChannelMessageWithSource {
            content: vroom_content(),
        }),
{
    let content: Vec<u8> = vec![86u8, 114, 111, 111, 109, 32, 118, 114, 111, 111, 109];
    Ok(InteractionResponse::ChannelMessageWithSource { content })
}

/// The fallback handler: echoes the interaction it was handed inside a
/// code block.
pub fn debug(i: &Interaction) -> (r: Result<InteractionResponse, HandlerError>)
    ensures
        r matches Ok(resp) && resp@ == (ResponseShape::ChannelMessageWithSource {
            content: debug_content(i@),
        }),
{
    let mut content: Vec<u8> = vec![96u8, 96, 96, 114, 117, 115, 116, 10];
    let echoed: Vec<u8> = match i {
        Interaction::ApplicationCommand { name } => copy_bytes(name.as_slice()),
        Interaction::Ping => vec![80u8, 105, 110, 103],
        Interaction::Other => vec![79u8, 116, 104, 101, 114],
    };
    let mut k: usize = 0;
    while k < echoed.len()
        invariant
            k <= echoed@.len(),
            echoed@ == echoed_text(i@),
            content@ == seq![96u8, 96, 96, 114, 117, 115, 116, 10] + echoed@.take(k as int),
        decreases echoed@.len() - k,
    {
        proof {
            assert(echoed@.take(k + 1) =~= echoed@.take(k as int).push(echoed@[k as int]));
        }
        content.push(echoed[k]);
        k += 1;
    }
    proof {
        assert(echoed@.take(echoed@.len() as int) =~= echoed@);
    }
    content.push(10);
    content.push(96);
    content.push(96);
    content.push(96);
    proof {
        assert(content@ =~= debug_content(i@));
    }
    Ok(InteractionResponse::ChannelMessageWithSource { content })
}

/// The Command Router: looks the command's name up, case-sensitively, and
/// runs its handler; an unknown name falls back to the echo handler
/// rather than failing.
pub fn handler(i: &Interaction) -> (r: Result<InteractionResponse, HandlerError>)
    ensures
        handler_shape(r) == spec_handler(i@),
{
    match i {
        Interaction::ApplicationCommand { name } => {
            let vroom_word: Vec<u8> = vec![118u8, 114, 111, 111, 109];
            if bytes_eq(name.as_slice(), vroom_word.as_slice()) {
                vroom(i)
            } else {
                debug(i)
            }
        },
        _ => Err(HandlerError),
    }
}

} // verus!
