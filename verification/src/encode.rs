use vstd::prelude::*;
use crate::router::{InteractionResponse, ResponseShape};

verus! {

/// The ASCII byte of one hexadecimal digit, lower case.
pub open spec fn hex_digit_byte(n: u8) -> u8 {
    if n < 10 {
        (48 + n) as u8
    } else {
        (87 + n) as u8
    }
}

/// One escaped byte of a JSON string: quote and backslash get a leading
/// backslash, a control byte becomes the six-byte `\u00XX` escape, and
/// every other byte stands as itself.
pub open spec fn esc_byte(b: u8) -> Seq<u8> {
    if b == 34 {
        seq![92u8, 34]
    } else if b == 92 {
        seq![92u8, 92]
    } else if b < 32 {
        seq![92u8, 117, 48, 48, hex_digit_byte((b / 16) as u8), hex_digit_byte((b % 16) as u8)]
    } else {
        seq![b]
    }
}

/// A byte string escaped for the inside of a JSON string literal.
pub open spec fn json_escape(s: Seq<u8>) -> Seq<u8>
    decreases s.len(),
{
    if s.len() == 0 {
        Seq::empty()
    } else {
        json_escape(s.drop_last()) + esc_byte(s.last())
    }
}

/// The wire bytes of the Pong reply: the document with type 1.
pub open spec fn pong_bytes() -> Seq<u8> {
    seq![123u8, 34, 116, 121, 112, 101, 34, 58, 49, 125]
}

/// The wire frame of a channel-message reply: the document with type 4
/// whose data carries the escaped content as its one member.
pub open spec fn message_bytes(content: Seq<u8>) -> Seq<u8> {
    seq![
        123u8, 34, 116, 121, 112, 101, 34, 58, 52, 44, 34, 100, 97, 116, 97, 34, 58, 123, 34, 99,
        111, 110, 116, 101, 110, 116, 34, 58, 34,
    ] + json_escape(content) + seq![34u8, 125, 125]
}

/// The wire bytes of any reply.
pub open spec fn spec_encode(r: ResponseShape) -> Seq<u8> {
    match r {
        ResponseShape::Pong => pong_bytes(),
        ResponseShape::ChannelMessageWithSource { content } => message_bytes(content),
    }
}

/// The exec form of `hex_digit_byte`.
fn hex_digit(n: u8) -> (r: u8)
    requires
        n < 16,
    ensures
        r == hex_digit_byte(n),
{
    if n < 10 {
        48 + n
    } else {
        87 + n
    }
}

/// Appends one escaped byte to the output.
fn push_escaped(out: &mut Vec<u8>, b: u8)
    ensures
        final(out)@ == old(out)@ + esc_byte(b),
{
    if b == 34 {
        out.push(92);
        out.push(34);
    } else if b == 92 {
        out.push(92);
        out.push(92);
    } else if b < 32 {
        out.push(92);
        out.push(117);
        out.push(48);
        out.push(48);
        out.push(hex_digit(b / 16));
        out.push(hex_digit(b % 16));
    } else {
        out.push(b);
    }
    proof {
        assert(out@ =~= old(out)@ + esc_byte(b));
    }
}

/// The Response Encoder: the wire bytes of a structured reply. Encoding
/// cannot fail: every reply shape has a wire form.
pub fn encode_response(resp: &InteractionResponse) -> (r: Vec<u8>)
    ensures
        r@ == spec_encode(resp@),
{
    match resp {
        InteractionResponse::Pong => {
            let out: Vec<u8> = vec![123u8, 34, 116, 121, 112, 101, 34, 58, 49, 125];
            proof {
                assert(out@ =~= pong_bytes());
            }
            out
        },
        InteractionResponse::ChannelMessageWithSource { content } => {
            let mut out: Vec<u8> = vec![
                123u8, 34, 116, 121, 112, 101, 34, 58, 52, 44, 34, 100, 97, 116, 97, 34, 58, 123,
                34, 99, 111, 110, 116, 101, 110, 116, 34, 58, 34,
            ];
            let ghost frame = out@;
            let mut k: usize = 0;
            while k < content.len()
                invariant
                    k <= content@.len(),
                    out@ == frame + json_escape(content@.take(k as int)),
                decreases content@.len() - k,
            {
                proof {
                    assert(content@.take(k + 1).drop_last() =~= content@.take(k as int));
                    assert(content@.take(k + 1).last() == content@[k as int]);
                }
                push_escaped(&mut out, content[k]);
                k += 1;
            }
            proof {
                assert(content@.take(content@.len() as int) =~= content@);
            }
            out.push(34);
            out.push(125);
            out.push(125);
            proof {
                assert(out@ =~= message_bytes(content@));
            }
            out
        },
    }
}

} // verus!
