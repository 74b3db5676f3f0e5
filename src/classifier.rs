use vstd::prelude::*;
use vstd::string::StringExecFns;
use vstd::utf8::*;

use crate::boundary::{
    is_terminated, text_before_terminator, to_owned_text, ConversionError,
};
use crate::report::{flag_text, push_flag};

verus! {

/// The line that reports a packet's classification.
pub open spec fn packet_line(client_orig: bool, has_ip: bool, tcp: bool, of_type: Seq<char>) -> Seq<
    char,
> {
    "machinery in place "@ + flag_text(client_orig) + ", "@ + flag_text(has_ip) + ", "@
        + flag_text(tcp) + " "@ + of_type
}

/// What evaluating a packet with these attributes and this type-name buffer
/// gives: its report line, or the reason its type name is unusable.
pub open spec fn packet_outcome(client_orig: bool, has_ip: bool, tcp: bool, type_buf: Seq<u8>) -> Result<
    Seq<char>,
    ConversionError,
> {
    let text = text_before_terminator(type_buf);
    if valid_utf8(text) {
        Ok(packet_line(client_orig, has_ip, tcp, decode_utf8(text)))
    } else {
        Err(ConversionError::InvalidEncoding)
    }
}

/// Two packets whose attributes agree, down to the text of their type names,
/// are evaluated alike, whatever their buffers hold past the terminator.
pub proof fn lemma_evaluation_depends_on_attributes(
    client_orig: bool,
    has_ip: bool,
    tcp: bool,
    type_buf_a: Seq<u8>,
    type_buf_b: Seq<u8>,
)
    requires
        is_terminated(type_buf_a),
        is_terminated(type_buf_b),
        text_before_terminator(type_buf_a) == text_before_terminator(type_buf_b),
    ensures
        packet_outcome(client_orig, has_ip, tcp, type_buf_a) == packet_outcome(
            client_orig,
            has_ip,
            tcp,
            type_buf_b,
        ),
{
}

/// The attributes read off one packet, with its type name as owned text.
pub struct PacketSummary {
    /// The packet came from the side that opened the flow.
    pub client_orig: bool,
    /// The packet carries an IP header.
    pub has_ip: bool,
    /// The packet's transport is TCP.
    pub tcp: bool,
    /// The packet's decoded type.
    pub of_type: String,
}

impl PacketSummary {
    /// The report line of this summary.
    pub open spec fn line(&self) -> Seq<char> {
        packet_line(self.client_orig, self.has_ip, self.tcp, self.of_type@)
    }

    /// Writes the report line of this summary.
    pub fn report(&self) -> (r: String)
        ensures
            r@ == self.line(),
    {
        let mut line = String::from_str("machinery in place ");
        push_flag(&mut line, self.client_orig);
        line.append(", ");
        push_flag(&mut line, self.has_ip);
        line.append(", ");
        push_flag(&mut line, self.tcp);
        line.append(" ");
        line.append(self.of_type.as_str());
        line
    }
}

/// Gathers a packet's attributes, converting its type-name buffer to owned
/// text.
pub fn classify(client_orig: bool, has_ip: bool, tcp: bool, type_buf: &[u8]) -> (r: Result<
    PacketSummary,
    ConversionError,
>)
    requires
        is_terminated(type_buf@),
    ensures
        r is Ok <==> valid_utf8(text_before_terminator(type_buf@)),
        r matches Ok(p) ==> {
            &&& p.client_orig == client_orig
            &&& p.has_ip == has_ip
            &&& p.tcp == tcp
            &&& encode_utf8(p.of_type@) == text_before_terminator(type_buf@)
            &&& p.of_type@ == decode_utf8(text_before_terminator(type_buf@))
        },
        r matches Err(e) ==> e == ConversionError::InvalidEncoding,
{
    match to_owned_text(type_buf) {
        Ok(of_type) => Ok(PacketSummary { client_orig, has_ip, tcp, of_type }),
        Err(e) => Err(e),
    }
}

/// Evaluates one packet: its report line, or the reason its type name could
/// not be read.
pub fn eval_packet(client_orig: bool, has_ip: bool, tcp: bool, type_buf: &[u8]) -> (r: Result<
    String,
    ConversionError,
>)
    requires
        is_terminated(type_buf@),
    ensures
        r matches Ok(line) ==> packet_outcome(client_orig, has_ip, tcp, type_buf@) == Ok::<
            Seq<char>,
            ConversionError,
        >(line@),
        r matches Err(e) ==> packet_outcome(client_orig, has_ip, tcp, type_buf@) == Err::<
            Seq<char>,
            ConversionError,
        >(e),
{
    match classify(client_orig, has_ip, tcp, type_buf) {
        Ok(summary) => Ok(summary.report()),
        Err(e) => Err(e),
    }
}

} // verus!
