use vstd::prelude::*;
use vstd::string::StringExecFns;
use vstd::utf8::*;

use crate::boundary::{is_terminated, text_before_terminator, to_owned_text, ConversionError};

verus! {

/// The line that reports a flow's resolved service.
pub open spec fn service_line(name: Seq<char>) -> Seq<char> {
    "service name is "@ + name
}

/// A service report line ends with the service name, character for
/// character.
pub proof fn lemma_service_line_holds_name(name: Seq<char>)
    ensures
        service_line(name).subrange(
            "service name is "@.len() as int,
            service_line(name).len() as int,
        ) == name,
{
    assert(service_line(name).subrange(
        "service name is "@.len() as int,
        service_line(name).len() as int,
    ) =~= name);
}

/// What handling a service event gives for the buffer that the host's
/// lookup returned: the report line, or the reason the name is unusable.
pub open spec fn service_outcome(service_buf: Seq<u8>) -> Result<Seq<char>, ConversionError> {
    let text = text_before_terminator(service_buf);
    if valid_utf8(text) {
        Ok(service_line(decode_utf8(text)))
    } else {
        Err(ConversionError::InvalidEncoding)
    }
}

/// Writes the report line of a resolved service name.
pub fn service_report(name: &str) -> (r: String)
    ensures
        r@ == service_line(name@),
{
    let mut line = String::from_str("service name is ");
    line.append(name);
    line
}

/// Handles a service-identification event, given the buffer that the host's
/// lookup returned for the event's flow.
pub fn handle_event(service_buf: &[u8]) -> (r: Result<String, ConversionError>)
    requires
        is_terminated(service_buf@),
    ensures
        r matches Ok(line) ==> service_outcome(service_buf@) == Ok::<Seq<char>, ConversionError>(
            line@,
        ),
        r matches Err(e) ==> service_outcome(service_buf@) == Err::<Seq<char>, ConversionError>(e),
{
    match to_owned_text(service_buf) {
        Ok(name) => Ok(service_report(name.as_str())),
        Err(e) => Err(e),
    }
}

} // verus!
