//! The client-facing side: message shapes and line framing.
//!
//! The client and the adapter exchange one JSON document per line.  Reading
//! the bytes and parsing them as JSON is left to the caller; what a read
//! amounts to, and what is written for a message, is decided here.

pub mod messages;

use crate::json::JsonValue;
use crate::protocol::messages::{optional_message, JsonRpcMessage, MessageView};
use crate::text::{contains, has_infix, occurs_at, optional_text};
use vstd::prelude::*;
use vstd::string::StringExecFns;

verus! {

/// Why nothing was received.  A line that is no message fails the one
/// receive that read it; a stream that cannot be read is at its end.
#[derive(Clone, Copy, Debug, PartialEq, Eq, Structural)]
pub enum TransportError {
    /// The stream could not be read.
    ReadFailed,
    /// The line is no JSON document.
    Malformed,
    /// The line is a JSON document and none of the three envelopes.
    Unrecognized,
}

/// What came of reading one line from the client.
#[derive(Debug, PartialEq, Eq)]
pub enum LineRead {
    /// The read failed.
    Failed,
    /// The read brought `bytes` bytes; `document` is the line parsed as JSON,
    /// or `None` where it is no JSON document.
    Read { bytes: usize, document: Option<JsonValue> },
}

/// The connection to the client, as far as it is a matter of rules: the
/// streams themselves belong to whoever reads and writes them.
#[derive(Clone, Copy, Debug, PartialEq, Eq, Structural)]
pub struct AcpConnection {}

impl AcpConnection {
    /// What a read amounts to.  A read of no bytes is the end of the stream;
    /// any other line has to be a JSON document that is one of the three
    /// envelopes, and is a failure of this receive otherwise.
    pub open spec fn received(read: LineRead) -> Result<Option<MessageView>, TransportError> {
        match read {
            LineRead::Failed => Err(TransportError::ReadFailed),
            LineRead::Read { bytes, document } => if bytes == 0 {
                Ok(None)
            } else {
                match document {
                    None => Err(TransportError::Malformed),
                    Some(doc) => match MessageView::decode(doc@) {
                        Some(message) => Ok(Some(message)),
                        None => Err(TransportError::Unrecognized),
                    },
                }
            },
        }
    }

    /// The line that carries `serialized`: the document and one newline.
    /// There is none for a text that holds a newline itself, which would be
    /// read back as more than one line.
    pub open spec fn framed(serialized: Seq<char>) -> Option<Seq<char>> {
        if has_infix(serialized, "\n"@) {
            None
        } else {
            Some(serialized + "\n"@)
        }
    }

    /// The message that a read brought, `None` at the end of the stream.
    pub fn receive(read: LineRead) -> (received: Result<Option<JsonRpcMessage>, TransportError>)
        ensures
            match received {
                Ok(message) => Self::received(read) == Ok::<
                    Option<MessageView>,
                    TransportError,
                >(optional_message(message)),
                Err(e) => Self::received(read) == Err::<Option<MessageView>, TransportError>(e),
            },
    {
        match read {
            LineRead::Failed => Err(TransportError::ReadFailed),
            LineRead::Read { bytes, document } => {
                if bytes == 0 {
                    return Ok(None);
                }
                match document {
                    None => Err(TransportError::Malformed),
                    Some(doc) => match JsonRpcMessage::from_json(&doc) {
                        Ok(message) => Ok(Some(message)),
                        Err(_) => Err(TransportError::Unrecognized),
                    },
                }
            },
        }
    }

    /// The document that is to be serialized and written for `message`.
    pub fn send(message: JsonRpcMessage) -> (doc: JsonValue)
        ensures
            doc@ == message@.json(),
    {
        message.into_json()
    }

    /// The line that is to be written for the serialized document, if it
    /// fits on one.
    pub fn frame(serialized: &str) -> (line: Option<String>)
        ensures
            optional_text(line) == Self::framed(serialized@),
    {
        if contains(serialized, "\n") {
            return None;
        }
        let mut line = serialized.to_owned();
        line.append("\n");
        Some(line)
    }
}

/// A framed line is one line: it ends with a newline and holds no other.
pub proof fn lemma_framed_line_is_one_line(serialized: Seq<char>)
    requires
        AcpConnection::framed(serialized) is Some,
    ensures
        ({
            let line = AcpConnection::framed(serialized)->0;
            &&& line.len() == serialized.len() + 1
            &&& line.last() == '\n'
            &&& forall|i: int| 0 <= i < line.len() - 1 ==> line[i] != '\n'
        }),
{
    reveal_strlit("\n");
    let line = AcpConnection::framed(serialized)->0;
    assert forall|i: int| 0 <= i < line.len() - 1 implies line[i] != '\n' by {
        if line[i] == '\n' {
            assert(serialized.subrange(i, i + 1) =~= "\n"@);
            assert(occurs_at(serialized, "\n"@, i));
        }
    }
}

} // verus!
