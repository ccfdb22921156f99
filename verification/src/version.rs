//! The version utility: one subcommand, one line of output.

use crate::cstr::{read_token, token};
use vstd::prelude::*;
use vstd::string::StringExecFns;
use vstd::utf8::{decode_utf8, encode_utf8, valid_utf8};

verus! {

broadcast use vstd::utf8::decode_utf8_encode_utf8;

/// What the utility was asked to do.
#[derive(Clone, Copy, Debug, PartialEq, Eq, Structural)]
pub enum Command {
    /// Report the API version that the host library advertises.
    ApiVersion,
}

/// The parsed command line of the version utility.
#[derive(Clone, Copy, Debug, PartialEq, Eq, Structural)]
pub struct Args {
    pub command: Command,
}

/// The text that lossy decoding makes of `bytes`: the text that they encode
/// where they are UTF-8, and otherwise that text with a replacement marker
/// for each stretch that is not.
pub uninterp spec fn utf8_lossy(bytes: Seq<u8>) -> Seq<char>;

/// What stands before the version in the line that reports it.
pub open spec fn version_prefix() -> Seq<char> {
    "libgpiod API version: "@
}

/// Calls `String::from_utf8_lossy` of std and takes the result as an owned
/// string.
///
/// Nothing of this is proved. The contract names the result of the decoding,
/// which depends on the bytes alone, and states the one thing that std's
/// documentation says of it in so many words: bytes that are valid UTF-8 come
/// back as the text that they encode, with nothing replaced.
#[verifier::external_body]
fn from_utf8_lossy(bytes: &[u8]) -> (text: String)
    ensures
        text@ == utf8_lossy(bytes@),
        valid_utf8(bytes@) ==> text@ == decode_utf8(bytes@),
{
    String::from_utf8_lossy(bytes).into_owned()
}

/// Turns the buffer behind the host library's version pointer into an owned
/// string: the token before the terminator, decoded lossily, so that bytes
/// which are not UTF-8 are replaced and never refused.
///
/// Where the token is valid UTF-8, as a version is expected to be, the bytes
/// of the string are exactly the token.
pub fn decode_version(buffer: &[u8]) -> (version: String)
    ensures
        version@ == utf8_lossy(token(buffer@)),
        valid_utf8(token(buffer@)) ==> version@ == decode_utf8(token(buffer@)) && encode_utf8(
            version@,
        ) == token(buffer@),
{
    from_utf8_lossy(read_token(buffer))
}

/// The line that reports `version`.
pub fn version_line(version: &str) -> (line: String)
    ensures
        line@ == version_prefix() + version@,
{
    let mut line = String::from_str("libgpiod API version: ");
    line.append(version);
    line
}

impl Args {
    /// The line that the utility writes to standard output for this command
    /// line, given the version that the host library advertises.
    pub fn report(&self, version: &str) -> (line: String)
        ensures
            line@ == match self.command {
                Command::ApiVersion => version_prefix() + version@,
            },
    {
        match self.command {
            Command::ApiVersion => version_line(version),
        }
    }
}

} // verus!
