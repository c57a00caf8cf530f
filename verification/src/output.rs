//! What commands print.
use vstd::prelude::*;

verus! {

/// The text that `String::from_utf8_lossy` makes of bytes.
pub uninterp spec fn utf8_lossy(bytes: Seq<u8>) -> Seq<char>;

/// `String::from_utf8_lossy` gives the text whose UTF-8 encoding the bytes are,
/// where they are valid. Of other bytes it makes a text that depends on them
/// alone; where the replacement characters stand in it is left unsaid.
#[verifier::external_body]
fn std_utf8_lossy(bytes: &[u8]) -> (r: String)
    ensures
        r@ == utf8_lossy(bytes@),
        vstd::utf8::valid_utf8(bytes@) ==> vstd::utf8::encode_utf8(r@) == bytes@,
{
    String::from_utf8_lossy(bytes).into_owned()
}

/// What a command has left: whether it succeeded, and what it printed.
#[derive(Clone, Debug, PartialEq, Eq)]
pub struct CommandOutput {
    pub success: bool,
    pub stdout: String,
    pub stderr: String,
}

impl CommandOutput {
    /// Reads the bytes that a command has printed.
    pub fn read(success: bool, stdout: &[u8], stderr: &[u8]) -> (r: CommandOutput)
        ensures
            r.success == success,
            r.stdout@ == utf8_lossy(stdout@),
            r.stderr@ == utf8_lossy(stderr@),
            vstd::utf8::valid_utf8(stdout@) ==> vstd::utf8::encode_utf8(r.stdout@) == stdout@,
            vstd::utf8::valid_utf8(stderr@) ==> vstd::utf8::encode_utf8(r.stderr@) == stderr@,
    {
        CommandOutput { success, stdout: std_utf8_lossy(stdout), stderr: std_utf8_lossy(stderr) }
    }
}

} // verus!
