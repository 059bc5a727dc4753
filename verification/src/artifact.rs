//! The artifact of a build: where it is expected, whether it is there, and
//! how it is encoded for transport.

use std::path::PathBuf;
use vstd::prelude::*;
use vstd::string::StringExecFns;

verus! {

/// Makes `std::path::PathBuf` known as a type whose inside is not looked at.
#[verifier::external_type_specification]
#[verifier::external_body]
pub struct ExPathBuf(std::path::PathBuf);

/// Where the compiler leaves the artifact, relative to the workspace root.
pub open spec fn artifact_subpath() -> Seq<char> {
    "target/deploy/solana_workspace.so"@
}

/// Where the compiler leaves the artifact, relative to the workspace root.
pub fn artifact_location() -> (subpath: String)
    ensures
        subpath@ == artifact_subpath(),
{
    String::from_str("target/deploy/solana_workspace.so")
}

/// Asks the file system whether anything stands at `path`.
///
/// Trusted: `Path::exists` of std. The answer depends on what is on disk, so
/// nothing is claimed of it.
#[verifier::external_body]
fn path_exists(path: &PathBuf) -> bool {
    path.exists()
}

/// Whether the artifact stands at `path` now. The answer holds for the
/// moment of the call only: the coordinator decides on it for either value.
pub fn callback_binary_exists(path: &PathBuf) -> (found: bool) {
    path_exists(path)
}

/// The standard base64 text of a sequence of bytes, with padding.
pub uninterp spec fn base64_text(bytes: Seq<u8>) -> Seq<char>;

/// The length of the padded base64 text of `n` bytes: four characters for
/// every three bytes, begun or whole.
pub open spec fn encoded_length(n: nat) -> nat {
    4 * ((n + 2) / 3)
}

/// Encodes bytes as standard base64.
///
/// Trusted: `Engine::encode` of the base64 crate on its `STANDARD` engine.
/// The contract names the result, which depends on the bytes alone, and
/// gives its length, which the engine computes before it encodes. The call
/// panics where that length does not fit in `usize`; the bound on the input
/// keeps it well below that.
#[verifier::external_body]
pub(crate) fn encode_standard(bytes: &[u8]) -> (text: String)
    requires
        bytes@.len() <= isize::MAX,
    ensures
        text@ == base64_text(bytes@),
        text@.len() == encoded_length(bytes@.len()),
{
    base64::Engine::encode(&base64::engine::general_purpose::STANDARD, bytes)
}

} // verus!
