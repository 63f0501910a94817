//! What this library assumes of redis's command builder.

use vstd::prelude::*;
use vstd::string::StringSliceAdditionalSpecFns;

verus! {

#[verifier::external_type_specification]
#[verifier::external_body]
pub struct ExCmd(redis::Cmd);

/// The positional arguments that a command holds, the command name first,
/// each as the bytes that go on the wire.
pub uninterp spec fn cmd_args(c: redis::Cmd) -> Seq<Seq<u8>>;

/// Relies on `redis::cmd`: a fresh command whose only argument is the bytes
/// of `name`.
#[verifier::external_body]
pub(crate) fn new_command(name: &str) -> (r: redis::Cmd)
    ensures
        cmd_args(r) == seq![name.spec_bytes()],
{
    redis::cmd(name)
}

/// Relies on `redis::Cmd::arg` for a byte slice, which writes the slice as one
/// more argument after those already there.
#[verifier::external_body]
pub(crate) fn push_arg(c: &mut redis::Cmd, a: &[u8])
    ensures
        cmd_args(*final(c)) == cmd_args(*old(c)).push(a@),
{
    c.arg(a);
}

} // verus!
