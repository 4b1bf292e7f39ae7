//! What the agent asks of the machine it runs on.

use vstd::prelude::*;

verus! {

/// The name of the user that runs this process, as `whoami::username` gives
/// it. Nothing is claimed of the name: it depends on the machine.
#[verifier::external_body]
pub(crate) fn current_username() -> (name: String) {
    whoami::username()
}

/// The real user id of this process, as `nix::unistd::Uid::current` gives it.
/// Nothing is claimed of the number: it depends on how the process was started.
#[verifier::external_body]
pub(crate) fn current_uid() -> (uid: u32) {
    nix::unistd::Uid::current().as_raw()
}

/// The effective user id of this process, as `nix::unistd::Uid::effective`
/// gives it. Nothing is claimed of the number: it depends on how the process
/// was started.
#[verifier::external_body]
pub(crate) fn effective_uid() -> (uid: u32) {
    nix::unistd::Uid::effective().as_raw()
}

} // verus!
