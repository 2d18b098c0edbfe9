//! The stateless command handlers' decisions and reply texts: `ping`, and
//! the argument handling of `nick`. The `ngg` command's whole session lives
//! in `game`.

use vstd::prelude::*;
use crate::text::eq_ignore_case;
use crate::text::matches_ci;

verus! {

/// The reply of the `ping` command.
pub fn ping_reply() -> (r: String)
    ensures
        r@ == "Pong!"@,
{
    "Pong!".to_owned()
}

/// What the `nick` command decides from its argument text.
#[derive(Clone, Copy, PartialEq, Eq, Structural, Debug)]
pub enum NickPlan {
    /// Clear the nickname back to the default.
    Reset,
    /// Change the nickname to the argument text.
    Change,
}

/// Decides the `nick` command's action: `reset`, case-insensitively, clears
/// the nickname; any other argument text becomes the new nickname.
pub fn nick_plan(args: &str) -> (r: NickPlan)
    ensures
        (r == NickPlan::Reset) == matches_ci(args@, "reset"@),
        (r == NickPlan::Change) == !matches_ci(args@, "reset"@),
{
    if eq_ignore_case(args, "reset") {
        NickPlan::Reset
    } else {
        NickPlan::Change
    }
}

/// The acknowledgement the `nick` command replies with.
pub fn nick_ack(args: &str) -> (r: String)
    ensures
        matches_ci(args@, "reset"@) ==> r@ == "Reset my nickname"@,
        !matches_ci(args@, "reset"@) ==> r@ == "Changed my nickname to `\""@ + args@ + "\"`"@,
{
    match nick_plan(args) {
        NickPlan::Reset => "Reset my nickname".to_owned(),
        NickPlan::Change => {
            let mut t = "Changed my nickname to `\"".to_owned();
            t.append(args);
            t.append("\"`");
            proof {
                assert(t@ =~= "Changed my nickname to `\""@ + args@ + "\"`"@);
            }
            t
        },
    }
}

} // verus!
