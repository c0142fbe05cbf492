//! Argument handling: picking the username out of the argument list.

use vstd::prelude::*;
use vstd::string::StringExecFns;

verus! {

/// The message for an invocation with the wrong number of arguments.
pub open spec fn spec_args_error_msg() -> Seq<char> {
    "Invalid number of arguments. Only one argument is needed (the username)."@
}

/// Gets the username provided as an argument. The list holds the program
/// name first; exactly one further argument, the username, is accepted.
pub fn parse_args(args: Vec<String>) -> (r: Result<String, String>)
    ensures
        args@.len() == 2 ==> (r matches Ok(u) && u@ == args@[1]@),
        args@.len() != 2 ==> (r matches Err(m) && m@ == spec_args_error_msg()),
{
    if args.len() != 2 {
        return Err(
            String::from_str(
                "Invalid number of arguments. Only one argument is needed (the username).",
            ),
        );
    }
    Ok(args[1].clone())
}

} // verus!
