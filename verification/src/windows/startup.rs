//! Launch at login: one value under the user's `Run` key. The registry is
//! read and written at the edge; the command line it stores is built here.
use vstd::prelude::*;
use vstd::string::StringExecFns;

pub use crate::text::wide;

verus! {

/// The command line the `Run` entry stores for an executable path: the path in
/// double quotes, because it routinely contains spaces.
pub open spec fn spec_launch_command(exe: Seq<char>) -> Seq<char> {
    seq!['"'] + exe + seq!['"']
}

/// The command line for the running executable's path, or `None` when the path
/// could not be learned.
pub fn launch_command(exe: Option<&str>) -> (r: Option<String>)
    ensures
        match exe {
            Some(p) => r is Some && r.unwrap()@ == spec_launch_command(p@),
            None => r is None,
        },
{
    match exe {
        Some(p) => {
            let mut r = "\"".to_owned();
            proof {
                reveal_strlit("\"");
            }
            r.append(p);
            r.append("\"");
            assert(r@ =~= spec_launch_command(p@));
            Some(r)
        },
        None => None,
    }
}

} // verus!
