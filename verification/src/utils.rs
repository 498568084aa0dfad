//! Metadata shown by the command-line front end.

use vstd::prelude::*;

verus! {

/// The maintainer string shown by the command-line help.
pub fn author() -> (r: &'static str)
    ensures
        r@ == "IronC,https://github.com/hxuchen"@,
{
    "IronC,https://github.com/hxuchen"
}

} // verus!
