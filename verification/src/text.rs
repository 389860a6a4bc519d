use vstd::prelude::*;
use vstd::string::StringExecFns;

verus! {

/// The greeting built around a name: `"Hi, "`, the name, `"!"`.
pub open spec fn greeting_of(name: Seq<char>) -> Seq<char> {
    "Hi, "@ + name + "!"@
}

/// Wraps a name in the fixed greeting.
pub fn greet(name: String) -> (r: String)
    ensures
        r@ == greeting_of(name@),
{
    let mut s = "Hi, ".to_owned();
    s.append(name.as_str());
    s.append("!");
    proof {
        assert(s@ =~= greeting_of(name@));
    }
    s
}

} // verus!
