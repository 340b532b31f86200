//! Command-line options of the server.
use vstd::prelude::*;

use crate::text::str_eq;

verus! {

/// The value after the first occurrence of `flag` that has a value after it,
/// or `default`. `args` are the words of the command line, program name first.
pub fn parse_arg(args: &[String], flag: &str, default: &str) -> (r: String)
    ensures
        forall|i: int|
            0 <= i && i + 1 < args@.len() && #[trigger] args@[i]@ == flag@ && (forall|j: int|
                0 <= j < i ==> args@[j]@ != flag@) ==> r@ == args@[i + 1]@,
        (forall|i: int| 0 <= i && i + 1 < args@.len() ==> #[trigger] args@[i]@ != flag@) ==> r@
            == default@,
{
    let n = args.len();
    let mut i: usize = 0;
    while i < n && i + 1 < n
        invariant
            n == args@.len(),
            i <= n,
            forall|j: int| 0 <= j < i ==> #[trigger] args@[j]@ != flag@,
        decreases n - i,
    {
        if str_eq(args[i].as_str(), flag) {
            return args[i + 1].clone();
        }
        i = i + 1;
    }
    default.to_string()
}

} // verus!
