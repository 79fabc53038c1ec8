use vstd::prelude::*;

verus! {

/// The path that the program works on: the first argument after the program
/// name, or `.` when there is none. Further arguments are ignored.
pub fn target_path(args: &Vec<String>) -> (r: String)
    ensures
        args@.len() > 1 ==> r@ == args@[1]@,
        args@.len() <= 1 ==> r@ == seq!['.'],
{
    if args.len() > 1 {
        args[1].clone()
    } else {
        proof {
            reveal_strlit(".");
        }
        String::from_str(".")
    }
}

} // verus!
