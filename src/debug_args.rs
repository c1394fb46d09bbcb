use vstd::prelude::*;
use vstd::string::*;
use crate::record::strs_view;

verus! {

/// `-s` opens the debugger port, `-S` holds the processor at start-up.
pub open spec fn is_debug_flag(a: Seq<char>) -> bool {
    a == "-s"@ || a == "-S"@
}

pub open spec fn has_debug_flag(args: Seq<Seq<char>>) -> bool {
    exists|i: int| 0 <= i < args.len() && is_debug_flag(#[trigger] args[i])
}

/// The arguments with every debug flag taken out, the rest in order.
pub open spec fn without_debug_flags(args: Seq<Seq<char>>) -> Seq<Seq<char>> {
    args.filter(|a: Seq<char>| !is_debug_flag(a))
}

/// The arguments with the two debug flags appended.
pub open spec fn with_debug_flags(args: Seq<Seq<char>>) -> Seq<Seq<char>> {
    args + seq!["-s"@, "-S"@]
}

pub fn is_debug_arg(a: &String) -> (r: bool)
    ensures
        r == is_debug_flag(a@),
{
    let small = String::from_str("-s");
    let capital = String::from_str("-S");
    *a == small || *a == capital
}

pub fn has_debug_args(args: &Vec<String>) -> (r: bool)
    ensures
        r == has_debug_flag(strs_view(args@)),
{
    let mut i: usize = 0;
    while i < args.len()
        invariant
            i <= args.len(),
            forall|j: int| 0 <= j < i ==> !is_debug_flag(#[trigger] strs_view(args@)[j]),
        decreases args.len() - i,
    {
        if is_debug_arg(&args[i]) {
            assert(is_debug_flag(strs_view(args@)[i as int]));
            return true;
        }
        i = i + 1;
    }
    false
}

pub fn strip_debug_args(args: &Vec<String>) -> (r: Vec<String>)
    ensures
        strs_view(r@) == without_debug_flags(strs_view(args@)),
{
    let mut r: Vec<String> = Vec::new();
    let mut i: usize = 0;
    while i < args.len()
        invariant
            i <= args.len(),
            strs_view(r@) == without_debug_flags(strs_view(args@.subrange(0, i as int))),
        decreases args.len() - i,
    {
        let keep = !is_debug_arg(&args[i]);
        proof {
            let s = strs_view(args@.subrange(0, i as int + 1));
            assert(s.drop_last() =~= strs_view(args@.subrange(0, i as int)));
            assert(s.last() == args@[i as int]@);
            reveal(Seq::filter);
        }
        if keep {
            r.push(args[i].clone());
        }
        i = i + 1;
        assert(strs_view(r@) =~= without_debug_flags(strs_view(args@.subrange(0, i as int))));
    }
    assert(args@.subrange(0, args.len() as int) =~= args@);
    r
}

pub fn add_debug_args(args: &Vec<String>) -> (r: Vec<String>)
    ensures
        strs_view(r@) == with_debug_flags(strs_view(args@)),
{
    let mut r = crate::record::copy_strings(args);
    r.push(String::from_str("-s"));
    r.push(String::from_str("-S"));
    assert(strs_view(r@) =~= with_debug_flags(strs_view(args@)));
    r
}

} // verus!
