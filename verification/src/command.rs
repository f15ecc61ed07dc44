//! Command extraction: parse a process argument list into an optional
//! command string.
//!
//! A command is present exactly when the element at position 1 of the
//! argument list is the literal token `cmd`; its value is the elements from
//! position 2 onward joined with single spaces. Anything else is absence,
//! which is a normal outcome, not an error.

use vstd::prelude::*;

verus! {

/// The elements of `parts` concatenated with a single space between each
/// adjacent pair: no leading or trailing space, a single element yields
/// itself unchanged, no elements yield the empty sequence.
pub open spec fn join_spaces(parts: Seq<Seq<char>>) -> Seq<char>
    decreases parts.len(),
{
    if parts.len() == 0 {
        Seq::empty()
    } else if parts.len() == 1 {
        parts[0]
    } else {
        join_spaces(parts.drop_last()) + seq![' '] + parts.last()
    }
}

/// The views of a sequence of strings, as sequences of characters.
pub open spec fn arg_views(args: Seq<String>) -> Seq<Seq<char>> {
    args.map_values(|s: String| s@)
}

/// What command extraction yields on a given argument list: the elements
/// from position 2 onward joined with spaces when position 1 holds the
/// token `cmd`, and absence otherwise (in particular whenever fewer than
/// two elements are present). A list of exactly two elements whose second
/// is `cmd` yields the empty command string, not absence.
pub open spec fn extracted_command(args: Seq<Seq<char>>) -> Option<Seq<char>> {
    if args.len() > 1 && args[1] == "cmd"@ {
        Some(join_spaces(args.skip(2)))
    } else {
        None
    }
}

/// The view of an optional string.
pub open spec fn opt_view(o: Option<String>) -> Option<Seq<char>> {
    match o {
        Some(s) => Some(s@),
        None => None,
    }
}

/// Extract the command from a process argument list.
///
/// This never fails: absence of a command is an `Ok(None)`, kept behind a
/// `Result` so that callers treat it like the other operations of the crate.
pub fn _get_command(args: &Vec<String>) -> (r: Result<Option<String>, String>)
    ensures
        r matches Ok(o) && opt_view(o) == extracted_command(arg_views(args@)),
{
    let token = String::from_str("cmd");
    if args.len() > 1 && args[1] == token {
        let mut out = String::new();
        let mut i: usize = 2;
        while i < args.len()
            invariant
                2 <= i <= args.len(),
                out@ == join_spaces(arg_views(args@).subrange(2, i as int)),
            decreases args.len() - i,
        {
            if i > 2 {
                out.append(" ");
            }
            out.append(args[i].as_str());
            proof {
                let views = arg_views(args@);
                let cur = views.subrange(2, i + 1 as int);
                assert(cur.drop_last() =~= views.subrange(2, i as int));
                if i > 2 {
                    assert(" "@ =~= seq![' ']) by {
                        reveal_strlit(" ");
                    }
                }
                assert(out@ =~= join_spaces(cur));
            }
            i = i + 1;
        }
        proof {
            let views = arg_views(args@);
            assert(views.subrange(2, args@.len() as int) =~= views.skip(2));
        }
        Ok(Some(out))
    } else {
        Ok(None)
    }
}

/// Every argument list with fewer than two elements yields absence.
pub proof fn lemma_short_args_yield_absence(args: Seq<Seq<char>>)
    requires
        args.len() < 2,
    ensures
        extracted_command(args) is None,
{
}

/// Every argument list whose element at position 1 is not the token `cmd`
/// yields absence, whatever the remaining elements hold.
pub proof fn lemma_wrong_token_yields_absence(args: Seq<Seq<char>>)
    requires
        args.len() >= 2,
        args[1] != "cmd"@,
    ensures
        extracted_command(args) is None,
{
}

/// The boundary list of exactly two elements whose second is the token
/// `cmd` yields the empty command string, not absence: joining zero
/// remaining elements gives the empty string.
pub proof fn lemma_token_only_yields_empty_command(args: Seq<Seq<char>>)
    requires
        args.len() == 2,
        args[1] == "cmd"@,
    ensures
        extracted_command(args) == Some(Seq::<char>::empty()),
{
    assert(args.skip(2) =~= Seq::<Seq<char>>::empty());
}

/// Extraction is deterministic: two results both obtained from the same
/// argument list are identical, since the contract of `_get_command` pins
/// each to a function of the argument list alone. There is no hidden state.
pub proof fn lemma_extraction_deterministic(
    args: Seq<Seq<char>>,
    r1: Option<Seq<char>>,
    r2: Option<Seq<char>>,
)
    requires
        r1 == extracted_command(args),
        r2 == extracted_command(args),
    ensures
        r1 == r2,
{
}

} // verus!
