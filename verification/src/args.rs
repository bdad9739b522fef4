//! Partitioning of the process arguments.
//!
//! The bridge accepts its own command line and, between a start and an end
//! marker, a section of endpoint arguments handed to the endpoint parser
//! instead. This module holds the scan that splits one argument list into
//! the two; reading the process arguments and parsing each part happens in
//! the surrounding process.

use vstd::prelude::*;

verus! {

/// The marker that opens the endpoint-argument section.
pub open spec fn spec_section_start() -> Seq<char> {
    "--mavlink-args"@
}

/// The marker that closes the endpoint-argument section.
pub open spec fn spec_section_end() -> Seq<char> {
    "--"@
}

/// The scan over the argument list, front to back: the two markers switch
/// the section state and are swallowed; every other argument joins the
/// endpoint arguments inside the section and the user arguments outside
/// it. `mav` and `user` accumulate the two partitions.
pub open spec fn spec_split_args(
    args: Seq<Seq<char>>,
    in_section: bool,
    mav: Seq<Seq<char>>,
    user: Seq<Seq<char>>,
) -> (Seq<Seq<char>>, Seq<Seq<char>>)
    decreases args.len(),
{
    if args.len() == 0 {
        (mav, user)
    } else if args[0] == spec_section_start() {
        spec_split_args(args.drop_first(), true, mav, user)
    } else if args[0] == spec_section_end() {
        spec_split_args(args.drop_first(), false, mav, user)
    } else if in_section {
        spec_split_args(args.drop_first(), in_section, mav.push(args[0]), user)
    } else {
        spec_split_args(args.drop_first(), in_section, mav, user.push(args[0]))
    }
}

/// Splits an argument list into the endpoint arguments (first) and the
/// user arguments (second), per [`spec_split_args`] started outside the
/// section with empty partitions.
pub fn split_args(args: &Vec<String>) -> (r: (Vec<String>, Vec<String>))
    ensures
        r.0.deep_view() == spec_split_args(
            args.deep_view(),
            false,
            Seq::<Seq<char>>::empty(),
            Seq::<Seq<char>>::empty(),
        ).0,
        r.1.deep_view() == spec_split_args(
            args.deep_view(),
            false,
            Seq::<Seq<char>>::empty(),
            Seq::<Seq<char>>::empty(),
        ).1,
{
    let start_flag: String = "--mavlink-args".to_owned();
    let end_flag: String = "--".to_owned();
    let mut mav: Vec<String> = Vec::new();
    let mut user: Vec<String> = Vec::new();
    let mut in_section = false;
    let mut i: usize = 0;
    proof {
        assert(args.deep_view().skip(0) =~= args.deep_view());
        assert(mav.deep_view() =~= Seq::<Seq<char>>::empty());
        assert(user.deep_view() =~= Seq::<Seq<char>>::empty());
    }
    while i < args.len()
        invariant
            i <= args@.len(),
            start_flag@ == spec_section_start(),
            end_flag@ == spec_section_end(),
            spec_split_args(
                args.deep_view(),
                false,
                Seq::<Seq<char>>::empty(),
                Seq::<Seq<char>>::empty(),
            ) == spec_split_args(
                args.deep_view().skip(i as int),
                in_section,
                mav.deep_view(),
                user.deep_view(),
            ),
        decreases args@.len() - i,
    {
        let ghost rest = args.deep_view().skip(i as int);
        proof {
            assert(rest[0] == args.deep_view()[i as int]);
            assert(args.deep_view()[i as int] == args@[i as int]@);
            assert(rest.drop_first() =~= args.deep_view().skip(i as int + 1));
        }
        let a = &args[i];
        if *a == start_flag {
            in_section = true;
        } else if *a == end_flag {
            in_section = false;
        } else if in_section {
            let ghost old_mav = mav.deep_view();
            mav.push(a.clone());
            proof {
                assert(mav.deep_view() =~= old_mav.push(rest[0]));
            }
        } else {
            let ghost old_user = user.deep_view();
            user.push(a.clone());
            proof {
                assert(user.deep_view() =~= old_user.push(rest[0]));
            }
        }
        i = i + 1;
    }
    proof {
        assert(args.deep_view().skip(i as int) =~= Seq::<Seq<char>>::empty());
    }
    (mav, user)
}

} // verus!
