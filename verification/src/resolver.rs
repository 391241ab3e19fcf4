//! Turns raw command-line arguments into the paths the editor opens.
//!
//! Flags are dropped. Every other argument becomes a candidate path by a
//! lexical join with the working directory. The caller asks the filesystem
//! for the canonical form of each candidate and hands the answers back; an
//! argument whose candidate has no canonical form keeps the candidate.

use vstd::prelude::*;
use crate::path::{is_absolute, is_absolute_spec, is_flag, is_flag_spec, join, join_spec};

verus! {

/// The arguments that name paths: those that are not flags, in the order
/// given, repeats included.
pub open spec fn path_args(args: Seq<Seq<char>>) -> Seq<Seq<char>> {
    args.filter(|a: Seq<char>| !is_flag_spec(a))
}

/// The candidate path of one path argument: the argument itself when it is
/// absolute, its lexical join with the working directory otherwise.
pub open spec fn candidate_spec(arg: Seq<char>, cwd: Seq<char>) -> Seq<char> {
    if is_absolute_spec(arg) {
        arg
    } else {
        join_spec(cwd, arg)
    }
}

/// The candidate path of every path argument.
pub open spec fn candidates_spec(args: Seq<Seq<char>>, cwd: Seq<char>) -> Seq<Seq<char>> {
    path_args(args).map_values(|a: Seq<char>| candidate_spec(a, cwd))
}

/// The filesystem's answer for the `i`-th candidate; a missing answer counts
/// as a failed canonicalization.
pub open spec fn outcome_at(outcomes: Seq<Option<Seq<char>>>, i: int) -> Option<Seq<char>> {
    if 0 <= i < outcomes.len() {
        outcomes[i]
    } else {
        None
    }
}

/// The resolved path for one candidate: its canonical form where the
/// filesystem gave one, the candidate itself otherwise.
pub open spec fn settle_spec(candidate: Seq<char>, canonical: Option<Seq<char>>) -> Seq<char> {
    match canonical {
        Some(c) => c,
        None => candidate,
    }
}

/// The resolved paths for `args` seen from `cwd`, given the filesystem's
/// answers for the candidates, in candidate order.
pub open spec fn resolve_spec(
    args: Seq<Seq<char>>,
    cwd: Seq<char>,
    outcomes: Seq<Option<Seq<char>>>,
) -> Seq<Seq<char>> {
    let candidates = candidates_spec(args, cwd);
    Seq::new(candidates.len(), |i: int| settle_spec(candidates[i], outcome_at(outcomes, i)))
}

/// The arguments that name paths: `args` without its flags, in the order
/// given.
pub fn path_arguments(args: &Vec<String>) -> (paths: Vec<String>)
    ensures
        paths.deep_view() == path_args(args.deep_view()),
{
    let mut paths: Vec<String> = Vec::new();
    let ghost keep = |a: Seq<char>| !is_flag_spec(a);
    proof {
        reveal(Seq::filter);
        assert(args.deep_view().take(0) =~= Seq::<Seq<char>>::empty());
        assert(paths.deep_view() =~= path_args(args.deep_view().take(0)));
    }
    for i in 0..args.len()
        invariant
            keep == |a: Seq<char>| !is_flag_spec(a),
            paths.deep_view() == args.deep_view().take(i as int).filter(keep),
    {
        let arg: &str = args[i].as_str();
        proof {
            let seen = args.deep_view().take(i as int);
            assert(args.deep_view().take(i + 1) =~= seen.push(arg@));
            seen.lemma_filter_push(arg@, keep);
        }
        if !is_flag(arg) {
            let ghost before = paths.deep_view();
            paths.push(arg.to_owned());
            assert(paths.deep_view() =~= before.push(arg@));
        }
    }
    assert(args.deep_view().take(args.len() as int) =~= args.deep_view());
    paths
}

/// The candidate path of one path argument, found without consulting the
/// filesystem.
pub fn candidate(arg: &str, cwd: &str) -> (path: String)
    ensures
        path@ == candidate_spec(arg@, cwd@),
{
    if is_absolute(arg) {
        arg.to_owned()
    } else {
        join(cwd, arg)
    }
}

/// The candidate paths for `args`: one per argument that is not a flag, in
/// argument order. These are the paths to canonicalize.
pub fn candidates(args: &Vec<String>, cwd: &str) -> (paths: Vec<String>)
    ensures
        paths.deep_view() == candidates_spec(args.deep_view(), cwd@),
{
    let mut paths: Vec<String> = Vec::new();
    let ghost keep = |a: Seq<char>| !is_flag_spec(a);
    let ghost lift = |a: Seq<char>| candidate_spec(a, cwd@);
    proof {
        reveal(Seq::filter);
        assert(args.deep_view().take(0) =~= Seq::<Seq<char>>::empty());
        assert(paths.deep_view() =~= candidates_spec(args.deep_view().take(0), cwd@));
    }
    for i in 0..args.len()
        invariant
            keep == |a: Seq<char>| !is_flag_spec(a),
            lift == |a: Seq<char>| candidate_spec(a, cwd@),
            paths.deep_view() == args.deep_view().take(i as int).filter(keep).map_values(lift),
    {
        let arg: &str = args[i].as_str();
        proof {
            let seen = args.deep_view().take(i as int);
            assert(args.deep_view().take(i + 1) =~= seen.push(arg@));
            seen.lemma_filter_push(arg@, keep);
        }
        if !is_flag(arg) {
            let ghost before = paths.deep_view();
            let path = candidate(arg, cwd);
            paths.push(path);
            assert(paths.deep_view() =~= before.push(candidate_spec(arg@, cwd@)));
            assert(paths.deep_view() =~= args.deep_view().take(i + 1).filter(keep).map_values(
                lift,
            ));
        }
    }
    assert(args.deep_view().take(args.len() as int) =~= args.deep_view());
    paths
}

/// Settles one candidate on what the filesystem said of it.
pub fn settle(candidate: String, canonical: Option<String>) -> (path: String)
    ensures
        path@ == settle_spec(candidate@, canonical.deep_view()),
{
    match canonical {
        Some(c) => c,
        None => candidate,
    }
}

/// Resolves `args` seen from `cwd`. `outcomes[i]` is what canonicalizing
/// the candidate of the `i`-th path argument gave: `Some` canonical path,
/// or `None` where the path could not be canonicalized. The result has one
/// path per argument that is not a flag, in argument order.
pub fn resolve(args: &Vec<String>, cwd: &str, outcomes: &Vec<Option<String>>) -> (paths: Vec<
    String,
>)
    ensures
        paths.deep_view() == resolve_spec(args.deep_view(), cwd@, outcomes.deep_view()),
{
    let found = candidates(args, cwd);
    let mut paths: Vec<String> = Vec::new();
    for i in 0..found.len()
        invariant
            found.deep_view() == candidates_spec(args.deep_view(), cwd@),
            paths.len() == i,
            forall|k: int|
                0 <= k < i ==> #[trigger] paths[k]@ == settle_spec(
                    found[k]@,
                    outcome_at(outcomes.deep_view(), k),
                ),
    {
        let canonical: Option<String> = if i < outcomes.len() {
            outcomes[i].clone()
        } else {
            None
        };
        assert(canonical.deep_view() == outcome_at(outcomes.deep_view(), i as int));
        let path = settle(found[i].clone(), canonical);
        paths.push(path);
    }
    assert(paths.deep_view() =~= resolve_spec(args.deep_view(), cwd@, outcomes.deep_view())) by {
        let c = candidates_spec(args.deep_view(), cwd@);
        assert(c.len() == found.len());
        assert forall|k: int| 0 <= k < paths.len() implies paths.deep_view()[k] == settle_spec(
            c[k],
            outcome_at(outcomes.deep_view(), k),
        ) by {
            assert(found.deep_view()[k] == found[k]@);
            assert(paths[k]@ == paths.deep_view()[k]);
        }
    }
    paths
}

/// The positions in `args` of the arguments that are not flags, ascending.
pub open spec fn path_positions(args: Seq<Seq<char>>) -> Seq<int>
    decreases args.len(),
{
    if args.len() == 0 {
        Seq::empty()
    } else if is_flag_spec(args.last()) {
        path_positions(args.drop_last())
    } else {
        path_positions(args.drop_last()).push(args.len() - 1)
    }
}

/// Filtering is stable: the path arguments are exactly the arguments at the
/// positions that hold no flag, taken in ascending order, so nothing is
/// reordered, dropped or merged.
pub proof fn path_args_keep_order(args: Seq<Seq<char>>)
    ensures
        path_positions(args).len() == path_args(args).len(),
        forall|k: int|
            0 <= k < path_positions(args).len() ==> {
                let p = #[trigger] path_positions(args)[k];
                &&& 0 <= p < args.len()
                &&& !is_flag_spec(args[p])
                &&& path_args(args)[k] == args[p]
            },
        forall|j: int, k: int|
            0 <= j < k < path_positions(args).len() ==> path_positions(args)[j] < path_positions(
                args,
            )[k],
        forall|p: int|
            0 <= p < args.len() && !is_flag_spec(args[p]) ==> path_positions(args).contains(p),
    decreases args.len(),
{
    reveal(Seq::filter);
    if args.len() > 0 {
        let rest = args.drop_last();
        path_args_keep_order(rest);
        let here = path_positions(args);
        assert forall|p: int| 0 <= p < args.len() && !is_flag_spec(args[p]) implies here.contains(
            p,
        ) by {
            if p < rest.len() {
                assert(rest[p] == args[p]);
                assert(path_positions(rest).contains(p));
                let k = choose|k: int|
                    0 <= k < path_positions(rest).len() && path_positions(rest)[k] == p;
                assert(here[k] == p);
            } else {
                assert(here[here.len() - 1] == p);
            }
        }
    }
}

/// Each resolved path stands for the path argument at the same rank: the
/// canonical form of its candidate where the filesystem gave one.
pub proof fn resolved_path_at(
    args: Seq<Seq<char>>,
    cwd: Seq<char>,
    outcomes: Seq<Option<Seq<char>>>,
    k: int,
)
    requires
        0 <= k < path_args(args).len(),
    ensures
        resolve_spec(args, cwd, outcomes).len() == path_args(args).len(),
        resolve_spec(args, cwd, outcomes)[k] == settle_spec(
            candidate_spec(args[path_positions(args)[k]], cwd),
            outcome_at(outcomes, k),
        ),
{
    path_args_keep_order(args);
}

/// A path that the filesystem canonicalized resolves to its canonical form,
/// by whatever argument and from whatever working directory it was
/// reached: two runs that get the same answer for a path resolve it alike.
pub proof fn canonical_form_wins(
    args1: Seq<Seq<char>>,
    cwd1: Seq<char>,
    args2: Seq<Seq<char>>,
    cwd2: Seq<char>,
    outcomes: Seq<Option<Seq<char>>>,
    k: int,
)
    requires
        0 <= k < path_args(args1).len(),
        0 <= k < path_args(args2).len(),
        outcome_at(outcomes, k) is Some,
    ensures
        Some(resolve_spec(args1, cwd1, outcomes)[k]) == outcomes[k],
        resolve_spec(args2, cwd2, outcomes)[k] == resolve_spec(args1, cwd1, outcomes)[k],
{
}

/// A path argument that could not be canonicalized resolves to its lexical
/// candidate: the argument itself when it is absolute, its join with the
/// working directory otherwise. From an absolute working directory that
/// candidate is absolute, hence not empty.
pub proof fn unresolvable_path_is_lexical(
    args: Seq<Seq<char>>,
    cwd: Seq<char>,
    outcomes: Seq<Option<Seq<char>>>,
    k: int,
)
    requires
        0 <= k < path_args(args).len(),
        outcome_at(outcomes, k) is None,
    ensures
        ({
            let arg = path_args(args)[k];
            let path = resolve_spec(args, cwd, outcomes)[k];
            &&& is_absolute_spec(arg) ==> path == arg
            &&& !is_absolute_spec(arg) ==> path == join_spec(cwd, arg)
            &&& is_absolute_spec(cwd) ==> is_absolute_spec(path) && path.len() > 0
        }),
{
}

/// Flags leave no trace: the result has one path per argument that is not
/// a flag, none of them made from a flag, and a flag put anywhere among the
/// arguments changes nothing.
pub proof fn flags_never_resolve(
    before: Seq<Seq<char>>,
    flag: Seq<char>,
    after: Seq<Seq<char>>,
    cwd: Seq<char>,
    outcomes: Seq<Option<Seq<char>>>,
)
    requires
        is_flag_spec(flag),
    ensures
        resolve_spec(before + seq![flag] + after, cwd, outcomes) == resolve_spec(
            before + after,
            cwd,
            outcomes,
        ),
        !path_args(before + seq![flag] + after).contains(flag),
        resolve_spec(before + after, cwd, outcomes).len() == path_args(before + after).len(),
        forall|k: int|
            0 <= k < path_args(before + after).len() ==> !is_flag_spec(
                #[trigger] path_args(before + after)[k],
            ),
{
    let keep = |a: Seq<char>| !is_flag_spec(a);
    let with_flag = before + seq![flag] + after;
    Seq::filter_distributes_over_add(before + seq![flag], after, keep);
    Seq::filter_distributes_over_add(before, seq![flag], keep);
    Seq::filter_distributes_over_add(before, after, keep);
    assert(seq![flag].filter(keep) =~= Seq::<Seq<char>>::empty()) by {
        reveal(Seq::filter);
        let none = Seq::<Seq<char>>::empty();
        assert(seq![flag] =~= none.push(flag));
        none.lemma_filter_push(flag, keep);
    }
    assert(path_args(with_flag) =~= path_args(before + after));
    path_args_keep_order(before + after);
    if path_args(with_flag).contains(flag) {
        let k = choose|k: int|
            0 <= k < path_args(with_flag).len() && path_args(with_flag)[k] == flag;
        let p = path_positions(before + after)[k];
        assert(!is_flag_spec((before + after)[p]));
    }
}

/// From an absolute working directory every candidate is absolute, so no
/// candidate can be taken for a flag.
pub proof fn candidates_are_absolute(args: Seq<Seq<char>>, cwd: Seq<char>)
    requires
        is_absolute_spec(cwd),
    ensures
        forall|k: int|
            0 <= k < candidates_spec(args, cwd).len() ==> is_absolute_spec(
                #[trigger] candidates_spec(args, cwd)[k],
            ) && !is_flag_spec(candidates_spec(args, cwd)[k]),
{
}

/// Nothing resolves exactly when there is no path argument: when `args` is
/// empty or holds flags only.
pub proof fn nothing_resolves_without_path_args(
    args: Seq<Seq<char>>,
    cwd: Seq<char>,
    outcomes: Seq<Option<Seq<char>>>,
)
    ensures
        (forall|i: int| 0 <= i < args.len() ==> is_flag_spec(#[trigger] args[i]))
            <==> resolve_spec(args, cwd, outcomes).len() == 0,
{
    path_args_keep_order(args);
    if resolve_spec(args, cwd, outcomes).len() == 0 {
        assert forall|i: int| 0 <= i < args.len() implies is_flag_spec(#[trigger] args[i]) by {
            if !is_flag_spec(args[i]) {
                assert(path_positions(args).contains(i));
            }
        }
    } else {
        let p = path_positions(args)[0];
        assert(!is_flag_spec(args[p]));
    }
}

} // verus!
