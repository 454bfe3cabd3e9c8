//! Preparing the replacement of a process image: what is checked, and what is
//! dropped, before a path and an argument vector may be handed to the
//! operating system.

use crate::error::Error;
use crate::text::{contains_nul, has_nul};
use vstd::prelude::*;

verus! {

/// A path and an argument vector that are ready to cross into the operating
/// system: none of the strings holds a NUL byte.
#[derive(Debug, PartialEq, Eq)]
pub struct ExecRequest {
    path: String,
    argv: Vec<String>,
}

/// The mathematical value of an [`ExecRequest`].
pub ghost struct ExecPlan {
    pub path: Seq<char>,
    pub argv: Seq<Seq<char>>,
}

impl View for ExecRequest {
    type V = ExecPlan;

    closed spec fn view(&self) -> ExecPlan {
        ExecPlan { path: self.path@, argv: self.argv.deep_view() }
    }
}

impl ExecPlan {
    /// No string of the plan holds a NUL byte.
    pub open spec fn well_formed(self) -> bool {
        &&& !has_nul(self.path)
        &&& forall|i: int| 0 <= i < self.argv.len() ==> !has_nul(#[trigger] self.argv[i])
    }
}

/// The arguments that can be passed on: those without a NUL byte, in their
/// order.
pub open spec fn sendable(argv: Seq<Seq<char>>) -> Seq<Seq<char>> {
    argv.filter(|arg: Seq<char>| !has_nul(arg))
}

/// What a replacement with `path` and `argv` comes to. A NUL byte in the path
/// is an error, and nothing is attempted. A NUL byte in an argument is none:
/// that argument is left out.
pub open spec fn exec_plan(path: Seq<char>, argv: Seq<Seq<char>>) -> Result<ExecPlan, Error> {
    if has_nul(path) {
        Err(Error::Encoding)
    } else {
        Ok(ExecPlan { path, argv: sendable(argv) })
    }
}

impl ExecRequest {
    #[verifier::type_invariant]
    spec fn nul_free(self) -> bool {
        self@.well_formed()
    }

    /// Validates a path and an argument vector for a program replacement.
    pub fn new(pathname: &str, argv: &[String]) -> (r: Result<ExecRequest, Error>)
        ensures
            match r {
                Ok(request) => exec_plan(pathname@, argv.deep_view()) == Ok::<ExecPlan, Error>(
                    request@,
                ) && request@.well_formed(),
                Err(e) => exec_plan(pathname@, argv.deep_view()) == Err::<ExecPlan, Error>(e),
            },
    {
        if contains_nul(pathname) {
            return Err(Error::Encoding);
        }
        let ghost all = argv.deep_view();
        let mut kept: Vec<String> = Vec::new();
        let mut i: usize = 0;
        assert(all.take(0) =~= Seq::<Seq<char>>::empty());
        while i < argv.len()
            invariant
                i <= argv.len(),
                all == argv.deep_view(),
                kept.deep_view() == sendable(all.take(i as int)),
                forall|k: int| 0 <= k < kept.len() ==> !has_nul(#[trigger] kept[k]@),
            decreases argv.len() - i,
        {
            let ghost before = kept.deep_view();
            let ghost step = all.take(i + 1);
            assert(step.drop_last() =~= all.take(i as int));
            assert(step.last() == argv[i as int]@);
            reveal(Seq::filter);
            if !contains_nul(argv[i].as_str()) {
                kept.push(argv[i].clone());
                assert(kept.deep_view() =~= before.push(argv[i as int]@));
            }
            i += 1;
        }
        assert(all.take(i as int) =~= all);
        let request = ExecRequest { path: pathname.to_owned(), argv: kept };
        assert(request@.argv.len() == request.argv.len());
        assert(forall|k: int|
            0 <= k < request@.argv.len() ==> #[trigger] request@.argv[k] == request.argv[k]@);
        Ok(request)
    }

    /// The program to run, looked up on the search path.
    pub fn path(&self) -> (path: &str)
        ensures
            path@ == self@.path,
            !has_nul(path@),
    {
        proof {
            use_type_invariant(self);
        }
        self.path.as_str()
    }

    /// The argument vector of the new program.
    pub fn argv(&self) -> (argv: &Vec<String>)
        ensures
            argv.deep_view() == self@.argv,
            forall|i: int| 0 <= i < argv.len() ==> !has_nul(#[trigger] argv[i]@),
    {
        proof {
            use_type_invariant(self);
            assert forall|i: int| 0 <= i < self.argv.len() implies !has_nul(
                #[trigger] self.argv[i]@,
            ) by {
                assert(self.argv[i]@ == self@.argv[i]);
            }
        }
        &self.argv
    }
}

/// Every argument of a plan made by [`exec_plan`] is free of NUL bytes and was
/// an argument of the input, and every NUL-free argument of the input is in
/// the plan.
pub proof fn lemma_sendable_keeps_clean(argv: Seq<Seq<char>>)
    ensures
        forall|i: int| 0 <= i < sendable(argv).len() ==> !has_nul(#[trigger] sendable(argv)[i]),
        forall|i: int|
            0 <= i < sendable(argv).len() ==> argv.contains(#[trigger] sendable(argv)[i]),
        forall|i: int|
            0 <= i < argv.len() && !has_nul(argv[i]) ==> sendable(argv).contains(#[trigger] argv[i]),
        sendable(argv).len() <= argv.len(),
{
    let clean = |arg: Seq<char>| !has_nul(arg);
    broadcast use vstd::seq_lib::group_filter_ensures;

    assert forall|i: int| 0 <= i < sendable(argv).len() implies argv.contains(
        #[trigger] sendable(argv)[i],
    ) by {
        assert(argv.filter(clean).contains(sendable(argv)[i]));
        argv.lemma_filter_contains_rev(clean, sendable(argv)[i]);
    }
    assert forall|i: int| 0 <= i < sendable(argv).len() implies !has_nul(
        #[trigger] sendable(argv)[i],
    ) by {
        argv.lemma_filter_pred(clean, i);
    }
    assert forall|i: int| 0 <= i < argv.len() && !has_nul(argv[i]) implies sendable(
        argv,
    ).contains(#[trigger] argv[i]) by {
        argv.lemma_filter_contains(clean, i);
    }
    argv.lemma_filter_len(clean);
}

/// An argument vector without a NUL byte anywhere is passed on unchanged.
pub proof fn lemma_sendable_of_clean(argv: Seq<Seq<char>>)
    requires
        forall|i: int| 0 <= i < argv.len() ==> !has_nul(#[trigger] argv[i]),
    ensures
        sendable(argv) == argv,
    decreases argv.len(),
{
    reveal(Seq::filter);
    if argv.len() > 0 {
        lemma_sendable_of_clean(argv.drop_last());
        assert(argv.drop_last().push(argv.last()) =~= argv);
    }
}

} // verus!
