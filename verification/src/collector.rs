//! The artifact collector: classifies the entries of the output directory
//! by filename suffix into the three artifact kinds. The first entry
//! matching a kind wins; a missing kind is an environment error, reported
//! as the first missing kind in the order markup, script, module.

use vstd::prelude::*;
use crate::errors::{ApiError, ArtifactKind};
use crate::strutil::{ends_with, spec_ends_with};

verus! {

/// The position of the first name ending with `suffix`, if any.
pub open spec fn spec_first_match(names: Seq<Seq<char>>, suffix: Seq<char>) -> Option<int>
    decreases names.len(),
{
    if names.len() == 0 {
        Option::None
    } else if spec_ends_with(names[0], suffix) {
        Option::Some(0int)
    } else {
        match spec_first_match(names.skip(1), suffix) {
            Option::None => Option::None,
            Option::Some(i) => Option::Some(i + 1),
        }
    }
}

/// `spec_first_match` returns exactly the least matching position.
pub proof fn lemma_first_match_characterizes(
    names: Seq<Seq<char>>,
    suffix: Seq<char>,
    i: int,
)
    requires
        0 <= i <= names.len(),
        forall|j: int| 0 <= j < i ==> !spec_ends_with(names[j], suffix),
        i < names.len() ==> spec_ends_with(names[i], suffix),
    ensures
        i < names.len() ==> spec_first_match(names, suffix) == Option::Some(i),
        i == names.len() ==> spec_first_match(names, suffix) is None,
    decreases names.len(),
{
    if names.len() == 0 {
    } else if spec_ends_with(names[0], suffix) {
        assert(i == 0);
    } else {
        assert(i >= 1);
        let rest = names.skip(1);
        assert(forall|j: int| 0 <= j < i - 1 ==> rest[j] == names[j + 1]);
        lemma_first_match_characterizes(rest, suffix, i - 1);
        if i < names.len() {
            assert(rest[i - 1] == names[i]);
        }
    }
}

/// Scans `names` for the first entry ending with `suffix`.
pub fn first_match(names: &Vec<String>, suffix: &str) -> (r: Option<usize>)
    ensures
        match r {
            Option::Some(i) => i < names@.len() && spec_first_match(
                names.deep_view(),
                suffix@,
            ) == Option::Some(i as int),
            Option::None => spec_first_match(names.deep_view(), suffix@) is None,
        },
{
    let ghost dv = names.deep_view();
    let n = names.len();
    let mut i: usize = 0;
    while i < n
        invariant
            0 <= i <= n,
            n == names@.len(),
            dv == names.deep_view(),
            dv.len() == n,
            forall|j: int| 0 <= j < i ==> !spec_ends_with(dv[j], suffix@),
        decreases n - i,
    {
        if ends_with(&names[i], suffix) {
            proof {
                assert(dv[i as int] == names@[i as int]@);
                lemma_first_match_characterizes(dv, suffix@, i as int);
            }
            return Option::Some(i);
        }
        proof {
            assert(dv[i as int] == names@[i as int]@);
        }
        i = i + 1;
    }
    proof {
        lemma_first_match_characterizes(dv, suffix@, n as int);
    }
    Option::None
}

/// Where each artifact kind sits in a listing, or the first missing kind.
pub open spec fn spec_classify(names: Seq<Seq<char>>) -> Result<(int, int, int), ArtifactKind> {
    match spec_first_match(names, ArtifactKind::Markup.spec_suffix()) {
        Option::None => Result::Err(ArtifactKind::Markup),
        Option::Some(m) => match spec_first_match(names, ArtifactKind::Script.spec_suffix()) {
            Option::None => Result::Err(ArtifactKind::Script),
            Option::Some(s) => match spec_first_match(
                names,
                ArtifactKind::Module.spec_suffix(),
            ) {
                Option::None => Result::Err(ArtifactKind::Module),
                Option::Some(w) => Result::Ok((m, s, w)),
            },
        },
    }
}

/// Classifies a directory listing: returns the positions of the entries to
/// read as markup, script and module, or reports the first missing kind.
pub fn classify_entries(names: &Vec<String>) -> (r: Result<(usize, usize, usize), ApiError>)
    ensures
        match r {
            Result::Ok(plan) => {
                &&& spec_classify(names.deep_view()) == Result::<(int, int, int),
                    ArtifactKind>::Ok((plan.0 as int, plan.1 as int, plan.2 as int))
                &&& plan.0 < names@.len()
                &&& plan.1 < names@.len()
                &&& plan.2 < names@.len()
            },
            Result::Err(e) => {
                &&& e matches ApiError::BuildFileNotFound(k)
                &&& spec_classify(names.deep_view()) == Result::<(int, int, int),
                    ArtifactKind>::Err(k)
            },
        },
{
    let markup = match first_match(names, ArtifactKind::Markup.suffix()) {
        Option::Some(i) => i,
        Option::None => {
            return Result::Err(ApiError::BuildFileNotFound(ArtifactKind::Markup));
        },
    };
    let script = match first_match(names, ArtifactKind::Script.suffix()) {
        Option::Some(i) => i,
        Option::None => {
            return Result::Err(ApiError::BuildFileNotFound(ArtifactKind::Script));
        },
    };
    let module = match first_match(names, ArtifactKind::Module.suffix()) {
        Option::Some(i) => i,
        Option::None => {
            return Result::Err(ApiError::BuildFileNotFound(ArtifactKind::Module));
        },
    };
    Result::Ok((markup, script, module))
}

} // verus!
