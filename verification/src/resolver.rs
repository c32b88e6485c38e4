use vstd::prelude::*;

use crate::config::{Config, FileType};
use crate::text::{str_eq, views_of};

verus! {

/// Whether `name` occurs among `files`, the names of a directory's entries.
pub open spec fn name_present(files: Seq<Seq<char>>, name: Seq<char>) -> bool {
    exists|k: int| 0 <= k < files.len() && files[k] == name
}

/// The index of the first toolchain whose entry file occurs among `files`,
/// in the declared order of the configuration.
pub open spec fn spec_resolve(toolchains: Seq<(String, FileType)>, files: Seq<Seq<char>>) -> Option<
    int,
>
    decreases toolchains.len(),
{
    if toolchains.len() == 0 {
        None
    } else if name_present(files, toolchains[0].1.main@) {
        Some(0)
    } else {
        match spec_resolve(toolchains.skip(1), files) {
            Some(i) => Some(i + 1),
            None => None,
        }
    }
}

proof fn lemma_resolve_at(toolchains: Seq<(String, FileType)>, files: Seq<Seq<char>>, i: int)
    requires
        0 <= i < toolchains.len(),
        name_present(files, toolchains[i].1.main@),
        forall|j: int| 0 <= j < i ==> !name_present(files, toolchains[j].1.main@),
    ensures
        spec_resolve(toolchains, files) == Some(i),
    decreases i,
{
    if i > 0 {
        assert(!name_present(files, toolchains[0].1.main@));
        assert(toolchains.skip(1)[i - 1] == toolchains[i]);
        assert forall|j: int| 0 <= j < i - 1 implies !name_present(
            files,
            toolchains.skip(1)[j].1.main@,
        ) by {
            assert(toolchains.skip(1)[j] == toolchains[j + 1]);
        }
        lemma_resolve_at(toolchains.skip(1), files, i - 1);
    }
}

proof fn lemma_resolve_none(toolchains: Seq<(String, FileType)>, files: Seq<Seq<char>>)
    requires
        forall|j: int|
            0 <= j < toolchains.len() ==> !name_present(files, toolchains[j].1.main@),
    ensures
        spec_resolve(toolchains, files) is None,
    decreases toolchains.len(),
{
    if toolchains.len() > 0 {
        assert forall|j: int| 0 <= j < toolchains.len() - 1 implies !name_present(
            files,
            toolchains.skip(1)[j].1.main@,
        ) by {
            assert(toolchains.skip(1)[j] == toolchains[j + 1]);
        }
        lemma_resolve_none(toolchains.skip(1), files);
    }
}

/// What resolution means: the resolved index is the first whose entry file
/// is present, and resolution fails exactly when no configured entry file is
/// present.
pub proof fn lemma_resolve_characterization(
    toolchains: Seq<(String, FileType)>,
    files: Seq<Seq<char>>,
)
    ensures
        match spec_resolve(toolchains, files) {
            Some(i) => {
                &&& 0 <= i < toolchains.len()
                &&& name_present(files, toolchains[i].1.main@)
                &&& forall|j: int| 0 <= j < i ==> !name_present(files, toolchains[j].1.main@)
            },
            None => forall|j: int|
                0 <= j < toolchains.len() ==> !name_present(files, toolchains[j].1.main@),
        },
    decreases toolchains.len(),
{
    if toolchains.len() > 0 && !name_present(files, toolchains[0].1.main@) {
        lemma_resolve_characterization(toolchains.skip(1), files);
        match spec_resolve(toolchains.skip(1), files) {
            Some(i) => {
                assert(toolchains.skip(1)[i] == toolchains[i + 1]);
                assert forall|j: int| 0 <= j < i + 1 implies !name_present(
                    files,
                    toolchains[j].1.main@,
                ) by {
                    if j > 0 {
                        assert(toolchains.skip(1)[j - 1] == toolchains[j]);
                        assert(!name_present(files, toolchains.skip(1)[j - 1].1.main@));
                    }
                }
            },
            None => {
                assert forall|j: int| 0 <= j < toolchains.len() implies !name_present(
                    files,
                    toolchains[j].1.main@,
                ) by {
                    if j > 0 {
                        assert(toolchains.skip(1)[j - 1] == toolchains[j]);
                        assert(!name_present(files, toolchains.skip(1)[j - 1].1.main@));
                    }
                }
            },
        }
    }
}

/// Resolver determinism: when exactly one configured entry file is present
/// in the directory, resolution yields that toolchain, no matter how many
/// other toolchains are configured.
pub proof fn lemma_resolver_unique_match(
    toolchains: Seq<(String, FileType)>,
    files: Seq<Seq<char>>,
    i: int,
)
    requires
        0 <= i < toolchains.len(),
        name_present(files, toolchains[i].1.main@),
        forall|j: int|
            0 <= j < toolchains.len() && j != i ==> !name_present(files, toolchains[j].1.main@),
    ensures
        spec_resolve(toolchains, files) == Some(i),
{
    lemma_resolve_at(toolchains, files, i);
}

/// Resolver ambiguity policy: when the entry files of two configured
/// toolchains are both present, the one declared earlier wins — resolution
/// never picks the later one.
pub proof fn lemma_resolver_earlier_declaration_wins(
    toolchains: Seq<(String, FileType)>,
    files: Seq<Seq<char>>,
    i: int,
    j: int,
)
    requires
        0 <= i < j < toolchains.len(),
        name_present(files, toolchains[i].1.main@),
        name_present(files, toolchains[j].1.main@),
    ensures
        spec_resolve(toolchains, files) matches Some(k) && k <= i,
{
    lemma_resolve_characterization(toolchains, files);
    if spec_resolve(toolchains, files) is None {
        assert(!name_present(files, toolchains[i].1.main@));
    }
    if spec_resolve(toolchains, files) matches Some(k) && k > i {
        assert(!name_present(files, toolchains[i].1.main@));
    }
}

/// Whether `name` occurs among the file names.
pub fn contains_name(files: &Vec<String>, name: &str) -> (r: bool)
    ensures
        r == name_present(views_of(files@), name@),
{
    let n = files.len();
    let mut k: usize = 0;
    while k < n
        invariant
            k <= n,
            n == files@.len(),
            forall|m: int| 0 <= m < k ==> views_of(files@)[m] != name@,
        decreases n - k,
    {
        if str_eq(files[k].as_str(), name) {
            assert(views_of(files@)[k as int] == name@);
            return true;
        }
        assert(views_of(files@)[k as int] != name@);
        k += 1;
    }
    false
}

/// Resolves which toolchain the solution in a problem directory is written
/// in: the first configured descriptor whose entry file occurs among
/// `files`, the names of the directory's entries. First match wins, in the
/// configuration's declared order; no match is an error the caller reports.
pub fn resolve_toolchain(config: &Config, files: &Vec<String>) -> (r: Option<usize>)
    ensures
        match r {
            Some(i) => i < config.filetype@.len() && spec_resolve(config.filetype@, views_of(files@))
                == Some(i as int),
            None => spec_resolve(config.filetype@, views_of(files@)) is None,
        },
{
    let n = config.filetype.len();
    let mut i: usize = 0;
    while i < n
        invariant
            i <= n,
            n == config.filetype@.len(),
            forall|j: int|
                0 <= j < i ==> !name_present(views_of(files@), config.filetype@[j].1.main@),
        decreases n - i,
    {
        if contains_name(files, config.filetype[i].1.main.as_str()) {
            proof {
                lemma_resolve_at(config.filetype@, views_of(files@), i as int);
            }
            return Some(i);
        }
        i += 1;
    }
    proof {
        lemma_resolve_none(config.filetype@, views_of(files@));
    }
    None
}

} // verus!
