//! Where each source file goes in the synthesized project.

use crate::error::CargoPlayError;
use crate::text::texts;
use vstd::prelude::*;
use vstd::string::StringExecFns;

verus! {

/// What `Path::parent` returns for a path: the path without its last
/// component, or nothing where the path ends in a root or is empty.
pub uninterp spec fn parent_of(path: Seq<char>) -> Option<Seq<char>>;

/// What `pathdiff::diff_paths` returns for a path and a base directory: the
/// path as seen from the base, or nothing where there is no such path.
pub uninterp spec fn relative_to(path: Seq<char>, base: Seq<char>) -> Option<Seq<char>>;

/// The view of an optional string.
pub open spec fn text_of(s: Option<String>) -> Option<Seq<char>> {
    match s {
        Some(t) => Some(t@),
        None => None,
    }
}

/// Calls `Path::parent` on the path that `path` spells. Claimed: the result
/// depends on the text alone. It is a part of that text, so it is text too.
#[verifier::external_body]
pub(crate) fn parent_dir(path: &str) -> (r: Option<String>)
    ensures
        text_of(r) == parent_of(path@),
{
    std::path::Path::new(path).parent().map(|p| p.to_string_lossy().into_owned())
}

/// Calls `pathdiff::diff_paths`. Claimed: the result depends on the two texts
/// alone. It is made of components of the two paths and of `..`, so it is
/// text too.
#[verifier::external_body]
pub(crate) fn diff_paths(path: &str, base: &str) -> (r: Option<String>)
    ensures
        text_of(r) == relative_to(path@, base@),
{
    pathdiff::diff_paths(path, base).map(|p| p.to_string_lossy().into_owned())
}

/// One file to copy: from a source path to a place below the project's
/// source directory.
#[derive(Debug, Clone, PartialEq, Eq)]
pub struct CopyStep {
    /// The file to read.
    pub from: String,
    /// Where it goes, relative to the source directory of the project.
    pub to: String,
}

/// A `CopyStep` as plain texts.
pub struct CopyStepView {
    pub from: Seq<char>,
    pub to: Seq<char>,
}

impl View for CopyStep {
    type V = CopyStepView;

    open spec fn view(&self) -> CopyStepView {
        CopyStepView { from: self.from@, to: self.to@ }
    }
}

/// The views of a sequence of steps.
pub open spec fn steps(v: Seq<CopyStep>) -> Seq<CopyStepView> {
    v.map_values(|s: CopyStep| s@)
}

/// The name under which the primary file is stored.
pub open spec fn entry_point() -> Seq<char> {
    "main.rs"@
}

/// The step that stores the primary file.
pub open spec fn entry_step(primary: Seq<char>) -> CopyStepView {
    CopyStepView { from: primary, to: entry_point() }
}

/// The first index at or after `from` of a file that has no place relative to
/// `base`, or the number of files where each has one.
pub open spec fn first_unplaceable(files: Seq<Seq<char>>, base: Seq<char>, from: int) -> int
    decreases files.len() - from,
{
    if from < 0 || from >= files.len() {
        files.len() as int
    } else if relative_to(files[from], base) is None {
        from
    } else {
        first_unplaceable(files, base, from + 1)
    }
}

/// The step for each file, given the place of each file but the first.
pub open spec fn placed(files: Seq<Seq<char>>, base: Seq<char>) -> Seq<CopyStepView> {
    Seq::new(
        files.len(),
        |i: int|
            if i == 0 {
                entry_step(files[0])
            } else {
                CopyStepView { from: files[i], to: relative_to(files[i], base)->0 }
            },
    )
}

/// The copies that bring the given files into a project, first file first.
/// The first file is the primary one and is stored as the entry point. Each
/// other file goes where it stands as seen from the directory of the primary
/// file; the first one that has no such place is the error. Where the primary
/// file has no directory, it is stored alone.
pub open spec fn plan_of(files: Seq<Seq<char>>) -> Result<Seq<CopyStepView>, Seq<char>> {
    if files.len() == 0 {
        Ok(Seq::empty())
    } else {
        match parent_of(files[0]) {
            None => Ok(seq![entry_step(files[0])]),
            Some(base) => {
                let k = first_unplaceable(files, base, 1);
                if k < files.len() {
                    Err(files[k])
                } else {
                    Ok(placed(files, base))
                }
            },
        }
    }
}

/// The step for one file other than the primary one, given what
/// `diff_paths` made of it: the relative place, or the error that names the
/// file.
pub fn place(file: &str, relative: Option<String>) -> (r: Result<CopyStep, CargoPlayError>)
    ensures
        match r {
            Ok(step) => relative is Some && step@ == (CopyStepView {
                from: file@,
                to: relative->0@,
            }),
            Err(CargoPlayError::DiffPath(f)) => relative is None && f@ == file@,
            Err(_) => false,
        },
{
    match relative {
        Some(to) => Ok(CopyStep { from: file.to_owned(), to }),
        None => Err(CargoPlayError::DiffPath(file.to_owned())),
    }
}

/// Plans the copies for `sources`, primary file first: the steps that
/// `plan_of` gives, or `DiffPath` with the file that `plan_of` names.
pub fn copy_plan(sources: &Vec<String>) -> (r: Result<Vec<CopyStep>, CargoPlayError>)
    ensures
        match r {
            Ok(plan) => plan_of(texts(sources@)) == Ok::<Seq<CopyStepView>, Seq<char>>(
                steps(plan@),
            ),
            Err(CargoPlayError::DiffPath(f)) => plan_of(texts(sources@)) == Err::<
                Seq<CopyStepView>,
                Seq<char>,
            >(f@),
            Err(_) => false,
        },
{
    let ghost files = texts(sources@);
    let mut plan: Vec<CopyStep> = Vec::new();
    let n = sources.len();
    if n == 0 {
        assert(steps(plan@) =~= Seq::<CopyStepView>::empty());
        return Ok(plan);
    }
    let primary = sources[0].as_str();
    assert(primary@ == files[0]);
    plan.push(CopyStep { from: primary.to_owned(), to: String::from_str("main.rs") });
    let base = match parent_dir(primary) {
        Some(base) => base,
        None => {
            assert(steps(plan@) =~= seq![entry_step(files[0])]);
            return Ok(plan);
        },
    };
    let mut i: usize = 1;
    while i < n
        invariant
            n == sources.len(),
            files == texts(sources@),
            1 <= i <= n,
            parent_of(files[0]) == Some(base@),
            first_unplaceable(files, base@, i as int) == first_unplaceable(files, base@, 1),
            steps(plan@) =~= placed(files, base@).take(i as int),
        decreases n - i,
    {
        let file = sources[i].as_str();
        assert(file@ == files[i as int]);
        let relative = diff_paths(file, base.as_str());
        match place(file, relative) {
            Ok(step) => {
                let ghost before = steps(plan@);
                plan.push(step);
                assert(steps(plan@) =~= before.push(step@));
            },
            Err(e) => {
                return Err(e);
            },
        }
        i += 1;
    }
    assert(placed(files, base@).take(n as int) =~= placed(files, base@));
    Ok(plan)
}

} // verus!
