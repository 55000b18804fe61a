//! The build directory and the build tool's command line.

use crate::digest::cache_key_of;
use crate::error::CargoPlayError;
use crate::opt::Opt;
use crate::text::{lowercase_of, texts};
use vstd::prelude::*;
use vstd::string::StringExecFns;

verus! {

/// How an attempt to create or to remove a directory ended.
#[derive(Debug, Clone, Copy, PartialEq, Eq, Structural)]
pub enum Outcome {
    /// It was done.
    Done,
    /// There was no such directory.
    NotFound,
    /// The directory was there already.
    AlreadyExists,
    /// It failed for another reason.
    Failed,
}

/// Whether removing the build directory ended well: it was removed, or it was
/// not there in the first place.
pub open spec fn clean_succeeds(outcome: Outcome) -> bool {
    outcome == Outcome::Done || outcome == Outcome::NotFound
}

/// Whether making sure of the build directory ended well: it was created, or
/// it was there already.
pub open spec fn ensure_succeeds(outcome: Outcome) -> bool {
    outcome == Outcome::Done || outcome == Outcome::AlreadyExists
}

/// After removing the build directory: that it was not there is as good as
/// having removed it, and every other failure ends the run with the
/// directory's path.
pub fn after_clean(dir: &str, outcome: Outcome) -> (r: Result<(), CargoPlayError>)
    ensures
        match r {
            Ok(_) => clean_succeeds(outcome),
            Err(CargoPlayError::FileSystem(p)) => !clean_succeeds(outcome) && p@ == dir@,
            Err(_) => false,
        },
{
    match outcome {
        Outcome::Done | Outcome::NotFound => Ok(()),
        _ => Err(CargoPlayError::FileSystem(dir.to_owned())),
    }
}

/// After creating the build directory: that it was there already is as good
/// as having created it, and every other failure ends the run with the
/// directory's path.
pub fn after_ensure(dir: &str, outcome: Outcome) -> (r: Result<(), CargoPlayError>)
    ensures
        match r {
            Ok(_) => ensure_succeeds(outcome),
            Err(CargoPlayError::FileSystem(p)) => !ensure_succeeds(outcome) && p@ == dir@,
            Err(_) => false,
        },
{
    match outcome {
        Outcome::Done | Outcome::AlreadyExists => Ok(()),
        _ => Err(CargoPlayError::FileSystem(dir.to_owned())),
    }
}

/// What a child process reported, given whether its status could be had:
/// the exit code, if it ended with one, or `ChildProcess` with the program
/// where it could not be started or waited for.
pub fn after_child(program: &str, status: Option<Option<i32>>) -> (r: Result<
    Option<i32>,
    CargoPlayError,
>)
    ensures
        match r {
            Ok(code) => status == Some(code),
            Err(CargoPlayError::ChildProcess(p)) => status is None && p@ == program@,
            Err(_) => false,
        },
{
    match status {
        Some(code) => Ok(code),
        None => Err(CargoPlayError::ChildProcess(program.to_owned())),
    }
}

/// The directory under which the build directory stands: the cache directory
/// where one is configured, the directory for temporary files otherwise.
pub open spec fn build_root_of(cache_dir: Option<Seq<char>>, temp_root: Seq<char>) -> Seq<char> {
    match cache_dir {
        Some(dir) => dir,
        None => temp_root,
    }
}

/// The name of the directory that holds the built program.
pub open spec fn mode_dir(release: bool) -> Seq<char> {
    if release {
        "release"@
    } else {
        "debug"@
    }
}

/// The path of the built program below the build directory, component by
/// component: the build tool's output directory, the mode, and the cache key
/// in lower case, which is the package's name.
pub open spec fn artifact_of(src: Seq<char>, release: bool) -> Seq<Seq<char>> {
    seq!["target"@, mode_dir(release), lowercase_of(cache_key_of(src))]
}

/// The toolchain argument, where a toolchain is chosen.
pub open spec fn toolchain_part(toolchain: Option<String>) -> Seq<Seq<char>> {
    match toolchain {
        Some(t) => seq![seq!['+'] + t@],
        None => Seq::empty(),
    }
}

/// The release flag, where release mode is chosen.
pub open spec fn release_part(release: bool) -> Seq<Seq<char>> {
    if release {
        seq!["--release"@]
    } else {
        Seq::empty()
    }
}

/// The arguments that are passed through, after `--`, where there are any.
pub open spec fn passed_part(args: Seq<Seq<char>>) -> Seq<Seq<char>> {
    if args.len() > 0 {
        seq!["--"@] + args
    } else {
        Seq::empty()
    }
}

/// The arguments of the build tool.
pub open spec fn build_args_of(opt: Opt, manifest_path: Seq<char>) -> Seq<Seq<char>> {
    toolchain_part(opt.toolchain) + seq!["build"@, "--manifest-path"@, manifest_path]
        + release_part(opt.release) + passed_part(texts(opt.args@))
}

impl Opt {
    /// The directory under which the build directory stands.
    pub fn build_root(&self, temp_root: &str) -> (r: String)
        ensures
            r@ == build_root_of(
                match self.cache_dir {
                    Some(d) => Some(d@),
                    None => None,
                },
                temp_root@,
            ),
    {
        match &self.cache_dir {
            Some(dir) => dir.clone(),
            None => temp_root.to_owned(),
        }
    }

    /// The components of the built program's path below the build directory.
    pub fn artifact_path(&self) -> (r: Vec<String>)
        ensures
            texts(r@) == artifact_of(self.src@, self.release),
    {
        let mut out: Vec<String> = Vec::new();
        out.push(String::from_str("target"));
        if self.release {
            out.push(String::from_str("release"));
        } else {
            out.push(String::from_str("debug"));
        }
        out.push(self.src_hash().as_str().to_lowercase());
        assert(texts(out@) =~= artifact_of(self.src@, self.release));
        out
    }

    /// The arguments with which the build tool is started on the manifest at
    /// `manifest_path`.
    pub fn build_args(&self, manifest_path: &str) -> (r: Vec<String>)
        ensures
            texts(r@) == build_args_of(*self, manifest_path@),
    {
        let mut out: Vec<String> = Vec::new();
        let ghost mut done: Seq<Seq<char>> = Seq::empty();
        assert(texts(out@) =~= done);
        match &self.toolchain {
            Some(t) => {
                let mut arg = String::new();
                arg.push('+');
                arg.append(t.as_str());
                assert(arg@ =~= seq!['+'] + t@);
                out.push(arg);
                proof {
                    done = done.push(arg@);
                }
                assert(texts(out@) =~= done);
            },
            None => {},
        }
        assert(done =~= toolchain_part(self.toolchain));
        out.push(String::from_str("build"));
        out.push(String::from_str("--manifest-path"));
        out.push(manifest_path.to_owned());
        proof {
            done = done + seq!["build"@, "--manifest-path"@, manifest_path@];
        }
        assert(texts(out@) =~= done);
        if self.release {
            out.push(String::from_str("--release"));
            proof {
                done = done.push("--release"@);
            }
            assert(texts(out@) =~= done);
        }
        assert(done =~= toolchain_part(self.toolchain) + seq![
            "build"@,
            "--manifest-path"@,
            manifest_path@,
        ] + release_part(self.release));
        if self.args.len() > 0 {
            out.push(String::from_str("--"));
            proof {
                done = done.push("--"@);
            }
            assert(texts(out@) =~= done);
            let ghost head = done;
            let mut i: usize = 0;
            while i < self.args.len()
                invariant
                    i <= self.args.len(),
                    texts(out@) =~= head + texts(self.args@).take(i as int),
                decreases self.args.len() - i,
            {
                let ghost before = texts(out@);
                let item = self.args[i].clone();
                assert(item@ == texts(self.args@)[i as int]);
                out.push(item);
                assert(texts(out@) =~= before.push(item@));
                i += 1;
            }
            assert(texts(self.args@).take(self.args.len() as int) =~= texts(self.args@));
            assert(texts(out@) =~= build_args_of(*self, manifest_path@));
        } else {
            assert(texts(out@) =~= build_args_of(*self, manifest_path@));
        }
        out
    }
}

} // verus!
