//! The configuration of a run, and the first reading of the command line.

use crate::digest::{cache_key, cache_key_of, is_url_safe, key_len};
use crate::edition::RustEdition;
use crate::text::{copy_strings, same_text, texts};
use vstd::prelude::*;
use vstd::string::{StrSliceExecFns, StringExecFns};

verus! {

/// The configuration of a run. It is built once and then only read.
#[derive(Debug, Clone)]
pub struct Opt {
    /// Remove the build directory before building.
    pub clean: bool,
    /// The toolchain channel to build with, where one was chosen.
    pub toolchain: Option<String>,
    /// The directory under which build directories are kept, where it is not
    /// the directory for temporary files.
    pub cache_dir: Option<String>,
    /// The edition that the project declares.
    pub edition: RustEdition,
    /// Build in release mode.
    pub release: bool,
    /// Run an earlier build where there is one.
    pub cached: bool,
    /// The primary source file.
    pub src: String,
    /// What the built program is started with.
    pub args: Vec<String>,
}

/// A command line after its first reading, before any option is interpreted.
#[derive(Debug, Clone)]
pub struct Invocation {
    /// The toolchain channel, where an argument `+channel` chose one.
    pub toolchain: Option<String>,
    /// The program's name and the arguments that hold the options.
    pub options: Vec<String>,
    /// The arguments after the first `--`.
    pub trailing: Vec<String>,
}

/// An `Invocation` as plain texts.
pub struct InvocationView {
    pub toolchain: Option<Seq<char>>,
    pub options: Seq<Seq<char>>,
    pub trailing: Seq<Seq<char>>,
}

impl View for Invocation {
    type V = InvocationView;

    open spec fn view(&self) -> InvocationView {
        InvocationView {
            toolchain: match self.toolchain {
                Some(t) => Some(t@),
                None => None,
            },
            options: texts(self.options@),
            trailing: texts(self.trailing@),
        }
    }
}

/// The tag that every build directory's name starts with.
pub open spec fn dir_tag() -> Seq<char> {
    "cargo-play."@
}

/// The name of the build directory for a primary source path: the tag, then
/// the cache key of the path.
pub open spec fn dir_name_of(src: Seq<char>) -> Seq<char> {
    dir_tag() + cache_key_of(src)
}

/// Two configurations with the same primary source path have the same cache
/// key and the same build directory name, whatever else they differ in.
pub proof fn lemma_names_depend_on_path_alone(a: Opt, b: Opt)
    requires
        a.src@ == b.src@,
    ensures
        cache_key_of(a.src@) == cache_key_of(b.src@),
        dir_name_of(a.src@) == dir_name_of(b.src@),
{
}

/// Whether an argument chooses a toolchain: it starts with `+`.
pub open spec fn is_toolchain_arg(a: Seq<char>) -> bool {
    a.len() > 0 && a[0] == '+'
}

/// The arguments that choose a toolchain.
pub open spec fn choosing() -> spec_fn(Seq<char>) -> bool {
    |a: Seq<char>| is_toolchain_arg(a)
}

/// The arguments that choose no toolchain.
pub open spec fn plain() -> spec_fn(Seq<char>) -> bool {
    |a: Seq<char>| !is_toolchain_arg(a)
}

/// The arguments without the program's name where the program was started as
/// the subcommand `play` of another: the subcommand's name then stands for it.
pub open spec fn without_subcommand(args: Seq<Seq<char>>) -> Seq<Seq<char>> {
    if args.len() >= 2 && args[1] == "play"@ {
        args.drop_first()
    } else {
        args
    }
}

/// The first index at or after `from` that holds `--`, or the length of
/// `args` where there is none.
pub open spec fn first_separator(args: Seq<Seq<char>>, from: int) -> int
    decreases args.len() - from,
{
    if from < 0 || from >= args.len() {
        args.len() as int
    } else if args[from] == "--"@ {
        from
    } else {
        first_separator(args, from + 1)
    }
}

/// What a command line is read as; `None` where it has fewer than two
/// arguments. Arguments that start with `+` are taken out wherever they
/// stand, and the last of them names the toolchain. Of the others, those
/// before the first `--` hold the options and those after it are passed on.
pub open spec fn invocation_of(args: Seq<Seq<char>>) -> Option<InvocationView> {
    if args.len() < 2 {
        None
    } else {
        let rest = without_subcommand(args);
        let chosen = rest.filter(choosing());
        let others = rest.filter(plain());
        let cut = first_separator(others, 0);
        Some(
            InvocationView {
                toolchain: if chosen.len() > 0 {
                    Some(chosen.last().drop_first())
                } else {
                    None
                },
                options: others.subrange(0, cut),
                trailing: if cut < others.len() {
                    others.subrange(cut + 1, others.len() as int)
                } else {
                    Seq::empty()
                },
            },
        )
    }
}

/// Behind one more argument that is not `--`, the first `--` stands one
/// place further on.
pub proof fn lemma_first_separator_shift(head: Seq<char>, args: Seq<Seq<char>>, from: int)
    requires
        0 <= from <= args.len(),
    ensures
        first_separator(seq![head] + args, from + 1) == first_separator(args, from) + 1,
    decreases args.len() - from,
{
    let all = seq![head] + args;
    if from < args.len() {
        assert(all[from + 1] == args[from]);
        if args[from] != "--"@ {
            lemma_first_separator_shift(head, args, from + 1);
        }
    }
}

/// What one argument leaves when it is filtered.
proof fn lemma_filter_one(x: Seq<char>, pred: spec_fn(Seq<char>) -> bool)
    ensures
        seq![x].filter(pred) == if pred(x) {
            seq![x]
        } else {
            Seq::<Seq<char>>::empty()
        },
{
    let none = Seq::<Seq<char>>::empty();
    assert(none.filter(pred) == none) by {
        reveal(Seq::filter);
    }
    none.lemma_filter_push(x, pred);
    assert(none.push(x) =~= seq![x]);
}

/// Started as the subcommand `play` of a host program, a command line is
/// read as if the program had been started under a name of its own, but that
/// `play` stands where that name would: the toolchain, the options behind
/// the name and the trailing arguments are the same. The name must be an
/// ordinary argument, and the first argument behind it must not be `play`
/// itself, which would be taken for the subcommand.
pub proof fn lemma_subcommand(host: Seq<char>, name: Seq<char>, rest: Seq<Seq<char>>)
    requires
        rest.len() >= 1,
        rest[0] != "play"@,
        !is_toolchain_arg(name),
        name != "--"@,
    ensures
        invocation_of(seq![host, "play"@] + rest) is Some,
        invocation_of(seq![name] + rest) is Some,
        invocation_of(seq![host, "play"@] + rest)->0.toolchain == invocation_of(
            seq![name] + rest,
        )->0.toolchain,
        invocation_of(seq![host, "play"@] + rest)->0.trailing == invocation_of(
            seq![name] + rest,
        )->0.trailing,
        invocation_of(seq![host, "play"@] + rest)->0.options == seq!["play"@] + invocation_of(
            seq![name] + rest,
        )->0.options.drop_first(),
        invocation_of(seq![name] + rest)->0.options[0] == name,
{
    reveal_strlit("play");
    reveal_strlit("--");
    let play = "play"@;
    assert(play.len() == 4 && "--"@.len() == 2);
    assert(play != "--"@);
    assert(!is_toolchain_arg(play));
    let a = seq![host, play] + rest;
    let b = seq![name] + rest;
    assert(a[1] == play);
    assert(b[1] == rest[0]);
    assert(without_subcommand(a) =~= seq![play] + rest);
    assert(without_subcommand(b) == b);
    let chosen = rest.filter(choosing());
    let others = rest.filter(plain());
    Seq::filter_distributes_over_add(seq![play], rest, choosing());
    Seq::filter_distributes_over_add(seq![play], rest, plain());
    Seq::filter_distributes_over_add(seq![name], rest, choosing());
    Seq::filter_distributes_over_add(seq![name], rest, plain());
    lemma_filter_one(play, choosing());
    lemma_filter_one(play, plain());
    lemma_filter_one(name, choosing());
    lemma_filter_one(name, plain());
    assert((seq![play] + rest).filter(choosing()) =~= chosen);
    assert((seq![name] + rest).filter(choosing()) =~= chosen);
    let oa = seq![play] + others;
    let ob = seq![name] + others;
    assert((seq![play] + rest).filter(plain()) == oa);
    assert((seq![name] + rest).filter(plain()) == ob);
    lemma_first_separator_shift(play, others, 0);
    lemma_first_separator_shift(name, others, 0);
    lemma_first_separator_from(others, 0);
    let cut = first_separator(others, 0);
    assert(first_separator(oa, 0) == cut + 1);
    assert(first_separator(ob, 0) == cut + 1);
    assert(oa.subrange(0, cut + 1) =~= seq![play] + ob.subrange(0, cut + 1).drop_first());
    if cut + 1 < oa.len() {
        assert(oa.subrange(cut + 2, oa.len() as int) =~= ob.subrange(cut + 2, ob.len() as int));
    }
}

/// `first_separator` stays within the arguments.
pub proof fn lemma_first_separator_from(args: Seq<Seq<char>>, from: int)
    requires
        0 <= from <= args.len(),
    ensures
        from <= first_separator(args, from) <= args.len(),
    decreases args.len() - from,
{
    if from < args.len() && args[from] != "--"@ {
        lemma_first_separator_from(args, from + 1);
    }
}

/// Whether `a` starts with `+`.
fn chooses_toolchain(a: &str) -> (r: bool)
    ensures
        r == is_toolchain_arg(a@),
{
    a.unicode_len() > 0 && a.get_char(0) == '+'
}

/// The index of the first `--` in `args`, or their number.
fn find_separator(args: &Vec<String>) -> (k: usize)
    ensures
        k <= args.len(),
        k == first_separator(texts(args@), 0),
{
    let n = args.len();
    let mut i: usize = 0;
    while i < n && !same_text(args[i].as_str(), "--")
        invariant
            n == args.len(),
            i <= n,
            first_separator(texts(args@), i as int) == first_separator(texts(args@), 0),
        decreases n - i,
    {
        i += 1;
    }
    i
}

impl Opt {
    /// The cache key of the primary source file: a function of the path's
    /// text alone, 27 characters long, each a letter, a digit, `-` or `_`.
    pub fn src_hash(&self) -> (r: String)
        ensures
            r@ == cache_key_of(self.src@),
            r@.len() == key_len(),
            forall|i: int| 0 <= i < r@.len() ==> is_url_safe(#[trigger] r@[i]),
    {
        cache_key(self.src.as_str())
    }

    /// The name of the build directory: the tag, then the cache key.
    pub fn temp_dirname(&self) -> (r: String)
        ensures
            r@ == dir_name_of(self.src@),
    {
        let key = self.src_hash();
        String::from_str("cargo-play.").concat(key.as_str())
    }

    /// The same configuration with the given toolchain.
    pub fn with_toolchain(self, toolchain: Option<String>) -> (r: Opt)
        ensures
            r == (Opt { toolchain, ..self }),
    {
        let mut opt = self;
        opt.toolchain = toolchain;
        opt
    }

    /// The same configuration with `trailing` added to the arguments of the
    /// built program.
    pub fn with_trailing(self, trailing: &Vec<String>) -> (r: Opt)
        ensures
            texts(r.args@) == texts(self.args@) + texts(trailing@),
            r == (Opt { args: r.args, ..self }),
    {
        let mut opt = self;
        let mut i: usize = 0;
        while i < trailing.len()
            invariant
                i <= trailing.len(),
                texts(opt.args@) =~= texts(self.args@) + texts(trailing@).take(i as int),
                opt == (Opt { args: opt.args, ..self }),
            decreases trailing.len() - i,
        {
            let ghost before = texts(opt.args@);
            let item = trailing[i].clone();
            assert(item@ == texts(trailing@)[i as int]);
            opt.args.push(item);
            assert(texts(opt.args@) =~= before.push(item@));
            i += 1;
        }
        opt
    }

    /// Reads a command line for the first time: fails on fewer than two
    /// arguments, and otherwise returns what `invocation_of` describes.
    pub fn parse(args: Vec<String>) -> (r: Result<Invocation, ()>)
        ensures
            match r {
                Ok(inv) => invocation_of(texts(args@)) == Some(inv@),
                Err(_) => invocation_of(texts(args@)) is None,
            },
    {
        let n = args.len();
        if n < 2 {
            return Err(());
        }
        let start: usize = if same_text(args[1].as_str(), "play") {
            1
        } else {
            0
        };
        let ghost all = texts(args@);
        let ghost rest = without_subcommand(all);
        assert(rest =~= all.subrange(start as int, n as int));
        let mut toolchain: Option<String> = None;
        let mut others: Vec<String> = Vec::new();
        let mut i: usize = start;
        proof {
            reveal(Seq::filter);
            assert(rest.take(0).filter(choosing()) =~= Seq::<Seq<char>>::empty());
            assert(rest.take(0).filter(plain()) =~= Seq::<Seq<char>>::empty());
        }
        while i < n
            invariant
                n == args.len(),
                all == texts(args@),
                start <= i <= n,
                rest == all.subrange(start as int, n as int),
                texts(others@) == rest.take(i - start).filter(plain()),
                match toolchain {
                    Some(t) => {
                        let chosen = rest.take(i - start).filter(choosing());
                        chosen.len() > 0 && t@ == chosen.last().drop_first()
                    },
                    None => rest.take(i - start).filter(choosing()).len() == 0,
                },
            decreases n - i,
        {
            let arg = args[i].as_str();
            proof {
                let seen = rest.take(i - start);
                assert(rest.take(i - start + 1) =~= seen.push(arg@));
                seen.lemma_filter_push(arg@, choosing());
                seen.lemma_filter_push(arg@, plain());
            }
            if chooses_toolchain(arg) {
                let len = arg.unicode_len();
                toolchain = Some(arg.substring_char(1, len).to_owned());
            } else {
                let ghost before = texts(others@);
                others.push(arg.to_owned());
                assert(texts(others@) =~= before.push(arg@));
            }
            i += 1;
        }
        assert(rest.take(n - start) =~= rest);
        let cut = find_separator(&others);
        let options = copy_strings(&others, 0, cut);
        let trailing = if cut < others.len() {
            copy_strings(&others, cut + 1, others.len())
        } else {
            Vec::new()
        };
        assert(texts(trailing@) =~= invocation_of(all)->0.trailing);
        Ok(Invocation { toolchain, options, trailing })
    }
}

} // verus!
