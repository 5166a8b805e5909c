//! The options of one invocation.

use crate::strings::{clone_strings, text_of, texts};
use vstd::prelude::*;
use vstd::string::StringExecFns;

verus! {

/// The name of the subcommand, which cargo passes on as the first argument
/// when it runs the program for `cargo add-dynamic`.
pub const SUBCOMMAND: &'static str = "add-dynamic";

/// The texts of a list of strings that may be missing.
pub open spec fn texts_of(strings: Option<Vec<String>>) -> Option<Seq<Seq<char>>> {
    match strings {
        Some(list) => Some(texts(list@)),
        None => None,
    }
}

/// The command line as it was parsed, before defaults are filled in.
#[derive(Debug, Clone)]
pub struct Arguments {
    pub verbose: bool,
    /// The dependency to add.
    pub crate_name: String,
    /// The name of the wrapper package, where one was given.
    pub name: Option<String>,
    /// The directory of the wrapper package, where one was given.
    pub lib_dir: Option<String>,
    pub optional: bool,
    pub offline: bool,
    pub no_default_features: bool,
    pub features: Option<Vec<String>>,
    /// The absolute path of a local dependency.
    pub path: Option<String>,
    /// The package to modify.
    pub package: Option<String>,
    /// The name under which the target package sees the dependency.
    pub rename: Option<String>,
}

/// The options that the commands are built from.
#[derive(Debug, Clone)]
pub struct Opts {
    pub verbose: bool,
    pub crate_name: String,
    pub name: String,
    pub lib_dir: String,
    pub optional: bool,
    pub offline: bool,
    pub no_default_features: bool,
    pub features: Option<Vec<String>>,
    pub path: Option<String>,
    pub package: Option<String>,
    pub rename: Option<String>,
}

/// The mathematical value of an [`Opts`].
pub struct OptsView {
    pub verbose: bool,
    pub crate_name: Seq<char>,
    pub name: Seq<char>,
    pub lib_dir: Seq<char>,
    pub optional: bool,
    pub offline: bool,
    pub no_default_features: bool,
    pub features: Option<Seq<Seq<char>>>,
    pub path: Option<Seq<char>>,
    pub package: Option<Seq<char>>,
    pub rename: Option<Seq<char>>,
}

impl View for Opts {
    type V = OptsView;

    open spec fn view(&self) -> OptsView {
        OptsView {
            verbose: self.verbose,
            crate_name: self.crate_name@,
            name: self.name@,
            lib_dir: self.lib_dir@,
            optional: self.optional,
            offline: self.offline,
            no_default_features: self.no_default_features,
            features: texts_of(self.features),
            path: text_of(self.path),
            package: text_of(self.package),
            rename: text_of(self.rename),
        }
    }
}

/// The name of the wrapper package where none is given: the dependency's
/// name with `-dynamic` behind it.
pub open spec fn default_name(crate_name: Seq<char>) -> Seq<char> {
    crate_name + "-dynamic"@
}

/// The options that the parsed command line `args` stands for: the wrapper
/// package is named after the dependency where no name is given, and lives
/// in a directory of its own name where no directory is given.
pub open spec fn resolved(args: Arguments) -> OptsView {
    let name = match args.name {
        Some(name) => name@,
        None => default_name(args.crate_name@),
    };
    OptsView {
        verbose: args.verbose,
        crate_name: args.crate_name@,
        name,
        lib_dir: match args.lib_dir {
            Some(dir) => dir@,
            None => name,
        },
        optional: args.optional,
        offline: args.offline,
        no_default_features: args.no_default_features,
        features: texts_of(args.features),
        path: text_of(args.path),
        package: text_of(args.package),
        rename: text_of(args.rename),
    }
}

/// The arguments of the process without the subcommand's name, which is
/// there when cargo ran the program and not when it was run by itself.
pub open spec fn without_subcommand(args: Seq<Seq<char>>) -> Seq<Seq<char>> {
    if args.len() > 1 && args[1] == SUBCOMMAND@ {
        args.remove(1)
    } else {
        args
    }
}

/// A copy of a string that may be missing.
pub fn clone_text(text: &Option<String>) -> (copy: Option<String>)
    ensures
        text_of(copy) == text_of(*text),
{
    match text {
        Some(text) => Some(text.clone()),
        None => None,
    }
}

impl Opts {
    /// Takes the subcommand's name out of the arguments of the process, if
    /// it is there.
    pub fn strip_subcommand(args: Vec<String>) -> (stripped: Vec<String>)
        requires
            args.len() > 1,
        ensures
            texts(stripped@) == without_subcommand(texts(args@)),
    {
        let mut args = args;
        let ghost before = args@;
        let subcommand = String::from_str(SUBCOMMAND);
        if args[1] == subcommand {
            args.remove(1);
            assert(texts(args@) =~= texts(before).remove(1));
        }
        args
    }

    /// Fills in the defaults.
    pub fn from_args(args: Arguments) -> (opts: Opts)
        ensures
            opts@ == resolved(args),
    {
        let name = match args.name {
            Some(name) => name,
            None => args.crate_name.clone().concat("-dynamic"),
        };
        let lib_dir = match args.lib_dir {
            Some(dir) => dir,
            None => name.clone(),
        };
        Opts {
            verbose: args.verbose,
            crate_name: args.crate_name,
            name,
            lib_dir,
            optional: args.optional,
            offline: args.offline,
            no_default_features: args.no_default_features,
            features: args.features,
            path: args.path,
            package: args.package,
            rename: args.rename,
        }
    }

    /// The directory of the wrapper package.
    pub fn lib_dir_str(&self) -> (dir: &str)
        ensures
            dir@ == self@.lib_dir,
    {
        self.lib_dir.as_str()
    }

    /// A copy of these options.
    pub fn duplicate(&self) -> (copy: Opts)
        ensures
            copy@ == self@,
    {
        Opts {
            verbose: self.verbose,
            crate_name: self.crate_name.clone(),
            name: self.name.clone(),
            lib_dir: self.lib_dir.clone(),
            optional: self.optional,
            offline: self.offline,
            no_default_features: self.no_default_features,
            features: match &self.features {
                Some(list) => Some(clone_strings(list)),
                None => None,
            },
            path: clone_text(&self.path),
            package: clone_text(&self.package),
            rename: clone_text(&self.rename),
        }
    }
}

} // verus!
