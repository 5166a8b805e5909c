//! The steps that create the wrapper package and wire it into the target
//! package.
//!
//! Nothing is run or written here: each step is worked out as an
//! [`Action`], which the caller performs.

use crate::manifest::MANIFEST_FILE;
use crate::opts::{Opts, OptsView};
use crate::strings::{replace_char, replaced, text_of, texts};
use vstd::prelude::*;
use vstd::string::StringExecFns;

verus! {

/// The exit status of the program where a cargo command failed without one
/// of its own.
pub const EXIT_CODE_ERROR: i32 = 2;

/// One thing to do.
#[derive(Debug)]
pub enum Action {
    /// Run `cargo` with the arguments `args`, in the directory `current_dir`
    /// where one is given. Where cargo fails, nothing more is done, and the
    /// program exits as [`exit_code`] says.
    RunCargo { args: Vec<String>, current_dir: Option<String> },
    /// Append `text` to the file `file` in the directory `dir`.
    AppendToFile { dir: String, file: String, text: String },
    /// Replace what the file `file` in the directory `dir` holds by `text`.
    OverwriteFile { dir: String, file: String, text: String },
}

/// The mathematical value of an [`Action`].
pub enum ActionView {
    RunCargo { args: Seq<Seq<char>>, current_dir: Option<Seq<char>> },
    AppendToFile { dir: Seq<char>, file: Seq<char>, text: Seq<char> },
    OverwriteFile { dir: Seq<char>, file: Seq<char>, text: Seq<char> },
}

impl View for Action {
    type V = ActionView;

    open spec fn view(&self) -> ActionView {
        match self {
            Action::RunCargo { args, current_dir } => ActionView::RunCargo {
                args: texts(args@),
                current_dir: text_of(*current_dir),
            },
            Action::AppendToFile { dir, file, text } => ActionView::AppendToFile {
                dir: dir@,
                file: file@,
                text: text@,
            },
            Action::OverwriteFile { dir, file, text } => ActionView::OverwriteFile {
                dir: dir@,
                file: file@,
                text: text@,
            },
        }
    }
}

/// The values of a list of actions.
pub open spec fn actions(list: Seq<Action>) -> Seq<ActionView> {
    list.map_values(|action: Action| action@)
}

/// The name by which Rust code refers to the crate `crate_name`: its dashes
/// are underscores there.
pub open spec fn crate_ident(crate_name: Seq<char>) -> Seq<char> {
    replaced(crate_name, '-', "_"@)
}

/// `cargo new --lib --name <name> <lib-dir>`.
pub open spec fn new_lib_command(opts: OptsView) -> ActionView {
    ActionView::RunCargo {
        args: seq!["new"@, "--lib"@, "--name"@, opts.name, opts.lib_dir],
        current_dir: None,
    }
}

/// `cargo add <dep>` in the wrapper package's directory, with `--offline`,
/// `--features` and the features, `--no-default-features`, and `--path` and
/// the path, each where the options ask for it, in this order.
pub open spec fn add_dependency_command(opts: OptsView) -> ActionView {
    ActionView::RunCargo {
        args: seq!["add"@, opts.crate_name] + (if opts.offline {
            seq!["--offline"@]
        } else {
            seq![]
        }) + (match opts.features {
            Some(features) => seq!["--features"@] + features,
            None => seq![],
        }) + (if opts.no_default_features {
            seq!["--no-default-features"@]
        } else {
            seq![]
        }) + (match opts.path {
            Some(path) => seq!["--path"@, path],
            None => seq![],
        }),
        current_dir: Some(opts.lib_dir),
    }
}

/// The lines that make the wrapper package a dynamic library, appended to
/// its manifest.
pub open spec fn manifest_edit(opts: OptsView) -> ActionView {
    ActionView::AppendToFile {
        dir: opts.lib_dir,
        file: MANIFEST_FILE@,
        text: "\n[lib]\ncrate-type = [\"dylib\"]\n"@,
    }
}

/// The source of the wrapper package: it re-exports the dependency.
pub open spec fn source_edit(opts: OptsView) -> ActionView {
    ActionView::OverwriteFile {
        dir: opts.lib_dir,
        file: "src/lib.rs"@,
        text: "pub use "@ + crate_ident(opts.crate_name) + "::*;\n"@,
    }
}

/// `cargo add <name> --rename <dep> --path <lib-dir>`, with `--offline`,
/// `--optional`, and `--package` and the package, each where the options ask
/// for it, in this order. The dependency keeps its own name unless the
/// options rename it.
pub open spec fn add_to_target_command(opts: OptsView) -> ActionView {
    ActionView::RunCargo {
        args: seq![
            "add"@,
            opts.name,
            "--rename"@,
            match opts.rename {
                Some(rename) => rename,
                None => opts.crate_name,
            },
            "--path"@,
            opts.lib_dir,
        ] + (if opts.offline {
            seq!["--offline"@]
        } else {
            seq![]
        }) + (if opts.optional {
            seq!["--optional"@]
        } else {
            seq![]
        }) + (match opts.package {
            Some(package) => seq!["--package"@, package],
            None => seq![],
        }),
        current_dir: None,
    }
}

/// Everything to do, in order: create the wrapper package, give it the
/// dependency, make it a dynamic library that re-exports the dependency, and
/// add it to the target package.
pub open spec fn plan(opts: OptsView) -> Seq<ActionView> {
    seq![
        new_lib_command(opts),
        add_dependency_command(opts),
        manifest_edit(opts),
        source_edit(opts),
        add_to_target_command(opts),
    ]
}

/// The status that the program exits with when a cargo command failed with
/// status `code`: the same, or [`EXIT_CODE_ERROR`] where cargo ended without
/// one.
pub fn exit_code(code: Option<i32>) -> (status: i32)
    ensures
        status == match code {
            Some(code) => code,
            None => EXIT_CODE_ERROR,
        },
{
    match code {
        Some(code) => code,
        None => EXIT_CODE_ERROR,
    }
}

/// The wrapper package: a new package whose only dependency is the one to
/// add, built as a dynamic library.
pub struct DylibWrapperPackage {
    opts: Opts,
}

impl View for DylibWrapperPackage {
    type V = OptsView;

    closed spec fn view(&self) -> OptsView {
        self.opts@
    }
}

impl DylibWrapperPackage {
    pub fn new(opts: Opts) -> (package: Self)
        ensures
            package@ == opts@,
    {
        Self { opts }
    }

    /// The command that creates the wrapper package.
    pub fn cargo_new_lib(&self) -> (action: Action)
        ensures
            action@ == new_lib_command(self@),
    {
        let opts = &self.opts;
        let mut args: Vec<String> = Vec::new();
        args.push(String::from_str("new"));
        args.push(String::from_str("--lib"));
        args.push(String::from_str("--name"));
        args.push(opts.name.clone());
        args.push(opts.lib_dir_str().to_string());
        assert(texts(args@) =~= new_lib_command(self@)->RunCargo_args);
        Action::RunCargo { args, current_dir: None }
    }

    /// The command that adds the dependency to the wrapper package.
    pub fn cargo_add_dependency_to_new_lib(&self) -> (action: Action)
        ensures
            action@ == add_dependency_command(self@),
    {
        let opts = &self.opts;
        let mut args: Vec<String> = Vec::new();
        args.push(String::from_str("add"));
        args.push(opts.crate_name.clone());
        assert(texts(args@) =~= seq!["add"@, opts@.crate_name]);
        let ghost mut expected = texts(args@);

        if opts.offline {
            args.push(String::from_str("--offline"));
        }
        proof {
            expected = expected + (if opts.offline {
                seq!["--offline"@]
            } else {
                seq![]
            });
            assert(texts(args@) =~= expected);
        }

        if let Some(features) = &opts.features {
            args.push(String::from_str("--features"));
            let ghost start = texts(args@);
            let mut i: usize = 0;
            while i < features.len()
                invariant
                    i <= features.len(),
                    texts(args@) == start + texts(features@).take(i as int),
                decreases features.len() - i,
            {
                let ghost before = texts(args@);
                args.push(features[i].clone());
                assert(texts(args@) =~= before.push(features@[i as int]@));
                assert(texts(features@).take(i + 1) =~= texts(features@).take(i as int).push(
                    features@[i as int]@,
                ));
                i += 1;
            }
            assert(texts(features@).take(i as int) =~= texts(features@));
        }
        proof {
            expected = expected + (match opts@.features {
                Some(features) => seq!["--features"@] + features,
                None => seq![],
            });
            assert(texts(args@) =~= expected);
        }

        if opts.no_default_features {
            args.push(String::from_str("--no-default-features"));
        }
        proof {
            expected = expected + (if opts.no_default_features {
                seq!["--no-default-features"@]
            } else {
                seq![]
            });
            assert(texts(args@) =~= expected);
        }

        if let Some(path) = &opts.path {
            args.push(String::from_str("--path"));
            args.push(path.clone());
        }
        proof {
            expected = expected + (match opts@.path {
                Some(path) => seq!["--path"@, path],
                None => seq![],
            });
            assert(texts(args@) =~= expected);
        }

        Action::RunCargo { args, current_dir: Some(opts.lib_dir_str().to_string()) }
    }

    /// The edits that make the wrapper package a dynamic library that
    /// re-exports the dependency: first to its manifest, then to its source.
    pub fn modify_dynamic_lib(&self) -> (edits: Vec<Action>)
        ensures
            actions(edits@) == seq![manifest_edit(self@), source_edit(self@)],
    {
        let opts = &self.opts;
        let crate_name = replace_char(opts.crate_name.as_str(), '-', "_");
        let source = String::from_str("pub use ").concat(crate_name.as_str()).concat("::*;\n");
        let mut edits: Vec<Action> = Vec::new();
        edits.push(
            Action::AppendToFile {
                dir: opts.lib_dir.clone(),
                file: String::from_str(MANIFEST_FILE),
                text: String::from_str("\n[lib]\ncrate-type = [\"dylib\"]\n"),
            },
        );
        edits.push(
            Action::OverwriteFile {
                dir: opts.lib_dir.clone(),
                file: String::from_str("src/lib.rs"),
                text: source,
            },
        );
        assert(actions(edits@) =~= seq![manifest_edit(self@), source_edit(self@)]);
        edits
    }
}

/// The package that receives the dependency.
pub struct TargetPackage {
    opts: Opts,
}

impl View for TargetPackage {
    type V = OptsView;

    closed spec fn view(&self) -> OptsView {
        self.opts@
    }
}

impl TargetPackage {
    pub fn new(opts: Opts) -> (package: Self)
        ensures
            package@ == opts@,
    {
        Self { opts }
    }

    /// The command that adds the wrapper package to the target package,
    /// under the dependency's name.
    pub fn cargo_add_dynamic_library_to_target_package(&self) -> (action: Action)
        ensures
            action@ == add_to_target_command(self@),
    {
        let opts = &self.opts;
        let name = match &opts.rename {
            Some(rename) => rename.clone(),
            None => opts.crate_name.clone(),
        };
        let mut args: Vec<String> = Vec::new();
        args.push(String::from_str("add"));
        args.push(opts.name.clone());
        args.push(String::from_str("--rename"));
        args.push(name);
        args.push(String::from_str("--path"));
        args.push(opts.lib_dir_str().to_string());
        let ghost mut expected = texts(args@);
        assert(expected =~= seq![
            "add"@,
            opts@.name,
            "--rename"@,
            match opts@.rename {
                Some(rename) => rename,
                None => opts@.crate_name,
            },
            "--path"@,
            opts@.lib_dir,
        ]);

        if opts.offline {
            args.push(String::from_str("--offline"));
        }
        proof {
            expected = expected + (if opts.offline {
                seq!["--offline"@]
            } else {
                seq![]
            });
            assert(texts(args@) =~= expected);
        }

        if opts.optional {
            args.push(String::from_str("--optional"));
        }
        proof {
            expected = expected + (if opts.optional {
                seq!["--optional"@]
            } else {
                seq![]
            });
            assert(texts(args@) =~= expected);
        }

        if let Some(package) = &opts.package {
            args.push(String::from_str("--package"));
            args.push(package.clone());
        }
        proof {
            expected = expected + (match opts@.package {
                Some(package) => seq!["--package"@, package],
                None => seq![],
            });
            assert(texts(args@) =~= expected);
            assert(expected =~= add_to_target_command(self@)->RunCargo_args);
        }

        Action::RunCargo { args, current_dir: None }
    }
}

/// Everything to do to add the dependency as a dynamic library, in order.
/// Each action is performed only after the one before it succeeded.
pub fn run(opts: Opts) -> (steps: Vec<Action>)
    ensures
        actions(steps@) == plan(opts@),
{
    let dylib_package = DylibWrapperPackage::new(opts.duplicate());
    let target_package = TargetPackage::new(opts);
    let mut steps: Vec<Action> = Vec::new();
    steps.push(dylib_package.cargo_new_lib());
    steps.push(dylib_package.cargo_add_dependency_to_new_lib());
    let mut edits = dylib_package.modify_dynamic_lib();
    assert(edits@.len() == actions(edits@).len());
    assert(actions(edits@)[0] == edits@[0]@);
    assert(actions(edits@)[1] == edits@[1]@);
    steps.append(&mut edits);
    steps.push(target_package.cargo_add_dynamic_library_to_target_package());
    assert(actions(steps@) =~= plan(opts@));
    steps
}

} // verus!
