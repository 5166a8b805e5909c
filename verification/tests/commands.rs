use cargo_add_dynamic::{exit_code, run, Action, Arguments, DylibWrapperPackage, Opts, TargetPackage};

fn arguments(crate_name: &str) -> Arguments {
    Arguments {
        verbose: false,
        crate_name: crate_name.to_string(),
        name: None,
        lib_dir: None,
        optional: false,
        offline: false,
        no_default_features: false,
        features: None,
        path: None,
        package: None,
        rename: None,
    }
}

fn full() -> Opts {
    Opts::from_args(Arguments {
        verbose: true,
        crate_name: "my-dep".to_string(),
        name: Some("dep-dylib".to_string()),
        lib_dir: Some("libs/dep".to_string()),
        optional: true,
        offline: true,
        no_default_features: true,
        features: Some(vec!["derive".to_string(), "std".to_string()]),
        path: Some("/src/my-dep".to_string()),
        package: Some("app".to_string()),
        rename: Some("dep".to_string()),
    })
}

fn cargo(action: Action) -> (Vec<String>, Option<String>) {
    match action {
        Action::RunCargo { args, current_dir } => (args, current_dir),
        _ => panic!("a cargo command is expected"),
    }
}

fn strings(items: &[&str]) -> Vec<String> {
    items.iter().map(|s| s.to_string()).collect()
}

#[test]
fn wrapper_package_is_named_after_the_dependency() {
    let opts = Opts::from_args(arguments("serde"));
    assert_eq!(opts.crate_name, "serde");
    assert_eq!(opts.name, "serde-dynamic");
    assert_eq!(opts.lib_dir, "serde-dynamic");
    assert_eq!(opts.lib_dir_str(), "serde-dynamic");
    assert!(!opts.verbose && !opts.optional && !opts.offline && !opts.no_default_features);
    assert_eq!(opts.features, None);
    assert_eq!(opts.path, None);
    assert_eq!(opts.package, None);
    assert_eq!(opts.rename, None);
}

#[test]
fn wrapper_package_lives_in_a_directory_of_its_name() {
    let mut args = arguments("serde");
    args.name = Some("serde-dylib".to_string());
    let opts = Opts::from_args(args);
    assert_eq!(opts.name, "serde-dylib");
    assert_eq!(opts.lib_dir_str(), "serde-dylib");

    let mut args = arguments("serde");
    args.lib_dir = Some("libs/serde".to_string());
    let opts = Opts::from_args(args);
    assert_eq!(opts.name, "serde-dynamic");
    assert_eq!(opts.lib_dir_str(), "libs/serde");
}

#[test]
fn given_options_are_kept() {
    let opts = full();
    assert!(opts.verbose && opts.optional && opts.offline && opts.no_default_features);
    assert_eq!(opts.crate_name, "my-dep");
    assert_eq!(opts.name, "dep-dylib");
    assert_eq!(opts.lib_dir, "libs/dep");
    assert_eq!(opts.features, Some(strings(&["derive", "std"])));
    assert_eq!(opts.path, Some("/src/my-dep".to_string()));
    assert_eq!(opts.package, Some("app".to_string()));
    assert_eq!(opts.rename, Some("dep".to_string()));
    let copy = opts.duplicate();
    assert_eq!(copy.crate_name, "my-dep");
    assert_eq!(copy.features, Some(strings(&["derive", "std"])));
    assert_eq!(copy.rename, Some("dep".to_string()));
    assert_eq!(copy.lib_dir, "libs/dep");
}

#[test]
fn subcommand_name_is_taken_out_of_the_arguments() {
    assert_eq!(
        Opts::strip_subcommand(strings(&["cargo-add-dynamic", "add-dynamic", "serde", "--offline"])),
        strings(&["cargo-add-dynamic", "serde", "--offline"])
    );
    assert_eq!(
        Opts::strip_subcommand(strings(&["cargo-add-dynamic", "serde", "add-dynamic"])),
        strings(&["cargo-add-dynamic", "serde", "add-dynamic"])
    );
    assert_eq!(
        Opts::strip_subcommand(strings(&["cargo-add-dynamic", "add-dynamic", "add-dynamic"])),
        strings(&["cargo-add-dynamic", "add-dynamic"])
    );
    assert_eq!(
        Opts::strip_subcommand(strings(&["cargo-add-dynamic", "add-dynamic"])),
        strings(&["cargo-add-dynamic"])
    );
}

#[test]
fn new_lib_command_names_the_package_and_its_directory() {
    let package = DylibWrapperPackage::new(Opts::from_args(arguments("serde")));
    let (args, current_dir) = cargo(package.cargo_new_lib());
    assert_eq!(args, strings(&["new", "--lib", "--name", "serde-dynamic", "serde-dynamic"]));
    assert_eq!(current_dir, None);

    let (args, _) = cargo(DylibWrapperPackage::new(full()).cargo_new_lib());
    assert_eq!(args, strings(&["new", "--lib", "--name", "dep-dylib", "libs/dep"]));
}

#[test]
fn add_dependency_command_is_plain_without_options() {
    let package = DylibWrapperPackage::new(Opts::from_args(arguments("serde")));
    let (args, current_dir) = cargo(package.cargo_add_dependency_to_new_lib());
    assert_eq!(args, strings(&["add", "serde"]));
    assert_eq!(current_dir, Some("serde-dynamic".to_string()));
}

#[test]
fn add_dependency_command_passes_the_options_on_in_order() {
    let (args, current_dir) = cargo(DylibWrapperPackage::new(full()).cargo_add_dependency_to_new_lib());
    assert_eq!(
        args,
        strings(&[
            "add",
            "my-dep",
            "--offline",
            "--features",
            "derive",
            "std",
            "--no-default-features",
            "--path",
            "/src/my-dep",
        ])
    );
    assert_eq!(current_dir, Some("libs/dep".to_string()));

    let mut some = arguments("serde");
    some.features = Some(Vec::new());
    some.no_default_features = true;
    let (args, _) = cargo(DylibWrapperPackage::new(Opts::from_args(some)).cargo_add_dependency_to_new_lib());
    assert_eq!(args, strings(&["add", "serde", "--features", "--no-default-features"]));
}

#[test]
fn wrapper_package_becomes_a_dylib_that_reexports_the_dependency() {
    let edits = DylibWrapperPackage::new(full()).modify_dynamic_lib();
    assert_eq!(edits.len(), 2);
    match &edits[0] {
        Action::AppendToFile { dir, file, text } => {
            assert_eq!(dir, "libs/dep");
            assert_eq!(file, "Cargo.toml");
            assert_eq!(text, "\n[lib]\ncrate-type = [\"dylib\"]\n");
        }
        _ => panic!("the manifest is appended to"),
    }
    match &edits[1] {
        Action::OverwriteFile { dir, file, text } => {
            assert_eq!(dir, "libs/dep");
            assert_eq!(file, "src/lib.rs");
            assert_eq!(text, "pub use my_dep::*;\n");
        }
        _ => panic!("the source is overwritten"),
    }
}

#[test]
fn dashes_of_the_dependency_are_underscores_in_the_source() {
    let source = |name: &str| {
        match DylibWrapperPackage::new(Opts::from_args(arguments(name))).modify_dynamic_lib().pop() {
            Some(Action::OverwriteFile { text, .. }) => text,
            _ => panic!("the source is overwritten"),
        }
    };
    assert_eq!(source("serde"), "pub use serde::*;\n");
    assert_eq!(source("a-b-c"), "pub use a_b_c::*;\n");
    assert_eq!(source("-x--y-"), "pub use _x__y_::*;\n");
    assert_eq!(source("x_y"), "pub use x_y::*;\n");
}

#[test]
fn add_to_target_command_keeps_the_dependency_name() {
    let package = TargetPackage::new(Opts::from_args(arguments("serde")));
    let (args, current_dir) = cargo(package.cargo_add_dynamic_library_to_target_package());
    assert_eq!(
        args,
        strings(&["add", "serde-dynamic", "--rename", "serde", "--path", "serde-dynamic"])
    );
    assert_eq!(current_dir, None);
}

#[test]
fn add_to_target_command_passes_the_options_on_in_order() {
    let (args, current_dir) = cargo(TargetPackage::new(full()).cargo_add_dynamic_library_to_target_package());
    assert_eq!(
        args,
        strings(&[
            "add",
            "dep-dylib",
            "--rename",
            "dep",
            "--path",
            "libs/dep",
            "--offline",
            "--optional",
            "--package",
            "app",
        ])
    );
    assert_eq!(current_dir, None);
}

#[test]
fn steps_come_in_the_order_in_which_they_depend_on_each_other() {
    let steps = run(full());
    assert_eq!(steps.len(), 5);
    let mut steps = steps.into_iter();
    let (args, dir) = cargo(steps.next().unwrap());
    assert_eq!(args, strings(&["new", "--lib", "--name", "dep-dylib", "libs/dep"]));
    assert_eq!(dir, None);
    let (args, dir) = cargo(steps.next().unwrap());
    assert_eq!(args[..2], strings(&["add", "my-dep"])[..]);
    assert_eq!(args.len(), 9);
    assert_eq!(dir, Some("libs/dep".to_string()));
    assert!(matches!(
        steps.next().unwrap(),
        Action::AppendToFile { dir, file, text }
            if dir == "libs/dep" && file == "Cargo.toml" && text == "\n[lib]\ncrate-type = [\"dylib\"]\n"
    ));
    assert!(matches!(
        steps.next().unwrap(),
        Action::OverwriteFile { dir, file, text }
            if dir == "libs/dep" && file == "src/lib.rs" && text == "pub use my_dep::*;\n"
    ));
    let (args, dir) = cargo(steps.next().unwrap());
    assert_eq!(args[..4], strings(&["add", "dep-dylib", "--rename", "dep"])[..]);
    assert_eq!(dir, None);
    assert!(steps.next().is_none());
}

#[test]
fn failed_command_decides_the_exit_status() {
    assert_eq!(exit_code(Some(101)), 101);
    assert_eq!(exit_code(Some(1)), 1);
    assert_eq!(exit_code(Some(-1)), -1);
    assert_eq!(exit_code(None), 2);
}
