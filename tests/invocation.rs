use freight::invocation::{CrateType, Edition, Rustc, RustcBuilder};

fn strings(v: &[&str]) -> Vec<String> {
    v.iter().map(|s| s.to_string()).collect()
}

#[test]
fn defaults_are_oldest_edition_and_binary() {
    let rustc = Rustc::builder().crate_name("demo").out_dir("out").lib_dir("deps").build();
    assert_eq!(
        rustc.args("src/main.rs"),
        strings(&[
            "src/main.rs",
            "--edition",
            "2015",
            "--crate-type",
            "bin",
            "--crate-name",
            "demo",
            "--out-dir",
            "out",
            "-L",
            "deps",
        ])
    );
}

#[test]
fn externs_come_before_cfg_flags_in_insertion_order() {
    let rustc = Rustc::builder()
        .cfg("x")
        .externs("a")
        .externs("b")
        .crate_name("c")
        .out_dir("o")
        .lib_dir("l")
        .edition(Edition::E2021)
        .crate_type(CrateType::Lib)
        .build();
    assert_eq!(
        rustc.args("lib.rs"),
        strings(&[
            "lib.rs",
            "--edition",
            "2021",
            "--crate-type",
            "lib",
            "--crate-name",
            "c",
            "--out-dir",
            "o",
            "-L",
            "l",
            "--extern=a",
            "--extern=b",
            "--cfg=x",
        ])
    );
}

#[test]
fn duplicate_flags_are_kept() {
    let rustc = Rustc::builder()
        .cfg("x")
        .cfg("x")
        .externs("a")
        .externs("a")
        .crate_name("c")
        .out_dir("o")
        .lib_dir("l")
        .build();
    let args = rustc.args("s.rs");
    assert_eq!(args.len(), 15);
    assert_eq!(&args[11..], &strings(&["--extern=a", "--extern=a", "--cfg=x", "--cfg=x"])[..]);
}

#[test]
fn later_setting_replaces_earlier() {
    let rustc = Rustc::builder()
        .edition(Edition::E2018)
        .edition(Edition::E2021)
        .crate_name("first")
        .crate_name("second")
        .out_dir("o")
        .lib_dir("l")
        .build();
    let args = rustc.args("s.rs");
    assert_eq!(args[2], "2021");
    assert_eq!(args[6], "second");
}

#[test]
fn default_builder_is_empty() {
    let rustc = RustcBuilder::default().crate_name("n").out_dir("o").lib_dir("l").build();
    assert_eq!(rustc.args("s.rs"), Rustc::builder().crate_name("n").out_dir("o").lib_dir("l").build().args("s.rs"));
}

#[test]
fn edition_spellings() {
    assert_eq!(Edition::E2015.as_str(), "2015");
    assert_eq!(Edition::E2018.as_str(), "2018");
    assert_eq!(Edition::E2021.as_str(), "2021");
}

#[test]
fn crate_type_spellings() {
    assert_eq!(CrateType::Bin.as_str(), "bin");
    assert_eq!(CrateType::Lib.as_str(), "lib");
    assert_eq!(CrateType::RLib.as_str(), "rlib");
    assert_eq!(CrateType::DyLib.as_str(), "dylib");
    assert_eq!(CrateType::CDyLib.as_str(), "cdylib");
    assert_eq!(CrateType::StaticLib.as_str(), "staticlib");
    assert_eq!(CrateType::ProcMacro.as_str(), "proc-macro");
}
