use freight::bootstrap::bootstrap_plan;
use freight::orchestrator::{classify, locate_root, plan_build, BuildDriver, BuildError, Progress, Shape};

fn strings(v: &[&str]) -> Vec<String> {
    v.iter().map(|s| s.to_string()).collect()
}

fn lib_args() -> Vec<String> {
    strings(&[
        "r/src/lib.rs", "--edition", "2021", "--crate-type", "lib", "--crate-name", "proj",
        "--out-dir", "r/target/debug", "-L", "r/target/debug",
    ])
}

fn bin_args(externs: &[&str]) -> Vec<String> {
    let mut v = strings(&[
        "r/src/main.rs", "--edition", "2021", "--crate-type", "bin", "--crate-name", "proj",
        "--out-dir", "r/target/debug", "-L", "r/target/debug",
    ]);
    v.extend(strings(externs));
    v
}

fn plan(lib: bool, bin: bool) -> Result<Vec<Vec<String>>, BuildError> {
    plan_build(Some("proj"), lib, bin, "r/src/lib.rs", "r/src/main.rs", "r/target/debug")
        .map(|steps| steps.iter().map(|s| s.args()).collect())
}

#[test]
fn classification_table() {
    assert_eq!(classify(true, true), Ok(Shape::LibThenBin));
    assert_eq!(classify(true, false), Ok(Shape::LibOnly));
    assert_eq!(classify(false, true), Ok(Shape::BinOnly));
    assert_eq!(classify(false, false), Err(BuildError::NothingToCompile));
}

#[test]
fn plan_for_each_shape() {
    assert_eq!(plan(true, true), Ok(vec![lib_args(), bin_args(&["--extern=proj"])]));
    assert_eq!(plan(true, false), Ok(vec![lib_args()]));
    assert_eq!(plan(false, true), Ok(vec![bin_args(&[])]));
    assert_eq!(plan(false, false), Err(BuildError::NothingToCompile));
}

#[test]
fn root_without_name_is_refused_first() {
    let r = plan_build(None, false, false, "l", "m", "d");
    assert!(matches!(r, Err(BuildError::NoName)));
    let r = plan_build(None, true, true, "l", "m", "d");
    assert!(matches!(r, Err(BuildError::NoName)));
}

#[test]
fn root_is_the_nearest_marked_ancestor() {
    assert_eq!(locate_root(&vec![false, false, false, true, false]), Ok(3));
    assert_eq!(locate_root(&vec![false, true, true]), Ok(1));
    assert_eq!(locate_root(&vec![true]), Ok(0));
}

#[test]
fn no_marked_ancestor_means_no_root() {
    assert_eq!(locate_root(&vec![false, false, false]), Err(BuildError::NoRoot));
    assert_eq!(locate_root(&vec![]), Err(BuildError::NoRoot));
}

#[test]
fn binary_waits_for_library() {
    let steps = plan_build(Some("proj"), true, true, "r/src/lib.rs", "r/src/main.rs", "r/target/debug").unwrap();
    let mut d = BuildDriver::new(steps);
    assert_eq!(d.current(), Progress::Running(0));
    assert_eq!(d.next_command(), Some(lib_args()));
    assert_eq!(d.outcome(), None);
    d.report(true);
    assert_eq!(d.current(), Progress::Running(1));
    assert_eq!(d.next_command(), Some(bin_args(&["--extern=proj"])));
    d.report(true);
    assert_eq!(d.current(), Progress::Succeeded);
    assert_eq!(d.next_command(), None);
    assert_eq!(d.outcome(), Some(Ok(())));
}

#[test]
fn failed_library_stops_the_build() {
    let steps = plan_build(Some("proj"), true, true, "r/src/lib.rs", "r/src/main.rs", "r/target/debug").unwrap();
    let mut d = BuildDriver::new(steps);
    assert_eq!(d.next_command(), Some(lib_args()));
    d.report(false);
    assert_eq!(d.current(), Progress::Failed);
    assert_eq!(d.next_command(), None);
    d.report(true);
    assert_eq!(d.next_command(), None);
    assert_eq!(d.outcome(), Some(Err(BuildError::Toolchain)));
}

#[test]
fn empty_plan_succeeds_at_once() {
    let d = BuildDriver::new(Vec::new());
    assert_eq!(d.next_command(), None);
    assert_eq!(d.outcome(), Some(Ok(())));
}

#[test]
fn bootstrap_stages_in_order() {
    let mut d = BuildDriver::new(bootstrap_plan("target/bootstrap_stage1"));
    assert_eq!(
        d.next_command(),
        Some(strings(&[
            "src/lib.rs", "--edition", "2021", "--crate-type", "lib", "--crate-name", "freight",
            "--out-dir", "target/bootstrap_stage1", "-L", "target/bootstrap_stage1", "--cfg=stage1",
        ]))
    );
    d.report(true);
    assert_eq!(
        d.next_command(),
        Some(strings(&[
            "src/main.rs", "--edition", "2021", "--crate-type", "bin", "--crate-name",
            "freight_stage1", "--out-dir", "target/bootstrap_stage1", "-L",
            "target/bootstrap_stage1", "--extern=freight", "--cfg=stage1",
        ]))
    );
    d.report(true);
    assert_eq!(d.outcome(), Some(Ok(())));
}

#[test]
fn bootstrap_stops_when_stage_one_fails() {
    let mut d = BuildDriver::new(bootstrap_plan("b"));
    d.report(false);
    assert_eq!(d.next_command(), None);
    assert_eq!(d.outcome(), Some(Err(BuildError::Toolchain)));
}

#[test]
fn error_messages() {
    assert_eq!(BuildError::NoRoot.message(), "No root dir");
    assert_eq!(BuildError::NoName.message(), "Freight run in directory without a name");
    assert_eq!(BuildError::NothingToCompile.message(), "There is nothing to compile");
    assert!(!BuildError::Toolchain.message().is_empty());
}
