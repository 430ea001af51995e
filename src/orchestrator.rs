use vstd::prelude::*;
use crate::invocation::{args_of, CrateType, Edition, Rustc, RustcView};

verus! {

/// Why a build did not happen or did not finish.
#[derive(Clone, Copy, Debug, PartialEq, Eq, Structural)]
pub enum BuildError {
    /// No ancestor of the working directory holds the version-control marker.
    NoRoot,
    /// The project root has no final name component to name the crate after.
    NoName,
    /// Neither the library entry nor the binary entry exists.
    NothingToCompile,
    /// The toolchain could not be launched, was lost, or reported failure.
    Toolchain,
}

/// The message shown for an error.
pub open spec fn error_text(e: BuildError) -> Seq<char> {
    match e {
        BuildError::NoRoot => "No root dir"@,
        BuildError::NoName => "Freight run in directory without a name"@,
        BuildError::NothingToCompile => "There is nothing to compile"@,
        BuildError::Toolchain => "The compiler could not be run or failed"@,
    }
}

impl BuildError {
    /// The message shown for this error.
    pub fn message(&self) -> (r: &'static str)
        ensures
            r@ == error_text(*self),
    {
        match self {
            BuildError::NoRoot => "No root dir",
            BuildError::NoName => "Freight run in directory without a name",
            BuildError::NothingToCompile => "There is nothing to compile",
            BuildError::Toolchain => "The compiler could not be run or failed",
        }
    }
}

/// Which entry points a project has, when it has at least one.
#[derive(Clone, Copy, Debug, PartialEq, Eq, Structural)]
pub enum Shape {
    LibThenBin,
    LibOnly,
    BinOnly,
}

/// The shape of a project from the presence of its two entry files.
pub open spec fn shape_of(lib_present: bool, bin_present: bool) -> Option<Shape> {
    if lib_present && bin_present {
        Some(Shape::LibThenBin)
    } else if lib_present {
        Some(Shape::LibOnly)
    } else if bin_present {
        Some(Shape::BinOnly)
    } else {
        None
    }
}

/// Classifies a project; a project with neither entry file has nothing to compile.
pub fn classify(lib_present: bool, bin_present: bool) -> (r: Result<Shape, BuildError>)
    ensures
        shape_of(lib_present, bin_present) matches Some(s) ==> r == Ok::<Shape, BuildError>(s),
        shape_of(lib_present, bin_present) is None ==> r == Err::<Shape, BuildError>(
            BuildError::NothingToCompile,
        ),
{
    if lib_present && bin_present {
        Ok(Shape::LibThenBin)
    } else if lib_present {
        Ok(Shape::LibOnly)
    } else if bin_present {
        Ok(Shape::BinOnly)
    } else {
        Err(BuildError::NothingToCompile)
    }
}

/// The first of the ancestors, nearest first, that holds the marker.
pub open spec fn first_marked(marked: Seq<bool>, i: int) -> bool {
    &&& 0 <= i < marked.len()
    &&& marked[i]
    &&& forall|j: int| 0 <= j < i ==> !marked[j]
}

/// Picks the project root among the ancestors of the working directory,
/// listed nearest first, given which of them hold the version-control marker:
/// the nearest marked one, or `NoRoot` when none is.
pub fn locate_root(marked: &Vec<bool>) -> (r: Result<usize, BuildError>)
    ensures
        r matches Ok(i) ==> first_marked(marked@, i as int),
        r is Err <==> forall|j: int| 0 <= j < marked@.len() ==> !marked@[j],
        r is Err ==> r == Err::<usize, BuildError>(BuildError::NoRoot),
{
    let mut i: usize = 0;
    while i < marked.len()
        invariant
            i <= marked@.len(),
            forall|j: int| 0 <= j < i ==> !marked@[j],
        decreases marked.len() - i,
    {
        if marked[i] {
            return Ok(i);
        }
        i = i + 1;
    }
    Err(BuildError::NoRoot)
}

/// One compiler run: a finalized invocation and the source file it compiles.
pub struct Invocation {
    rustc: Rustc,
    source: String,
}

/// An invocation as values.
pub ghost struct InvocationView {
    pub rustc: RustcView,
    pub source: Seq<char>,
}

impl View for Invocation {
    type V = InvocationView;

    closed spec fn view(&self) -> InvocationView {
        InvocationView { rustc: self.rustc@, source: self.source@ }
    }
}

impl Invocation {
    /// Pairs an invocation with the source it compiles.
    pub fn new(rustc: Rustc, source: &str) -> (r: Invocation)
        ensures
            r@ == (InvocationView { rustc: rustc@, source: source@ }),
    {
        Invocation { rustc, source: source.to_owned() }
    }

    /// The arguments the compiler is launched with.
    pub fn args(&self) -> (r: Vec<String>)
        ensures
            r.deep_view() == args_of(self@.rustc, self@.source),
    {
        self.rustc.args(self.source.as_str())
    }
}

/// The views of a sequence of invocations.
pub open spec fn views_of(v: Seq<Invocation>) -> Seq<InvocationView> {
    v.map_values(|i: Invocation| i@)
}

/// A compiler run of the build: edition 2021, the shared directory for output
/// and for extern lookup, no conditional flags.
pub open spec fn build_step(
    crate_type: CrateType,
    name: Seq<char>,
    source: Seq<char>,
    dir: Seq<char>,
    externs: Seq<Seq<char>>,
) -> InvocationView {
    InvocationView {
        rustc: RustcView {
            edition: Edition::E2021,
            crate_type,
            crate_name: name,
            out_dir: dir,
            lib_dir: dir,
            cfg: Seq::empty(),
            externs,
        },
        source,
    }
}

/// The ordered compiler runs for a project of the given shape: the library
/// first, then the binary linked against it under the crate's own name.
pub open spec fn plan_of(
    shape: Shape,
    name: Seq<char>,
    lib_rs: Seq<char>,
    main_rs: Seq<char>,
    dir: Seq<char>,
) -> Seq<InvocationView> {
    let lib = build_step(CrateType::Lib, name, lib_rs, dir, Seq::empty());
    match shape {
        Shape::LibThenBin => seq![lib, build_step(CrateType::Bin, name, main_rs, dir, seq![name])],
        Shape::LibOnly => seq![lib],
        Shape::BinOnly => seq![build_step(CrateType::Bin, name, main_rs, dir, Seq::empty())],
    }
}

fn compile_step(crate_type: CrateType, name: &str, source: &str, dir: &str, link_library: bool) -> (r:
    Invocation)
    ensures
        r@ == build_step(
            crate_type,
            name@,
            source@,
            dir@,
            if link_library {
                seq![name@]
            } else {
                Seq::empty()
            },
        ),
{
    let mut builder = Rustc::builder().edition(Edition::E2021).crate_type(crate_type).crate_name(
        name,
    ).out_dir(dir).lib_dir(dir);
    if link_library {
        builder = builder.externs(name);
    }
    let rustc = builder.build();
    proof {
        if !link_library {
            assert(rustc@.externs =~= Seq::<Seq<char>>::empty());
        }
        assert(rustc@.cfg =~= Seq::<Seq<char>>::empty());
    }
    Invocation::new(rustc, source)
}

/// Decides the compiler runs of a build. `root_name` is the last component of
/// the project root, which names the crate; `lib_present` and `bin_present`
/// say whether the entry files `lib_rs` and `main_rs` exist; `dir` is the
/// shared output and search directory.
pub fn plan_build(
    root_name: Option<&str>,
    lib_present: bool,
    bin_present: bool,
    lib_rs: &str,
    main_rs: &str,
    dir: &str,
) -> (r: Result<Vec<Invocation>, BuildError>)
    ensures
        root_name is None ==> r == Err::<Vec<Invocation>, BuildError>(BuildError::NoName),
        root_name is Some && shape_of(lib_present, bin_present) is None ==> r == Err::<
            Vec<Invocation>,
            BuildError,
        >(BuildError::NothingToCompile),
        root_name is Some && shape_of(lib_present, bin_present) is Some ==> (r matches Ok(v)
            && views_of(v@) == plan_of(
            shape_of(lib_present, bin_present)->0,
            root_name->0@,
            lib_rs@,
            main_rs@,
            dir@,
        )),
{
    let name = match root_name {
        Some(n) => n,
        None => return Err(BuildError::NoName),
    };
    let shape = match classify(lib_present, bin_present) {
        Ok(s) => s,
        Err(e) => return Err(e),
    };
    let mut v: Vec<Invocation> = Vec::new();
    match shape {
        Shape::LibThenBin => {
            v.push(compile_step(CrateType::Lib, name, lib_rs, dir, false));
            v.push(compile_step(CrateType::Bin, name, main_rs, dir, true));
        },
        Shape::LibOnly => {
            v.push(compile_step(CrateType::Lib, name, lib_rs, dir, false));
        },
        Shape::BinOnly => {
            v.push(compile_step(CrateType::Bin, name, main_rs, dir, false));
        },
    }
    assert(views_of(v@) =~= plan_of(shape, name@, lib_rs@, main_rs@, dir@));
    Ok(v)
}

/// Where a sequence of compiler runs stands.
#[derive(Clone, Copy, Debug, PartialEq, Eq, Structural)]
pub enum Progress {
    /// The run at this index is the next to launch; all before it succeeded.
    Running(usize),
    /// Every run succeeded.
    Succeeded,
    /// A run failed; nothing after it is launched.
    Failed,
}

/// The progress before any run has been reported, for a plan of `n` runs.
pub open spec fn start_progress(n: nat) -> Progress {
    if n == 0 {
        Progress::Succeeded
    } else {
        Progress::Running(0)
    }
}

/// The progress after the current run of a plan of `n` runs reports `ok`.
pub open spec fn next_progress(p: Progress, n: nat, ok: bool) -> Progress {
    match p {
        Progress::Running(i) => if !ok {
            Progress::Failed
        } else if i + 1 >= n {
            Progress::Succeeded
        } else {
            Progress::Running((i + 1) as usize)
        },
        _ => p,
    }
}

/// The progress after the reports `events`, in order, on a plan of `n` runs.
pub open spec fn progress_after(n: nat, events: Seq<bool>) -> Progress
    decreases events.len(),
{
    if events.len() == 0 {
        start_progress(n)
    } else {
        next_progress(progress_after(n, events.drop_last()), n, events.last())
    }
}

/// Hands out the runs of a plan one at a time, strictly in order, and stops
/// at the first failure.
pub struct BuildDriver {
    steps: Vec<Invocation>,
    progress: Progress,
    reports: Ghost<Seq<bool>>,
}

impl BuildDriver {
    /// The runs of the plan, in order.
    pub closed spec fn steps(&self) -> Seq<InvocationView> {
        views_of(self.steps@)
    }

    /// Where the plan stands.
    pub closed spec fn progress(&self) -> Progress {
        self.progress
    }

    /// The outcomes reported so far, in order.
    pub closed spec fn reports(&self) -> Seq<bool> {
        self.reports@
    }

    /// The progress is the one the reports lead to, and the index of the next
    /// run lies within the plan.
    pub open spec fn wf(&self) -> bool {
        &&& self.progress() == progress_after(self.steps().len(), self.reports())
        &&& self.progress() matches Progress::Running(i) ==> i < self.steps().len()
    }

    /// A driver for `steps`, before any of them has run.
    pub fn new(steps: Vec<Invocation>) -> (r: BuildDriver)
        ensures
            r.wf(),
            r.steps() == views_of(steps@),
            r.progress() == start_progress(steps@.len()),
            r.reports() == Seq::<bool>::empty(),
    {
        let progress = if steps.len() == 0 {
            Progress::Succeeded
        } else {
            Progress::Running(0)
        };
        BuildDriver { steps, progress, reports: Ghost(Seq::empty()) }
    }

    /// Where the plan stands.
    pub fn current(&self) -> (r: Progress)
        ensures
            r == self.progress(),
    {
        self.progress
    }

    /// The arguments of the run to launch next, if one is due: only while
    /// every earlier run has succeeded.
    pub fn next_command(&self) -> (r: Option<Vec<String>>)
        requires
            self.wf(),
        ensures
            self.progress() matches Progress::Running(i) ==> (r matches Some(a) && a.deep_view()
                == args_of(self.steps()[i as int].rustc, self.steps()[i as int].source)),
            self.progress() !is Running ==> r is None,
    {
        match self.progress {
            Progress::Running(i) => Some(self.steps[i].args()),
            _ => None,
        }
    }

    /// Records whether the run just launched succeeded.
    pub fn report(&mut self, ok: bool)
        requires
            old(self).wf(),
        ensures
            final(self).wf(),
            final(self).steps() == old(self).steps(),
            final(self).progress() == next_progress(old(self).progress(), old(self).steps().len(), ok),
            final(self).reports() == old(self).reports().push(ok),
    {
        let ghost before = self.reports@;
        match self.progress {
            Progress::Running(i) => {
                assert(self.steps().len() == self.steps@.len());
                if !ok {
                    self.progress = Progress::Failed;
                } else if self.steps.len() - i <= 1 {
                    self.progress = Progress::Succeeded;
                } else {
                    self.progress = Progress::Running(i + 1);
                }
            },
            _ => {},
        }
        self.reports = Ghost(before.push(ok));
        assert(self.reports@.drop_last() =~= before);
    }

    /// The result of the build once no run is due: success only if every
    /// run succeeded.
    pub fn outcome(&self) -> (r: Option<Result<(), BuildError>>)
        ensures
            self.progress() is Running <==> r is None,
            self.progress() is Succeeded <==> r == Some(Ok::<(), BuildError>(())),
            self.progress() is Failed <==> r == Some(Err::<(), BuildError>(BuildError::Toolchain)),
    {
        match self.progress {
            Progress::Running(_) => None,
            Progress::Succeeded => Some(Ok(())),
            Progress::Failed => Some(Err(BuildError::Toolchain)),
        }
    }
}

/// Once a run fails the build stays failed: whatever is reported afterwards,
/// no later run is handed out. In particular, when the first run of a plan
/// fails, the second is never launched.
pub proof fn lemma_failure_is_final(n: nat, events: Seq<bool>, k: int)
    requires
        0 <= k < events.len(),
        !events[k],
        progress_after(n, events.take(k)) is Running,
    ensures
        progress_after(n, events) == Progress::Failed,
    decreases events.len(),
{
    if events.len() == k + 1 {
        assert(events.drop_last() =~= events.take(k));
    } else {
        assert(events.drop_last().take(k) =~= events.take(k));
        lemma_failure_is_final(n, events.drop_last(), k);
    }
}

/// A run is due only once every run before it has reported success, and the
/// build succeeds only once every run of the plan has.
pub proof fn lemma_runs_follow_success(n: nat, events: Seq<bool>)
    requires
        n <= usize::MAX,
    ensures
        progress_after(n, events) matches Progress::Running(i) ==> i == events.len() && i < n
            && forall|j: int| 0 <= j < i ==> events[j],
        progress_after(n, events) is Succeeded ==> n <= events.len() && forall|j: int|
            0 <= j < n ==> events[j],
    decreases events.len(),
{
    if events.len() > 0 {
        let prev = events.drop_last();
        lemma_runs_follow_success(n, prev);
        assert forall|j: int| 0 <= j < prev.len() implies prev[j] == events[j] by {}
        if let Progress::Running(i) = progress_after(n, prev) {
            if events.last() && i + 1 < n {
                assert(progress_after(n, events) == Progress::Running((i + 1) as usize));
            }
        }
    }
}

/// In a project with both entry files the binary links exactly one extern,
/// the crate's own library, and it is handed out only after the library run
/// has been reported a success.
pub proof fn lemma_binary_after_library(
    name: Seq<char>,
    lib_rs: Seq<char>,
    main_rs: Seq<char>,
    dir: Seq<char>,
    events: Seq<bool>,
)
    ensures
        plan_of(Shape::LibThenBin, name, lib_rs, main_rs, dir).len() == 2,
        plan_of(Shape::LibThenBin, name, lib_rs, main_rs, dir)[0].rustc.crate_type == CrateType::Lib,
        plan_of(Shape::LibThenBin, name, lib_rs, main_rs, dir)[1].rustc.crate_type == CrateType::Bin,
        plan_of(Shape::LibThenBin, name, lib_rs, main_rs, dir)[1].rustc.externs == seq![name],
        progress_after(2, events) == Progress::Running(1) ==> events.len() == 1 && events[0],
{
    lemma_runs_follow_success(2, events);
}

} // verus!
