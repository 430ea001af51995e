use vstd::prelude::*;
use crate::invocation::{CrateType, Edition, Rustc, RustcView};
use crate::orchestrator::{
    lemma_failure_is_final, progress_after, views_of, Invocation, InvocationView, Progress,
};

verus! {

/// One stage of the self-hosting bootstrap: edition 2021, the bootstrap flag
/// set, and the isolated bootstrap directory for both output and extern lookup.
pub open spec fn stage(
    crate_type: CrateType,
    name: Seq<char>,
    source: Seq<char>,
    dir: Seq<char>,
    externs: Seq<Seq<char>>,
) -> InvocationView {
    InvocationView {
        rustc: RustcView {
            edition: Edition::E2021,
            crate_type,
            crate_name: name,
            out_dir: dir,
            lib_dir: dir,
            cfg: seq!["stage1"@],
            externs,
        },
        source,
    }
}

/// The two stages: the tool's own library, then its binary linked against it.
pub open spec fn bootstrap_stages(dir: Seq<char>) -> Seq<InvocationView> {
    seq![
        stage(CrateType::Lib, "freight"@, "src/lib.rs"@, dir, Seq::empty()),
        stage(CrateType::Bin, "freight_stage1"@, "src/main.rs"@, dir, seq!["freight"@]),
    ]
}

/// The compiler runs that build the tool with itself into `dir`.
pub fn bootstrap_plan(dir: &str) -> (r: Vec<Invocation>)
    ensures
        views_of(r@) == bootstrap_stages(dir@),
{
    let lib = Rustc::builder().edition(Edition::E2021).crate_type(CrateType::Lib).crate_name(
        "freight",
    ).out_dir(dir).lib_dir(dir).cfg("stage1").build();
    let bin = Rustc::builder().edition(Edition::E2021).crate_type(CrateType::Bin).crate_name(
        "freight_stage1",
    ).out_dir(dir).lib_dir(dir).cfg("stage1").externs("freight").build();
    assert(lib@.externs =~= Seq::<Seq<char>>::empty());
    assert(lib@.cfg =~= seq!["stage1"@]);
    assert(bin@.cfg =~= seq!["stage1"@]);
    assert(bin@.externs =~= seq!["freight"@]);
    let mut r: Vec<Invocation> = Vec::new();
    r.push(Invocation::new(lib, "src/lib.rs"));
    r.push(Invocation::new(bin, "src/main.rs"));
    assert(views_of(r@) =~= bootstrap_stages(dir@));
    r
}

/// The second stage is never launched once the first has failed, whatever is
/// reported afterwards.
pub proof fn lemma_stage_two_needs_stage_one(dir: Seq<char>, events: Seq<bool>)
    requires
        events.len() > 0,
        !events[0],
    ensures
        progress_after(bootstrap_stages(dir).len(), events) == Progress::Failed,
{
    assert(events.take(0) =~= Seq::<bool>::empty());
    lemma_failure_is_final(bootstrap_stages(dir).len(), events, 0);
}

} // verus!
