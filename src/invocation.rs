use vstd::prelude::*;
use vstd::string::StringExecFns;

verus! {

/// Language edition passed to the compiler, oldest first.
#[derive(Clone, Copy, Debug, PartialEq, Eq, Structural)]
pub enum Edition {
    E2015,
    E2018,
    E2021,
}

/// Kind of artifact a compiler invocation produces.
#[derive(Clone, Copy, Debug, PartialEq, Eq, Structural)]
pub enum CrateType {
    Bin,
    Lib,
    RLib,
    DyLib,
    CDyLib,
    StaticLib,
    ProcMacro,
}

/// How an edition is spelled on the compiler's command line.
pub open spec fn edition_text(e: Edition) -> Seq<char> {
    match e {
        Edition::E2015 => "2015"@,
        Edition::E2018 => "2018"@,
        Edition::E2021 => "2021"@,
    }
}

/// How a crate type is spelled on the compiler's command line.
pub open spec fn crate_type_text(t: CrateType) -> Seq<char> {
    match t {
        CrateType::Bin => "bin"@,
        CrateType::Lib => "lib"@,
        CrateType::RLib => "rlib"@,
        CrateType::DyLib => "dylib"@,
        CrateType::CDyLib => "cdylib"@,
        CrateType::StaticLib => "staticlib"@,
        CrateType::ProcMacro => "proc-macro"@,
    }
}

impl Edition {
    /// The edition as the compiler's `--edition` flag expects it.
    pub fn as_str(&self) -> (r: &'static str)
        ensures
            r@ == edition_text(*self),
    {
        match self {
            Edition::E2015 => "2015",
            Edition::E2018 => "2018",
            Edition::E2021 => "2021",
        }
    }
}

impl CrateType {
    /// The crate type as the compiler's `--crate-type` flag expects it.
    pub fn as_str(&self) -> (r: &'static str)
        ensures
            r@ == crate_type_text(*self),
    {
        match self {
            CrateType::Bin => "bin",
            CrateType::Lib => "lib",
            CrateType::RLib => "rlib",
            CrateType::DyLib => "dylib",
            CrateType::CDyLib => "cdylib",
            CrateType::StaticLib => "staticlib",
            CrateType::ProcMacro => "proc-macro",
        }
    }
}

/// A finalized compiler invocation: every setting is fixed.
pub struct Rustc {
    edition: Edition,
    crate_type: CrateType,
    crate_name: String,
    out_dir: String,
    lib_dir: String,
    cfg: Vec<String>,
    externs: Vec<String>,
}

/// The settings of a finalized invocation, as values.
pub ghost struct RustcView {
    pub edition: Edition,
    pub crate_type: CrateType,
    pub crate_name: Seq<char>,
    pub out_dir: Seq<char>,
    pub lib_dir: Seq<char>,
    pub cfg: Seq<Seq<char>>,
    pub externs: Seq<Seq<char>>,
}

impl View for Rustc {
    type V = RustcView;

    closed spec fn view(&self) -> RustcView {
        RustcView {
            edition: self.edition,
            crate_type: self.crate_type,
            crate_name: self.crate_name@,
            out_dir: self.out_dir@,
            lib_dir: self.lib_dir@,
            cfg: self.cfg.deep_view(),
            externs: self.externs.deep_view(),
        }
    }
}

/// Settings gathered before an invocation is finalized; each may still be missing.
pub struct RustcBuilder {
    edition: Option<Edition>,
    crate_type: Option<CrateType>,
    crate_name: Option<String>,
    out_dir: Option<String>,
    lib_dir: Option<String>,
    cfg: Vec<String>,
    externs: Vec<String>,
}

/// The settings held by a builder, as values.
pub ghost struct RustcBuilderView {
    pub edition: Option<Edition>,
    pub crate_type: Option<CrateType>,
    pub crate_name: Option<Seq<char>>,
    pub out_dir: Option<Seq<char>>,
    pub lib_dir: Option<Seq<char>>,
    pub cfg: Seq<Seq<char>>,
    pub externs: Seq<Seq<char>>,
}

impl View for RustcBuilder {
    type V = RustcBuilderView;

    closed spec fn view(&self) -> RustcBuilderView {
        RustcBuilderView {
            edition: self.edition,
            crate_type: self.crate_type,
            crate_name: self.crate_name.deep_view(),
            out_dir: self.out_dir.deep_view(),
            lib_dir: self.lib_dir.deep_view(),
            cfg: self.cfg.deep_view(),
            externs: self.externs.deep_view(),
        }
    }
}

/// A builder with nothing set.
pub open spec fn empty_builder() -> RustcBuilderView {
    RustcBuilderView {
        edition: None,
        crate_type: None,
        crate_name: None,
        out_dir: None,
        lib_dir: None,
        cfg: Seq::empty(),
        externs: Seq::empty(),
    }
}

impl RustcBuilderView {
    /// The three settings that have no default are present.
    pub open spec fn is_complete(self) -> bool {
        &&& self.crate_name is Some
        &&& self.out_dir is Some
        &&& self.lib_dir is Some
    }

    /// The invocation a complete builder finalizes to: edition 2015 and a
    /// binary unless set otherwise.
    pub open spec fn finalized(self) -> RustcView
        recommends
            self.is_complete(),
    {
        RustcView {
            edition: match self.edition {
                Some(e) => e,
                None => Edition::E2015,
            },
            crate_type: match self.crate_type {
                Some(t) => t,
                None => CrateType::Bin,
            },
            crate_name: self.crate_name->0,
            out_dir: self.out_dir->0,
            lib_dir: self.lib_dir->0,
            cfg: self.cfg,
            externs: self.externs,
        }
    }
}

/// `--<name>=<value>`, as one argument.
pub open spec fn flag_arg(prefix: Seq<char>, value: Seq<char>) -> Seq<char> {
    prefix + value
}

/// The command-line arguments of an invocation compiling `source`: the source,
/// the fixed flags, then one `--extern=` per extern link and one `--cfg=` per
/// conditional flag, each group in insertion order.
pub open spec fn args_of(v: RustcView, source: Seq<char>) -> Seq<Seq<char>> {
    seq![
        source,
        "--edition"@,
        edition_text(v.edition),
        "--crate-type"@,
        crate_type_text(v.crate_type),
        "--crate-name"@,
        v.crate_name,
        "--out-dir"@,
        v.out_dir,
        "-L"@,
        v.lib_dir,
    ] + v.externs.map_values(|x: Seq<char>| flag_arg("--extern="@, x)) + v.cfg.map_values(
        |c: Seq<char>| flag_arg("--cfg="@, c),
    )
}

impl Rustc {
    /// A builder with nothing set.
    pub fn builder() -> (r: RustcBuilder)
        ensures
            r@ == empty_builder(),
    {
        let r = RustcBuilder {
            edition: None,
            crate_type: None,
            crate_name: None,
            out_dir: None,
            lib_dir: None,
            cfg: Vec::new(),
            externs: Vec::new(),
        };
        assert(r.cfg.deep_view() =~= Seq::<Seq<char>>::empty());
        assert(r.externs.deep_view() =~= Seq::<Seq<char>>::empty());
        r
    }

    /// The arguments the compiler is launched with to compile `source`.
    pub fn args(&self, source: &str) -> (r: Vec<String>)
        ensures
            r.deep_view() == args_of(self@, source@),
    {
        let mut r: Vec<String> = Vec::new();
        r.push(source.to_owned());
        r.push("--edition".to_owned());
        r.push(self.edition.as_str().to_owned());
        r.push("--crate-type".to_owned());
        r.push(self.crate_type.as_str().to_owned());
        r.push("--crate-name".to_owned());
        r.push(self.crate_name.clone());
        r.push("--out-dir".to_owned());
        r.push(self.out_dir.clone());
        r.push("-L".to_owned());
        r.push(self.lib_dir.clone());
        let ghost fixed = r.deep_view();
        let mut i: usize = 0;
        while i < self.externs.len()
            invariant
                i <= self.externs.len(),
                r.deep_view() == fixed + self.externs.deep_view().take(i as int).map_values(
                    |x: Seq<char>| flag_arg("--extern="@, x),
                ),
            decreases self.externs.len() - i,
        {
            let mut a = String::from_str("--extern=");
            a.append(self.externs[i].as_str());
            assert(a@ == flag_arg("--extern="@, self.externs.deep_view()[i as int]));
            assert(self.externs.deep_view().take(i + 1) =~= self.externs.deep_view().take(i as int).push(
                self.externs.deep_view()[i as int],
            ));
            let ghost before = r.deep_view();
            r.push(a);
            assert(r.deep_view() =~= before.push(a@));
            i = i + 1;
            assert(r.deep_view() =~= fixed + self.externs.deep_view().take(i as int).map_values(
                |x: Seq<char>| flag_arg("--extern="@, x),
            ));
        }
        assert(self.externs.deep_view().take(i as int) =~= self.externs.deep_view());
        let ghost with_externs = r.deep_view();
        let mut j: usize = 0;
        while j < self.cfg.len()
            invariant
                j <= self.cfg.len(),
                r.deep_view() == with_externs + self.cfg.deep_view().take(j as int).map_values(
                    |c: Seq<char>| flag_arg("--cfg="@, c),
                ),
            decreases self.cfg.len() - j,
        {
            let mut a = String::from_str("--cfg=");
            a.append(self.cfg[j].as_str());
            assert(a@ == flag_arg("--cfg="@, self.cfg.deep_view()[j as int]));
            assert(self.cfg.deep_view().take(j + 1) =~= self.cfg.deep_view().take(j as int).push(
                self.cfg.deep_view()[j as int],
            ));
            let ghost before = r.deep_view();
            r.push(a);
            assert(r.deep_view() =~= before.push(a@));
            j = j + 1;
            assert(r.deep_view() =~= with_externs + self.cfg.deep_view().take(j as int).map_values(
                |c: Seq<char>| flag_arg("--cfg="@, c),
            ));
        }
        assert(self.cfg.deep_view().take(j as int) =~= self.cfg.deep_view());
        assert(r.deep_view() =~= args_of(self@, source@));
        r
    }
}

impl Default for RustcBuilder {
    /// A builder with nothing set.
    fn default() -> (r: RustcBuilder)
        ensures
            r@ == empty_builder(),
    {
        Rustc::builder()
    }
}

impl RustcBuilder {
    /// Sets the edition.
    pub fn edition(self, edition: Edition) -> (r: Self)
        ensures
            r@ == (RustcBuilderView { edition: Some(edition), ..self@ }),
    {
        RustcBuilder { edition: Some(edition), ..self }
    }

    /// Sets the directory the artifacts are written to.
    pub fn out_dir(self, out_dir: &str) -> (r: Self)
        ensures
            r@ == (RustcBuilderView { out_dir: Some(out_dir@), ..self@ }),
    {
        RustcBuilder { out_dir: Some(out_dir.to_owned()), ..self }
    }

    /// Sets the directory that extern links are resolved in.
    pub fn lib_dir(self, lib_dir: &str) -> (r: Self)
        ensures
            r@ == (RustcBuilderView { lib_dir: Some(lib_dir@), ..self@ }),
    {
        RustcBuilder { lib_dir: Some(lib_dir.to_owned()), ..self }
    }

    /// Sets the crate name.
    pub fn crate_name(self, crate_name: &str) -> (r: Self)
        ensures
            r@ == (RustcBuilderView { crate_name: Some(crate_name@), ..self@ }),
    {
        RustcBuilder { crate_name: Some(crate_name.to_owned()), ..self }
    }

    /// Sets the kind of artifact.
    pub fn crate_type(self, crate_type: CrateType) -> (r: Self)
        ensures
            r@ == (RustcBuilderView { crate_type: Some(crate_type), ..self@ }),
    {
        RustcBuilder { crate_type: Some(crate_type), ..self }
    }

    /// Appends one conditional flag; duplicates are kept.
    pub fn cfg(self, cfg: &str) -> (r: Self)
        ensures
            r@ == (RustcBuilderView { cfg: self@.cfg.push(cfg@), ..self@ }),
    {
        let mut b = self;
        b.cfg.push(cfg.to_owned());
        assert(b.cfg.deep_view() =~= self.cfg.deep_view().push(cfg@));
        b
    }

    /// Appends one extern link; duplicates are kept.
    pub fn externs(self, name: &str) -> (r: Self)
        ensures
            r@ == (RustcBuilderView { externs: self@.externs.push(name@), ..self@ }),
    {
        let mut b = self;
        b.externs.push(name.to_owned());
        assert(b.externs.deep_view() =~= self.externs.deep_view().push(name@));
        b
    }

    /// Finalizes the invocation. The crate name, the output directory and the
    /// search directory have no default and must have been set; edition and
    /// crate type default to 2015 and a binary.
    pub fn build(self) -> (r: Rustc)
        requires
            self@.is_complete(),
        ensures
            r@ == self@.finalized(),
    {
        let edition = match self.edition {
            Some(e) => e,
            None => Edition::E2015,
        };
        let crate_type = match self.crate_type {
            Some(t) => t,
            None => CrateType::Bin,
        };
        Rustc {
            edition,
            crate_type,
            crate_name: self.crate_name.unwrap(),
            out_dir: self.out_dir.unwrap(),
            lib_dir: self.lib_dir.unwrap(),
            cfg: self.cfg,
            externs: self.externs,
        }
    }
}

} // verus!
