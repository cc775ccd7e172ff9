pub mod builder;
pub mod casing;
pub mod matcher;
pub mod model;
pub mod parse;
pub mod render;
pub mod scanner;
pub mod text;

use vstd::prelude::*;

verus! {

/// The identifier casings available for exported method and enum-variant
/// names: leave them unchanged, or rewrite them to camelCase or snake_case.
#[derive(Copy, Clone, PartialEq, Eq, Structural, Debug)]
pub enum TypeCases {
    /// Method and variant names are emitted exactly as written in the source.
    Default,
    /// Method and variant names are rewritten to camelCase.
    CamelCase,
    /// Method and variant names are rewritten to snake_case.
    SnakeCase,
}

/// The target dialects the renderer can produce.
#[derive(Copy, Clone, PartialEq, Eq, Structural, Debug)]
pub enum Language {
    Java,
    Cpp,
}

/// One source file handed to the engine: where it came from (for reporting)
/// and its full text.
pub struct SourceFile {
    pub path: String,
    pub content: String,
}

pub ghost struct SourceFileV {
    pub path: Seq<char>,
    pub content: Seq<char>,
}

impl DeepView for SourceFile {
    type V = SourceFileV;

    open spec fn deep_view(&self) -> SourceFileV {
        SourceFileV { path: self.path@, content: self.content@ }
    }
}

/// A recoverable problem found during the scan, keyed by the file it came
/// from; such problems are collected, never fatal.
#[derive(Debug)]
pub struct Issue {
    pub path: String,
    pub message: String,
}

pub ghost struct IssueV {
    pub path: Seq<char>,
    pub message: Seq<char>,
}

impl DeepView for Issue {
    type V = IssueV;

    open spec fn deep_view(&self) -> IssueV {
        IssueV { path: self.path@, message: self.message@ }
    }
}

/// A successful run: the interface-description text and every per-file or
/// per-item issue gathered along the way.
#[derive(Debug)]
pub struct GeneratedInterface {
    pub text: String,
    pub issues: Vec<Issue>,
}

/// The engine's accumulated state while folding files.
pub ghost struct EngineStV {
    pub model: crate::model::ModelV,
    pub issues: Seq<IssueV>,
    pub fatal: Option<crate::builder::FatalV>,
    pub parsed: nat,
}

pub open spec fn init_engine() -> EngineStV {
    EngineStV {
        model: crate::model::empty_model(),
        issues: Seq::empty(),
        fatal: None,
        parsed: 0,
    }
}

/// One file's items folded into the state, from index `i` on: rejected items
/// record an issue; other classifications grow the model; a fatal condition
/// stops the fold.
pub open spec fn add_items_rec(
    st: EngineStV,
    path: Seq<char>,
    items: Seq<crate::scanner::ItemV>,
    i: int,
) -> EngineStV
    decreases items.len() - i,
{
    if i < 0 || i >= items.len() || st.fatal is Some {
        st
    } else {
        let c = crate::matcher::spec_classify(items[i]);
        if c is Rejected {
            add_items_rec(
                EngineStV {
                    model: st.model,
                    issues: st.issues.push(
                        IssueV {
                            path,
                            message: "constructor marker on a method with a receiver"@,
                        },
                    ),
                    fatal: st.fatal,
                    parsed: st.parsed,
                },
                path,
                items,
                i + 1,
            )
        } else {
            match crate::builder::add_classif(st.model, c) {
                Ok(m2) => add_items_rec(
                    EngineStV {
                        model: m2,
                        issues: st.issues,
                        fatal: st.fatal,
                        parsed: st.parsed,
                    },
                    path,
                    items,
                    i + 1,
                ),
                Err(e) => EngineStV {
                    model: st.model,
                    issues: st.issues,
                    fatal: Some(e),
                    parsed: st.parsed,
                },
            }
        }
    }
}

/// One file folded into the state: an unparsable file records an issue and is
/// skipped; a parsed one contributes its items and counts as parsed.
pub open spec fn scan_step(st: EngineStV, f: SourceFileV) -> EngineStV {
    if st.fatal is Some {
        st
    } else if !crate::scanner::file_ok(f.content) {
        EngineStV {
            model: st.model,
            issues: st.issues.push(IssueV { path: f.path, message: "file could not be parsed"@ }),
            fatal: st.fatal,
            parsed: st.parsed,
        }
    } else {
        let st2 = add_items_rec(st, f.path, crate::scanner::file_items(f.content), 0);
        EngineStV {
            model: st2.model,
            issues: st2.issues,
            fatal: st2.fatal,
            parsed: st.parsed + 1,
        }
    }
}

pub open spec fn scan_files_rec(files: Seq<SourceFileV>, i: int, st: EngineStV) -> EngineStV
    decreases files.len() - i,
{
    if i < 0 || i >= files.len() {
        st
    } else {
        scan_files_rec(files, i + 1, scan_step(st, files[i]))
    }
}

pub proof fn lemma_scan_fatal_stable(files: Seq<SourceFileV>, i: int, st: EngineStV)
    requires
        st.fatal is Some,
    ensures
        scan_files_rec(files, i, st) == st,
    decreases files.len() - i,
{
    if 0 <= i < files.len() {
        lemma_scan_fatal_stable(files, i + 1, st);
    }
}

/// What a whole run produces: the rendered text and the gathered issues, or
/// the fatal condition that aborted it. Aborts: a name collision or duplicate
/// constructor found while building, and a run whose every input file failed
/// to parse.
pub open spec fn engine_outcome(files: Seq<SourceFileV>, tc: TypeCases, lang: Language) -> Result<
    (Seq<char>, Seq<IssueV>),
    crate::builder::FatalV,
> {
    let st = scan_files_rec(files, 0, init_engine());
    match st.fatal {
        Some(e) => Err(e),
        None => {
            if files.len() > 0 && st.parsed == 0 {
                Err(crate::builder::FatalV::NoParsableInput)
            } else {
                Ok(
                    (
                        crate::render::render_model(
                            lang,
                            crate::casing::model_case(tc, st.model),
                        ),
                        st.issues,
                    ),
                )
            }
        },
    }
}

/// The engine: scans the given file texts, builds and case-converts the
/// model, and renders the interface description for the configured dialect.
pub struct Generator {
    pub type_case: TypeCases,
    pub language: Language,
}

impl Generator {
    /// A generator for the given casing policy and target dialect.
    pub fn new(type_case: TypeCases, language: Language) -> (g: Generator)
        ensures
            g.type_case == type_case,
            g.language == language,
    {
        Generator { type_case, language }
    }

    /// Run the engine over the given files. On success the result holds the
    /// interface text and the recoverable issues; a fatal condition is
    /// returned instead and nothing is produced.
    pub fn generate_interface(&self, files: &Vec<SourceFile>) -> (r: Result<
        GeneratedInterface,
        crate::builder::FatalError,
    >)
        ensures
            match r {
                Ok(g) => engine_outcome(files.deep_view(), self.type_case, self.language)
                    == Ok::<(Seq<char>, Seq<IssueV>), crate::builder::FatalV>(
                    (g.text@, g.issues.deep_view()),
                ),
                Err(e) => engine_outcome(files.deep_view(), self.type_case, self.language)
                    == Err::<(Seq<char>, Seq<IssueV>), crate::builder::FatalV>(e.deep_view()),
            },
    {
        let ghost fdv = files.deep_view();
        let mut model = crate::model::InterfaceModel {
            classes: Vec::new(),
            traits: Vec::new(),
            enums: Vec::new(),
        };
        let mut issues: Vec<Issue> = Vec::new();
        let mut parsed: usize = 0;
        proof {
            assert(model.deep_view().classes =~= Seq::<crate::model::ClassV>::empty());
            assert(model.deep_view().traits =~= Seq::<crate::model::TraitV>::empty());
            assert(model.deep_view().enums =~= Seq::<crate::model::EnumV>::empty());
            assert(issues.deep_view() =~= Seq::<IssueV>::empty());
            assert(EngineStV {
                model: model.deep_view(),
                issues: issues.deep_view(),
                fatal: None,
                parsed: parsed as nat,
            } == init_engine());
        }
        let mut i: usize = 0;
        while i < files.len()
            invariant
                i <= files@.len(),
                parsed <= i,
                fdv == files.deep_view(),
                scan_files_rec(fdv, 0, init_engine()) == scan_files_rec(
                    fdv,
                    i as int,
                    EngineStV {
                        model: model.deep_view(),
                        issues: issues.deep_view(),
                        fatal: None,
                        parsed: parsed as nat,
                    },
                ),
            decreases files@.len() - i,
        {
            let ghost st_pre = EngineStV {
                model: model.deep_view(),
                issues: issues.deep_view(),
                fatal: None,
                parsed: parsed as nat,
            };
            let (mut items, ok) = crate::scanner::parse_source(files[i].content.as_str());
            if !ok {
                let ghost prev = issues.deep_view();
                let issue = Issue {
                    path: files[i].path.clone(),
                    message: String::from_str("file could not be parsed"),
                };
                let ghost idv = issue.deep_view();
                issues.push(issue);
                proof {
                    assert(issues.deep_view() =~= prev.push(idv));
                    assert(EngineStV {
                        model: model.deep_view(),
                        issues: issues.deep_view(),
                        fatal: None,
                        parsed: parsed as nat,
                    } == scan_step(st_pre, fdv[i as int]));
                }
            } else {
                let ghost all = items.deep_view();
                let ghost path = fdv[i as int].path;
                let orig_len = items.len();
                let mut j: usize = 0;
                proof {
                    assert(all == crate::scanner::file_items(fdv[i as int].content));
                }
                while items.len() > 0
                    invariant
                        j <= orig_len,
                        orig_len == all.len(),
                        items.deep_view() =~= all.skip(j as int),
                        i < files@.len(),
                        fdv == files.deep_view(),
                        path == fdv[i as int].path,
                        st_pre.fatal is None,
                        st_pre.parsed == parsed as nat,
                        crate::scanner::file_ok(fdv[i as int].content),
                        all == crate::scanner::file_items(fdv[i as int].content),
                        scan_files_rec(fdv, 0, init_engine()) == scan_files_rec(
                            fdv,
                            i as int,
                            st_pre,
                        ),
                        add_items_rec(st_pre, path, all, 0) == add_items_rec(
                            EngineStV {
                                model: model.deep_view(),
                                issues: issues.deep_view(),
                                fatal: None,
                                parsed: parsed as nat,
                            },
                            path,
                            all,
                            j as int,
                        ),
                    decreases items@.len(),
                {
                    let ghost pre = items.deep_view();
                    let ghost pre_vec = items@;
                    let item = items.remove(0);
                    proof {
                        assert(pre.len() == all.len() - j);
                        assert(pre_vec.remove(0) =~= pre_vec.skip(1));
                        assert(items.deep_view() =~= pre.skip(1));
                        assert(all.skip(j as int)[0] == all[j as int]);
                        assert(item.deep_view() == pre[0]);
                        assert(item.deep_view() == all[j as int]);
                        assert(items.deep_view() =~= all.skip(j as int + 1));
                    }
                    let c = crate::matcher::classify(item);
                    if matches!(c, crate::matcher::Classif::Rejected) {
                        let ghost prev = issues.deep_view();
                        let issue = Issue {
                            path: files[i].path.clone(),
                            message: String::from_str(
                                "constructor marker on a method with a receiver",
                            ),
                        };
                        let ghost idv = issue.deep_view();
                        issues.push(issue);
                        proof {
                            assert(issues.deep_view() =~= prev.push(idv));
                        }
                    } else {
                        match crate::builder::apply_classif(model, c) {
                            Ok(m2) => {
                                model = m2;
                            },
                            Err(e) => {
                                proof {
                                    let st_mid = EngineStV {
                                        model: add_items_rec(st_pre, path, all, j as int).model,
                                        issues: add_items_rec(st_pre, path, all, j as int).issues,
                                        fatal: Some(e.deep_view()),
                                        parsed: parsed as nat,
                                    };
                                    assert(add_items_rec(st_pre, path, all, 0).fatal == Some(
                                        e.deep_view(),
                                    ));
                                    let st_after = scan_step(st_pre, fdv[i as int]);
                                    assert(st_after.fatal == Some(e.deep_view()));
                                    assert(scan_files_rec(fdv, i as int, st_pre)
                                        == scan_files_rec(fdv, i as int + 1, st_after));
                                    lemma_scan_fatal_stable(fdv, i as int + 1, st_after);
                                    assert(scan_files_rec(fdv, 0, init_engine()).fatal == Some(
                                        e.deep_view(),
                                    ));
                                }
                                return Err(e);
                            },
                        }
                    }
                    j += 1;
                }
                parsed += 1;
                proof {
                    assert(items.deep_view().len() == 0);
                    assert(all.skip(j as int).len() == 0);
                    assert(j as int == all.len());
                    assert(EngineStV {
                        model: model.deep_view(),
                        issues: issues.deep_view(),
                        fatal: None,
                        parsed: parsed as nat,
                    } == scan_step(st_pre, fdv[i as int]));
                }
            }
            i += 1;
        }
        proof {
            assert(scan_files_rec(fdv, files@.len() as int, EngineStV {
                model: model.deep_view(),
                issues: issues.deep_view(),
                fatal: None,
                parsed: parsed as nat,
            }) == EngineStV {
                model: model.deep_view(),
                issues: issues.deep_view(),
                fatal: None,
                parsed: parsed as nat,
            });
        }
        if files.len() > 0 && parsed == 0 {
            return Err(crate::builder::FatalError::NoParsableInput);
        }
        let converted = crate::casing::model_case_exec(self.type_case, model);
        let text = crate::render::render_model_exec(self.language, &converted);
        Ok(GeneratedInterface { text, issues })
    }
}

pub proof fn lemma_add_items_ignored(
    st: EngineStV,
    path: Seq<char>,
    items: Seq<crate::scanner::ItemV>,
    i: int,
)
    requires
        forall|j: int|
            0 <= j < items.len() ==> crate::matcher::spec_classify(#[trigger] items[j])
                == crate::matcher::ClassifV::Ignored,
    ensures
        add_items_rec(st, path, items, i) == st,
    decreases items.len() - i,
{
    if i < 0 || i >= items.len() || st.fatal is Some {
    } else {
        lemma_add_items_ignored(st, path, items, i + 1);
    }
}

pub proof fn lemma_scan_ignored(files: Seq<SourceFileV>, i: int, st: EngineStV)
    requires
        st.fatal is None,
        0 <= i <= files.len(),
        forall|k: int|
            i <= k < files.len() ==> crate::scanner::file_ok(#[trigger] files[k].content),
        forall|k: int, j: int|
            i <= k < files.len() && 0 <= j < crate::scanner::file_items(
                files[k].content,
            ).len() ==> crate::matcher::spec_classify(
                #[trigger] crate::scanner::file_items(files[k].content)[j],
            ) == crate::matcher::ClassifV::Ignored,
    ensures
        scan_files_rec(files, i, st) == (EngineStV {
            model: st.model,
            issues: st.issues,
            fatal: None,
            parsed: (st.parsed + files.len() - i) as nat,
        }),
    decreases files.len() - i,
{
    if i >= files.len() {
        assert(st == EngineStV {
            model: st.model,
            issues: st.issues,
            fatal: None,
            parsed: (st.parsed + files.len() - i) as nat,
        });
    } else {
        lemma_add_items_ignored(st, files[i].path, crate::scanner::file_items(files[i].content), 0);
        let st2 = scan_step(st, files[i]);
        assert(st2 == EngineStV {
            model: st.model,
            issues: st.issues,
            fatal: None,
            parsed: (st.parsed + 1) as nat,
        });
        lemma_scan_ignored(files, i + 1, st2);
    }
}

/// Empty-tree law: over any set of source files that parse and hold no
/// marked item at all, the engine succeeds, reports no issues, and renders
/// the empty interface document — and, being a pure function of its inputs,
/// does so identically on every run.
pub proof fn lemma_unmarked_tree_renders_empty(
    files: Seq<SourceFileV>,
    tc: TypeCases,
    lang: Language,
)
    requires
        forall|k: int|
            0 <= k < files.len() ==> crate::scanner::file_ok(#[trigger] files[k].content),
        forall|k: int, j: int|
            0 <= k < files.len() && 0 <= j < crate::scanner::file_items(
                files[k].content,
            ).len() ==> crate::matcher::spec_classify(
                #[trigger] crate::scanner::file_items(files[k].content)[j],
            ) == crate::matcher::ClassifV::Ignored,
    ensures
        engine_outcome(files, tc, lang) == Ok::<(Seq<char>, Seq<IssueV>), crate::builder::FatalV>(
            (Seq::<char>::empty(), Seq::<IssueV>::empty()),
        ),
{
    lemma_scan_ignored(files, 0, init_engine());
    let st = scan_files_rec(files, 0, init_engine());
    assert(st.model == crate::model::empty_model());
    assert(st.parsed == files.len());
    let cased = crate::casing::model_case(tc, st.model);
    assert(cased.classes =~= Seq::<crate::model::ClassV>::empty());
    assert(cased.traits =~= Seq::<crate::model::TraitV>::empty());
    assert(cased.enums =~= Seq::<crate::model::EnumV>::empty());
    assert(crate::render::render_model(lang, cased) =~= Seq::<char>::empty());
}

/// Failure law, engine side: a rejected item (a constructor marker on a
/// method with a receiver) records an item-level issue for its file and
/// leaves the model exactly as it was.
pub proof fn lemma_rejected_item_records_issue(
    st: EngineStV,
    path: Seq<char>,
    items: Seq<crate::scanner::ItemV>,
    i: int,
)
    requires
        0 <= i < items.len(),
        st.fatal is None,
        crate::matcher::spec_classify(items[i]) == crate::matcher::ClassifV::Rejected,
    ensures
        add_items_rec(st, path, items, i) == add_items_rec(
            EngineStV {
                model: st.model,
                issues: st.issues.push(
                    IssueV {
                        path,
                        message: "constructor marker on a method with a receiver"@,
                    },
                ),
                fatal: None,
                parsed: st.parsed,
            },
            path,
            items,
            i + 1,
        ),
{
    assert(st.fatal == Option::<crate::builder::FatalV>::None);
}

/// Determinism law: the engine's outcome is a function of the source texts
/// and the configuration alone — two runs over the same unchanged inputs
/// yield the same (byte-identical) result.
pub proof fn lemma_engine_deterministic(
    files: Seq<SourceFileV>,
    tc: TypeCases,
    lang: Language,
    r1: Result<(Seq<char>, Seq<IssueV>), crate::builder::FatalV>,
    r2: Result<(Seq<char>, Seq<IssueV>), crate::builder::FatalV>,
)
    requires
        r1 == engine_outcome(files, tc, lang),
        r2 == engine_outcome(files, tc, lang),
    ensures
        r1 == r2,
{
}

} // verus!
