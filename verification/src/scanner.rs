//! The per-file scanner: walks a file's lines once, tracking brace depth and
//! the current top-level context, collects doc comments and markers, and
//! emits the parsed items in order of appearance. The executable scanner is
//! proved equal to the spec-level state machine `p_step` folded over the
//! file's lines.
use crate::model::Sig;
use crate::model::SigV;
use crate::parse::is_fn_line;
use crate::parse::parse_sig;
use crate::parse::parse_sig_vec;
use crate::parse::strip_pub;
use crate::parse::strip_pub_vec;
use crate::text::chars_to_string;
use crate::text::ident_char;
use crate::text::ident_len;
use crate::text::ident_prefix;
use crate::text::lemma_ident_len_le;
use crate::text::lines_of;
use crate::text::seq_views;
use crate::text::spec_starts_with;
use crate::text::split_lines;
use crate::text::starts_with_lit;
use crate::text::subrange_vec;
use crate::text::to_chars;
use crate::text::trim_ws;
use crate::text::trimmed;
use crate::text::eq_lit;
use crate::text::is_ident_char;
use vstd::prelude::*;

verus! {

/// The recognized export markers.
#[derive(Copy, Clone, PartialEq, Eq, Structural, Debug)]
pub enum Marker {
    /// `#[generate_interface]`
    Export,
    /// `#[generate_interface(constructor)]`
    ExportConstructor,
    /// `#[generate_interface_doc]`
    ExportDoc,
}

impl DeepView for Marker {
    type V = Marker;

    open spec fn deep_view(&self) -> Marker {
        *self
    }
}

/// A top-level item recognized by the scanner, with its attached marker and
/// doc comment; classification happens afterwards.
pub enum Item {
    FnItem { owner: String, sig: Sig, marker: Option<Marker>, doc: Vec<String> },
    StructItem { name: String, marker: Option<Marker>, doc: Vec<String> },
    TraitItem { name: String, marker: Option<Marker>, doc: Vec<String>, methods: Vec<Sig> },
    EnumItem { name: String, marker: Option<Marker>, doc: Vec<String>, variants: Vec<String> },
}

pub ghost enum ItemV {
    FnItem { owner: Seq<char>, sig: SigV, marker: Option<Marker>, doc: Seq<Seq<char>> },
    StructItem { name: Seq<char>, marker: Option<Marker>, doc: Seq<Seq<char>> },
    TraitItem { name: Seq<char>, marker: Option<Marker>, doc: Seq<Seq<char>>, methods: Seq<SigV> },
    EnumItem {
        name: Seq<char>,
        marker: Option<Marker>,
        doc: Seq<Seq<char>>,
        variants: Seq<Seq<char>>,
    },
}

impl DeepView for Item {
    type V = ItemV;

    open spec fn deep_view(&self) -> ItemV {
        match self {
            Item::FnItem { owner, sig, marker, doc } => ItemV::FnItem {
                owner: owner@,
                sig: sig.deep_view(),
                marker: *marker,
                doc: doc.deep_view(),
            },
            Item::StructItem { name, marker, doc } => ItemV::StructItem {
                name: name@,
                marker: *marker,
                doc: doc.deep_view(),
            },
            Item::TraitItem { name, marker, doc, methods } => ItemV::TraitItem {
                name: name@,
                marker: *marker,
                doc: doc.deep_view(),
                methods: methods.deep_view(),
            },
            Item::EnumItem { name, marker, doc, variants } => ItemV::EnumItem {
                name: name@,
                marker: *marker,
                doc: doc.deep_view(),
                variants: variants.deep_view(),
            },
        }
    }
}

/// Where in a file the scanner currently stands.
pub enum Ctx {
    Top,
    InImpl { owner: String },
    InTrait { name: String, doc: Vec<String>, marker: Option<Marker>, methods: Vec<Sig> },
    InEnum { name: String, doc: Vec<String>, marker: Option<Marker>, variants: Vec<String> },
}

pub ghost enum CtxV {
    Top,
    InImpl { owner: Seq<char> },
    InTrait { name: Seq<char>, doc: Seq<Seq<char>>, marker: Option<Marker>, methods: Seq<SigV> },
    InEnum {
        name: Seq<char>,
        doc: Seq<Seq<char>>,
        marker: Option<Marker>,
        variants: Seq<Seq<char>>,
    },
}

impl DeepView for Ctx {
    type V = CtxV;

    open spec fn deep_view(&self) -> CtxV {
        match self {
            Ctx::Top => CtxV::Top,
            Ctx::InImpl { owner } => CtxV::InImpl { owner: owner@ },
            Ctx::InTrait { name, doc, marker, methods } => CtxV::InTrait {
                name: name@,
                doc: doc.deep_view(),
                marker: *marker,
                methods: methods.deep_view(),
            },
            Ctx::InEnum { name, doc, marker, variants } => CtxV::InEnum {
                name: name@,
                doc: doc.deep_view(),
                marker: *marker,
                variants: variants.deep_view(),
            },
        }
    }
}

/// The scanner's whole state between lines.
pub struct PState {
    pub items: Vec<Item>,
    pub doc: Vec<String>,
    pub marker: Option<Marker>,
    pub ctx: Ctx,
    pub depth: usize,
    pub failed: bool,
}

pub ghost struct PStateV {
    pub items: Seq<ItemV>,
    pub doc: Seq<Seq<char>>,
    pub marker: Option<Marker>,
    pub ctx: CtxV,
    pub depth: nat,
    pub failed: bool,
}

impl DeepView for PState {
    type V = PStateV;

    open spec fn deep_view(&self) -> PStateV {
        PStateV {
            items: self.items.deep_view(),
            doc: self.doc.deep_view(),
            marker: self.marker,
            ctx: self.ctx.deep_view(),
            depth: self.depth as nat,
            failed: self.failed,
        }
    }
}

pub open spec fn init_state() -> PStateV {
    PStateV {
        items: Seq::empty(),
        doc: Seq::empty(),
        marker: None,
        ctx: CtxV::Top,
        depth: 0,
        failed: false,
    }
}

/// A doc-comment line.
pub open spec fn is_doc_line(t: Seq<char>) -> bool {
    spec_starts_with(t, "///"@)
}

pub open spec fn doc_content(t: Seq<char>) -> Seq<char> {
    t.skip("///"@.len() as int)
}

/// The marker named by an attribute line, if any.
pub open spec fn marker_of(t: Seq<char>) -> Option<Marker> {
    if t == "#[generate_interface]"@ {
        Some(Marker::Export)
    } else if t == "#[generate_interface(constructor)]"@ {
        Some(Marker::ExportConstructor)
    } else if t == "#[generate_interface_doc]"@ {
        Some(Marker::ExportDoc)
    } else {
        None
    }
}

pub open spec fn is_attr_line(t: Seq<char>) -> bool {
    spec_starts_with(t, "#["@)
}

pub open spec fn is_comment_line(t: Seq<char>) -> bool {
    spec_starts_with(t, "//"@)
}

/// Is the scanner at a position where doc comments and markers attach to a
/// coming declaration?
pub open spec fn collecting(st: PStateV) -> bool {
    (st.ctx is Top && st.depth == 0) || (st.ctx is InImpl && st.depth == 1)
}

/// Occurrences of `c` in `s` at or after position `i`.
pub open spec fn count_from(s: Seq<char>, i: int, c: char) -> nat
    decreases s.len() - i,
{
    if i < 0 || i >= s.len() {
        0
    } else {
        ((if s[i] == c {
            1nat
        } else {
            0nat
        }) + count_from(s, i + 1, c)) as nat
    }
}

pub fn count_char(v: &Vec<char>, c: char) -> (r: usize)
    ensures
        r as nat == count_from(v@, 0, c),
        r <= v@.len(),
{
    let mut n: usize = 0;
    let mut i: usize = 0;
    while i < v.len()
        invariant
            i <= v@.len(),
            n <= i,
            count_from(v@, 0, c) == n + count_from(v@, i as int, c),
        decreases v@.len() - i,
    {
        if v[i] == c {
            n += 1;
        }
        i += 1;
    }
    n
}

/// The brace depth after a code line, or `None` when the line closes more
/// braces than are open or nests beyond the scanner's limit.
pub open spec fn new_depth(depth: nat, t: Seq<char>) -> Option<nat> {
    let opens = count_from(t, 0, '{');
    let closes = count_from(t, 0, '}');
    if opens > 1000000 || depth + opens > 1000000 {
        None
    } else if closes > depth + opens {
        None
    } else {
        Some((depth + opens - closes) as nat)
    }
}

pub fn new_depth_exec(depth: usize, t: &Vec<char>) -> (r: Option<usize>)
    requires
        depth <= 1000000,
    ensures
        match r {
            Some(nd) => new_depth(depth as nat, t@) == Some(nd as nat) && nd <= 1000000,
            None => new_depth(depth as nat, t@) is None,
        },
{
    let opens = count_char(t, '{');
    let closes = count_char(t, '}');
    if opens > 1000000 {
        return None;
    }
    if depth + opens > 1000000 {
        return None;
    }
    if closes > depth + opens {
        return None;
    }
    Some(depth + opens - closes)
}

/// The `Name` following a declaration keyword (with any `pub ` stripped), or
/// `None` when the line does not begin so or no identifier follows.
pub open spec fn decl_after(t: Seq<char>, kw: Seq<char>) -> Option<Seq<char>> {
    let t1 = strip_pub(t);
    if spec_starts_with(t1, kw) {
        let r = t1.skip(kw.len() as int);
        if ident_len(r) > 0 {
            Some(r.take(ident_len(r) as int))
        } else {
            None
        }
    } else {
        None
    }
}

pub fn decl_after_vec(t: &Vec<char>, kw: &str) -> (r: Option<Vec<char>>)
    ensures
        match r {
            Some(v) => decl_after(t@, kw@) == Some(v@),
            None => decl_after(t@, kw@) is None,
        },
{
    let t1 = strip_pub_vec(t);
    if starts_with_lit(&t1, kw) {
        let n = kw.unicode_len();
        let rest = subrange_vec(&t1, n, t1.len());
        proof {
            assert(t1@.subrange(kw@.len() as int, t1@.len() as int) =~= t1@.skip(
                kw@.len() as int,
            ));
        }
        let idp = ident_prefix(&rest);
        if idp.len() == 0 {
            None
        } else {
            Some(idp)
        }
    } else {
        None
    }
}

pub fn marker_of_vec(t: &Vec<char>) -> (r: Option<Marker>)
    ensures
        r == marker_of(t@),
{
    if eq_lit(t, "#[generate_interface]") {
        Some(Marker::Export)
    } else if eq_lit(t, "#[generate_interface(constructor)]") {
        Some(Marker::ExportConstructor)
    } else if eq_lit(t, "#[generate_interface_doc]") {
        Some(Marker::ExportDoc)
    } else {
        None
    }
}

pub fn is_fn_line_vec(t: &Vec<char>) -> (r: bool)
    ensures
        r == is_fn_line(t@),
{
    let t1 = strip_pub_vec(t);
    starts_with_lit(&t1, "fn ")
}

/// One code line handled in context, after the new brace depth is known.
pub open spec fn step_code(st: PStateV, t: Seq<char>, nd: nat) -> PStateV {
    match st.ctx {
        CtxV::Top => {
            if st.depth > 0 {
                PStateV {
                    items: st.items,
                    doc: st.doc,
                    marker: st.marker,
                    ctx: CtxV::Top,
                    depth: nd,
                    failed: st.failed,
                }
            } else {
                match decl_after(t, "struct "@) {
                    Some(name) => PStateV {
                        items: st.items.push(
                            ItemV::StructItem { name, marker: st.marker, doc: st.doc },
                        ),
                        doc: Seq::empty(),
                        marker: None,
                        ctx: CtxV::Top,
                        depth: nd,
                        failed: st.failed,
                    },
                    None => match decl_after(t, "impl "@) {
                        Some(name) => PStateV {
                            items: st.items,
                            doc: Seq::empty(),
                            marker: None,
                            ctx: if nd > 0 {
                                CtxV::InImpl { owner: name }
                            } else {
                                CtxV::Top
                            },
                            depth: nd,
                            failed: st.failed,
                        },
                        None => match decl_after(t, "trait "@) {
                            Some(name) => if nd > 0 {
                                PStateV {
                                    items: st.items,
                                    doc: Seq::empty(),
                                    marker: None,
                                    ctx: CtxV::InTrait {
                                        name,
                                        doc: st.doc,
                                        marker: st.marker,
                                        methods: Seq::empty(),
                                    },
                                    depth: nd,
                                    failed: st.failed,
                                }
                            } else {
                                PStateV {
                                    items: st.items.push(
                                        ItemV::TraitItem {
                                            name,
                                            marker: st.marker,
                                            doc: st.doc,
                                            methods: Seq::empty(),
                                        },
                                    ),
                                    doc: Seq::empty(),
                                    marker: None,
                                    ctx: CtxV::Top,
                                    depth: nd,
                                    failed: st.failed,
                                }
                            },
                            None => match decl_after(t, "enum "@) {
                                Some(name) => if nd > 0 {
                                    PStateV {
                                        items: st.items,
                                        doc: Seq::empty(),
                                        marker: None,
                                        ctx: CtxV::InEnum {
                                            name,
                                            doc: st.doc,
                                            marker: st.marker,
                                            variants: Seq::empty(),
                                        },
                                        depth: nd,
                                        failed: st.failed,
                                    }
                                } else {
                                    PStateV {
                                        items: st.items.push(
                                            ItemV::EnumItem {
                                                name,
                                                marker: st.marker,
                                                doc: st.doc,
                                                variants: Seq::empty(),
                                            },
                                        ),
                                        doc: Seq::empty(),
                                        marker: None,
                                        ctx: CtxV::Top,
                                        depth: nd,
                                        failed: st.failed,
                                    }
                                },
                                None => PStateV {
                                    items: st.items,
                                    doc: Seq::empty(),
                                    marker: None,
                                    ctx: CtxV::Top,
                                    depth: nd,
                                    failed: st.failed,
                                },
                            },
                        },
                    },
                }
            }
        },
        CtxV::InImpl { owner } => {
            let pushed = if st.depth == 1 && is_fn_line(t) {
                match parse_sig(t) {
                    Some(sig) => st.items.push(
                        ItemV::FnItem { owner, sig, marker: st.marker, doc: st.doc },
                    ),
                    None => st.items,
                }
            } else {
                st.items
            };
            PStateV {
                items: pushed,
                doc: Seq::empty(),
                marker: None,
                ctx: if nd == 0 {
                    CtxV::Top
                } else {
                    CtxV::InImpl { owner }
                },
                depth: nd,
                failed: st.failed,
            }
        },
        CtxV::InTrait { name, doc, marker, methods } => {
            let methods2 = if st.depth == 1 && is_fn_line(t) {
                match parse_sig(t) {
                    Some(sig) => methods.push(sig),
                    None => methods,
                }
            } else {
                methods
            };
            if nd == 0 {
                PStateV {
                    items: st.items.push(
                        ItemV::TraitItem { name, marker, doc, methods: methods2 },
                    ),
                    doc: st.doc,
                    marker: st.marker,
                    ctx: CtxV::Top,
                    depth: 0,
                    failed: st.failed,
                }
            } else {
                PStateV {
                    items: st.items,
                    doc: st.doc,
                    marker: st.marker,
                    ctx: CtxV::InTrait { name, doc, marker, methods: methods2 },
                    depth: nd,
                    failed: st.failed,
                }
            }
        },
        CtxV::InEnum { name, doc, marker, variants } => {
            let variants2 = if st.depth == 1 && t.len() > 0 && is_ident_char(t[0]) {
                variants.push(t.take(ident_len(t) as int))
            } else {
                variants
            };
            if nd == 0 {
                PStateV {
                    items: st.items.push(
                        ItemV::EnumItem { name, marker, doc, variants: variants2 },
                    ),
                    doc: st.doc,
                    marker: st.marker,
                    ctx: CtxV::Top,
                    depth: 0,
                    failed: st.failed,
                }
            } else {
                PStateV {
                    items: st.items,
                    doc: st.doc,
                    marker: st.marker,
                    ctx: CtxV::InEnum { name, doc, marker, variants: variants2 },
                    depth: nd,
                    failed: st.failed,
                }
            }
        },
    }
}

/// One raw line fed to the scanner.
pub open spec fn p_step(st: PStateV, raw: Seq<char>) -> PStateV {
    if st.failed {
        st
    } else {
        let t = trimmed(raw);
        if is_doc_line(t) {
            if collecting(st) {
                PStateV {
                    items: st.items,
                    doc: st.doc.push(doc_content(t)),
                    marker: st.marker,
                    ctx: st.ctx,
                    depth: st.depth,
                    failed: st.failed,
                }
            } else {
                st
            }
        } else if marker_of(t) is Some {
            if collecting(st) {
                PStateV {
                    items: st.items,
                    doc: st.doc,
                    marker: marker_of(t),
                    ctx: st.ctx,
                    depth: st.depth,
                    failed: st.failed,
                }
            } else {
                st
            }
        } else if is_attr_line(t) || is_comment_line(t) {
            st
        } else if t.len() == 0 {
            if collecting(st) {
                PStateV {
                    items: st.items,
                    doc: Seq::empty(),
                    marker: None,
                    ctx: st.ctx,
                    depth: st.depth,
                    failed: st.failed,
                }
            } else {
                st
            }
        } else {
            match new_depth(st.depth, t) {
                None => PStateV {
                    items: st.items,
                    doc: st.doc,
                    marker: st.marker,
                    ctx: st.ctx,
                    depth: st.depth,
                    failed: true,
                },
                Some(nd) => step_code(st, t, nd),
            }
        }
    }
}

pub fn collecting_exec(st: &PState) -> (r: bool)
    ensures
        r == collecting(st.deep_view()),
{
    match &st.ctx {
        Ctx::Top => st.depth == 0,
        Ctx::InImpl { .. } => st.depth == 1,
        _ => false,
    }
}

pub fn p_step_exec(st: PState, line: &Vec<char>) -> (r: PState)
    requires
        st.depth <= 1000000,
    ensures
        r.deep_view() == p_step(st.deep_view(), line@),
        r.depth <= 1000000,
{
    if st.failed {
        return st;
    }
    let t = trim_ws(line);
    if starts_with_lit(&t, "///") {
        if collecting_exec(&st) {
            let n3 = "///".unicode_len();
            let content = subrange_vec(&t, n3, t.len());
            proof {
                assert(t@.subrange("///"@.len() as int, t@.len() as int) =~= t@.skip(
                    "///"@.len() as int,
                ));
            }
            let s = chars_to_string(&content);
            let PState { items, mut doc, marker, ctx, depth, failed } = st;
            let ghost prev = doc.deep_view();
            doc.push(s);
            proof {
                assert(doc.deep_view() =~= prev.push(content@));
            }
            return PState { items, doc, marker, ctx, depth, failed };
        } else {
            return st;
        }
    }
    if let Some(m) = marker_of_vec(&t) {
        if collecting_exec(&st) {
            let PState { items, doc, marker: _, ctx, depth, failed } = st;
            return PState { items, doc, marker: Some(m), ctx, depth, failed };
        } else {
            return st;
        }
    }
    if starts_with_lit(&t, "#[") || starts_with_lit(&t, "//") {
        return st;
    }
    if t.len() == 0 {
        if collecting_exec(&st) {
            let PState { items, doc: _, marker: _, ctx, depth, failed } = st;
            let fresh_doc: Vec<String> = Vec::new();
            proof {
                assert(fresh_doc.deep_view() =~= Seq::<Seq<char>>::empty());
            }
            return PState { items, doc: fresh_doc, marker: None, ctx, depth, failed };
        } else {
            return st;
        }
    }
    let nd = match new_depth_exec(st.depth, &t) {
        None => {
            let PState { items, doc, marker, ctx, depth, failed: _ } = st;
            return PState { items, doc, marker, ctx, depth, failed: true };
        },
        Some(nd) => nd,
    };
    let PState { mut items, doc, marker, ctx, depth, failed } = st;
    match ctx {
        Ctx::Top => {
            if depth > 0 {
                return PState { items, doc, marker, ctx: Ctx::Top, depth: nd, failed };
            }
            if let Some(name_v) = decl_after_vec(&t, "struct ") {
                let ghost prev = items.deep_view();
                let item = Item::StructItem { name: chars_to_string(&name_v), marker, doc };
                let ghost idv = item.deep_view();
                items.push(item);
                let fresh_doc: Vec<String> = Vec::new();
                proof {
                    assert(items.deep_view() =~= prev.push(idv));
                    assert(fresh_doc.deep_view() =~= Seq::<Seq<char>>::empty());
                }
                return PState {
                    items,
                    doc: fresh_doc,
                    marker: None,
                    ctx: Ctx::Top,
                    depth: nd,
                    failed,
                };
            }
            if let Some(name_v) = decl_after_vec(&t, "impl ") {
                let nctx = if nd > 0 {
                    Ctx::InImpl { owner: chars_to_string(&name_v) }
                } else {
                    Ctx::Top
                };
                let fresh_doc: Vec<String> = Vec::new();
                proof {
                    assert(fresh_doc.deep_view() =~= Seq::<Seq<char>>::empty());
                }
                return PState { items, doc: fresh_doc, marker: None, ctx: nctx, depth: nd, failed };
            }
            if let Some(name_v) = decl_after_vec(&t, "trait ") {
                let name = chars_to_string(&name_v);
                let fresh_doc: Vec<String> = Vec::new();
                let fresh_methods: Vec<Sig> = Vec::new();
                proof {
                    assert(fresh_doc.deep_view() =~= Seq::<Seq<char>>::empty());
                    assert(fresh_methods.deep_view() =~= Seq::<SigV>::empty());
                }
                if nd > 0 {
                    let nctx = Ctx::InTrait { name, doc, marker, methods: fresh_methods };
                    return PState {
                        items,
                        doc: fresh_doc,
                        marker: None,
                        ctx: nctx,
                        depth: nd,
                        failed,
                    };
                } else {
                    let ghost prev = items.deep_view();
                    let item = Item::TraitItem { name, marker, doc, methods: fresh_methods };
                    let ghost idv = item.deep_view();
                    items.push(item);
                    proof {
                        assert(items.deep_view() =~= prev.push(idv));
                    }
                    return PState {
                        items,
                        doc: fresh_doc,
                        marker: None,
                        ctx: Ctx::Top,
                        depth: nd,
                        failed,
                    };
                }
            }
            if let Some(name_v) = decl_after_vec(&t, "enum ") {
                let name = chars_to_string(&name_v);
                let fresh_doc: Vec<String> = Vec::new();
                let fresh_variants: Vec<String> = Vec::new();
                proof {
                    assert(fresh_doc.deep_view() =~= Seq::<Seq<char>>::empty());
                    assert(fresh_variants.deep_view() =~= Seq::<Seq<char>>::empty());
                }
                if nd > 0 {
                    let nctx = Ctx::InEnum { name, doc, marker, variants: fresh_variants };
                    return PState {
                        items,
                        doc: fresh_doc,
                        marker: None,
                        ctx: nctx,
                        depth: nd,
                        failed,
                    };
                } else {
                    let ghost prev = items.deep_view();
                    let item = Item::EnumItem { name, marker, doc, variants: fresh_variants };
                    let ghost idv = item.deep_view();
                    items.push(item);
                    proof {
                        assert(items.deep_view() =~= prev.push(idv));
                    }
                    return PState {
                        items,
                        doc: fresh_doc,
                        marker: None,
                        ctx: Ctx::Top,
                        depth: nd,
                        failed,
                    };
                }
            }
            let fresh_doc: Vec<String> = Vec::new();
            proof {
                assert(fresh_doc.deep_view() =~= Seq::<Seq<char>>::empty());
            }
            PState { items, doc: fresh_doc, marker: None, ctx: Ctx::Top, depth: nd, failed }
        },
        Ctx::InImpl { owner } => {
            if depth == 1 && is_fn_line_vec(&t) {
                if let Some(sig) = parse_sig_vec(&t) {
                    let ghost prev = items.deep_view();
                    let item = Item::FnItem { owner: owner.clone(), sig, marker, doc };
                    let ghost idv = item.deep_view();
                    items.push(item);
                    proof {
                        assert(items.deep_view() =~= prev.push(idv));
                    }
                    let nctx = if nd == 0 {
                        Ctx::Top
                    } else {
                        Ctx::InImpl { owner }
                    };
                    let fresh_doc: Vec<String> = Vec::new();
                    proof {
                        assert(fresh_doc.deep_view() =~= Seq::<Seq<char>>::empty());
                    }
                    return PState {
                        items,
                        doc: fresh_doc,
                        marker: None,
                        ctx: nctx,
                        depth: nd,
                        failed,
                    };
                }
            }
            let nctx = if nd == 0 {
                Ctx::Top
            } else {
                Ctx::InImpl { owner }
            };
            let fresh_doc: Vec<String> = Vec::new();
            proof {
                assert(fresh_doc.deep_view() =~= Seq::<Seq<char>>::empty());
            }
            PState { items, doc: fresh_doc, marker: None, ctx: nctx, depth: nd, failed }
        },
        Ctx::InTrait { name, doc: t_doc, marker: t_marker, mut methods } => {
            if depth == 1 && is_fn_line_vec(&t) {
                if let Some(sig) = parse_sig_vec(&t) {
                    let ghost prev = methods.deep_view();
                    let ghost sdv = sig.deep_view();
                    methods.push(sig);
                    proof {
                        assert(methods.deep_view() =~= prev.push(sdv));
                    }
                }
            }
            if nd == 0 {
                let ghost prev = items.deep_view();
                let item = Item::TraitItem { name, marker: t_marker, doc: t_doc, methods };
                let ghost idv = item.deep_view();
                items.push(item);
                proof {
                    assert(items.deep_view() =~= prev.push(idv));
                }
                PState { items, doc, marker, ctx: Ctx::Top, depth: 0, failed }
            } else {
                PState {
                    items,
                    doc,
                    marker,
                    ctx: Ctx::InTrait { name, doc: t_doc, marker: t_marker, methods },
                    depth: nd,
                    failed,
                }
            }
        },
        Ctx::InEnum { name, doc: e_doc, marker: e_marker, mut variants } => {
            if depth == 1 && ident_char(t[0]) {
                let idp = ident_prefix(&t);
                proof {
                    assert(t@.subrange(0, ident_len(t@) as int) =~= t@.take(ident_len(t@) as int));
                }
                let ghost prev = variants.deep_view();
                let s = chars_to_string(&idp);
                variants.push(s);
                proof {
                    assert(variants.deep_view() =~= prev.push(idp@));
                }
            }
            if nd == 0 {
                let ghost prev = items.deep_view();
                let item = Item::EnumItem { name, marker: e_marker, doc: e_doc, variants };
                let ghost idv = item.deep_view();
                items.push(item);
                proof {
                    assert(items.deep_view() =~= prev.push(idv));
                }
                PState { items, doc, marker, ctx: Ctx::Top, depth: 0, failed }
            } else {
                PState {
                    items,
                    doc,
                    marker,
                    ctx: Ctx::InEnum { name, doc: e_doc, marker: e_marker, variants },
                    depth: nd,
                    failed,
                }
            }
        },
    }
}

/// The scanner state after feeding every line, in order.
pub open spec fn fold_lines(lines: Seq<Seq<char>>) -> PStateV
    decreases lines.len(),
{
    if lines.len() == 0 {
        init_state()
    } else {
        p_step(fold_lines(lines.drop_last()), lines.last())
    }
}

pub open spec fn file_state(content: Seq<char>) -> PStateV {
    fold_lines(split_lines(content))
}

/// A file parses when its braces balance and nesting stays in bounds.
pub open spec fn file_ok(content: Seq<char>) -> bool {
    !file_state(content).failed && file_state(content).depth == 0
}

/// The items the scanner finds in a file's text.
pub open spec fn file_items(content: Seq<char>) -> Seq<ItemV> {
    file_state(content).items
}

/// Scan one file's text; the flag says whether the file parsed cleanly.
pub fn parse_source(content: &str) -> (r: (Vec<Item>, bool))
    ensures
        r.0.deep_view() == file_items(content@),
        r.1 == file_ok(content@),
{
    let chars = to_chars(content);
    let lines = lines_of(&chars);
    let mut st = PState {
        items: Vec::new(),
        doc: Vec::new(),
        marker: None,
        ctx: Ctx::Top,
        depth: 0,
        failed: false,
    };
    let ghost lv = seq_views(lines@);
    proof {
        assert(st.deep_view().items =~= Seq::<ItemV>::empty());
        assert(st.deep_view().doc =~= Seq::<Seq<char>>::empty());
        assert(st.deep_view() == init_state());
        assert(lv.take(0) =~= Seq::<Seq<char>>::empty());
    }
    let mut i: usize = 0;
    while i < lines.len()
        invariant
            i <= lines@.len(),
            lv == seq_views(lines@),
            st.deep_view() == fold_lines(lv.take(i as int)),
            st.depth <= 1000000,
        decreases lines@.len() - i,
    {
        proof {
            assert(lv.take(i as int + 1).drop_last() =~= lv.take(i as int));
            assert(lv.take(i as int + 1).last() == lines@[i as int]@);
        }
        st = p_step_exec(st, &lines[i]);
        i += 1;
    }
    proof {
        assert(lv.take(lines@.len() as int) =~= lv);
    }
    let ok = !st.failed && st.depth == 0;
    (st.items, ok)
}

} // verus!
