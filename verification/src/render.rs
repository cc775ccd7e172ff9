//! The dialect renderer: a pure serialization of the case-converted model
//! into the interface-description text. The two dialects differ only in how
//! foreign type names are written; the clause structure is shared. Identical
//! models render to identical text by construction: the output is specified
//! character-for-character by the `render_*` spec functions.
use crate::model::ClassDef;
use crate::model::ClassV;
use crate::model::Constructor;
use crate::model::CtorV;
use crate::model::EnumDef;
use crate::model::EnumV;
use crate::model::InterfaceModel;
use crate::model::Method;
use crate::model::MethodV;
use crate::model::ModelV;
use crate::model::Param;
use crate::model::ParamV;
use crate::model::SelfKind;
use crate::model::Sig;
use crate::model::SigV;
use crate::model::TraitDef;
use crate::model::TraitV;
use crate::text::eq_lit;
use crate::text::to_chars;
use crate::Language;
use vstd::prelude::*;
use vstd::string::StrSliceExecFns;
use vstd::string::StringExecFns;

verus! {

/// Foreign spelling of a parameter or return type: the host string type is
/// written in the dialect's own convention, everything else verbatim.
pub open spec fn map_type(lang: Language, ty: Seq<char>) -> Seq<char> {
    if ty == "String"@ || ty == "&str"@ || ty == "& str"@ {
        match lang {
            Language::Java => "String"@,
            Language::Cpp => "std::string"@,
        }
    } else {
        ty
    }
}

pub fn map_type_exec(lang: Language, ty: &String) -> (r: String)
    ensures
        r@ == map_type(lang, ty@),
{
    let chars = to_chars(ty.as_str());
    if eq_lit(&chars, "String") || eq_lit(&chars, "&str") || eq_lit(&chars, "& str") {
        match lang {
            Language::Java => String::from_str("String"),
            Language::Cpp => String::from_str("std::string"),
        }
    } else {
        ty.clone()
    }
}

/// Documentation rendered verbatim: one `///` comment line per stored line,
/// in stored order, each under the given indentation.
pub open spec fn render_doc(doc: Seq<Seq<char>>, indent: Seq<char>) -> Seq<char>
    decreases doc.len(),
{
    if doc.len() == 0 {
        Seq::empty()
    } else {
        render_doc(doc.drop_last(), indent) + indent + "///"@ + doc.last() + "\n"@
    }
}

fn render_doc_into(out: String, doc: &Vec<String>, indent: &str) -> (r: String)
    ensures
        r@ == out@ + render_doc(doc.deep_view(), indent@),
{
    let ghost base = out@;
    let ghost dv = doc.deep_view();
    let mut acc = out;
    let mut i: usize = 0;
    proof {
        assert(dv.take(0) =~= Seq::<Seq<char>>::empty());
        assert(acc@ =~= base + render_doc(dv.take(0), indent@));
    }
    while i < doc.len()
        invariant
            i <= doc@.len(),
            dv == doc.deep_view(),
            acc@ == base + render_doc(dv.take(i as int), indent@),
        decreases doc@.len() - i,
    {
        acc.append(indent);
        acc.append("///");
        acc.append(doc[i].as_str());
        acc.append("\n");
        proof {
            assert(dv.take(i as int + 1).drop_last() =~= dv.take(i as int));
            assert(dv.take(i as int + 1).last() == dv[i as int]);
            assert(acc@ =~= base + render_doc(dv.take(i as int + 1), indent@));
        }
        i += 1;
    }
    proof {
        assert(dv.take(doc@.len() as int) =~= dv);
    }
    acc
}

/// Parameters joined by `, `, each written `_: Type` in the dialect.
pub open spec fn render_params(lang: Language, ps: Seq<ParamV>) -> Seq<char>
    decreases ps.len(),
{
    if ps.len() == 0 {
        Seq::empty()
    } else {
        render_params(lang, ps.drop_last()) + (if ps.len() > 1 {
            ", "@
        } else {
            Seq::empty()
        }) + "_: "@ + map_type(lang, ps.last().ty)
    }
}

fn render_params_into(out: String, lang: Language, ps: &Vec<Param>) -> (r: String)
    ensures
        r@ == out@ + render_params(lang, ps.deep_view()),
{
    let ghost base = out@;
    let ghost dv = ps.deep_view();
    let mut acc = out;
    let mut i: usize = 0;
    proof {
        assert(dv.take(0) =~= Seq::<ParamV>::empty());
        assert(acc@ =~= base + render_params(lang, dv.take(0)));
    }
    while i < ps.len()
        invariant
            i <= ps@.len(),
            dv == ps.deep_view(),
            acc@ == base + render_params(lang, dv.take(i as int)),
        decreases ps@.len() - i,
    {
        if i > 0 {
            acc.append(", ");
        }
        acc.append("_: ");
        let mt = map_type_exec(lang, &ps[i].ty);
        acc.append(mt.as_str());
        proof {
            assert(dv.take(i as int + 1).drop_last() =~= dv.take(i as int));
            assert(dv.take(i as int + 1).last() == dv[i as int]);
            assert(acc@ =~= base + render_params(lang, dv.take(i as int + 1)));
        }
        i += 1;
    }
    proof {
        assert(dv.take(ps@.len() as int) =~= dv);
    }
    acc
}

pub open spec fn receiver_text(k: SelfKind) -> Seq<char> {
    match k {
        SelfKind::NoReceiver => Seq::empty(),
        SelfKind::ByValue => "self"@,
        SelfKind::ByRef => "&self"@,
        SelfKind::ByMutRef => "&mut self"@,
    }
}

/// The argument list inside the parentheses: the receiver's written form,
/// then the parameters.
pub open spec fn render_args(lang: Language, k: SelfKind, ps: Seq<ParamV>) -> Seq<char> {
    if k == SelfKind::NoReceiver {
        render_params(lang, ps)
    } else if ps.len() == 0 {
        receiver_text(k)
    } else {
        receiver_text(k) + ", "@ + render_params(lang, ps)
    }
}

fn render_args_into(out: String, lang: Language, k: SelfKind, ps: &Vec<Param>) -> (r: String)
    ensures
        r@ == out@ + render_args(lang, k, ps.deep_view()),
{
    let ghost base = out@;
    let mut acc = out;
    match k {
        SelfKind::NoReceiver => {
            let r = render_params_into(acc, lang, ps);
            return r;
        },
        SelfKind::ByValue => acc.append("self"),
        SelfKind::ByRef => acc.append("&self"),
        SelfKind::ByMutRef => acc.append("&mut self"),
    }
    if ps.len() > 0 {
        acc.append(", ");
        let r = render_params_into(acc, lang, ps);
        proof {
            assert(r@ =~= base + render_args(lang, k, ps.deep_view()));
        }
        r
    } else {
        acc
    }
}

pub open spec fn render_ret(lang: Language, ret: Option<Seq<char>>) -> Seq<char> {
    match ret {
        None => Seq::empty(),
        Some(t) => " -> "@ + map_type(lang, t),
    }
}

/// One method clause of a class.
pub open spec fn render_method(lang: Language, cname: Seq<char>, m: MethodV) -> Seq<char> {
    render_doc(m.doc, "    "@) + "    fn "@ + cname + "::"@ + m.name + "("@ + render_args(
        lang,
        m.receiver,
        m.params,
    ) + ")"@ + render_ret(lang, m.ret) + ";\n"@
}

fn render_method_into(out: String, lang: Language, cname: &String, m: &Method) -> (r: String)
    ensures
        r@ == out@ + render_method(lang, cname@, m.deep_view()),
{
    let ghost base = out@;
    let mut acc = render_doc_into(out, &m.doc, "    ");
    acc.append("    fn ");
    acc.append(cname.as_str());
    acc.append("::");
    acc.append(m.name.as_str());
    acc.append("(");
    acc = render_args_into(acc, lang, m.receiver, &m.params);
    acc.append(")");
    match &m.ret {
        Some(t) => {
            acc.append(" -> ");
            let mt = map_type_exec(lang, t);
            acc.append(mt.as_str());
        },
        None => {},
    }
    acc.append(";\n");
    proof {
        assert(acc@ =~= base + render_method(lang, cname@, m.deep_view()));
    }
    acc
}

/// One constructor clause of a class.
pub open spec fn render_ctor(lang: Language, cname: Seq<char>, c: CtorV) -> Seq<char> {
    render_doc(c.doc, "    "@) + "    constructor "@ + cname + "::"@ + c.name + "("@
        + render_params(lang, c.params) + ") -> "@ + cname + ";\n"@
}

fn render_ctor_into(out: String, lang: Language, cname: &String, c: &Constructor) -> (r: String)
    ensures
        r@ == out@ + render_ctor(lang, cname@, c.deep_view()),
{
    let ghost base = out@;
    let mut acc = render_doc_into(out, &c.doc, "    ");
    acc.append("    constructor ");
    acc.append(cname.as_str());
    acc.append("::");
    acc.append(c.name.as_str());
    acc.append("(");
    acc = render_params_into(acc, lang, &c.params);
    acc.append(") -> ");
    acc.append(cname.as_str());
    acc.append(";\n");
    proof {
        assert(acc@ =~= base + render_ctor(lang, cname@, c.deep_view()));
    }
    acc
}

pub open spec fn render_ctors(lang: Language, cname: Seq<char>, cs: Seq<CtorV>) -> Seq<char>
    decreases cs.len(),
{
    if cs.len() == 0 {
        Seq::empty()
    } else {
        render_ctors(lang, cname, cs.drop_last()) + render_ctor(lang, cname, cs.last())
    }
}

pub open spec fn render_methods(lang: Language, cname: Seq<char>, ms: Seq<MethodV>) -> Seq<char>
    decreases ms.len(),
{
    if ms.len() == 0 {
        Seq::empty()
    } else {
        render_methods(lang, cname, ms.drop_last()) + render_method(lang, cname, ms.last())
    }
}

/// One class clause: its documentation, header, self type, constructors and
/// methods. A class with neither constructors nor methods is omitted.
pub open spec fn render_class(lang: Language, c: ClassV) -> Seq<char> {
    if c.constructors.len() == 0 && c.methods.len() == 0 {
        Seq::empty()
    } else {
        render_doc(c.doc, Seq::empty()) + "foreign_class!(class "@ + c.name + " {\n"@
            + "    self_type "@ + c.name + ";\n"@ + render_ctors(lang, c.name, c.constructors)
            + render_methods(lang, c.name, c.methods) + "});\n"@
    }
}

#[verifier::rlimit(80)]
fn render_class_into(out: String, lang: Language, c: &ClassDef) -> (r: String)
    ensures
        r@ == out@ + render_class(lang, c.deep_view()),
{
    let ghost base = out@;
    if c.constructors.len() == 0 && c.methods.len() == 0 {
        proof {
            assert(out@ =~= base + render_class(lang, c.deep_view()));
        }
        return out;
    }
    let mut acc = render_doc_into(out, &c.doc, "");
    acc.append("foreign_class!(class ");
    acc.append(c.name.as_str());
    acc.append(" {\n");
    acc.append("    self_type ");
    acc.append(c.name.as_str());
    acc.append(";\n");
    let ghost mid = acc@;
    let ghost cdv = c.deep_view();
    let mut i: usize = 0;
    proof {
        assert(cdv.constructors.take(0) =~= Seq::<CtorV>::empty());
        assert(acc@ =~= mid + render_ctors(lang, cdv.name, cdv.constructors.take(0)));
    }
    while i < c.constructors.len()
        invariant
            i <= c.constructors@.len(),
            cdv == c.deep_view(),
            acc@ == mid + render_ctors(lang, cdv.name, cdv.constructors.take(i as int)),
        decreases c.constructors@.len() - i,
    {
        acc = render_ctor_into(acc, lang, &c.name, &c.constructors[i]);
        proof {
            assert(cdv.constructors.take(i as int + 1).drop_last() =~= cdv.constructors.take(
                i as int,
            ));
            assert(cdv.constructors.take(i as int + 1).last() == cdv.constructors[i as int]);
            assert(acc@ =~= mid + render_ctors(lang, cdv.name, cdv.constructors.take(i as int + 1)));
        }
        i += 1;
    }
    proof {
        assert(cdv.constructors.take(c.constructors@.len() as int) =~= cdv.constructors);
    }
    let ghost mid2 = acc@;
    let mut j: usize = 0;
    proof {
        assert(cdv.methods.take(0) =~= Seq::<MethodV>::empty());
        assert(acc@ =~= mid2 + render_methods(lang, cdv.name, cdv.methods.take(0)));
    }
    while j < c.methods.len()
        invariant
            j <= c.methods@.len(),
            cdv == c.deep_view(),
            acc@ == mid2 + render_methods(lang, cdv.name, cdv.methods.take(j as int)),
        decreases c.methods@.len() - j,
    {
        acc = render_method_into(acc, lang, &c.name, &c.methods[j]);
        proof {
            assert(cdv.methods.take(j as int + 1).drop_last() =~= cdv.methods.take(j as int));
            assert(cdv.methods.take(j as int + 1).last() == cdv.methods[j as int]);
            assert(acc@ =~= mid2 + render_methods(lang, cdv.name, cdv.methods.take(j as int + 1)));
        }
        j += 1;
    }
    proof {
        assert(cdv.methods.take(c.methods@.len() as int) =~= cdv.methods);
    }
    acc.append("});\n");
    proof {
        reveal_strlit("");
        assert(""@ =~= Seq::<char>::empty());
        assert(acc@ =~= base + render_class(lang, cdv));
    }
    acc
}

/// One signature clause of a trait.
pub open spec fn render_trait_sig(lang: Language, tname: Seq<char>, s: SigV) -> Seq<char> {
    "    fn "@ + tname + "::"@ + s.name + "("@ + render_args(lang, s.receiver, s.params) + ")"@
        + render_ret(lang, s.ret) + ";\n"@
}

fn render_trait_sig_into(out: String, lang: Language, tname: &String, s: &Sig) -> (r: String)
    ensures
        r@ == out@ + render_trait_sig(lang, tname@, s.deep_view()),
{
    let ghost base = out@;
    let mut acc = out;
    acc.append("    fn ");
    acc.append(tname.as_str());
    acc.append("::");
    acc.append(s.name.as_str());
    acc.append("(");
    acc = render_args_into(acc, lang, s.receiver, &s.params);
    acc.append(")");
    match &s.ret {
        Some(t) => {
            acc.append(" -> ");
            let mt = map_type_exec(lang, t);
            acc.append(mt.as_str());
        },
        None => {},
    }
    acc.append(";\n");
    proof {
        assert(acc@ =~= base + render_trait_sig(lang, tname@, s.deep_view()));
    }
    acc
}

pub open spec fn render_trait_sigs(lang: Language, tname: Seq<char>, ss: Seq<SigV>) -> Seq<char>
    decreases ss.len(),
{
    if ss.len() == 0 {
        Seq::empty()
    } else {
        render_trait_sigs(lang, tname, ss.drop_last()) + render_trait_sig(lang, tname, ss.last())
    }
}

/// One trait clause: documentation, header, and every method signature.
pub open spec fn render_trait(lang: Language, t: TraitV) -> Seq<char> {
    render_doc(t.doc, Seq::empty()) + "foreign_callback!(callback "@ + t.name + " {\n"@
        + "    self_type "@ + t.name + ";\n"@ + render_trait_sigs(lang, t.name, t.methods)
        + "});\n"@
}

fn render_trait_into(out: String, lang: Language, t: &TraitDef) -> (r: String)
    ensures
        r@ == out@ + render_trait(lang, t.deep_view()),
{
    let ghost base = out@;
    let mut acc = render_doc_into(out, &t.doc, "");
    acc.append("foreign_callback!(callback ");
    acc.append(t.name.as_str());
    acc.append(" {\n");
    acc.append("    self_type ");
    acc.append(t.name.as_str());
    acc.append(";\n");
    let ghost mid = acc@;
    let ghost tdv = t.deep_view();
    let mut i: usize = 0;
    proof {
        assert(tdv.methods.take(0) =~= Seq::<SigV>::empty());
        assert(acc@ =~= mid + render_trait_sigs(lang, tdv.name, tdv.methods.take(0)));
    }
    while i < t.methods.len()
        invariant
            i <= t.methods@.len(),
            tdv == t.deep_view(),
            acc@ == mid + render_trait_sigs(lang, tdv.name, tdv.methods.take(i as int)),
        decreases t.methods@.len() - i,
    {
        acc = render_trait_sig_into(acc, lang, &t.name, &t.methods[i]);
        proof {
            assert(tdv.methods.take(i as int + 1).drop_last() =~= tdv.methods.take(i as int));
            assert(tdv.methods.take(i as int + 1).last() == tdv.methods[i as int]);
            assert(acc@ =~= mid + render_trait_sigs(lang, tdv.name, tdv.methods.take(i as int + 1)));
        }
        i += 1;
    }
    proof {
        assert(tdv.methods.take(t.methods@.len() as int) =~= tdv.methods);
    }
    acc.append("});\n");
    proof {
        reveal_strlit("");
        assert(""@ =~= Seq::<char>::empty());
        assert(acc@ =~= base + render_trait(lang, tdv));
    }
    acc
}

pub open spec fn render_variants(vs: Seq<Seq<char>>) -> Seq<char>
    decreases vs.len(),
{
    if vs.len() == 0 {
        Seq::empty()
    } else {
        render_variants(vs.drop_last()) + "    "@ + vs.last() + ",\n"@
    }
}

/// One enum clause: documentation, header, and every variant name.
pub open spec fn render_enum(e: EnumV) -> Seq<char> {
    render_doc(e.doc, Seq::empty()) + "foreign_enum!(enum "@ + e.name + " {\n"@ + render_variants(
        e.variants,
    ) + "});\n"@
}

fn render_enum_into(out: String, e: &EnumDef) -> (r: String)
    ensures
        r@ == out@ + render_enum(e.deep_view()),
{
    let ghost base = out@;
    let mut acc = render_doc_into(out, &e.doc, "");
    acc.append("foreign_enum!(enum ");
    acc.append(e.name.as_str());
    acc.append(" {\n");
    let ghost mid = acc@;
    let ghost edv = e.deep_view();
    let mut i: usize = 0;
    proof {
        assert(edv.variants.take(0) =~= Seq::<Seq<char>>::empty());
        assert(acc@ =~= mid + render_variants(edv.variants.take(0)));
    }
    while i < e.variants.len()
        invariant
            i <= e.variants@.len(),
            edv == e.deep_view(),
            acc@ == mid + render_variants(edv.variants.take(i as int)),
        decreases e.variants@.len() - i,
    {
        acc.append("    ");
        acc.append(e.variants[i].as_str());
        acc.append(",\n");
        proof {
            assert(edv.variants.take(i as int + 1).drop_last() =~= edv.variants.take(i as int));
            assert(edv.variants.take(i as int + 1).last() == edv.variants[i as int]);
            assert(acc@ =~= mid + render_variants(edv.variants.take(i as int + 1)));
        }
        i += 1;
    }
    proof {
        assert(edv.variants.take(e.variants@.len() as int) =~= edv.variants);
    }
    acc.append("});\n");
    proof {
        reveal_strlit("");
        assert(""@ =~= Seq::<char>::empty());
        assert(acc@ =~= base + render_enum(edv));
    }
    acc
}

pub open spec fn render_classes(lang: Language, cs: Seq<ClassV>) -> Seq<char>
    decreases cs.len(),
{
    if cs.len() == 0 {
        Seq::empty()
    } else {
        render_classes(lang, cs.drop_last()) + render_class(lang, cs.last())
    }
}

pub open spec fn render_traits(lang: Language, ts: Seq<TraitV>) -> Seq<char>
    decreases ts.len(),
{
    if ts.len() == 0 {
        Seq::empty()
    } else {
        render_traits(lang, ts.drop_last()) + render_trait(lang, ts.last())
    }
}

pub open spec fn render_enums(es: Seq<EnumV>) -> Seq<char>
    decreases es.len(),
{
    if es.len() == 0 {
        Seq::empty()
    } else {
        render_enums(es.drop_last()) + render_enum(es.last())
    }
}

/// The whole document: class clauses, then trait clauses, then enum clauses,
/// each group in first-encountered order.
pub open spec fn render_model(lang: Language, m: ModelV) -> Seq<char> {
    render_classes(lang, m.classes) + render_traits(lang, m.traits) + render_enums(m.enums)
}

/// Serialize a model.
pub fn render_model_exec(lang: Language, m: &InterfaceModel) -> (r: String)
    ensures
        r@ == render_model(lang, m.deep_view()),
{
    let mut acc = String::new();
    let ghost mdv = m.deep_view();
    let mut i: usize = 0;
    proof {
        assert(mdv.classes.take(0) =~= Seq::<ClassV>::empty());
        assert(acc@ =~= render_classes(lang, mdv.classes.take(0)));
    }
    while i < m.classes.len()
        invariant
            i <= m.classes@.len(),
            mdv == m.deep_view(),
            acc@ == render_classes(lang, mdv.classes.take(i as int)),
        decreases m.classes@.len() - i,
    {
        acc = render_class_into(acc, lang, &m.classes[i]);
        proof {
            assert(mdv.classes.take(i as int + 1).drop_last() =~= mdv.classes.take(i as int));
            assert(mdv.classes.take(i as int + 1).last() == mdv.classes[i as int]);
            assert(acc@ =~= render_classes(lang, mdv.classes.take(i as int + 1)));
        }
        i += 1;
    }
    proof {
        assert(mdv.classes.take(m.classes@.len() as int) =~= mdv.classes);
    }
    let ghost mid = acc@;
    let mut j: usize = 0;
    proof {
        assert(mdv.traits.take(0) =~= Seq::<TraitV>::empty());
        assert(acc@ =~= mid + render_traits(lang, mdv.traits.take(0)));
    }
    while j < m.traits.len()
        invariant
            j <= m.traits@.len(),
            mdv == m.deep_view(),
            acc@ == mid + render_traits(lang, mdv.traits.take(j as int)),
        decreases m.traits@.len() - j,
    {
        acc = render_trait_into(acc, lang, &m.traits[j]);
        proof {
            assert(mdv.traits.take(j as int + 1).drop_last() =~= mdv.traits.take(j as int));
            assert(mdv.traits.take(j as int + 1).last() == mdv.traits[j as int]);
            assert(acc@ =~= mid + render_traits(lang, mdv.traits.take(j as int + 1)));
        }
        j += 1;
    }
    proof {
        assert(mdv.traits.take(m.traits@.len() as int) =~= mdv.traits);
    }
    let ghost mid2 = acc@;
    let mut k: usize = 0;
    proof {
        assert(mdv.enums.take(0) =~= Seq::<EnumV>::empty());
        assert(acc@ =~= mid2 + render_enums(mdv.enums.take(0)));
    }
    while k < m.enums.len()
        invariant
            k <= m.enums@.len(),
            mdv == m.deep_view(),
            acc@ == mid2 + render_enums(mdv.enums.take(k as int)),
        decreases m.enums@.len() - k,
    {
        acc = render_enum_into(acc, &m.enums[k]);
        proof {
            assert(mdv.enums.take(k as int + 1).drop_last() =~= mdv.enums.take(k as int));
            assert(mdv.enums.take(k as int + 1).last() == mdv.enums[k as int]);
            assert(acc@ =~= mid2 + render_enums(mdv.enums.take(k as int + 1)));
        }
        k += 1;
    }
    proof {
        assert(mdv.enums.take(m.enums@.len() as int) =~= mdv.enums);
        assert(acc@ =~= render_model(lang, mdv));
    }
    acc
}

/// Doc-preservation law: a rendered class clause carries the class's stored
/// documentation lines verbatim, in order, as its leading characters —
/// directly above the clause header.
pub proof fn lemma_class_doc_verbatim(lang: Language, c: ClassV)
    requires
        c.constructors.len() > 0 || c.methods.len() > 0,
    ensures
        render_class(lang, c).take(render_doc(c.doc, Seq::empty()).len() as int) == render_doc(
            c.doc,
            Seq::empty(),
        ),
{
    assert(render_class(lang, c).take(render_doc(c.doc, Seq::empty()).len() as int) =~= render_doc(
        c.doc,
        Seq::empty(),
    ));
}

/// Doc-preservation law, line form: each stored line appears in the rendered
/// documentation exactly as stored, between a `///` and a newline, with
/// nothing reordered or rewritten.
pub proof fn lemma_doc_line_verbatim(doc: Seq<Seq<char>>, indent: Seq<char>)
    requires
        doc.len() > 0,
    ensures
        render_doc(doc, indent) == render_doc(doc.drop_last(), indent) + indent + "///"@
            + doc.last() + "\n"@,
{
}

} // verus!
