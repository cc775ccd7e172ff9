//! Identifier casing: the pure rewriting of method and enum-variant names
//! demanded by the configured `TypeCases` policy. The transforms are exact
//! functions of the input characters; the same identifier always converts to
//! the same result.
use crate::text::chars_to_string;
use crate::text::to_chars;
use crate::TypeCases;
use vstd::prelude::*;

verus! {

pub open spec fn is_lower(c: char) -> bool {
    97 <= c as u32 && c as u32 <= 122
}

pub open spec fn is_upper(c: char) -> bool {
    65 <= c as u32 && c as u32 <= 90
}

/// The upper-case form of an ASCII letter; anything else is unchanged.
pub open spec fn upper_of(c: char) -> char {
    if is_lower(c) {
        (((c as u32) - 32) as u8) as char
    } else {
        c
    }
}

/// The lower-case form of an ASCII letter; anything else is unchanged.
pub open spec fn lower_of(c: char) -> char {
    if is_upper(c) {
        (((c as u32) + 32) as u8) as char
    } else {
        c
    }
}

pub fn upper_char(c: char) -> (r: char)
    ensures
        r == upper_of(c),
{
    let u = c as u32;
    if 97 <= u && u <= 122 {
        ((u - 32) as u8) as char
    } else {
        c
    }
}

pub fn lower_char(c: char) -> (r: char)
    ensures
        r == lower_of(c),
{
    let u = c as u32;
    if 65 <= u && u <= 90 {
        ((u + 32) as u8) as char
    } else {
        c
    }
}

/// What position `i` of `s` contributes to the camelCase form: underscores
/// vanish, and a character that followed an underscore is upper-cased.
pub open spec fn camel_piece(s: Seq<char>, i: int) -> Seq<char> {
    if s[i] == '_' {
        Seq::empty()
    } else if i > 0 && s[i - 1] == '_' {
        seq![upper_of(s[i])]
    } else {
        seq![s[i]]
    }
}

/// The camelCase form of an identifier.
pub open spec fn to_camel(s: Seq<char>) -> Seq<char>
    decreases s.len(),
{
    if s.len() == 0 {
        Seq::empty()
    } else {
        to_camel(s.drop_last()) + camel_piece(s, s.len() - 1)
    }
}

/// What position `i` of `s` contributes to the snake_case form: an upper-case
/// letter becomes an underscore (except at the front) followed by its
/// lower-case form.
pub open spec fn snake_piece(s: Seq<char>, i: int) -> Seq<char> {
    if is_upper(s[i]) {
        (if i > 0 {
            seq!['_']
        } else {
            Seq::empty()
        }) + seq![lower_of(s[i])]
    } else {
        seq![s[i]]
    }
}

/// The snake_case form of an identifier.
pub open spec fn to_snake(s: Seq<char>) -> Seq<char>
    decreases s.len(),
{
    if s.len() == 0 {
        Seq::empty()
    } else {
        to_snake(s.drop_last()) + snake_piece(s, s.len() - 1)
    }
}

/// An identifier rewritten under the given casing policy.
pub open spec fn convert_name(tc: TypeCases, s: Seq<char>) -> Seq<char> {
    match tc {
        TypeCases::Default => s,
        TypeCases::CamelCase => to_camel(s),
        TypeCases::SnakeCase => to_snake(s),
    }
}

pub fn camel_chars(v: &Vec<char>) -> (r: Vec<char>)
    ensures
        r@ == to_camel(v@),
{
    let mut out: Vec<char> = Vec::new();
    let mut i: usize = 0;
    proof {
        assert(v@.take(0) =~= Seq::<char>::empty());
    }
    while i < v.len()
        invariant
            i <= v@.len(),
            out@ == to_camel(v@.take(i as int)),
        decreases v@.len() - i,
    {
        proof {
            assert(v@.take(i as int + 1).drop_last() =~= v@.take(i as int));
        }
        if v[i] == '_' {
        } else if i > 0 && v[i - 1] == '_' {
            out.push(upper_char(v[i]));
        } else {
            out.push(v[i]);
        }
        i += 1;
    }
    proof {
        assert(v@.take(v@.len() as int) =~= v@);
    }
    out
}

pub fn snake_chars(v: &Vec<char>) -> (r: Vec<char>)
    ensures
        r@ == to_snake(v@),
{
    let mut out: Vec<char> = Vec::new();
    let mut i: usize = 0;
    proof {
        assert(v@.take(0) =~= Seq::<char>::empty());
    }
    while i < v.len()
        invariant
            i <= v@.len(),
            out@ == to_snake(v@.take(i as int)),
        decreases v@.len() - i,
    {
        proof {
            assert(v@.take(i as int + 1).drop_last() =~= v@.take(i as int));
        }
        let u = v[i] as u32;
        if 65 <= u && u <= 90 {
            if i > 0 {
                out.push('_');
            }
            out.push(lower_char(v[i]));
        } else {
            out.push(v[i]);
        }
        i += 1;
    }
    proof {
        assert(v@.take(v@.len() as int) =~= v@);
    }
    out
}

/// A name rewritten under the policy, as a `String`.
pub fn convert_string(tc: TypeCases, s: &String) -> (r: String)
    ensures
        r@ == convert_name(tc, s@),
{
    match tc {
        TypeCases::Default => {
            let chars = to_chars(s.as_str());
            chars_to_string(&chars)
        },
        TypeCases::CamelCase => {
            let chars = to_chars(s.as_str());
            let conv = camel_chars(&chars);
            chars_to_string(&conv)
        },
        TypeCases::SnakeCase => {
            let chars = to_chars(s.as_str());
            let conv = snake_chars(&chars);
            chars_to_string(&conv)
        },
    }
}

/// A method with its name rewritten; everything else untouched.
pub open spec fn method_case(tc: TypeCases, m: crate::model::MethodV) -> crate::model::MethodV {
    crate::model::MethodV {
        name: convert_name(tc, m.name),
        receiver: m.receiver,
        params: m.params,
        ret: m.ret,
        doc: m.doc,
    }
}

/// A trait method signature with its name rewritten.
pub open spec fn sig_case(tc: TypeCases, s: crate::model::SigV) -> crate::model::SigV {
    crate::model::SigV {
        name: convert_name(tc, s.name),
        receiver: s.receiver,
        params: s.params,
        ret: s.ret,
    }
}

/// A class with every method name rewritten; the class name, docs,
/// constructor factory names and parameters are left alone.
pub open spec fn class_case(tc: TypeCases, c: crate::model::ClassV) -> crate::model::ClassV {
    crate::model::ClassV {
        name: c.name,
        doc: c.doc,
        constructors: c.constructors,
        methods: Seq::new(c.methods.len(), |j: int| method_case(tc, c.methods[j])),
    }
}

pub open spec fn trait_case(tc: TypeCases, t: crate::model::TraitV) -> crate::model::TraitV {
    crate::model::TraitV {
        name: t.name,
        doc: t.doc,
        methods: Seq::new(t.methods.len(), |j: int| sig_case(tc, t.methods[j])),
    }
}

pub open spec fn enum_case(tc: TypeCases, e: crate::model::EnumV) -> crate::model::EnumV {
    crate::model::EnumV {
        name: e.name,
        doc: e.doc,
        variants: Seq::new(e.variants.len(), |j: int| convert_name(tc, e.variants[j])),
    }
}

/// The whole model under the casing policy: every method and variant name
/// rewritten, all type names kept.
pub open spec fn model_case(tc: TypeCases, m: crate::model::ModelV) -> crate::model::ModelV {
    crate::model::ModelV {
        classes: Seq::new(m.classes.len(), |i: int| class_case(tc, m.classes[i])),
        traits: Seq::new(m.traits.len(), |i: int| trait_case(tc, m.traits[i])),
        enums: Seq::new(m.enums.len(), |i: int| enum_case(tc, m.enums[i])),
    }
}

fn method_case_exec(tc: TypeCases, m: crate::model::Method) -> (r: crate::model::Method)
    ensures
        r.deep_view() == method_case(tc, m.deep_view()),
{
    let new_name = convert_string(tc, &m.name);
    let crate::model::Method { name: _, receiver, params, ret, doc } = m;
    crate::model::Method { name: new_name, receiver, params, ret, doc }
}

fn sig_case_exec(tc: TypeCases, s: crate::model::Sig) -> (r: crate::model::Sig)
    ensures
        r.deep_view() == sig_case(tc, s.deep_view()),
{
    let new_name = convert_string(tc, &s.name);
    let crate::model::Sig { name: _, receiver, params, ret } = s;
    crate::model::Sig { name: new_name, receiver, params, ret }
}

fn class_case_exec(tc: TypeCases, c: crate::model::ClassDef) -> (r: crate::model::ClassDef)
    ensures
        r.deep_view() == class_case(tc, c.deep_view()),
{
    let crate::model::ClassDef { name, doc, constructors, mut methods } = c;
    let ghost orig = methods.deep_view();
    let ghost target = Seq::new(orig.len(), |ix: int| method_case(tc, orig[ix]));
    let orig_len = methods.len();
    let mut out_new: Vec<crate::model::Method> = Vec::new();
    proof {
        assert(out_new.deep_view() =~= target.take(0));
    }
    let mut j: usize = 0;
    while methods.len() > 0
        invariant
            j <= orig_len,
            orig_len == orig.len(),
            methods.deep_view() =~= orig.skip(j as int),
            out_new.deep_view() =~= target.take(j as int),
            target == Seq::new(orig.len(), |ix: int| method_case(tc, orig[ix])),
        decreases methods@.len(),
    {
        let ghost pre = methods.deep_view();
        let ghost pre_vec = methods@;
        let m = methods.remove(0);
        proof {
            assert(pre.len() == orig.len() - j);
            assert(pre_vec.remove(0) =~= pre_vec.skip(1));
            assert(methods.deep_view() =~= pre.skip(1));
            assert(orig.skip(j as int)[0] == orig[j as int]);
            assert(m.deep_view() == pre[0]);
            assert(m.deep_view() == orig[j as int]);
            assert(methods.deep_view() =~= orig.skip(j as int + 1));
        }
        let ghost prev = out_new.deep_view();
        let conv = method_case_exec(tc, m);
        let ghost convdv = conv.deep_view();
        out_new.push(conv);
        proof {
            assert(out_new.deep_view() =~= prev.push(convdv));
            assert(convdv == target[j as int]);
            assert(out_new.deep_view() =~= target.take(j as int + 1));
        }
        j += 1;
    }
    proof {
        assert(out_new.deep_view() =~= target);
    }
    crate::model::ClassDef { name, doc, constructors, methods: out_new }
}

fn trait_case_exec(tc: TypeCases, t: crate::model::TraitDef) -> (r: crate::model::TraitDef)
    ensures
        r.deep_view() == trait_case(tc, t.deep_view()),
{
    let crate::model::TraitDef { name, doc, mut methods } = t;
    let ghost orig = methods.deep_view();
    let ghost target = Seq::new(orig.len(), |ix: int| sig_case(tc, orig[ix]));
    let orig_len = methods.len();
    let mut out_new: Vec<crate::model::Sig> = Vec::new();
    proof {
        assert(out_new.deep_view() =~= target.take(0));
    }
    let mut j: usize = 0;
    while methods.len() > 0
        invariant
            j <= orig_len,
            orig_len == orig.len(),
            methods.deep_view() =~= orig.skip(j as int),
            out_new.deep_view() =~= target.take(j as int),
            target == Seq::new(orig.len(), |ix: int| sig_case(tc, orig[ix])),
        decreases methods@.len(),
    {
        let ghost pre = methods.deep_view();
        let ghost pre_vec = methods@;
        let s = methods.remove(0);
        proof {
            assert(pre.len() == orig.len() - j);
            assert(pre_vec.remove(0) =~= pre_vec.skip(1));
            assert(methods.deep_view() =~= pre.skip(1));
            assert(orig.skip(j as int)[0] == orig[j as int]);
            assert(s.deep_view() == pre[0]);
            assert(s.deep_view() == orig[j as int]);
            assert(methods.deep_view() =~= orig.skip(j as int + 1));
        }
        let ghost prev = out_new.deep_view();
        let conv = sig_case_exec(tc, s);
        let ghost convdv = conv.deep_view();
        out_new.push(conv);
        proof {
            assert(out_new.deep_view() =~= prev.push(convdv));
            assert(convdv == target[j as int]);
            assert(out_new.deep_view() =~= target.take(j as int + 1));
        }
        j += 1;
    }
    proof {
        assert(out_new.deep_view() =~= target);
    }
    crate::model::TraitDef { name, doc, methods: out_new }
}

fn enum_case_exec(tc: TypeCases, e: crate::model::EnumDef) -> (r: crate::model::EnumDef)
    ensures
        r.deep_view() == enum_case(tc, e.deep_view()),
{
    let crate::model::EnumDef { name, doc, mut variants } = e;
    let ghost orig = variants.deep_view();
    let ghost target = Seq::new(orig.len(), |ix: int| convert_name(tc, orig[ix]));
    let orig_len = variants.len();
    let mut out_new: Vec<String> = Vec::new();
    proof {
        assert(out_new.deep_view() =~= target.take(0));
    }
    let mut j: usize = 0;
    while variants.len() > 0
        invariant
            j <= orig_len,
            orig_len == orig.len(),
            variants.deep_view() =~= orig.skip(j as int),
            out_new.deep_view() =~= target.take(j as int),
            target == Seq::new(orig.len(), |ix: int| convert_name(tc, orig[ix])),
        decreases variants@.len(),
    {
        let ghost pre = variants.deep_view();
        let ghost pre_vec = variants@;
        let v = variants.remove(0);
        proof {
            assert(pre.len() == orig.len() - j);
            assert(pre_vec.remove(0) =~= pre_vec.skip(1));
            assert(variants.deep_view() =~= pre.skip(1));
            assert(orig.skip(j as int)[0] == orig[j as int]);
            assert(v.deep_view() == pre[0]);
            assert(v.deep_view() == orig[j as int]);
            assert(variants.deep_view() =~= orig.skip(j as int + 1));
        }
        let ghost prev = out_new.deep_view();
        let conv = convert_string(tc, &v);
        let ghost convdv = conv@;
        out_new.push(conv);
        proof {
            assert(out_new.deep_view() =~= prev.push(convdv));
            assert(convdv == target[j as int]);
            assert(out_new.deep_view() =~= target.take(j as int + 1));
        }
        j += 1;
    }
    proof {
        assert(out_new.deep_view() =~= target);
    }
    crate::model::EnumDef { name, doc, variants: out_new }
}

/// Rewrite every method and variant name in the model under the policy.
pub fn model_case_exec(tc: TypeCases, m: crate::model::InterfaceModel) -> (r:
    crate::model::InterfaceModel)
    ensures
        r.deep_view() == model_case(tc, m.deep_view()),
{
    let crate::model::InterfaceModel { mut classes, mut traits, mut enums } = m;
    let ghost orig_c = classes.deep_view();
    let ghost target_c = Seq::new(orig_c.len(), |ix: int| class_case(tc, orig_c[ix]));
    let orig_len = classes.len();
    let mut out_new: Vec<crate::model::ClassDef> = Vec::new();
    proof {
        assert(out_new.deep_view() =~= target_c.take(0));
    }
    let mut j: usize = 0;
    while classes.len() > 0
        invariant
            j <= orig_len,
            orig_len == orig_c.len(),
            classes.deep_view() =~= orig_c.skip(j as int),
            out_new.deep_view() =~= target_c.take(j as int),
            target_c == Seq::new(orig_c.len(), |ix: int| class_case(tc, orig_c[ix])),
        decreases classes@.len(),
    {
        let ghost pre = classes.deep_view();
        let ghost pre_vec = classes@;
        let c = classes.remove(0);
        proof {
            assert(pre.len() == orig_c.len() - j);
            assert(pre_vec.remove(0) =~= pre_vec.skip(1));
            assert(classes.deep_view() =~= pre.skip(1));
            assert(orig_c.skip(j as int)[0] == orig_c[j as int]);
            assert(c.deep_view() == pre[0]);
            assert(c.deep_view() == orig_c[j as int]);
            assert(classes.deep_view() =~= orig_c.skip(j as int + 1));
        }
        let ghost prev = out_new.deep_view();
        let conv = class_case_exec(tc, c);
        let ghost convdv = conv.deep_view();
        out_new.push(conv);
        proof {
            assert(out_new.deep_view() =~= prev.push(convdv));
            assert(convdv == target_c[j as int]);
            assert(out_new.deep_view() =~= target_c.take(j as int + 1));
        }
        j += 1;
    }
    proof {
        assert(out_new.deep_view() =~= target_c);
    }
    let out_c = out_new;
    let ghost orig_t = traits.deep_view();
    let ghost target_t = Seq::new(orig_t.len(), |ix: int| trait_case(tc, orig_t[ix]));
    let orig_len = traits.len();
    let mut out_new: Vec<crate::model::TraitDef> = Vec::new();
    proof {
        assert(out_new.deep_view() =~= target_t.take(0));
    }
    let mut k: usize = 0;
    while traits.len() > 0
        invariant
            k <= orig_len,
            orig_len == orig_t.len(),
            traits.deep_view() =~= orig_t.skip(k as int),
            out_new.deep_view() =~= target_t.take(k as int),
            target_t == Seq::new(orig_t.len(), |ix: int| trait_case(tc, orig_t[ix])),
        decreases traits@.len(),
    {
        let ghost pre = traits.deep_view();
        let ghost pre_vec = traits@;
        let t = traits.remove(0);
        proof {
            assert(pre.len() == orig_t.len() - k);
            assert(pre_vec.remove(0) =~= pre_vec.skip(1));
            assert(traits.deep_view() =~= pre.skip(1));
            assert(orig_t.skip(k as int)[0] == orig_t[k as int]);
            assert(t.deep_view() == pre[0]);
            assert(t.deep_view() == orig_t[k as int]);
            assert(traits.deep_view() =~= orig_t.skip(k as int + 1));
        }
        let ghost prev = out_new.deep_view();
        let conv = trait_case_exec(tc, t);
        let ghost convdv = conv.deep_view();
        out_new.push(conv);
        proof {
            assert(out_new.deep_view() =~= prev.push(convdv));
            assert(convdv == target_t[k as int]);
            assert(out_new.deep_view() =~= target_t.take(k as int + 1));
        }
        k += 1;
    }
    proof {
        assert(out_new.deep_view() =~= target_t);
    }
    let out_t = out_new;
    let ghost orig_e = enums.deep_view();
    let ghost target_e = Seq::new(orig_e.len(), |ix: int| enum_case(tc, orig_e[ix]));
    let orig_len = enums.len();
    let mut out_new: Vec<crate::model::EnumDef> = Vec::new();
    proof {
        assert(out_new.deep_view() =~= target_e.take(0));
    }
    let mut q: usize = 0;
    while enums.len() > 0
        invariant
            q <= orig_len,
            orig_len == orig_e.len(),
            enums.deep_view() =~= orig_e.skip(q as int),
            out_new.deep_view() =~= target_e.take(q as int),
            target_e == Seq::new(orig_e.len(), |ix: int| enum_case(tc, orig_e[ix])),
        decreases enums@.len(),
    {
        let ghost pre = enums.deep_view();
        let ghost pre_vec = enums@;
        let e = enums.remove(0);
        proof {
            assert(pre.len() == orig_e.len() - q);
            assert(pre_vec.remove(0) =~= pre_vec.skip(1));
            assert(enums.deep_view() =~= pre.skip(1));
            assert(orig_e.skip(q as int)[0] == orig_e[q as int]);
            assert(e.deep_view() == pre[0]);
            assert(e.deep_view() == orig_e[q as int]);
            assert(enums.deep_view() =~= orig_e.skip(q as int + 1));
        }
        let ghost prev = out_new.deep_view();
        let conv = enum_case_exec(tc, e);
        let ghost convdv = conv.deep_view();
        out_new.push(conv);
        proof {
            assert(out_new.deep_view() =~= prev.push(convdv));
            assert(convdv == target_e[q as int]);
            assert(out_new.deep_view() =~= target_e.take(q as int + 1));
        }
        q += 1;
    }
    proof {
        assert(out_new.deep_view() =~= target_e);
    }
    let out_e = out_new;
    crate::model::InterfaceModel { classes: out_c, traits: out_t, enums: out_e }
}

/// Casing law: no policy ever alters a class, trait or enum type name.
pub proof fn lemma_case_keeps_type_names(tc: TypeCases, m: crate::model::ModelV)
    ensures
        model_case(tc, m).classes.len() == m.classes.len(),
        forall|i: int|
            0 <= i < m.classes.len() ==> model_case(tc, m).classes[i].name == m.classes[i].name,
        model_case(tc, m).traits.len() == m.traits.len(),
        forall|i: int|
            0 <= i < m.traits.len() ==> model_case(tc, m).traits[i].name == m.traits[i].name,
        model_case(tc, m).enums.len() == m.enums.len(),
        forall|i: int|
            0 <= i < m.enums.len() ==> model_case(tc, m).enums[i].name == m.enums[i].name,
{
}

/// Casing law: the camelCase form of any identifier contains no underscore.
pub proof fn lemma_camel_no_underscore(s: Seq<char>)
    ensures
        forall|k: int| 0 <= k < to_camel(s).len() ==> to_camel(s)[k] != '_',
    decreases s.len(),
{
    if s.len() > 0 {
        lemma_camel_no_underscore(s.drop_last());
        let pre = to_camel(s.drop_last());
        let piece = camel_piece(s, s.len() - 1);
        assert forall|k: int| 0 <= k < to_camel(s).len() implies to_camel(s)[k] != '_' by {
            if k < pre.len() {
                assert(to_camel(s)[k] == pre[k]);
            } else {
                assert(to_camel(s)[k] == piece[k - pre.len()]);
            }
        }
    }
}

/// Casing law: the snake_case form of any identifier contains no upper-case
/// ASCII letter.
pub proof fn lemma_snake_no_upper(s: Seq<char>)
    ensures
        forall|k: int| 0 <= k < to_snake(s).len() ==> !is_upper(to_snake(s)[k]),
    decreases s.len(),
{
    if s.len() > 0 {
        lemma_snake_no_upper(s.drop_last());
        let pre = to_snake(s.drop_last());
        let piece = snake_piece(s, s.len() - 1);
        assert forall|k: int| 0 <= k < to_snake(s).len() implies !is_upper(to_snake(s)[k]) by {
            if k < pre.len() {
                assert(to_snake(s)[k] == pre[k]);
            } else {
                assert(to_snake(s)[k] == piece[k - pre.len()]);
            }
        }
    }
}

/// Casing law, word boundaries: camelCase drops a trailing underscore, and a
/// character standing after an underscore re-joins capitalized — so
/// underscore-separated words fuse with each subsequent word upper-cased.
pub proof fn lemma_camel_word_boundary(x: Seq<char>, c: char)
    ensures
        to_camel(x.push('_')) == to_camel(x),
        c != '_' ==> to_camel(x.push('_').push(c)) == to_camel(x) + seq![upper_of(c)],
{
    let y = x.push('_');
    assert(y.drop_last() =~= x);
    assert(to_camel(y) =~= to_camel(x));
    if c != '_' {
        let z = y.push(c);
        assert(z.drop_last() =~= y);
        assert(z[z.len() - 2] == '_');
        assert(to_camel(z) =~= to_camel(x) + seq![upper_of(c)]);
    }
}

/// Casing law, word boundaries: snake_case splits before an upper-case
/// letter, re-joining the words with an underscore and the letter lowered.
pub proof fn lemma_snake_word_boundary(x: Seq<char>, c: char)
    requires
        x.len() > 0,
        is_upper(c),
    ensures
        to_snake(x.push(c)) == to_snake(x) + seq!['_', lower_of(c)],
{
    let z = x.push(c);
    assert(z.drop_last() =~= x);
    assert(to_snake(z) =~= to_snake(x) + seq!['_', lower_of(c)]);
}

/// Casing law: under the `Default` policy every identifier is untouched.
pub proof fn lemma_default_case_identity(s: Seq<char>)
    ensures
        convert_name(TypeCases::Default, s) == s,
{
}

} // verus!
