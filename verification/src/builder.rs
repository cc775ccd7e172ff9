//! The interface-model builder: folds classifications into one model. A class
//! is created lazily the first time its type name is seen and every later
//! contribution for that name lands in the same entry, so one logical class
//! results no matter how many impl blocks or files contributed to it.
use crate::matcher::Classif;
use crate::matcher::ClassifV;
use crate::model::ClassDef;
use crate::model::ClassV;
use crate::model::Constructor;
use crate::model::CtorV;
use crate::model::EnumDef;
use crate::model::InterfaceModel;
use crate::model::MethodV;
use crate::model::ModelV;
use crate::model::TraitDef;
use vstd::prelude::*;

verus! {

/// A condition that aborts the whole run before any output is produced.
#[derive(Debug)]
pub enum FatalError {
    /// A class and a trait or enum share one identifier.
    NameCollision(String),
    /// Two constructors of one class share a factory name.
    DuplicateConstructor(String),
    /// Input files were given and none of them parsed.
    NoParsableInput,
}

pub ghost enum FatalV {
    NameCollision { name: Seq<char> },
    DuplicateConstructor { name: Seq<char> },
    NoParsableInput,
}

impl DeepView for FatalError {
    type V = FatalV;

    open spec fn deep_view(&self) -> FatalV {
        match self {
            FatalError::NameCollision(name) => FatalV::NameCollision { name: name@ },
            FatalError::DuplicateConstructor(name) => FatalV::DuplicateConstructor {
                name: name@,
            },
            FatalError::NoParsableInput => FatalV::NoParsableInput,
        }
    }
}

/// The first class entry carrying this type name, scanning from `i`.
pub open spec fn find_class_from(cs: Seq<ClassV>, i: int, name: Seq<char>) -> Option<int>
    decreases cs.len() - i,
{
    if i < 0 || i >= cs.len() {
        None
    } else if cs[i].name == name {
        Some(i)
    } else {
        find_class_from(cs, i + 1, name)
    }
}

pub proof fn lemma_find_class_bounds(cs: Seq<ClassV>, i: int, name: Seq<char>)
    ensures
        match find_class_from(cs, i, name) {
            Some(k) => i <= k < cs.len() && cs[k].name == name,
            None => true,
        },
    decreases cs.len() - i,
{
    if i < 0 || i >= cs.len() {
    } else if cs[i].name == name {
    } else {
        lemma_find_class_bounds(cs, i + 1, name);
    }
}

pub open spec fn has_trait_named(ts: Seq<crate::model::TraitV>, name: Seq<char>) -> bool {
    exists|k: int| 0 <= k < ts.len() && ts[k].name == name
}

pub open spec fn has_enum_named(es: Seq<crate::model::EnumV>, name: Seq<char>) -> bool {
    exists|k: int| 0 <= k < es.len() && es[k].name == name
}

pub open spec fn has_ctor_named(cs: Seq<CtorV>, name: Seq<char>) -> bool {
    exists|k: int| 0 <= k < cs.len() && cs[k].name == name
}

/// Is the name already taken by an exported trait or enum?
pub open spec fn taken_by_trait_or_enum(m: ModelV, name: Seq<char>) -> bool {
    has_trait_named(m.traits, name) || has_enum_named(m.enums, name)
}

/// One classification folded into the model, or the fatal condition it hits.
pub open spec fn add_classif(m: ModelV, c: ClassifV) -> Result<ModelV, FatalV> {
    match c {
        ClassifV::Ignored => Ok(m),
        ClassifV::Rejected => Ok(m),
        ClassifV::CtorC { owner, ctor } => {
            if taken_by_trait_or_enum(m, owner) {
                Err(FatalV::NameCollision { name: owner })
            } else {
                match find_class_from(m.classes, 0, owner) {
                    None => Ok(
                        ModelV {
                            classes: m.classes.push(
                                ClassV {
                                    name: owner,
                                    doc: Seq::empty(),
                                    constructors: seq![ctor],
                                    methods: Seq::empty(),
                                },
                            ),
                            traits: m.traits,
                            enums: m.enums,
                        },
                    ),
                    Some(i) => {
                        if has_ctor_named(m.classes[i].constructors, ctor.name) {
                            Err(FatalV::DuplicateConstructor { name: ctor.name })
                        } else {
                            Ok(
                                ModelV {
                                    classes: m.classes.update(
                                        i,
                                        ClassV {
                                            name: m.classes[i].name,
                                            doc: m.classes[i].doc,
                                            constructors: m.classes[i].constructors.push(ctor),
                                            methods: m.classes[i].methods,
                                        },
                                    ),
                                    traits: m.traits,
                                    enums: m.enums,
                                },
                            )
                        }
                    },
                }
            }
        },
        ClassifV::MethodC { owner, method } => {
            if taken_by_trait_or_enum(m, owner) {
                Err(FatalV::NameCollision { name: owner })
            } else {
                match find_class_from(m.classes, 0, owner) {
                    None => Ok(
                        ModelV {
                            classes: m.classes.push(
                                ClassV {
                                    name: owner,
                                    doc: Seq::empty(),
                                    constructors: Seq::empty(),
                                    methods: seq![method],
                                },
                            ),
                            traits: m.traits,
                            enums: m.enums,
                        },
                    ),
                    Some(i) => Ok(
                        ModelV {
                            classes: m.classes.update(
                                i,
                                ClassV {
                                    name: m.classes[i].name,
                                    doc: m.classes[i].doc,
                                    constructors: m.classes[i].constructors,
                                    methods: m.classes[i].methods.push(method),
                                },
                            ),
                            traits: m.traits,
                            enums: m.enums,
                        },
                    ),
                }
            }
        },
        ClassifV::DocOnly { owner, doc } => {
            if taken_by_trait_or_enum(m, owner) {
                Err(FatalV::NameCollision { name: owner })
            } else {
                match find_class_from(m.classes, 0, owner) {
                    None => Ok(
                        ModelV {
                            classes: m.classes.push(
                                ClassV {
                                    name: owner,
                                    doc,
                                    constructors: Seq::empty(),
                                    methods: Seq::empty(),
                                },
                            ),
                            traits: m.traits,
                            enums: m.enums,
                        },
                    ),
                    Some(i) => Ok(
                        ModelV {
                            classes: m.classes.update(
                                i,
                                ClassV {
                                    name: m.classes[i].name,
                                    doc,
                                    constructors: m.classes[i].constructors,
                                    methods: m.classes[i].methods,
                                },
                            ),
                            traits: m.traits,
                            enums: m.enums,
                        },
                    ),
                }
            }
        },
        ClassifV::TraitC { tr } => {
            if find_class_from(m.classes, 0, tr.name) is Some {
                Err(FatalV::NameCollision { name: tr.name })
            } else {
                Ok(ModelV { classes: m.classes, traits: m.traits.push(tr), enums: m.enums })
            }
        },
        ClassifV::EnumC { en } => {
            if find_class_from(m.classes, 0, en.name) is Some {
                Err(FatalV::NameCollision { name: en.name })
            } else {
                Ok(ModelV { classes: m.classes, traits: m.traits, enums: m.enums.push(en) })
            }
        },
    }
}

/// Failure law, builder side: a rejected classification contributes nothing
/// to the model.
pub proof fn lemma_rejected_changes_nothing(m: ModelV)
    ensures
        add_classif(m, ClassifV::Rejected) == Ok::<ModelV, FatalV>(m),
{
}

proof fn lemma_find_class_push_aux(cs: Seq<ClassV>, c: ClassV, i: int, name: Seq<char>)
    requires
        0 <= i <= cs.len(),
        find_class_from(cs, i, name) is None,
        c.name == name,
    ensures
        find_class_from(cs.push(c), i, name) == Some(cs.len() as int),
    decreases cs.len() - i,
{
    if i < cs.len() {
        assert(cs.push(c)[i] == cs[i]);
        lemma_find_class_push_aux(cs, c, i + 1, name);
    } else {
        assert(cs.push(c)[i] == c);
    }
}

proof fn lemma_find_class_same_names(cs1: Seq<ClassV>, cs2: Seq<ClassV>, i: int, name: Seq<char>)
    requires
        cs1.len() == cs2.len(),
        forall|k: int| 0 <= k < cs1.len() ==> cs1[k].name == cs2[k].name,
        0 <= i,
    ensures
        find_class_from(cs1, i, name) == find_class_from(cs2, i, name),
    decreases cs1.len() - i,
{
    if i < cs1.len() {
        lemma_find_class_same_names(cs1, cs2, i + 1, name);
    }
}

/// Merge law: two exported methods contributed for one type name — from two
/// impl blocks, possibly in different files — land in one class entry, in
/// contribution order, appended after whatever that class already held.
pub proof fn lemma_methods_merge(m: ModelV, owner: Seq<char>, m1: MethodV, m2: MethodV)
    requires
        !taken_by_trait_or_enum(m, owner),
    ensures
        add_classif(m, ClassifV::MethodC { owner, method: m1 }) is Ok,
        ({
            let mm1 = add_classif(m, ClassifV::MethodC { owner, method: m1 })->Ok_0;
            add_classif(mm1, ClassifV::MethodC { owner, method: m2 }) is Ok
        }),
        ({
            let mm1 = add_classif(m, ClassifV::MethodC { owner, method: m1 })->Ok_0;
            let mm2 = add_classif(mm1, ClassifV::MethodC { owner, method: m2 })->Ok_0;
            let before = match find_class_from(m.classes, 0, owner) {
                Some(i) => m.classes[i].methods,
                None => Seq::<MethodV>::empty(),
            };
            exists|k: int|
                0 <= k < mm2.classes.len() && (#[trigger] mm2.classes[k]).name == owner
                    && mm2.classes[k].methods == before + seq![m1, m2]
        }),
{
    lemma_find_class_bounds(m.classes, 0, owner);
    let mm1 = add_classif(m, ClassifV::MethodC { owner, method: m1 })->Ok_0;
    assert(mm1.traits == m.traits && mm1.enums == m.enums);
    match find_class_from(m.classes, 0, owner) {
        None => {
            let newc = ClassV {
                name: owner,
                doc: Seq::empty(),
                constructors: Seq::empty(),
                methods: seq![m1],
            };
            lemma_find_class_push_aux(m.classes, newc, 0, owner);
            assert(find_class_from(mm1.classes, 0, owner) == Some(m.classes.len() as int));
            let kk = m.classes.len() as int;
            let mm2 = add_classif(mm1, ClassifV::MethodC { owner, method: m2 })->Ok_0;
            assert(mm2.classes[kk].methods =~= Seq::<MethodV>::empty() + seq![m1, m2]);
            assert(0 <= kk < mm2.classes.len() && mm2.classes[kk].name == owner
                && mm2.classes[kk].methods == Seq::<MethodV>::empty() + seq![m1, m2]);
        },
        Some(i) => {
            assert(mm1.classes.len() == m.classes.len());
            assert(forall|k: int|
                0 <= k < m.classes.len() ==> mm1.classes[k].name == m.classes[k].name);
            lemma_find_class_same_names(mm1.classes, m.classes, 0, owner);
            assert(find_class_from(mm1.classes, 0, owner) == Some(i));
            let mm2 = add_classif(mm1, ClassifV::MethodC { owner, method: m2 })->Ok_0;
            assert(mm2.classes[i].methods =~= m.classes[i].methods + seq![m1, m2]);
            assert(0 <= i < mm2.classes.len() && mm2.classes[i].name == owner
                && mm2.classes[i].methods == m.classes[i].methods + seq![m1, m2]);
        },
    }
}

fn find_class_exec(classes: &Vec<ClassDef>, name: &String) -> (r: Option<usize>)
    ensures
        match r {
            Some(k) => find_class_from(classes.deep_view(), 0, name@) == Some(k as int) && k
                < classes@.len(),
            None => find_class_from(classes.deep_view(), 0, name@) is None,
        },
{
    let ghost dv = classes.deep_view();
    let mut i: usize = 0;
    while i < classes.len()
        invariant
            i <= classes@.len(),
            dv == classes.deep_view(),
            find_class_from(dv, 0, name@) == find_class_from(dv, i as int, name@),
        decreases classes@.len() - i,
    {
        if classes[i].name == *name {
            return Some(i);
        }
        i += 1;
    }
    None
}

fn has_trait_exec(ts: &Vec<TraitDef>, name: &String) -> (r: bool)
    ensures
        r == has_trait_named(ts.deep_view(), name@),
{
    let ghost dv = ts.deep_view();
    let mut i: usize = 0;
    while i < ts.len()
        invariant
            i <= ts@.len(),
            dv == ts.deep_view(),
            forall|k: int| 0 <= k < i ==> dv[k].name != name@,
        decreases ts@.len() - i,
    {
        if ts[i].name == *name {
            proof {
                assert(0 <= (i as int) && (i as int) < dv.len() && dv[i as int].name == name@);
            }
            return true;
        }
        i += 1;
    }
    false
}

fn has_enum_exec(es: &Vec<EnumDef>, name: &String) -> (r: bool)
    ensures
        r == has_enum_named(es.deep_view(), name@),
{
    let ghost dv = es.deep_view();
    let mut i: usize = 0;
    while i < es.len()
        invariant
            i <= es@.len(),
            dv == es.deep_view(),
            forall|k: int| 0 <= k < i ==> dv[k].name != name@,
        decreases es@.len() - i,
    {
        if es[i].name == *name {
            proof {
                assert(0 <= (i as int) && (i as int) < dv.len() && dv[i as int].name == name@);
            }
            return true;
        }
        i += 1;
    }
    false
}

fn has_ctor_exec(cs: &Vec<Constructor>, name: &String) -> (r: bool)
    ensures
        r == has_ctor_named(cs.deep_view(), name@),
{
    let ghost dv = cs.deep_view();
    let mut i: usize = 0;
    while i < cs.len()
        invariant
            i <= cs@.len(),
            dv == cs.deep_view(),
            forall|k: int| 0 <= k < i ==> dv[k].name != name@,
        decreases cs@.len() - i,
    {
        if cs[i].name == *name {
            proof {
                assert(0 <= (i as int) && (i as int) < dv.len() && dv[i as int].name == name@);
            }
            return true;
        }
        i += 1;
    }
    false
}

/// Fold one classification into the model.
pub fn apply_classif(m: InterfaceModel, c: Classif) -> (r: Result<InterfaceModel, FatalError>)
    ensures
        match r {
            Ok(m2) => add_classif(m.deep_view(), c.deep_view()) == Ok::<ModelV, FatalV>(
                m2.deep_view(),
            ),
            Err(e) => add_classif(m.deep_view(), c.deep_view()) == Err::<ModelV, FatalV>(
                e.deep_view(),
            ),
        },
{
    match c {
        Classif::Ignored => Ok(m),
        Classif::Rejected => Ok(m),
        Classif::CtorC { owner, ctor } => {
            if has_trait_exec(&m.traits, &owner) || has_enum_exec(&m.enums, &owner) {
                return Err(FatalError::NameCollision(owner));
            }
            match find_class_exec(&m.classes, &owner) {
                None => {
                    let InterfaceModel { mut classes, traits, enums } = m;
                    let ghost prev = classes.deep_view();
                    let ghost cdv = ctor.deep_view();
                    let mut ctors: Vec<Constructor> = Vec::new();
                    ctors.push(ctor);
                    proof {
                        assert(ctors.deep_view() =~= seq![cdv]);
                    }
                    let fresh_doc: Vec<String> = Vec::new();
                    let fresh_methods: Vec<crate::model::Method> = Vec::new();
                    proof {
                        assert(fresh_doc.deep_view() =~= Seq::<Seq<char>>::empty());
                        assert(fresh_methods.deep_view() =~= Seq::<crate::model::MethodV>::empty());
                    }
                    let cls = ClassDef {
                        name: owner,
                        doc: fresh_doc,
                        constructors: ctors,
                        methods: fresh_methods,
                    };
                    let ghost clsdv = cls.deep_view();
                    classes.push(cls);
                    proof {
                        assert(classes.deep_view() =~= prev.push(clsdv));
                    }
                    Ok(InterfaceModel { classes, traits, enums })
                },
                Some(i) => {
                    if has_ctor_exec(&m.classes[i].constructors, &ctor.name) {
                        return Err(FatalError::DuplicateConstructor(ctor.name));
                    }
                    let InterfaceModel { mut classes, traits, enums } = m;
                    let ghost prev = classes.deep_view();
                    let ghost cdv = ctor.deep_view();
                    let mut cls = classes.remove(i);
                    let ghost prev_ctors = cls.constructors.deep_view();
                    cls.constructors.push(ctor);
                    proof {
                        assert(cls.constructors.deep_view() =~= prev_ctors.push(cdv));
                    }
                    let ghost clsdv = cls.deep_view();
                    classes.insert(i, cls);
                    proof {
                        assert(classes.deep_view() =~= prev.update(i as int, clsdv));
                    }
                    Ok(InterfaceModel { classes, traits, enums })
                },
            }
        },
        Classif::MethodC { owner, method } => {
            if has_trait_exec(&m.traits, &owner) || has_enum_exec(&m.enums, &owner) {
                return Err(FatalError::NameCollision(owner));
            }
            match find_class_exec(&m.classes, &owner) {
                None => {
                    let InterfaceModel { mut classes, traits, enums } = m;
                    let ghost prev = classes.deep_view();
                    let ghost mdv2 = method.deep_view();
                    let mut methods: Vec<crate::model::Method> = Vec::new();
                    methods.push(method);
                    proof {
                        assert(methods.deep_view() =~= seq![mdv2]);
                    }
                    let fresh_doc: Vec<String> = Vec::new();
                    let fresh_ctors: Vec<Constructor> = Vec::new();
                    proof {
                        assert(fresh_doc.deep_view() =~= Seq::<Seq<char>>::empty());
                        assert(fresh_ctors.deep_view() =~= Seq::<CtorV>::empty());
                    }
                    let cls = ClassDef {
                        name: owner,
                        doc: fresh_doc,
                        constructors: fresh_ctors,
                        methods,
                    };
                    let ghost clsdv = cls.deep_view();
                    classes.push(cls);
                    proof {
                        assert(classes.deep_view() =~= prev.push(clsdv));
                    }
                    Ok(InterfaceModel { classes, traits, enums })
                },
                Some(i) => {
                    let InterfaceModel { mut classes, traits, enums } = m;
                    let ghost prev = classes.deep_view();
                    let ghost mdv2 = method.deep_view();
                    let mut cls = classes.remove(i);
                    let ghost prev_methods = cls.methods.deep_view();
                    cls.methods.push(method);
                    proof {
                        assert(cls.methods.deep_view() =~= prev_methods.push(mdv2));
                    }
                    let ghost clsdv = cls.deep_view();
                    classes.insert(i, cls);
                    proof {
                        assert(classes.deep_view() =~= prev.update(i as int, clsdv));
                    }
                    Ok(InterfaceModel { classes, traits, enums })
                },
            }
        },
        Classif::DocOnly { owner, doc } => {
            if has_trait_exec(&m.traits, &owner) || has_enum_exec(&m.enums, &owner) {
                return Err(FatalError::NameCollision(owner));
            }
            match find_class_exec(&m.classes, &owner) {
                None => {
                    let InterfaceModel { mut classes, traits, enums } = m;
                    let ghost prev = classes.deep_view();
                    let fresh_ctors: Vec<Constructor> = Vec::new();
                    let fresh_methods: Vec<crate::model::Method> = Vec::new();
                    proof {
                        assert(fresh_ctors.deep_view() =~= Seq::<CtorV>::empty());
                        assert(fresh_methods.deep_view() =~= Seq::<crate::model::MethodV>::empty());
                    }
                    let cls = ClassDef {
                        name: owner,
                        doc,
                        constructors: fresh_ctors,
                        methods: fresh_methods,
                    };
                    let ghost clsdv = cls.deep_view();
                    classes.push(cls);
                    proof {
                        assert(classes.deep_view() =~= prev.push(clsdv));
                    }
                    Ok(InterfaceModel { classes, traits, enums })
                },
                Some(i) => {
                    let InterfaceModel { mut classes, traits, enums } = m;
                    let ghost prev = classes.deep_view();
                    let mut cls = classes.remove(i);
                    cls.doc = doc;
                    let ghost clsdv = cls.deep_view();
                    classes.insert(i, cls);
                    proof {
                        assert(classes.deep_view() =~= prev.update(i as int, clsdv));
                    }
                    Ok(InterfaceModel { classes, traits, enums })
                },
            }
        },
        Classif::TraitC { tr } => {
            if let Some(_i) = find_class_exec(&m.classes, &tr.name) {
                return Err(FatalError::NameCollision(tr.name));
            }
            let InterfaceModel { classes, mut traits, enums } = m;
            let ghost prev = traits.deep_view();
            let ghost tdv = tr.deep_view();
            traits.push(tr);
            proof {
                assert(traits.deep_view() =~= prev.push(tdv));
            }
            Ok(InterfaceModel { classes, traits, enums })
        },
        Classif::EnumC { en } => {
            if let Some(_i) = find_class_exec(&m.classes, &en.name) {
                return Err(FatalError::NameCollision(en.name));
            }
            let InterfaceModel { classes, traits, mut enums } = m;
            let ghost prev = enums.deep_view();
            let ghost edv = en.deep_view();
            enums.push(en);
            proof {
                assert(enums.deep_view() =~= prev.push(edv));
            }
            Ok(InterfaceModel { classes, traits, enums })
        },
    }
}

} // verus!
