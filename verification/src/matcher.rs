//! The annotation matcher: turns a scanned item and its marker into a
//! classification — an exported constructor, method, trait, enum, a doc-only
//! struct, a rejected misuse, or nothing.
use crate::model::Constructor;
use crate::model::CtorV;
use crate::model::EnumDef;
use crate::model::EnumV;
use crate::model::Method;
use crate::model::MethodV;
use crate::model::SelfKind;
use crate::model::TraitDef;
use crate::model::TraitV;
use crate::scanner::Item;
use crate::scanner::ItemV;
use crate::scanner::Marker;
use vstd::prelude::*;

verus! {

/// What one scanned item contributes to the interface model.
pub enum Classif {
    /// No marker, or a marker that does not apply: contributes nothing.
    Ignored,
    /// An exported constructor of the named type.
    CtorC { owner: String, ctor: Constructor },
    /// An exported method of the named type.
    MethodC { owner: String, method: Method },
    /// A doc-marked struct: contributes only its documentation.
    DocOnly { owner: String, doc: Vec<String> },
    /// An exported trait.
    TraitC { tr: TraitDef },
    /// An exported enum.
    EnumC { en: EnumDef },
    /// A misused marker: a constructor marker on a method with a receiver.
    Rejected,
}

pub ghost enum ClassifV {
    Ignored,
    CtorC { owner: Seq<char>, ctor: CtorV },
    MethodC { owner: Seq<char>, method: MethodV },
    DocOnly { owner: Seq<char>, doc: Seq<Seq<char>> },
    TraitC { tr: TraitV },
    EnumC { en: EnumV },
    Rejected,
}

impl DeepView for Classif {
    type V = ClassifV;

    open spec fn deep_view(&self) -> ClassifV {
        match self {
            Classif::Ignored => ClassifV::Ignored,
            Classif::CtorC { owner, ctor } => ClassifV::CtorC {
                owner: owner@,
                ctor: ctor.deep_view(),
            },
            Classif::MethodC { owner, method } => ClassifV::MethodC {
                owner: owner@,
                method: method.deep_view(),
            },
            Classif::DocOnly { owner, doc } => ClassifV::DocOnly {
                owner: owner@,
                doc: doc.deep_view(),
            },
            Classif::TraitC { tr } => ClassifV::TraitC { tr: tr.deep_view() },
            Classif::EnumC { en } => ClassifV::EnumC { en: en.deep_view() },
            Classif::Rejected => ClassifV::Rejected,
        }
    }
}

/// The classification of a scanned item: constructor markers demand a
/// receiver-less function; export markers on functions make methods; doc
/// markers on structs contribute documentation; export markers on traits and
/// enums export them whole; everything else is ignored.
pub open spec fn spec_classify(item: ItemV) -> ClassifV {
    match item {
        ItemV::FnItem { owner, sig, marker, doc } => match marker {
            Some(Marker::ExportConstructor) => {
                if sig.receiver == SelfKind::NoReceiver {
                    ClassifV::CtorC {
                        owner,
                        ctor: CtorV { name: sig.name, params: sig.params, doc },
                    }
                } else {
                    ClassifV::Rejected
                }
            },
            Some(Marker::Export) => ClassifV::MethodC {
                owner,
                method: MethodV {
                    name: sig.name,
                    receiver: sig.receiver,
                    params: sig.params,
                    ret: sig.ret,
                    doc,
                },
            },
            _ => ClassifV::Ignored,
        },
        ItemV::StructItem { name, marker, doc } => {
            if marker == Some(Marker::ExportDoc) {
                ClassifV::DocOnly { owner: name, doc }
            } else {
                ClassifV::Ignored
            }
        },
        ItemV::TraitItem { name, marker, doc, methods } => {
            if marker == Some(Marker::Export) {
                ClassifV::TraitC { tr: TraitV { name, doc, methods } }
            } else {
                ClassifV::Ignored
            }
        },
        ItemV::EnumItem { name, marker, doc, variants } => {
            if marker == Some(Marker::Export) {
                ClassifV::EnumC { en: EnumV { name, doc, variants } }
            } else {
                ClassifV::Ignored
            }
        },
    }
}

pub fn classify(item: Item) -> (c: Classif)
    ensures
        c.deep_view() == spec_classify(item.deep_view()),
{
    match item {
        Item::FnItem { owner, sig, marker, doc } => match marker {
            Some(Marker::ExportConstructor) => {
                if sig.receiver == SelfKind::NoReceiver {
                    Classif::CtorC {
                        owner,
                        ctor: Constructor { name: sig.name, params: sig.params, doc },
                    }
                } else {
                    Classif::Rejected
                }
            },
            Some(Marker::Export) => Classif::MethodC {
                owner,
                method: Method {
                    name: sig.name,
                    receiver: sig.receiver,
                    params: sig.params,
                    ret: sig.ret,
                    doc,
                },
            },
            _ => Classif::Ignored,
        },
        Item::StructItem { name, marker, doc } => {
            if marker == Some(Marker::ExportDoc) {
                Classif::DocOnly { owner: name, doc }
            } else {
                Classif::Ignored
            }
        },
        Item::TraitItem { name, marker, doc, methods } => {
            if marker == Some(Marker::Export) {
                Classif::TraitC { tr: TraitDef { name, doc, methods } }
            } else {
                Classif::Ignored
            }
        },
        Item::EnumItem { name, marker, doc, variants } => {
            if marker == Some(Marker::Export) {
                Classif::EnumC { en: EnumDef { name, doc, variants } }
            } else {
                Classif::Ignored
            }
        },
    }
}

/// Failure law: a constructor marker on a function that takes a receiver is
/// rejected outright — it never classifies as a constructor or a method.
pub proof fn lemma_ctor_with_receiver_rejected(
    owner: Seq<char>,
    sig: crate::model::SigV,
    doc: Seq<Seq<char>>,
)
    requires
        sig.receiver != SelfKind::NoReceiver,
    ensures
        spec_classify(
            ItemV::FnItem { owner, sig, marker: Some(Marker::ExportConstructor), doc },
        ) == ClassifV::Rejected,
{
}

} // verus!
