//! The interface model: the classes, traits and enums gathered from the
//! scanned sources, together with spec-level mirrors (`...V` types) that the
//! contracts are stated over.
use vstd::prelude::*;

verus! {

/// How a method receives its `self` argument.
#[derive(Copy, Clone, PartialEq, Eq, Structural, Debug)]
pub enum SelfKind {
    /// No receiver: a static/associated function.
    NoReceiver,
    /// `self`, taken by value.
    ByValue,
    /// `&self`.
    ByRef,
    /// `&mut self`.
    ByMutRef,
}

impl DeepView for SelfKind {
    type V = SelfKind;

    open spec fn deep_view(&self) -> SelfKind {
        *self
    }
}

/// One parameter of a signature: its written name (possibly empty) and its
/// textual type, exactly as in the source.
pub struct Param {
    pub name: String,
    pub ty: String,
}

pub ghost struct ParamV {
    pub name: Seq<char>,
    pub ty: Seq<char>,
}

impl DeepView for Param {
    type V = ParamV;

    open spec fn deep_view(&self) -> ParamV {
        ParamV { name: self.name@, ty: self.ty@ }
    }
}

/// A parsed function signature: name, receiver form, parameters, and the
/// optional textual return type.
pub struct Sig {
    pub name: String,
    pub receiver: SelfKind,
    pub params: Vec<Param>,
    pub ret: Option<String>,
}

pub ghost struct SigV {
    pub name: Seq<char>,
    pub receiver: SelfKind,
    pub params: Seq<ParamV>,
    pub ret: Option<Seq<char>>,
}

impl DeepView for Sig {
    type V = SigV;

    open spec fn deep_view(&self) -> SigV {
        SigV {
            name: self.name@,
            receiver: self.receiver,
            params: self.params.deep_view(),
            ret: self.ret.deep_view(),
        }
    }
}

/// An exported method of a class.
pub struct Method {
    pub name: String,
    pub receiver: SelfKind,
    pub params: Vec<Param>,
    pub ret: Option<String>,
    pub doc: Vec<String>,
}

pub ghost struct MethodV {
    pub name: Seq<char>,
    pub receiver: SelfKind,
    pub params: Seq<ParamV>,
    pub ret: Option<Seq<char>>,
    pub doc: Seq<Seq<char>>,
}

impl DeepView for Method {
    type V = MethodV;

    open spec fn deep_view(&self) -> MethodV {
        MethodV {
            name: self.name@,
            receiver: self.receiver,
            params: self.params.deep_view(),
            ret: self.ret.deep_view(),
            doc: self.doc.deep_view(),
        }
    }
}

/// An exported constructor: a factory function returning the owning type.
pub struct Constructor {
    pub name: String,
    pub params: Vec<Param>,
    pub doc: Vec<String>,
}

pub ghost struct CtorV {
    pub name: Seq<char>,
    pub params: Seq<ParamV>,
    pub doc: Seq<Seq<char>>,
}

impl DeepView for Constructor {
    type V = CtorV;

    open spec fn deep_view(&self) -> CtorV {
        CtorV { name: self.name@, params: self.params.deep_view(), doc: self.doc.deep_view() }
    }
}

/// One exported class: every constructor and method contributed for one type
/// name, with the documentation of its doc-marked struct declaration.
pub struct ClassDef {
    pub name: String,
    pub doc: Vec<String>,
    pub constructors: Vec<Constructor>,
    pub methods: Vec<Method>,
}

pub ghost struct ClassV {
    pub name: Seq<char>,
    pub doc: Seq<Seq<char>>,
    pub constructors: Seq<CtorV>,
    pub methods: Seq<MethodV>,
}

impl DeepView for ClassDef {
    type V = ClassV;

    open spec fn deep_view(&self) -> ClassV {
        ClassV {
            name: self.name@,
            doc: self.doc.deep_view(),
            constructors: self.constructors.deep_view(),
            methods: self.methods.deep_view(),
        }
    }
}

/// An exported trait: its name, documentation, and every method signature.
pub struct TraitDef {
    pub name: String,
    pub doc: Vec<String>,
    pub methods: Vec<Sig>,
}

pub ghost struct TraitV {
    pub name: Seq<char>,
    pub doc: Seq<Seq<char>>,
    pub methods: Seq<SigV>,
}

impl DeepView for TraitDef {
    type V = TraitV;

    open spec fn deep_view(&self) -> TraitV {
        TraitV { name: self.name@, doc: self.doc.deep_view(), methods: self.methods.deep_view() }
    }
}

/// An exported enum: its name, documentation, and variant names.
pub struct EnumDef {
    pub name: String,
    pub doc: Vec<String>,
    pub variants: Vec<String>,
}

pub ghost struct EnumV {
    pub name: Seq<char>,
    pub doc: Seq<Seq<char>>,
    pub variants: Seq<Seq<char>>,
}

impl DeepView for EnumDef {
    type V = EnumV;

    open spec fn deep_view(&self) -> EnumV {
        EnumV { name: self.name@, doc: self.doc.deep_view(), variants: self.variants.deep_view() }
    }
}

/// The whole gathered interface: classes, traits and enums, each list in
/// first-encountered order.
pub struct InterfaceModel {
    pub classes: Vec<ClassDef>,
    pub traits: Vec<TraitDef>,
    pub enums: Vec<EnumDef>,
}

pub ghost struct ModelV {
    pub classes: Seq<ClassV>,
    pub traits: Seq<TraitV>,
    pub enums: Seq<EnumV>,
}

impl DeepView for InterfaceModel {
    type V = ModelV;

    open spec fn deep_view(&self) -> ModelV {
        ModelV {
            classes: self.classes.deep_view(),
            traits: self.traits.deep_view(),
            enums: self.enums.deep_view(),
        }
    }
}

/// The model with no exported entries at all.
pub open spec fn empty_model() -> ModelV {
    ModelV { classes: Seq::empty(), traits: Seq::empty(), enums: Seq::empty() }
}

} // verus!
