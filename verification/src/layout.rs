//! What the layout compiler emits: the layout record of an interface and the
//! declarations that go with it.
//!
//! Every generated declaration is generic over one type parameter, the
//! implementer, written `T` throughout.

use vstd::prelude::*;
use crate::syntax::{
    Abi, AbiView, GenericParam, GenericParamView, TraitDef, TraitDefView, TypedArg, TypedArgView,
};

verus! {

/// A reference to the implementer: `&T`, `&mut T`, `&'a T` or `&'a mut T`.
#[derive(Debug, PartialEq, Eq)]
pub struct ThisRef {
    pub lifetime: Option<String>,
    pub mutable: bool,
}

pub struct ThisRefView {
    pub lifetime: Option<Seq<char>>,
    pub mutable: bool,
}

impl DeepView for ThisRef {
    type V = ThisRefView;

    open spec fn deep_view(&self) -> ThisRefView {
        ThisRefView { lifetime: self.lifetime.deep_view(), mutable: self.mutable }
    }
}

/// The type of one parameter of a function pointer.
#[derive(Debug, PartialEq, Eq)]
pub enum ArgType {
    /// The object that the method is called on.
    This(ThisRef),
    /// The type that the method declares for this parameter.
    Given(String),
}

pub enum ArgTypeView {
    This(ThisRefView),
    Given(Seq<char>),
}

impl DeepView for ArgType {
    type V = ArgTypeView;

    open spec fn deep_view(&self) -> ArgTypeView {
        match self {
            ArgType::This(t) => ArgTypeView::This(t.deep_view()),
            ArgType::Given(s) => ArgTypeView::Given(s.deep_view()),
        }
    }
}

/// One parameter of a function pointer: `name: ty`, or `ty` alone.
#[derive(Debug, PartialEq, Eq)]
pub struct BareFnArg {
    pub attrs: Vec<String>,
    pub name: Option<String>,
    pub ty: ArgType,
}

pub struct BareFnArgView {
    pub attrs: Seq<Seq<char>>,
    pub name: Option<Seq<char>>,
    pub ty: ArgTypeView,
}

impl DeepView for BareFnArg {
    type V = BareFnArgView;

    open spec fn deep_view(&self) -> BareFnArgView {
        BareFnArgView {
            attrs: self.attrs.deep_view(),
            name: self.name.deep_view(),
            ty: self.ty.deep_view(),
        }
    }
}

/// A function pointer type:
/// `for<lifetimes> unsafe extern "abi" fn(inputs) -> output`.
#[derive(Debug, PartialEq, Eq)]
pub struct BareFn {
    pub lifetimes: Vec<String>,
    pub unsafety: bool,
    pub abi: Option<Abi>,
    pub inputs: Vec<BareFnArg>,
    pub output: Option<String>,
}

pub struct BareFnView {
    pub lifetimes: Seq<Seq<char>>,
    pub unsafety: bool,
    pub abi: Option<AbiView>,
    pub inputs: Seq<BareFnArgView>,
    pub output: Option<Seq<char>>,
}

impl DeepView for BareFn {
    type V = BareFnView;

    open spec fn deep_view(&self) -> BareFnView {
        BareFnView {
            lifetimes: self.lifetimes.deep_view(),
            unsafety: self.unsafety,
            abi: self.abi.deep_view(),
            inputs: self.inputs.deep_view(),
            output: self.output.deep_view(),
        }
    }
}

impl View for BareFn {
    type V = BareFnView;

    open spec fn view(&self) -> BareFnView {
        self.deep_view()
    }
}

/// The type of one field of a layout record.
#[derive(Debug, PartialEq, Eq)]
pub enum FieldType {
    /// The layout record of the named base interface, for the same `T`.
    BaseLayout(String),
    /// A pointer to the implementation of one method.
    FnPtr(BareFn),
}

pub enum FieldTypeView {
    BaseLayout(Seq<char>),
    FnPtr(BareFnView),
}

impl DeepView for FieldType {
    type V = FieldTypeView;

    open spec fn deep_view(&self) -> FieldTypeView {
        match self {
            FieldType::BaseLayout(b) => FieldTypeView::BaseLayout(b.deep_view()),
            FieldType::FnPtr(f) => FieldTypeView::FnPtr(f.deep_view()),
        }
    }
}

/// One field of a layout record.
#[derive(Debug, PartialEq, Eq)]
pub struct LayoutField {
    pub name: String,
    pub ty: FieldType,
}

pub struct LayoutFieldView {
    pub name: Seq<char>,
    pub ty: FieldTypeView,
}

impl DeepView for LayoutField {
    type V = LayoutFieldView;

    open spec fn deep_view(&self) -> LayoutFieldView {
        LayoutFieldView { name: self.name.deep_view(), ty: self.ty.deep_view() }
    }
}

/// The layout record of an interface: a struct `ident<T: 'static>` with the
/// representation `repr`, as in `#[repr(C)]`, and the fields `fields`. With
/// the representation `C` the fields stand in memory in the order in which
/// they are listed.
#[derive(Debug, PartialEq, Eq)]
pub struct LayoutRecord {
    pub repr: String,
    pub vis: String,
    pub ident: String,
    pub fields: Vec<LayoutField>,
}

pub struct LayoutRecordView {
    pub repr: Seq<char>,
    pub vis: Seq<char>,
    pub ident: Seq<char>,
    pub fields: Seq<LayoutFieldView>,
}

impl DeepView for LayoutRecord {
    type V = LayoutRecordView;

    open spec fn deep_view(&self) -> LayoutRecordView {
        LayoutRecordView {
            repr: self.repr.deep_view(),
            vis: self.vis.deep_view(),
            ident: self.ident.deep_view(),
            fields: self.fields.deep_view(),
        }
    }
}

/// One generated declaration.
#[derive(Debug, PartialEq, Eq)]
pub enum Decl {
    /// The interface itself, bound by `'static` and with every method given
    /// a calling convention.
    Interface(TraitDef),
    /// The layout record.
    Layout(LayoutRecord),
    /// `Clone` for the layout record: a new record made of the listed
    /// fields of the old one, one by one.
    CloneImpl { layout: String, fields: Vec<String> },
    /// `Copy` for the layout record.
    CopyImpl { layout: String },
    /// `Deref` for the layout record, to the layout record of the interface
    /// `target`, its base: a borrow of the base field.
    Deref { layout: String, target: String },
    /// `DerefMut` for the layout record: a mutable borrow of the base field.
    DerefMut { layout: String },
    /// The relation that makes `layout<T>` the layout of `dyn interface`.
    LayoutOf { interface: String, layout: String },
    /// The constant table of an implementer `T` of the interface: a layout
    /// record whose base field, where `base` names an interface, is a copy
    /// of `T`'s constant table for that interface, and whose field for each
    /// listed method is the method that `T` provides for this interface.
    Instance { interface: String, layout: String, base: Option<String>, methods: Vec<String> },
}

pub enum DeclView {
    Interface(TraitDefView),
    Layout(LayoutRecordView),
    CloneImpl { layout: Seq<char>, fields: Seq<Seq<char>> },
    CopyImpl { layout: Seq<char> },
    Deref { layout: Seq<char>, target: Seq<char> },
    DerefMut { layout: Seq<char> },
    LayoutOf { interface: Seq<char>, layout: Seq<char> },
    Instance {
        interface: Seq<char>,
        layout: Seq<char>,
        base: Option<Seq<char>>,
        methods: Seq<Seq<char>>,
    },
}

impl DeepView for Decl {
    type V = DeclView;

    open spec fn deep_view(&self) -> DeclView {
        match self {
            Decl::Interface(t) => DeclView::Interface(t.deep_view()),
            Decl::Layout(l) => DeclView::Layout(l.deep_view()),
            Decl::CloneImpl { layout, fields } => DeclView::CloneImpl {
                layout: layout.deep_view(),
                fields: fields.deep_view(),
            },
            Decl::CopyImpl { layout } => DeclView::CopyImpl { layout: layout.deep_view() },
            Decl::Deref { layout, target } => DeclView::Deref {
                layout: layout.deep_view(),
                target: target.deep_view(),
            },
            Decl::DerefMut { layout } => DeclView::DerefMut { layout: layout.deep_view() },
            Decl::LayoutOf { interface, layout } => DeclView::LayoutOf {
                interface: interface.deep_view(),
                layout: layout.deep_view(),
            },
            Decl::Instance { interface, layout, base, methods } => DeclView::Instance {
                interface: interface.deep_view(),
                layout: layout.deep_view(),
                base: base.deep_view(),
                methods: methods.deep_view(),
            },
        }
    }
}

/// A method of a layout record that calls through one of its fields:
///
/// `pub [unsafe] fn ident<generics>(&self, this: &T, params) -> output`,
/// with the body `(self.ident)(args)`.
#[derive(Debug, PartialEq, Eq)]
pub struct Thunk {
    pub unsafety: bool,
    pub ident: String,
    pub generics: Vec<GenericParam>,
    pub this: ThisRef,
    pub params: Vec<TypedArg>,
    pub output: Option<String>,
    pub args: Vec<String>,
}

pub struct ThunkView {
    pub unsafety: bool,
    pub ident: Seq<char>,
    pub generics: Seq<GenericParamView>,
    pub this: ThisRefView,
    pub params: Seq<TypedArgView>,
    pub output: Option<Seq<char>>,
    pub args: Seq<Seq<char>>,
}

impl DeepView for Thunk {
    type V = ThunkView;

    open spec fn deep_view(&self) -> ThunkView {
        ThunkView {
            unsafety: self.unsafety,
            ident: self.ident.deep_view(),
            generics: self.generics.deep_view(),
            this: self.this.deep_view(),
            params: self.params.deep_view(),
            output: self.output.deep_view(),
            args: self.args.deep_view(),
        }
    }
}

impl View for Thunk {
    type V = ThunkView;

    open spec fn view(&self) -> ThunkView {
        self.deep_view()
    }
}

/// One entry of a table as it stands in memory: a pointer to the
/// implementation of the method `name`.
pub struct Slot {
    pub name: Seq<char>,
    pub ty: BareFnView,
}

/// The entries that one field of a layout record holds: a function pointer
/// is one entry, and the embedded record of the base is the whole table of
/// the base.
pub open spec fn field_slots(field: LayoutFieldView, base_table: Seq<Slot>) -> Seq<Slot> {
    match field.ty {
        FieldTypeView::BaseLayout(_) => base_table,
        FieldTypeView::FnPtr(ty) => seq![Slot { name: field.name, ty }],
    }
}

/// The entries that a run of fields holds, in the order of the fields.
pub open spec fn fields_slots(fields: Seq<LayoutFieldView>, base_table: Seq<Slot>) -> Seq<Slot>
    decreases fields.len(),
{
    if fields.len() == 0 {
        seq![]
    } else {
        fields_slots(fields.drop_last(), base_table) + field_slots(fields.last(), base_table)
    }
}

/// The table of a layout record as it stands in memory, from its first
/// entry to its last, where `base_table` is the table of its base.
pub open spec fn table(record: LayoutRecordView, base_table: Seq<Slot>) -> Seq<Slot> {
    fields_slots(record.fields, base_table)
}

/// The size of a table in bytes, on a machine whose pointers take
/// `pointer_bytes` bytes: its entries stand one after the other.
pub open spec fn table_bytes(slots: Seq<Slot>, pointer_bytes: nat) -> nat {
    slots.len() * pointer_bytes
}

} // verus!
