//! The layout compiler: from the description of an interface to its layout
//! record and the declarations around it.

use vstd::prelude::*;
use vstd::string::StringExecFns;
use crate::error::{ErrorKind, VtableError, VtableErrorView};
use crate::layout::{
    ArgType, ArgTypeView, BareFn, BareFnArg, BareFnArgView, BareFnView, Decl, DeclView, FieldType,
    FieldTypeView, LayoutField, LayoutFieldView, LayoutRecord, LayoutRecordView, ThisRef,
    ThisRefView, Thunk, ThunkView,
};
use crate::syntax::{
    Abi, AbiView, Bound, BoundView, FnArg, FnArgView, GenericParam, GenericParamView, Pattern,
    PatternView, Signature, SignatureView, TraitDef, TraitDefView, TraitFn, TraitFnView,
    TraitItem, TraitItemView, TypedArg,
};

verus! {

/// Whether a method begins with `&self` or `&mut self`.
pub open spec fn has_ref_receiver(sig: SignatureView) -> bool {
    &&& sig.inputs.len() > 0
    &&& sig.inputs[0] is Receiver
    &&& sig.inputs[0]->Receiver_0.reference
}

/// The lifetime parameters among the generic parameters, in their order.
pub open spec fn lifetimes_of(generics: Seq<GenericParamView>) -> Seq<Seq<char>> {
    generics.filter(|g: GenericParamView| g is Lifetime).map_values(
        |g: GenericParamView| g->Lifetime_0,
    )
}

/// The parameter of a function pointer that stands for a parameter of a
/// method. `self` becomes `this`, a reference to the implementer with the
/// lifetime and the mutability of `self`. Any other parameter keeps its
/// attributes and its type, and its name where its pattern is a plain name.
pub open spec fn bare_arg(arg: FnArgView) -> BareFnArgView {
    match arg {
        FnArgView::Receiver(r) => BareFnArgView {
            attrs: r.attrs,
            name: Some("this"@),
            ty: ArgTypeView::This(ThisRefView { lifetime: r.lifetime, mutable: r.mutable }),
        },
        FnArgView::Typed(t) => BareFnArgView {
            attrs: t.attrs,
            name: match t.pat {
                PatternView::Ident(name) => Some(name),
                PatternView::Other(_) => None,
            },
            ty: ArgTypeView::Given(t.ty),
        },
    }
}

/// The function pointer type that mirrors a method: the same lifetimes,
/// unsafety, calling convention and return type, and the same parameters in
/// the same order, each as [`bare_arg`] gives it.
pub open spec fn bare_fn(fun: TraitFnView) -> BareFnView {
    BareFnView {
        lifetimes: lifetimes_of(fun.sig.generics),
        unsafety: fun.sig.unsafety,
        abi: fun.sig.abi,
        inputs: fun.sig.inputs.map_values(|arg: FnArgView| bare_arg(arg)),
        output: fun.sig.output,
    }
}

/// The rejection of a method that has no `&self` or `&mut self`.
pub open spec fn missing_receiver(sig: SignatureView) -> VtableErrorView {
    VtableErrorView { kind: ErrorKind::MissingRefReceiver, name: sig.ident }
}

fn lifetime_params(generics: &Vec<GenericParam>) -> (r: Vec<String>)
    ensures
        r.deep_view() == lifetimes_of(generics.deep_view()),
{
    let ghost is_lifetime = |g: GenericParamView| g is Lifetime;
    let ghost name = |g: GenericParamView| g->Lifetime_0;
    let mut out: Vec<String> = Vec::new();
    let n = generics.len();
    let mut i: usize = 0;
    assert(generics.deep_view().take(0) =~= Seq::<GenericParamView>::empty());
    assert(out.deep_view() =~= Seq::<GenericParamView>::empty().filter(is_lifetime).map_values(
        name,
    ));
    while i < n
        invariant
            i <= n,
            n == generics.len(),
            is_lifetime == |g: GenericParamView| g is Lifetime,
            name == |g: GenericParamView| g->Lifetime_0,
            out.deep_view() == generics.deep_view().take(i as int).filter(is_lifetime).map_values(
                name,
            ),
        decreases n - i,
    {
        let ghost before = generics.deep_view().take(i as int);
        let ghost after = generics.deep_view().take(i as int + 1);
        let ghost kept = out.deep_view();
        proof {
            assert(after.drop_last() =~= before);
            assert(after.last() == generics[i as int].deep_view());
            reveal(Seq::filter);
        }
        match &generics[i] {
            GenericParam::Lifetime(lt) => {
                out.push(lt.clone());
                assert(out.deep_view() =~= after.filter(is_lifetime).map_values(name)) by {
                    assert(after.filter(is_lifetime) == before.filter(is_lifetime).push(
                        after.last(),
                    ));
                    assert(out.deep_view() =~= kept.push(lt.deep_view()));
                }
            },
            _ => {
                assert(after.filter(is_lifetime) == before.filter(is_lifetime));
            },
        }
        i += 1;
    }
    assert(generics.deep_view().take(n as int) =~= generics.deep_view());
    out
}

fn bare_fn_arg(arg: &FnArg) -> (r: BareFnArg)
    ensures
        r.deep_view() == bare_arg(arg.deep_view()),
{
    match arg {
        FnArg::Receiver(recv) => {
            let attrs = recv.attrs.clone();
            assert(attrs.deep_view() =~= recv.attrs.deep_view());
            BareFnArg {
                attrs,
                name: Some("this".to_owned()),
                ty: ArgType::This(ThisRef { lifetime: recv.lifetime.clone(), mutable: recv.mutable }),
            }
        },
        FnArg::Typed(typed) => {
            let attrs = typed.attrs.clone();
            assert(attrs.deep_view() =~= typed.attrs.deep_view());
            BareFnArg {
                attrs,
                name: match &typed.pat {
                    Pattern::Ident(name) => Some(name.clone()),
                    Pattern::Other(_) => None,
                },
                ty: ArgType::Given(typed.ty.clone()),
            }
        },
    }
}

/// Whether a method begins with `&self` or `&mut self`.
fn begins_with_ref_receiver(inputs: &Vec<FnArg>) -> (r: bool)
    ensures
        r == (inputs.len() > 0 && inputs[0].deep_view() is Receiver
            && inputs[0].deep_view()->Receiver_0.reference),
{
    if inputs.len() == 0 {
        false
    } else {
        match &inputs[0] {
            FnArg::Receiver(recv) => recv.reference,
            FnArg::Typed(_) => false,
        }
    }
}

/// The function pointer type for one method of an interface.
///
/// A method that does not begin with `&self` or `&mut self` is rejected,
/// under its own name.
pub fn trait_fn_to_bare_fn(fun: &TraitFn) -> (r: Result<BareFn, VtableError>)
    ensures
        match r {
            Ok(bare) => has_ref_receiver(fun@.sig) && bare@ == bare_fn(fun@),
            Err(e) => !has_ref_receiver(fun@.sig) && e@ == missing_receiver(fun@.sig),
        },
{
    if !begins_with_ref_receiver(&fun.sig.inputs) {
        return Err(VtableError { kind: ErrorKind::MissingRefReceiver, name: fun.sig.ident.clone() });
    }
    let lifetimes = lifetime_params(&fun.sig.generics);
    let mut inputs: Vec<BareFnArg> = Vec::new();
    let n = fun.sig.inputs.len();
    let mut i: usize = 0;
    while i < n
        invariant
            i <= n,
            n == fun.sig.inputs.len(),
            inputs.len() == i,
            forall|j: int|
                0 <= j < i ==> (#[trigger] inputs[j]).deep_view() == bare_arg(
                    fun.sig.inputs[j].deep_view(),
                ),
        decreases n - i,
    {
        inputs.push(bare_fn_arg(&fun.sig.inputs[i]));
        i += 1;
    }
    assert(inputs.deep_view() =~= bare_fn(fun@).inputs);
    Ok(
        BareFn {
            lifetimes,
            unsafety: fun.sig.unsafety,
            abi: fun.sig.abi.clone(),
            inputs,
            output: fun.sig.output.clone(),
        },
    )
}

/// Whether a parameter is written `name: ty`, with a plain name.
pub open spec fn is_named(arg: FnArgView) -> bool {
    arg is Typed && arg->Typed_0.pat is Ident
}

/// Whether a method can be called through a thunk: it begins with `&self` or
/// `&mut self`, and each of its other parameters has a plain name to pass on.
pub open spec fn thunkable(sig: SignatureView) -> bool {
    &&& has_ref_receiver(sig)
    &&& forall|i: int| 1 <= i < sig.inputs.len() ==> is_named(#[trigger] sig.inputs[i])
}

/// The thunk for a method: it has the method's unsafety, name, generic
/// parameters and return type. After `&self`, the layout record, it takes
/// `this`, a reference to the implementer with the lifetime and mutability
/// of the method's `self`, and then the method's other parameters. It passes
/// `this` and those parameters, by their names and in their order, to the
/// function pointer in the field named like the method.
pub open spec fn thunk_of(sig: SignatureView) -> ThunkView {
    let receiver = sig.inputs[0]->Receiver_0;
    let others = sig.inputs.skip(1);
    ThunkView {
        unsafety: sig.unsafety,
        ident: sig.ident,
        generics: sig.generics,
        this: ThisRefView { lifetime: receiver.lifetime, mutable: receiver.mutable },
        params: others.map_values(|arg: FnArgView| arg->Typed_0),
        output: sig.output,
        args: seq!["this"@] + others.map_values(|arg: FnArgView| arg->Typed_0.pat->Ident_0),
    }
}

/// The thunk that calls a method through its field of the layout record, or
/// `None` for a method that is not [`thunkable`].
pub fn sig_to_vtable_thunk(sig: &Signature) -> (r: Option<Thunk>)
    ensures
        match r {
            Some(thunk) => thunkable(sig@) && thunk@ == thunk_of(sig@),
            None => !thunkable(sig@),
        },
{
    if !begins_with_ref_receiver(&sig.inputs) {
        return None;
    }
    let this = match &sig.inputs[0] {
        FnArg::Receiver(recv) => ThisRef { lifetime: recv.lifetime.clone(), mutable: recv.mutable },
        FnArg::Typed(_) => {
            return None;
        },
    };
    let mut params: Vec<TypedArg> = Vec::new();
    let mut args: Vec<String> = Vec::new();
    args.push("this".to_owned());
    let n = sig.inputs.len();
    let mut i: usize = 1;
    while i < n
        invariant
            1 <= i <= n,
            n == sig.inputs.len(),
            params.len() == i - 1,
            args.len() == i,
            args[0]@ == "this"@,
            forall|j: int| 1 <= j < i ==> is_named(#[trigger] sig@.inputs[j]),
            forall|k: int|
                0 <= k < i - 1 ==> (#[trigger] params[k]).deep_view() == sig@.inputs[k
                    + 1]->Typed_0,
            forall|j: int|
                1 <= j < i ==> (#[trigger] args[j]).deep_view()
                    == sig@.inputs[j]->Typed_0.pat->Ident_0,
        decreases n - i,
    {
        match &sig.inputs[i] {
            FnArg::Typed(typed) => {
                match &typed.pat {
                    Pattern::Ident(name) => {
                        params.push(typed.clone());
                        args.push(name.clone());
                    },
                    Pattern::Other(_) => {
                        assert(!is_named(sig@.inputs[i as int]));
                        return None;
                    },
                }
            },
            FnArg::Receiver(_) => {
                assert(!is_named(sig@.inputs[i as int]));
                return None;
            },
        }
        i += 1;
    }
    let generics = sig.generics.clone();
    proof {
        assert(generics.deep_view() =~= sig@.generics);
        assert(params.deep_view() =~= thunk_of(sig@).params);
        assert(args.deep_view() =~= thunk_of(sig@).args);
    }
    Some(
        Thunk {
            unsafety: sig.unsafety,
            ident: sig.ident.clone(),
            generics,
            this,
            params,
            output: sig.output.clone(),
            args,
        },
    )
}

/// The first rule on the shape of a trait that a declaration breaks, if it
/// breaks one: no generic parameters, neither `auto` nor `unsafe`, at most
/// one bound, at least one item. Parameters that stand in a `<..>` list are
/// reported as [`ErrorKind::Lifetime`], parameters without such a list as
/// [`ErrorKind::GenericParams`]; an empty list holds no parameter and breaks
/// no rule.
pub open spec fn shape_error(t: TraitDefView) -> Option<ErrorKind> {
    if t.angle_brackets && t.generics.len() > 0 {
        Some(ErrorKind::Lifetime)
    } else if t.generics.len() > 0 {
        Some(ErrorKind::GenericParams)
    } else if t.auto_token {
        Some(ErrorKind::Auto)
    } else if t.unsafety {
        Some(ErrorKind::Unsafe)
    } else if t.supertraits.len() > 1 {
        Some(ErrorKind::MultipleSupertraits)
    } else if t.items.len() == 0 {
        Some(ErrorKind::NoFunctions)
    } else {
        None
    }
}

/// The rejection of a trait for breaking a rule.
pub open spec fn rejected(t: TraitDefView, kind: ErrorKind) -> VtableErrorView {
    VtableErrorView { kind, name: t.ident }
}

/// Holds a trait declaration to the rules on its shape, in the order of
/// [`shape_error`], and rejects it for the first that it breaks.
pub fn check_restrictions(trait_def: &TraitDef) -> (r: Result<(), VtableError>)
    ensures
        match r {
            Ok(_) => shape_error(trait_def@) is None,
            Err(e) => shape_error(trait_def@) is Some && e@ == rejected(
                trait_def@,
                shape_error(trait_def@).unwrap(),
            ),
        },
{
    let broken = if trait_def.angle_brackets && trait_def.generics.len() > 0 {
        Some(ErrorKind::Lifetime)
    } else if trait_def.generics.len() > 0 {
        Some(ErrorKind::GenericParams)
    } else if trait_def.auto_token {
        Some(ErrorKind::Auto)
    } else if trait_def.unsafety {
        Some(ErrorKind::Unsafe)
    } else if trait_def.supertraits.len() > 1 {
        Some(ErrorKind::MultipleSupertraits)
    } else if trait_def.items.len() == 0 {
        Some(ErrorKind::NoFunctions)
    } else {
        None
    };
    match broken {
        Some(kind) => Err(VtableError { kind, name: trait_def.ident.clone() }),
        None => Ok(()),
    }
}

/// The base interface of a trait: its first bound, where that is a trait.
pub open spec fn base_of(t: TraitDefView) -> Option<Seq<char>> {
    if t.supertraits.len() > 0 && t.supertraits[0] is Trait {
        Some(t.supertraits[0]->Trait_0)
    } else {
        None
    }
}

/// Whether a trait has a first bound that is not a trait.
pub open spec fn base_is_malformed(t: TraitDefView) -> bool {
    t.supertraits.len() > 0 && !(t.supertraits[0] is Trait)
}

/// The base interface of a trait, if it has one. A trait whose first bound
/// is anything but a trait is rejected.
pub fn extract_base_trait(trait_def: &TraitDef) -> (r: Result<Option<String>, VtableError>)
    ensures
        match r {
            Ok(base) => !base_is_malformed(trait_def@) && base.deep_view() == base_of(trait_def@),
            Err(e) => base_is_malformed(trait_def@) && e@ == rejected(
                trait_def@,
                ErrorKind::BaseNotTrait,
            ),
        },
{
    if trait_def.supertraits.len() == 0 {
        Ok(None)
    } else {
        match &trait_def.supertraits[0] {
            Bound::Trait(base) => Ok(Some(base.clone())),
            _ => Err(VtableError { kind: ErrorKind::BaseNotTrait, name: trait_def.ident.clone() }),
        }
    }
}

/// Whether every item is a method.
pub open spec fn only_functions(items: Seq<TraitItemView>) -> bool {
    forall|i: int| 0 <= i < items.len() ==> (#[trigger] items[i]) is Fn
}

/// An item with its calling convention settled: a method that names none
/// gets `extern "abi"`. One that has `extern`, with or without a name, is
/// left as it is, and so is an item that is no method.
pub open spec fn with_abi(item: TraitItemView, abi: Seq<char>) -> TraitItemView {
    match item {
        TraitItemView::Fn(f) => TraitItemView::Fn(
            TraitFnView {
                sig: SignatureView {
                    abi: Some(
                        match f.sig.abi {
                            Some(given) => given,
                            None => AbiView { name: Some(abi) },
                        },
                    ),
                    ..f.sig
                },
                ..f
            },
        ),
        other => other,
    }
}

/// A trait with the calling convention of every method settled by
/// [`with_abi`], and nothing else changed.
pub open spec fn with_method_abis(t: TraitDefView, abi: Seq<char>) -> TraitDefView {
    TraitDefView { items: t.items.map_values(|item: TraitItemView| with_abi(item, abi)), ..t }
}

fn all_functions(items: &Vec<TraitItem>) -> (r: bool)
    ensures
        r == only_functions(items.deep_view()),
{
    let n = items.len();
    let mut i: usize = 0;
    while i < n
        invariant
            i <= n,
            n == items.len(),
            forall|j: int| 0 <= j < i ==> (#[trigger] items.deep_view()[j]) is Fn,
        decreases n - i,
    {
        match &items[i] {
            TraitItem::Fn(_) => {},
            _ => {
                assert(!(items.deep_view()[i as int] is Fn));
                return false;
            },
        }
        i += 1;
    }
    true
}

/// Gives every method that names no calling convention the convention
/// `abi`. A trait that holds anything but methods is rejected, and left as
/// it was.
pub fn set_method_abis(trait_def: &mut TraitDef, abi: &str) -> (r: Result<(), VtableError>)
    ensures
        match r {
            Ok(_) => only_functions(old(trait_def)@.items) && final(trait_def)@
                == with_method_abis(old(trait_def)@, abi@),
            Err(e) => !only_functions(old(trait_def)@.items) && e@ == rejected(
                old(trait_def)@,
                ErrorKind::NonFunctionItem,
            ) && *final(trait_def) == *old(trait_def),
        },
{
    if !all_functions(&trait_def.items) {
        return Err(
            VtableError { kind: ErrorKind::NonFunctionItem, name: trait_def.ident.clone() },
        );
    }
    let n = trait_def.items.len();
    let mut i: usize = 0;
    while i < n
        invariant
            i <= n,
            n == trait_def.items.len(),
            n == old(trait_def).items.len(),
            trait_def.vis == old(trait_def).vis,
            trait_def.unsafety == old(trait_def).unsafety,
            trait_def.auto_token == old(trait_def).auto_token,
            trait_def.ident == old(trait_def).ident,
            trait_def.angle_brackets == old(trait_def).angle_brackets,
            trait_def.generics == old(trait_def).generics,
            trait_def.supertraits == old(trait_def).supertraits,
            forall|j: int|
                0 <= j < i ==> (#[trigger] trait_def.items[j]).deep_view() == with_abi(
                    old(trait_def).items[j].deep_view(),
                    abi@,
                ),
            forall|j: int| i <= j < n ==> trait_def.items[j] == old(trait_def).items[j],
        decreases n - i,
    {
        match &mut trait_def.items[i] {
            TraitItem::Fn(fun) => {
                if fun.sig.abi.is_none() {
                    fun.sig.abi = Some(Abi { name: Some(abi.to_owned()) });
                }
            },
            _ => {},
        }
        i += 1;
    }
    assert(trait_def@.items =~= with_method_abis(old(trait_def)@, abi@).items);
    Ok(())
}

/// The name of the first method, in the order of the items, that does not
/// begin with `&self` or `&mut self`.
pub open spec fn first_missing_receiver(items: Seq<TraitItemView>) -> Option<Seq<char>>
    decreases items.len(),
{
    if items.len() == 0 {
        None
    } else if items[0] is Fn && !has_ref_receiver(items[0]->Fn_0.sig) {
        Some(items[0]->Fn_0.sig.ident)
    } else {
        first_missing_receiver(items.drop_first())
    }
}

/// Whether a trait is an interface that the layout compiler accepts: it has
/// no generic parameters, is neither `auto` nor `unsafe`, has at most one
/// bound and that bound is a trait, and holds at least one item and nothing
/// but methods that begin with `&self` or `&mut self`.
pub open spec fn valid_interface(t: TraitDefView) -> bool {
    &&& t.generics.len() == 0
    &&& !t.auto_token
    &&& !t.unsafety
    &&& t.supertraits.len() <= 1
    &&& (t.supertraits.len() == 1 ==> t.supertraits[0] is Trait)
    &&& t.items.len() >= 1
    &&& forall|i: int|
        0 <= i < t.items.len() ==> (#[trigger] t.items[i]) is Fn && has_ref_receiver(
            t.items[i]->Fn_0.sig,
        )
}

/// Why an interface is rejected, if it is: for the first rule on its shape
/// that it breaks; else for a first bound that is no trait; else for an item
/// that is no method; else for its first method without `&self` or
/// `&mut self`, under the name of that method.
pub open spec fn rejection(t: TraitDefView) -> Option<VtableErrorView> {
    if shape_error(t) is Some {
        Some(rejected(t, shape_error(t).unwrap()))
    } else if base_is_malformed(t) {
        Some(rejected(t, ErrorKind::BaseNotTrait))
    } else if !only_functions(t.items) {
        Some(rejected(t, ErrorKind::NonFunctionItem))
    } else if first_missing_receiver(t.items) is Some {
        Some(
            VtableErrorView {
                kind: ErrorKind::MissingRefReceiver,
                name: first_missing_receiver(t.items).unwrap(),
            },
        )
    } else {
        None
    }
}

/// The interface as it is emitted: bound by `'static` after its own bounds,
/// and with every method that names no calling convention given `extern "C"`.
pub open spec fn normalized(t: TraitDefView) -> TraitDefView {
    with_method_abis(
        TraitDefView { supertraits: t.supertraits.push(BoundView::Lifetime("'static"@)), ..t },
        "C"@,
    )
}

/// The name of the layout record of an interface.
pub open spec fn layout_ident(t: TraitDefView) -> Seq<char> {
    t.ident + "Layout"@
}

/// The field of a layout record that embeds the layout record of the base
/// interface.
pub open spec fn base_field(base: Seq<char>) -> LayoutFieldView {
    LayoutFieldView { name: "_base"@, ty: FieldTypeView::BaseLayout(base) }
}

/// The field of a layout record for a method: it has the name of the method
/// and the function pointer type that mirrors it.
pub open spec fn fn_field(fun: TraitFnView) -> LayoutFieldView {
    LayoutFieldView { name: fun.sig.ident, ty: FieldTypeView::FnPtr(bare_fn(fun)) }
}

/// The names of the methods of an interface, in their order.
pub open spec fn method_names(t: TraitDefView) -> Seq<Seq<char>> {
    t.items.map_values(|item: TraitItemView| item->Fn_0.sig.ident)
}

/// The layout record of an interface that is not rejected: in the
/// representation `C` and as visible as the interface; first the base field,
/// if the interface has a base; then one field for each method, in the order
/// of the methods.
pub open spec fn layout_of(t: TraitDefView) -> LayoutRecordView {
    LayoutRecordView {
        repr: "C"@,
        vis: t.vis,
        ident: layout_ident(t),
        fields: match base_of(t) {
            Some(base) => seq![base_field(base)],
            None => seq![],
        } + normalized(t).items.map_values(|item: TraitItemView| fn_field(item->Fn_0)),
    }
}

/// The declarations emitted for an interface that is not rejected, in their
/// order: the interface, its layout record, `Clone` and `Copy` for the
/// record, `Deref` and `DerefMut` to the base where there is one, the
/// relation between interface and record, and the constant table of an
/// implementer.
pub open spec fn expansion(t: TraitDefView) -> Seq<DeclView> {
    let layout = layout_of(t);
    seq![
        DeclView::Interface(normalized(t)),
        DeclView::Layout(layout),
        DeclView::CloneImpl {
            layout: layout.ident,
            fields: layout.fields.map_values(|f: LayoutFieldView| f.name),
        },
        DeclView::CopyImpl { layout: layout.ident },
    ] + match base_of(t) {
        Some(base) => seq![
            DeclView::Deref { layout: layout.ident, target: base },
            DeclView::DerefMut { layout: layout.ident },
        ],
        None => seq![],
    } + seq![
        DeclView::LayoutOf { interface: t.ident, layout: layout.ident },
        DeclView::Instance {
            interface: t.ident,
            layout: layout.ident,
            base: base_of(t),
            methods: method_names(t),
        },
    ]
}

/// The fields of a layout record for the methods of an interface, and the
/// names of those methods.
fn method_fields(items: &Vec<TraitItem>) -> (r: Result<(Vec<LayoutField>, Vec<String>), VtableError>)
    requires
        only_functions(items.deep_view()),
    ensures
        match r {
            Ok((fields, names)) => {
                &&& first_missing_receiver(items.deep_view()) is None
                &&& fields.deep_view() == items.deep_view().map_values(
                    |item: TraitItemView| fn_field(item->Fn_0),
                )
                &&& names.deep_view() == items.deep_view().map_values(
                    |item: TraitItemView| item->Fn_0.sig.ident,
                )
            },
            Err(e) => {
                &&& first_missing_receiver(items.deep_view()) is Some
                &&& e@ == VtableErrorView {
                    kind: ErrorKind::MissingRefReceiver,
                    name: first_missing_receiver(items.deep_view()).unwrap(),
                }
            },
        },
{
    let mut fields: Vec<LayoutField> = Vec::new();
    let mut names: Vec<String> = Vec::new();
    let n = items.len();
    let mut i: usize = 0;
    assert(items.deep_view().skip(0) =~= items.deep_view());
    while i < n
        invariant
            i <= n,
            n == items.len(),
            only_functions(items.deep_view()),
            fields.len() == i,
            names.len() == i,
            first_missing_receiver(items.deep_view()) == first_missing_receiver(
                items.deep_view().skip(i as int),
            ),
            forall|j: int|
                0 <= j < i ==> (#[trigger] fields[j]).deep_view() == fn_field(
                    items.deep_view()[j]->Fn_0,
                ),
            forall|j: int|
                0 <= j < i ==> (#[trigger] names[j]).deep_view()
                    == items.deep_view()[j]->Fn_0.sig.ident,
        decreases n - i,
    {
        let ghost rest = items.deep_view().skip(i as int);
        proof {
            assert(rest[0] == items.deep_view()[i as int]);
            assert(rest.drop_first() =~= items.deep_view().skip(i as int + 1));
            assert(items.deep_view()[i as int] is Fn);
        }
        match &items[i] {
            TraitItem::Fn(fun) => {
                match trait_fn_to_bare_fn(fun) {
                    Ok(bare) => {
                        fields.push(
                            LayoutField { name: fun.sig.ident.clone(), ty: FieldType::FnPtr(bare) },
                        );
                        names.push(fun.sig.ident.clone());
                    },
                    Err(e) => {
                        return Err(e);
                    },
                }
            },
            _ => {},
        }
        i += 1;
    }
    assert(items.deep_view().skip(n as int) =~= Seq::<TraitItemView>::empty());
    assert(fields.deep_view() =~= items.deep_view().map_values(
        |item: TraitItemView| fn_field(item->Fn_0),
    ));
    assert(names.deep_view() =~= items.deep_view().map_values(
        |item: TraitItemView| item->Fn_0.sig.ident,
    ));
    Ok((fields, names))
}

/// Compiles the description of an interface into the declarations of its
/// vtable.
///
/// A [`valid_interface`] is compiled, and the result is [`expansion`]: the
/// declarations, in their order. Any other is rejected for the first rule
/// that it breaks, in the order of [`rejection`], and nothing is emitted for
/// it.
pub fn vtable(item: TraitDef) -> (r: Result<Vec<Decl>, VtableError>)
    ensures
        r is Ok <==> valid_interface(item@),
        match r {
            Ok(decls) => rejection(item@) is None && decls.deep_view() == expansion(item@),
            Err(e) => rejection(item@) == Some(e@),
        },
{
    proof {
        lemma_rejected_iff_invalid(item@);
    }
    let mut trait_def = item;
    check_restrictions(&trait_def)?;
    let base = extract_base_trait(&trait_def)?;
    trait_def.supertraits.push(Bound::Lifetime("'static".to_owned()));
    set_method_abis(&mut trait_def, "C")?;
    proof {
        assert(trait_def@.supertraits =~= normalized(item@).supertraits);
        assert(trait_def@ == normalized(item@));
        lemma_abi_keeps_receivers(item@.items, "C"@);
    }
    let (method_fields, methods) = method_fields(&trait_def.items)?;
    let mut layout_name = trait_def.ident.clone();
    layout_name.append("Layout");

    let mut fields: Vec<LayoutField> = Vec::new();
    let mut field_names: Vec<String> = Vec::new();
    match &base {
        Some(b) => {
            fields.push(LayoutField { name: "_base".to_owned(), ty: FieldType::BaseLayout(b.clone()) });
            field_names.push("_base".to_owned());
        },
        None => {},
    }
    let mut method_fields = method_fields;
    let mut own_names = methods.clone();
    assert(own_names.deep_view() =~= methods.deep_view());
    fields.append(&mut method_fields);
    field_names.append(&mut own_names);
    let layout = LayoutRecord {
        repr: "C".to_owned(),
        vis: trait_def.vis.clone(),
        ident: layout_name.clone(),
        fields,
    };
    proof {
        assert(layout.fields.deep_view() =~= layout_of(item@).fields);
        assert(layout.deep_view() == layout_of(item@));
        assert(methods.deep_view() =~= method_names(item@));
        let shift = if base is Some { 1int } else { 0int };
        assert forall|j: int| 0 <= j < field_names.len() implies field_names.deep_view()[j]
            == layout_of(item@).fields[j].name by {
            if j >= shift {
                assert(field_names[j] == methods[j - shift]);
                assert(field_names.deep_view()[j] == methods.deep_view()[j - shift]);
            }
        }
        assert(field_names.deep_view() =~= layout_of(item@).fields.map_values(
            |f: LayoutFieldView| f.name,
        ));
    }
    let interface = trait_def.ident.clone();
    let mut decls: Vec<Decl> = Vec::new();
    decls.push(Decl::Interface(trait_def));
    decls.push(Decl::Layout(layout));
    decls.push(Decl::CloneImpl { layout: layout_name.clone(), fields: field_names });
    decls.push(Decl::CopyImpl { layout: layout_name.clone() });
    match &base {
        Some(b) => {
            decls.push(Decl::Deref { layout: layout_name.clone(), target: b.clone() });
            decls.push(Decl::DerefMut { layout: layout_name.clone() });
        },
        None => {},
    }
    decls.push(Decl::LayoutOf { interface: interface.clone(), layout: layout_name.clone() });
    decls.push(Decl::Instance { interface, layout: layout_name, base, methods });
    assert(decls.deep_view() =~= expansion(item@));
    Ok(decls)
}

/// Settling the calling conventions changes neither which items are
/// methods nor which method is the first without `&self` or `&mut self`.
proof fn lemma_abi_keeps_receivers(items: Seq<TraitItemView>, abi: Seq<char>)
    ensures
        only_functions(items.map_values(|item: TraitItemView| with_abi(item, abi)))
            == only_functions(items),
        first_missing_receiver(items.map_values(|item: TraitItemView| with_abi(item, abi)))
            == first_missing_receiver(items),
    decreases items.len(),
{
    let set = |item: TraitItemView| with_abi(item, abi);
    let after = items.map_values(set);
    if only_functions(items) {
        assert forall|i: int| 0 <= i < after.len() implies (#[trigger] after[i]) is Fn by {
            assert(items[i] is Fn);
        }
    } else {
        let i = choose|i: int| 0 <= i < items.len() && !((#[trigger] items[i]) is Fn);
        assert(!(after[i] is Fn));
    }
    if items.len() > 0 {
        lemma_abi_keeps_receivers(items.drop_first(), abi);
        assert(after.drop_first() =~= items.drop_first().map_values(set));
    }
}

/// Among methods, none is the first without `&self` or `&mut self` exactly
/// when all begin with one of them.
proof fn lemma_no_missing_receiver(items: Seq<TraitItemView>)
    requires
        only_functions(items),
    ensures
        first_missing_receiver(items) is None <==> forall|i: int|
            0 <= i < items.len() ==> has_ref_receiver((#[trigger] items[i])->Fn_0.sig),
    decreases items.len(),
{
    if items.len() > 0 {
        let rest = items.drop_first();
        assert(items[0] is Fn);
        assert forall|i: int| 0 <= i < rest.len() implies (#[trigger] rest[i]) is Fn by {
            assert(rest[i] == items[i + 1]);
        }
        lemma_no_missing_receiver(rest);
        if first_missing_receiver(items) is None {
            assert forall|i: int| 0 <= i < items.len() implies has_ref_receiver(
                (#[trigger] items[i])->Fn_0.sig,
            ) by {
                if i > 0 {
                    assert(items[i] == rest[i - 1]);
                }
            }
        } else if has_ref_receiver(items[0]->Fn_0.sig) {
            let i = choose|i: int|
                0 <= i < rest.len() && !has_ref_receiver((#[trigger] rest[i])->Fn_0.sig);
            assert(items[i + 1] == rest[i]);
        }
    }
}

/// An interface is rejected exactly when it is not a [`valid_interface`].
pub proof fn lemma_rejected_iff_invalid(t: TraitDefView)
    ensures
        rejection(t) is None <==> valid_interface(t),
{
    if only_functions(t.items) {
        lemma_no_missing_receiver(t.items);
    }
}

} // verus!
