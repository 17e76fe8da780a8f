//! What holds of every interface that the layout compiler accepts, and of
//! the declarations that it emits for it.

use vstd::prelude::*;
use crate::compile::{
    base_of, expansion, has_ref_receiver, layout_of, method_names, normalized, valid_interface,
    with_abi,
};
use crate::layout::{
    fields_slots, field_slots, table, table_bytes, ArgTypeView, DeclView, FieldTypeView,
    LayoutFieldView, Slot, ThisRefView,
};
use crate::syntax::{AbiView, SignatureView, TraitDefView};

verus! {

/// Whether a field of a layout record mirrors a method. The field has the
/// name of the method and is a function pointer with a calling convention:
/// the one that the method names, else `extern "C"`. The pointer takes as many
/// parameters as the method; the first, in place of `self`, is a reference
/// to the implementer, mutable where `self` is and with its lifetime, and
/// each parameter after it has the type that the method gives it.
pub open spec fn field_mirrors_method(field: LayoutFieldView, sig: SignatureView) -> bool {
    &&& field.name == sig.ident
    &&& field.ty is FnPtr
    &&& field.ty->FnPtr_0.abi == Some(
        match sig.abi {
            Some(abi) => abi,
            None => AbiView { name: Some("C"@) },
        },
    )
    &&& field.ty->FnPtr_0.unsafety == sig.unsafety
    &&& field.ty->FnPtr_0.output == sig.output
    &&& field.ty->FnPtr_0.inputs.len() == sig.inputs.len()
    &&& field.ty->FnPtr_0.inputs[0].ty == ArgTypeView::This(
        ThisRefView {
            lifetime: sig.inputs[0]->Receiver_0.lifetime,
            mutable: sig.inputs[0]->Receiver_0.mutable,
        },
    )
    &&& forall|j: int|
        0 <= j < sig.inputs.len() && sig.inputs[j] is Typed ==> (
        #[trigger] field.ty->FnPtr_0.inputs[j]).ty == ArgTypeView::Given(sig.inputs[j]->Typed_0.ty)
}

/// The layout record of a valid interface without a base has exactly one
/// field for each method, in the order of the methods, and each field
/// mirrors its method.
pub proof fn lemma_layout_mirrors_methods(t: TraitDefView)
    requires
        valid_interface(t),
        base_of(t) is None,
    ensures
        layout_of(t).fields.len() == t.items.len(),
        forall|i: int|
            0 <= i < t.items.len() ==> field_mirrors_method(
                #[trigger] layout_of(t).fields[i],
                t.items[i]->Fn_0.sig,
            ),
{
    assert forall|i: int| 0 <= i < t.items.len() implies field_mirrors_method(
        #[trigger] layout_of(t).fields[i],
        t.items[i]->Fn_0.sig,
    ) by {
        assert(t.items[i] is Fn);
        assert(has_ref_receiver(t.items[i]->Fn_0.sig));
        assert(normalized(t).items[i] == with_abi(t.items[i], "C"@));
    }
}

/// The table of a valid interface that has a base begins with the
/// table of that base, entry for entry, and goes on with one entry for each
/// method of its own, in their order. So it is at least as long as the table
/// of the base, in entries and in bytes.
pub proof fn lemma_derived_table_extends_base(
    base: TraitDefView,
    derived: TraitDefView,
    root_table: Seq<Slot>,
    pointer_bytes: nat,
)
    requires
        valid_interface(base),
        valid_interface(derived),
        base_of(derived) == Some(base.ident),
    ensures
        ({
            let base_table = table(layout_of(base), root_table);
            let derived_table = table(layout_of(derived), base_table);
            &&& derived_table.len() == base_table.len() + derived.items.len()
            &&& derived_table.subrange(0, base_table.len() as int) == base_table
            &&& forall|i: int|
                0 <= i < derived.items.len() ==> (#[trigger] derived_table[base_table.len() + i]).name
                    == derived.items[i]->Fn_0.sig.ident
            &&& table_bytes(derived_table, pointer_bytes) >= table_bytes(base_table, pointer_bytes)
        }),
{
    let base_table = table(layout_of(base), root_table);
    let fields = layout_of(derived).fields;
    let derived_table = table(layout_of(derived), base_table);
    assert(fields.len() == derived.items.len() + 1);
    assert(fields[0].ty is BaseLayout);
    assert forall|i: int| 1 <= i < fields.len() implies (#[trigger] fields[i]).ty is FnPtr by {
        assert(derived.items[i - 1] is Fn);
    }
    lemma_fields_after_base(fields, base_table, fields.len() as int);
    assert(fields.take(fields.len() as int) =~= fields);
    assert(derived_table.subrange(0, base_table.len() as int) =~= base_table);
    assert forall|i: int| 0 <= i < derived.items.len() implies (#[trigger] derived_table[
        base_table.len() + i]).name == derived.items[i]->Fn_0.sig.ident by {
        assert(fields[i + 1].name == derived.items[i]->Fn_0.sig.ident);
    }
    assert(table_bytes(derived_table, pointer_bytes) >= table_bytes(base_table, pointer_bytes))
        by (nonlinear_arith)
        requires
            derived_table.len() >= base_table.len(),
            table_bytes(derived_table, pointer_bytes) == derived_table.len() * pointer_bytes,
            table_bytes(base_table, pointer_bytes) == base_table.len() * pointer_bytes,
    ;
}

/// A run of fields that begins with the base field and goes on with
/// function pointers holds the table of the base and then one entry for each
/// function pointer.
proof fn lemma_fields_after_base(fields: Seq<LayoutFieldView>, base_table: Seq<Slot>, n: int)
    requires
        1 <= n <= fields.len(),
        fields[0].ty is BaseLayout,
        forall|i: int| 1 <= i < fields.len() ==> (#[trigger] fields[i]).ty is FnPtr,
    ensures
        fields_slots(fields.take(n), base_table).len() == base_table.len() + n - 1,
        forall|i: int|
            0 <= i < base_table.len() ==> fields_slots(fields.take(n), base_table)[i]
                == base_table[i],
        forall|j: int|
            0 <= j < n - 1 ==> (#[trigger] fields_slots(fields.take(n), base_table)[base_table.len()
                + j]).name == fields[j + 1].name,
    decreases n,
{
    let run = fields.take(n);
    assert(run.last() == fields[n - 1]);
    assert(run.drop_last() =~= fields.take(n - 1));
    if n == 1 {
        assert(fields_slots(run.drop_last(), base_table) =~= seq![]);
        assert(fields_slots(run, base_table) =~= base_table);
    } else {
        lemma_fields_after_base(fields, base_table, n - 1);
        assert(field_slots(run.last(), base_table).len() == 1);
    }
}

/// The declarations of a valid interface fit together: the record is
/// named after the interface, and the fields that `Clone` copies and that
/// the constant table fills are the fields of the record, in their order:
/// the base field, where there is a base, from the constant table of the
/// base, and each field after it from the implementer's method of the same
/// name.
pub proof fn lemma_instance_fills_every_field(t: TraitDefView)
    requires
        valid_interface(t),
    ensures
        ({
            let n = expansion(t).len();
            let names = layout_of(t).fields.map_values(|f: LayoutFieldView| f.name);
            let own = match base_of(t) {
                Some(_) => names.skip(1),
                None => names,
            };
            &&& n == if base_of(t) is Some { 8int } else { 6int }
            &&& expansion(t)[0] == DeclView::Interface(normalized(t))
            &&& expansion(t)[1] == DeclView::Layout(layout_of(t))
            &&& expansion(t)[2] == DeclView::CloneImpl { layout: layout_of(t).ident, fields: names }
            &&& expansion(t)[n - 1] == DeclView::Instance {
                interface: t.ident,
                layout: layout_of(t).ident,
                base: base_of(t),
                methods: own,
            }
            &&& (base_of(t) is Some ==> layout_of(t).fields[0].ty == FieldTypeView::BaseLayout(
                base_of(t).unwrap(),
            ))
        }),
{
    let names = layout_of(t).fields.map_values(|f: LayoutFieldView| f.name);
    if base_of(t) is Some {
        assert(names.skip(1) =~= method_names(t));
    } else {
        assert(names =~= method_names(t));
    }
}

} // verus!
