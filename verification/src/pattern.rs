//! Patterns over a variant's fields, and the arguments that go with them.

use std::collections::HashSet;
use vstd::prelude::*;
use vstd::string::StringExecFns;
use crate::plan::{Argument, ArgumentView, Binding, BindingView, Pattern, PatternView};
use crate::syntax::{lemma_pushed, Fields, FieldsView, NamedField, NamedFieldView};
use crate::text::{contains, copy, decimal, decimal_text};

verus! {

/// The name under which the field at a position is bound: `value0`, `value1`
/// and so on.
pub open spec fn position_name(position: nat) -> Seq<char> {
    "value"@ + decimal_text(position)
}

/// The name under which a named field is bound where nothing reads it: the
/// field's name after an underscore.
pub open spec fn unused_name(field: Seq<char>) -> Seq<char> {
    "_"@ + field
}

/// The name under which the field at a position is bound.
pub fn positional_name(position: usize) -> (r: String)
    ensures
        r@ == position_name(position as nat),
{
    String::from_str("value").concat(decimal(position).as_str())
}

/// The pattern that binds every field by reference: named fields under their own
/// names, the fields of a tuple under their position names.
pub open spec fn all_bound(fields: FieldsView) -> PatternView {
    match fields {
        FieldsView::Named(named) => PatternView::Struct(
            Seq::new(named.len(), |i: int| BindingView::Ref(named[i].ident)),
        ),
        FieldsView::Unnamed(types) => PatternView::Tuple(
            Seq::new(types.len(), |i: int| BindingView::Ref(position_name(i as nat))),
        ),
        FieldsView::Unit => PatternView::Unit,
    }
}

/// The pattern that binds no field.
pub open spec fn none_bound(fields: FieldsView) -> PatternView {
    match fields {
        FieldsView::Named(_) => PatternView::StructRest,
        FieldsView::Unnamed(_) => PatternView::TupleRest,
        FieldsView::Unit => PatternView::Unit,
    }
}

/// The names that `all_bound` binds, in the order of the fields.
pub open spec fn all_names(fields: FieldsView) -> Seq<Seq<char>> {
    match fields {
        FieldsView::Named(named) => Seq::new(named.len(), |i: int| named[i].ident),
        FieldsView::Unnamed(types) => Seq::new(types.len(), |i: int| position_name(i as nat)),
        FieldsView::Unit => Seq::empty(),
    }
}

/// The bindings of a struct pattern that binds the fields named in `names`
/// under their own names and the others under names that are never read.
pub open spec fn named_bindings(fields: Seq<NamedFieldView>, names: Seq<Seq<char>>) -> Seq<
    BindingView,
> {
    Seq::new(
        fields.len(),
        |i: int|
            if names.contains(fields[i].ident) {
                BindingView::Ref(fields[i].ident)
            } else {
                BindingView::Renamed(fields[i].ident, unused_name(fields[i].ident))
            },
    )
}

/// The formatting arguments for those of the first `count` fields that are named
/// in `names`: each is handed over under its own name.
pub open spec fn named_arguments(
    fields: Seq<NamedFieldView>,
    names: Seq<Seq<char>>,
    count: nat,
) -> Seq<ArgumentView>
    decreases count,
{
    if count == 0 || count > fields.len() {
        Seq::empty()
    } else {
        let before = named_arguments(fields, names, (count - 1) as nat);
        let field = fields[count - 1].ident;
        if names.contains(field) {
            before.push(ArgumentView::Named(field, field))
        } else {
            before
        }
    }
}

/// The bindings of a tuple pattern over `count` fields that binds the positions
/// in `positions` and skips the others.
pub open spec fn positional_bindings(count: nat, positions: Set<usize>) -> Seq<BindingView> {
    Seq::new(
        count,
        |i: int|
            if positions.contains(i as usize) {
                BindingView::Ref(position_name(i as nat))
            } else {
                BindingView::Skip
            },
    )
}

/// The formatting arguments for those of the first `count` positions that are
/// in `positions`, in the order of the fields.
pub open spec fn positional_arguments(count: nat, positions: Set<usize>) -> Seq<ArgumentView>
    decreases count,
{
    if count == 0 {
        Seq::empty()
    } else {
        let before = positional_arguments((count - 1) as nat, positions);
        if positions.contains((count - 1) as usize) {
            before.push(ArgumentView::Positional(position_name((count - 1) as nat)))
        } else {
            before
        }
    }
}

/// A pattern that binds every field of the variant by reference.
pub fn fields_pattern(variant_fields: &Fields) -> (r: Pattern)
    ensures
        r.deep_view() == all_bound(variant_fields.deep_view()),
{
    match variant_fields {
        Fields::Named(named) => {
            let mut bindings: Vec<Binding> = Vec::new();
            let mut i: usize = 0;
            while i < named.len()
                invariant
                    i <= named.len(),
                    bindings.deep_view() == Seq::new(
                        i as nat,
                        |j: int| BindingView::Ref(named.deep_view()[j].ident),
                    ),
                decreases named.len() - i,
            {
                let ghost before = bindings;
                let binding = Binding::Ref(copy(&named[i].ident));
                bindings.push(binding);
                proof {
                    lemma_pushed(before, bindings, binding);
                }
                i += 1;
                assert(bindings.deep_view() =~= Seq::new(
                    i as nat,
                    |j: int| BindingView::Ref(named.deep_view()[j].ident),
                ));
            }
            assert(bindings.deep_view() =~= all_bound(variant_fields.deep_view())->Struct_0);
            Pattern::Struct(bindings)
        },
        Fields::Unnamed(types) => {
            let mut bindings: Vec<Binding> = Vec::new();
            let mut i: usize = 0;
            while i < types.len()
                invariant
                    i <= types.len(),
                    bindings.deep_view() == Seq::new(
                        i as nat,
                        |j: int| BindingView::Ref(position_name(j as nat)),
                    ),
                decreases types.len() - i,
            {
                let ghost before = bindings;
                let binding = Binding::Ref(positional_name(i));
                bindings.push(binding);
                proof {
                    lemma_pushed(before, bindings, binding);
                }
                i += 1;
                assert(bindings.deep_view() =~= Seq::new(
                    i as nat,
                    |j: int| BindingView::Ref(position_name(j as nat)),
                ));
            }
            assert(bindings.deep_view() =~= all_bound(variant_fields.deep_view())->Tuple_0);
            Pattern::Tuple(bindings)
        },
        Fields::Unit => Pattern::Unit,
    }
}

/// A pattern that matches the variant and binds none of its fields.
pub fn fields_pattern_ignore(variant_fields: &Fields) -> (r: Pattern)
    ensures
        r.deep_view() == none_bound(variant_fields.deep_view()),
{
    match variant_fields {
        Fields::Named(_) => Pattern::StructRest,
        Fields::Unnamed(_) => Pattern::TupleRest,
        Fields::Unit => Pattern::Unit,
    }
}

/// The names that `fields_pattern` binds, to hand the fields on in a call.
pub fn args(variant_fields: &Fields) -> (r: Vec<String>)
    ensures
        r.deep_view() == all_names(variant_fields.deep_view()),
{
    let mut names: Vec<String> = Vec::new();
    match variant_fields {
        Fields::Named(named) => {
            let mut i: usize = 0;
            while i < named.len()
                invariant
                    i <= named.len(),
                    names.deep_view() == Seq::new(i as nat, |j: int| named.deep_view()[j].ident),
                decreases named.len() - i,
            {
                let ghost before = names;
                let name = copy(&named[i].ident);
                names.push(name);
                proof {
                    lemma_pushed(before, names, name);
                }
                i += 1;
                assert(names.deep_view() =~= Seq::new(
                    i as nat,
                    |j: int| named.deep_view()[j].ident,
                ));
            }
            assert(names.deep_view() =~= all_names(variant_fields.deep_view()));
        },
        Fields::Unnamed(types) => {
            let mut i: usize = 0;
            while i < types.len()
                invariant
                    i <= types.len(),
                    names.deep_view() == Seq::new(i as nat, |j: int| position_name(j as nat)),
                decreases types.len() - i,
            {
                let ghost before = names;
                let name = positional_name(i);
                names.push(name);
                proof {
                    lemma_pushed(before, names, name);
                }
                i += 1;
                assert(names.deep_view() =~= Seq::new(i as nat, |j: int| position_name(j as nat)));
            }
            assert(names.deep_view() =~= all_names(variant_fields.deep_view()));
        },
        Fields::Unit => {
            assert(names.deep_view() =~= all_names(variant_fields.deep_view()));
        },
    }
    names
}

/// The pattern and the formatting arguments for a template over named fields:
/// the fields that the template names are bound and handed over, the others are
/// bound under names that nothing reads.
pub fn bind_named(named: &Vec<NamedField>, names: &Vec<String>) -> (r: (Pattern, Vec<Argument>))
    ensures
        r.0.deep_view() == PatternView::Struct(
            named_bindings(named.deep_view(), names.deep_view()),
        ),
        r.1.deep_view() == named_arguments(
            named.deep_view(),
            names.deep_view(),
            named.deep_view().len(),
        ),
{
    let mut bindings: Vec<Binding> = Vec::new();
    let mut arguments: Vec<Argument> = Vec::new();
    let mut i: usize = 0;
    assert(arguments.deep_view() =~= Seq::empty());
    assert(bindings.deep_view() =~= named_bindings(named.deep_view(), names.deep_view()).take(0));
    while i < named.len()
        invariant
            i <= named.len(),
            bindings.deep_view() == named_bindings(
                named.deep_view(),
                names.deep_view(),
            ).take(i as int),
            arguments.deep_view() == named_arguments(
                named.deep_view(),
                names.deep_view(),
                i as nat,
            ),
        decreases named.len() - i,
    {
        let field = &named[i].ident;
        assert(named.deep_view()[i as int].ident == field@);
        let ghost bound = bindings;
        if contains(names, field.as_str()) {
            let ghost before = arguments;
            let binding = Binding::Ref(copy(field));
            let argument = Argument::Named(copy(field), copy(field));
            bindings.push(binding);
            arguments.push(argument);
            proof {
                lemma_pushed(bound, bindings, binding);
                lemma_pushed(before, arguments, argument);
            }
        } else {
            let binding = Binding::Renamed(
                copy(field),
                String::from_str("_").concat(field.as_str()),
            );
            bindings.push(binding);
            proof {
                lemma_pushed(bound, bindings, binding);
            }
        }
        i += 1;
        assert(bindings.deep_view() =~= named_bindings(
            named.deep_view(),
            names.deep_view(),
        ).take(i as int));
    }
    assert(bindings.deep_view() =~= named_bindings(named.deep_view(), names.deep_view()));
    (Pattern::Struct(bindings), arguments)
}

/// The pattern and the formatting arguments for a template over the fields of a
/// tuple: the positions that the template refers to are bound and handed over, the
/// others are skipped.
pub fn bind_positional(count: usize, positions: &HashSet<usize>) -> (r: (Pattern, Vec<Argument>))
    ensures
        r.0.deep_view() == PatternView::Tuple(positional_bindings(count as nat, positions@)),
        r.1.deep_view() == positional_arguments(count as nat, positions@),
{
    broadcast use vstd::std_specs::hash::group_hash_axioms;

    let mut bindings: Vec<Binding> = Vec::new();
    let mut arguments: Vec<Argument> = Vec::new();
    let mut i: usize = 0;
    assert(arguments.deep_view() =~= Seq::empty());
    assert(bindings.deep_view() =~= positional_bindings(count as nat, positions@).take(0));
    while i < count
        invariant
            i <= count,
            bindings.deep_view() == positional_bindings(count as nat, positions@).take(i as int),
            arguments.deep_view() == positional_arguments(i as nat, positions@),
        decreases count - i,
    {
        let ghost bound = bindings;
        if positions.contains(&i) {
            let ghost before = arguments;
            let binding = Binding::Ref(positional_name(i));
            let argument = Argument::Positional(positional_name(i));
            bindings.push(binding);
            arguments.push(argument);
            proof {
                lemma_pushed(bound, bindings, binding);
                lemma_pushed(before, arguments, argument);
            }
        } else {
            let binding = Binding::Skip;
            bindings.push(binding);
            proof {
                lemma_pushed(bound, bindings, binding);
            }
        }
        i += 1;
        assert(bindings.deep_view() =~= positional_bindings(count as nat, positions@).take(
            i as int,
        ));
    }
    assert(bindings.deep_view() =~= positional_bindings(count as nat, positions@));
    (Pattern::Tuple(bindings), arguments)
}

} // verus!
