//! What holds of every run of every generated builder.
//!
//! The laws speak of a record `schema`, of the `unit` generated for it,
//! and of the slots of a builder of that unit. They hold of the units
//! that are free of clashing names: written as code, the others do not
//! compile.

use crate::assemble::{
    generated, lemma_methods_owned, lemma_methods_present, lemma_unit_wf, malformed, not_set,
    shape, unit_of, BuildStepView, GeneratedUnitView,
};
use crate::decorator::DiagnosticView;
use crate::find::{lemma_first, lemma_first_is};
use crate::plan::{planned, Action, MethodView, ShapeView};
use crate::semantics::{
    act, holds, lacking, lemma_target, named, CallError, FieldValueView, InputView,
    RecordFieldView, RecordView, SlotView,
};
use crate::schema::{FieldSchemaView, RecordSchemaView};
use vstd::prelude::*;

verus! {

/// `unit` is what is generated for `schema`, and no names clash in it.
pub open spec fn generates(schema: RecordSchemaView, unit: GeneratedUnitView) -> bool {
    &&& generated(schema) == Ok::<GeneratedUnitView, DiagnosticView>(unit)
    &&& unit.unambiguous()
}

/// A generated unit has one storage field per field of the record, under
/// the field's name, and no field of the record is malformed.
pub proof fn lemma_generated(schema: RecordSchemaView, unit: GeneratedUnitView)
    requires
        generated(schema) == Ok::<GeneratedUnitView, DiagnosticView>(unit),
    ensures
        unit == unit_of(schema),
        unit.wf(),
        unit.storage_fields.len() == schema.fields.len(),
        forall|i: int| 0 <= i < schema.fields.len() ==> !malformed(#[trigger] schema.fields[i]),
        forall|i: int|
            0 <= i < schema.fields.len() ==> (#[trigger] unit.field_names()[i])
                == schema.fields[i].name,
{
    lemma_first(schema.fields, |f: FieldSchemaView| malformed(f));
    lemma_unit_wf(schema);
}

/// The name of field `i` finds slot `i`.
pub proof fn lemma_slot_of_field(schema: RecordSchemaView, unit: GeneratedUnitView, i: int)
    requires
        generates(schema, unit),
        0 <= i < schema.fields.len(),
    ensures
        unit.slot_index(schema.fields[i].name) == Some(i),
{
    lemma_generated(schema, unit);
    let names = unit.field_names();
    let p = named(schema.fields[i].name);
    assert forall|j: int| 0 <= j < i implies !p(#[trigger] names[j]) by {
        assert(names[j] != names[i]);
    }
    lemma_first_is(names, p, i);
}

/// A call of a method planned for field `i` acts on slot `i`, and is
/// refused exactly when the argument has the wrong form.
pub proof fn lemma_call_planned(
    schema: RecordSchemaView,
    unit: GeneratedUnitView,
    i: int,
    m: MethodView,
    slots: Seq<SlotView>,
    input: InputView,
)
    requires
        generates(schema, unit),
        0 <= i < schema.fields.len(),
        planned(schema.fields[i], shape(schema.fields[i])).methods().contains(m),
    ensures
        unit.call(slots, m.name, input) == match act(m.action, slots[i], input) {
            Some(slot) => Ok::<Seq<SlotView>, CallError>(slots.update(i, slot)),
            None => Err::<Seq<SlotView>, CallError>(CallError::WrongArgument),
        },
{
    lemma_generated(schema, unit);
    let k = lemma_methods_present(schema.fields, i, m);
    let names = unit.method_names();
    let p = named(m.name);
    assert forall|j: int| 0 <= j < k implies !p(#[trigger] names[j]) by {
        assert(names[j] != names[k]);
    }
    lemma_first_is(names, p, k);
    lemma_slot_of_field(schema, unit, i);
}

/// The names of the methods planned for a field.
pub open spec fn names_for(f: FieldSchemaView) -> Set<Seq<char>> {
    Set::new(
        |name: Seq<char>|
            exists|m: MethodView|
                planned(f, shape(f)).methods().contains(m) && #[trigger] m.name == name,
    )
}

/// A call leaves alone the slot of every field that the called method was
/// not planned for.
pub proof fn lemma_call_frame(
    schema: RecordSchemaView,
    unit: GeneratedUnitView,
    i: int,
    slots: Seq<SlotView>,
    name: Seq<char>,
    input: InputView,
)
    requires
        generates(schema, unit),
        0 <= i < schema.fields.len(),
        slots.len() == schema.fields.len(),
        !names_for(schema.fields[i]).contains(name),
    ensures
        unit.call(slots, name, input) matches Ok(after) ==> after.len() == slots.len() && after[i]
            == slots[i],
{
    lemma_generated(schema, unit);
    lemma_first(unit.method_names(), named(name));
    if let Some(k) = unit.method_index(name) {
        // The method belongs to a field other than `i`, and acts on the
        // slot of that field.
        let owner = lemma_methods_owned(schema.fields, k);
        lemma_slot_of_field(schema, unit, owner);
    }
}

/// A call that is accepted leaves slots of the unit.
pub proof fn lemma_call_admits(
    schema: RecordSchemaView,
    unit: GeneratedUnitView,
    slots: Seq<SlotView>,
    name: Seq<char>,
    input: InputView,
)
    requires
        generates(schema, unit),
        unit.admits(slots),
    ensures
        unit.call(slots, name, input) matches Ok(after) ==> unit.admits(after),
{
    lemma_generated(schema, unit);
    lemma_first(unit.method_names(), named(name));
    if let Some(k) = unit.method_index(name) {
        let i = lemma_target(unit, k);
        if let Ok(after) = unit.call(slots, name, input) {
            assert forall|j: int| 0 <= j < after.len() implies holds(
                unit.zero_value_ctor[j],
                #[trigger] after[j],
            ) by {}
        }
    }
}

/// A call: the name of the method and the argument.
pub type Call = (Seq<char>, InputView);

/// The slots after the calls were made in order. A call that is refused
/// changes nothing.
pub open spec fn run(unit: GeneratedUnitView, slots: Seq<SlotView>, calls: Seq<Call>) -> Seq<
    SlotView,
>
    decreases calls.len(),
{
    if calls.len() == 0 {
        slots
    } else {
        let before = run(unit, slots, calls.drop_last());
        match unit.call(before, calls.last().0, calls.last().1) {
            Ok(after) => after,
            Err(error) => before,
        }
    }
}

/// The values that the calls hand to the method `name` one at a time, in
/// the order of the calls.
pub open spec fn handed(calls: Seq<Call>, name: Seq<char>) -> Seq<Seq<char>>
    decreases calls.len(),
{
    if calls.len() == 0 {
        Seq::empty()
    } else {
        let before = handed(calls.drop_last(), name);
        match calls.last().1 {
            InputView::One(value) => if calls.last().0 == name {
                before.push(value)
            } else {
                before
            },
            InputView::Many(values) => before,
        }
    }
}

/// No call is a call of the method `name`.
pub open spec fn never_calls(calls: Seq<Call>, name: Seq<char>) -> bool {
    forall|c: int| 0 <= c < calls.len() ==> (#[trigger] calls[c]).0 != name
}

/// The setter of a plain or optional field is the one method planned for it.
proof fn lemma_setter(f: FieldSchemaView) -> (m: MethodView)
    requires
        !(shape(f) is Repeated),
    ensures
        planned(f, shape(f)).methods() == seq![m],
        planned(f, shape(f)).methods().contains(m),
        m.name == f.name,
        m.action == Action::Assign,
        names_for(f) == set![f.name],
{
    let methods = planned(f, shape(f)).methods();
    let m = methods[0];
    assert(names_for(f) =~= set![f.name]) by {
        assert forall|name: Seq<char>| names_for(f).contains(name) implies name == f.name by {
            let w = choose|w: MethodView| methods.contains(w) && #[trigger] w.name == name;
            let j = choose|j: int| 0 <= j < methods.len() && methods[j] == w;
        }
        assert(m.name == f.name);
    }
    m
}

/// The appender of a repeated field is planned for it, and beside it the
/// setter of the whole sequence, unless the appender has the field's name.
proof fn lemma_appender(f: FieldSchemaView) -> (m: MethodView)
    requires
        shape(f) is Repeated,
    ensures
        planned(f, shape(f)).methods().contains(m),
        m.name == shape(f)->method_name,
        m.action == Action::Append,
        forall|name: Seq<char>|
            names_for(f).contains(name) ==> name == m.name || name == f.name,
        m.name != f.name ==> planned(f, shape(f)).methods().contains(
            MethodView {
                name: f.name,
                field: f.name,
                param: f.declared_type,
                action: Action::Replace,
            },
        ),
        m.name == f.name ==> planned(f, shape(f)).methods() == seq![m],
{
    let methods = planned(f, shape(f)).methods();
    let m = methods.last();
    assert forall|name: Seq<char>| names_for(f).contains(name) implies name == m.name || name
        == f.name by {
        let w = choose|w: MethodView| methods.contains(w) && #[trigger] w.name == name;
        let j = choose|j: int| 0 <= j < methods.len() && methods[j] == w;
    }
    if m.name != f.name {
        assert(methods[0] == MethodView {
            name: f.name,
            field: f.name,
            param: f.declared_type,
            action: Action::Replace,
        });
    }
    m
}

/// A run leaves slots of the unit, and leaves alone the slot of a field
/// for which no called method was planned.
pub proof fn lemma_run(
    schema: RecordSchemaView,
    unit: GeneratedUnitView,
    slots: Seq<SlotView>,
    calls: Seq<Call>,
)
    requires
        generates(schema, unit),
        unit.admits(slots),
    ensures
        unit.admits(run(unit, slots, calls)),
        forall|i: int|
            0 <= i < schema.fields.len() && (forall|c: int|
                0 <= c < calls.len() ==> !names_for(schema.fields[i]).contains(
                    (#[trigger] calls[c]).0,
                )) ==> (#[trigger] run(unit, slots, calls)[i]) == slots[i],
    decreases calls.len(),
{
    lemma_generated(schema, unit);
    if calls.len() > 0 {
        let earlier = calls.drop_last();
        lemma_run(schema, unit, slots, earlier);
        let before = run(unit, slots, earlier);
        lemma_call_admits(schema, unit, before, calls.last().0, calls.last().1);
        assert forall|i: int|
            0 <= i < schema.fields.len() && (forall|c: int|
                0 <= c < calls.len() ==> !names_for(schema.fields[i]).contains(
                    (#[trigger] calls[c]).0,
                )) implies (#[trigger] run(unit, slots, calls)[i]) == slots[i] by {
            assert forall|c: int| 0 <= c < earlier.len() implies !names_for(
                schema.fields[i],
            ).contains((#[trigger] earlier[c]).0) by {}
            lemma_call_frame(schema, unit, i, before, calls.last().0, calls.last().1);
        }
    }
}

/// The record holds, for every field, what the build step takes from the
/// field's slot; and assembly fails only for a plain field that is absent,
/// with the message that names the first such field.
pub proof fn lemma_build(schema: RecordSchemaView, unit: GeneratedUnitView, slots: Seq<SlotView>)
    requires
        generates(schema, unit),
        unit.admits(slots),
    ensures
        match unit.build(slots) {
            Ok(record) => record.name == schema.name && record.fields.len()
                == schema.fields.len() && forall|i: int|
                0 <= i < schema.fields.len() ==> (#[trigger] record.fields[i]).name
                    == schema.fields[i].name && record.fields[i].value == (match shape(
                    schema.fields[i],
                ) {
                    ShapeView::Plain { ty } => FieldValueView::Required(slots[i]->Single_0->0),
                    ShapeView::Optional { inner } => FieldValueView::Optional(slots[i]->Single_0),
                    ShapeView::Repeated { element, method_name } => FieldValueView::Repeated(
                        slots[i]->Many_0,
                    ),
                }) && !(shape(schema.fields[i]) is Plain && slots[i] == SlotView::Single(None)),
            Err(message) => exists|i: int|
                0 <= i < schema.fields.len() && #[trigger] unset(schema, slots, i) && message
                    == not_set(schema.fields[i].name) && forall|j: int|
                    0 <= j < i ==> !#[trigger] unset(schema, slots, j),
        },
{
    lemma_generated(schema, unit);
    let pairs = unit.steps(slots);
    let p = |pair: (BuildStepView, SlotView)| lacking(pair);
    lemma_first(pairs, p);
    match unit.missing(slots) {
        Some(i) => {
            assert(unset(schema, slots, i));
            assert forall|j: int| 0 <= j < i implies !#[trigger] unset(schema, slots, j) by {
                assert(!p(pairs[j]));
            }
        },
        None => {
            let record = unit.build(slots)->Ok_0;
            assert forall|i: int| 0 <= i < schema.fields.len() implies !(shape(
                schema.fields[i],
            ) is Plain && slots[i] == SlotView::Single(None)) by {
                assert(!p(pairs[i]));
            }
            assert forall|i: int| 0 <= i < schema.fields.len() implies (
            #[trigger] record.fields[i]).value == (match shape(schema.fields[i]) {
                ShapeView::Plain { ty } => FieldValueView::Required(slots[i]->Single_0->0),
                ShapeView::Optional { inner } => FieldValueView::Optional(slots[i]->Single_0),
                ShapeView::Repeated { element, method_name } => FieldValueView::Repeated(
                    slots[i]->Many_0,
                ),
            }) by {}
        },
    }
}

/// Field `i` is plain and its slot holds no value.
pub open spec fn unset(schema: RecordSchemaView, slots: Seq<SlotView>, i: int) -> bool {
    shape(schema.fields[i]) is Plain && slots[i] == SlotView::Single(None)
}

/// The empty builder.
///
/// In the empty builder the slot of a plain or optional field holds no
/// value, and the slot of a repeated field holds the empty sequence.
pub proof fn law_empty_builder(schema: RecordSchemaView, unit: GeneratedUnitView, i: int)
    requires
        generates(schema, unit),
        0 <= i < schema.fields.len(),
    ensures
        unit.admits(unit.empty()),
        unit.empty()[i] == (if shape(schema.fields[i]) is Repeated {
            SlotView::Many(Seq::empty())
        } else {
            SlotView::Single(None)
        }),
{
    lemma_generated(schema, unit);
}

/// A plain field that was set.
///
/// A call of the setter of a plain field is accepted and makes its value
/// the value of the slot, whatever the slot held before, and touches no
/// other slot. If the record is then assembled, its field holds that
/// value; and if assembly fails, it fails for another field.
pub proof fn law_plain_set(
    schema: RecordSchemaView,
    unit: GeneratedUnitView,
    i: int,
    slots: Seq<SlotView>,
    value: Seq<char>,
)
    requires
        generates(schema, unit),
        unit.admits(slots),
        0 <= i < schema.fields.len(),
        shape(schema.fields[i]) is Plain,
    ensures
        unit.call(slots, schema.fields[i].name, InputView::One(value)) == Ok::<
            Seq<SlotView>,
            CallError,
        >(slots.update(i, SlotView::Single(Some(value)))),
        match unit.build(slots.update(i, SlotView::Single(Some(value)))) {
            Ok(record) => record.fields[i] == (RecordFieldView {
                name: schema.fields[i].name,
                value: FieldValueView::Required(value),
            }),
            Err(message) => exists|j: int|
                0 <= j < schema.fields.len() && j != i && #[trigger] unset(schema, slots, j)
                    && message == not_set(schema.fields[j].name),
        },
{
    let after = slots.update(i, SlotView::Single(Some(value)));
    let setter = lemma_setter(schema.fields[i]);
    lemma_call_planned(schema, unit, i, setter, slots, InputView::One(value));
    lemma_call_admits(schema, unit, slots, setter.name, InputView::One(value));
    lemma_build(schema, unit, after);
    if let Err(message) = unit.build(after) {
        let j = choose|j: int|
            0 <= j < schema.fields.len() && #[trigger] unset(schema, after, j) && message
                == not_set(schema.fields[j].name) && forall|e: int|
                0 <= e < j ==> !#[trigger] unset(schema, after, e);
        assert(unset(schema, slots, j));
    }
}

/// A plain field that was never set.
///
/// While no call was a call of the setter of a plain field, the slot of
/// the field holds no value, and assembly fails. Its message names the
/// first plain field without a value: this field, if every plain field
/// before it has one.
pub proof fn law_plain_omitted(
    schema: RecordSchemaView,
    unit: GeneratedUnitView,
    i: int,
    calls: Seq<Call>,
)
    requires
        generates(schema, unit),
        0 <= i < schema.fields.len(),
        shape(schema.fields[i]) is Plain,
        never_calls(calls, schema.fields[i].name),
    ensures
        run(unit, unit.empty(), calls)[i] == SlotView::Single(None),
        unit.build(run(unit, unit.empty(), calls)) matches Err(message) && exists|j: int|
            0 <= j <= i && #[trigger] unset(schema, run(unit, unit.empty(), calls), j) && message
                == not_set(schema.fields[j].name),
        (forall|j: int| 0 <= j < i ==> !#[trigger] unset(schema, run(unit, unit.empty(), calls), j))
            ==> unit.build(run(unit, unit.empty(), calls)) == Err::<RecordView, Seq<char>>(
            not_set(schema.fields[i].name),
        ),
{
    lemma_generated(schema, unit);
    lemma_setter(schema.fields[i]);
    let slots = run(unit, unit.empty(), calls);
    // No call touched the slot: it holds what it held in the empty builder.
    lemma_run(schema, unit, unit.empty(), calls);
    assert(unset(schema, slots, i));
    lemma_build(schema, unit, slots);
    if let Ok(record) = unit.build(slots) {
        assert(record.fields[i].name == schema.fields[i].name);
    }
}

/// An optional field.
///
/// Assembly never fails for an optional field. A call of its setter is
/// accepted and makes its value the value of the slot, whatever the slot
/// held before, and touches no other slot. The assembled record holds the
/// value of the slot: the value that was set last, or none.
pub proof fn law_optional(
    schema: RecordSchemaView,
    unit: GeneratedUnitView,
    i: int,
    slots: Seq<SlotView>,
    value: Seq<char>,
)
    requires
        generates(schema, unit),
        unit.admits(slots),
        0 <= i < schema.fields.len(),
        shape(schema.fields[i]) is Optional,
    ensures
        unit.missing(slots) != Some(i),
        unit.build(slots) matches Ok(record) ==> record.fields[i] == (RecordFieldView {
            name: schema.fields[i].name,
            value: FieldValueView::Optional(slots[i]->Single_0),
        }),
        unit.call(slots, schema.fields[i].name, InputView::One(value)) == Ok::<
            Seq<SlotView>,
            CallError,
        >(slots.update(i, SlotView::Single(Some(value)))),
        unit.build(slots.update(i, SlotView::Single(Some(value)))) matches Ok(record)
            ==> record.fields[i] == (RecordFieldView {
            name: schema.fields[i].name,
            value: FieldValueView::Optional(Some(value)),
        }),
{
    lemma_generated(schema, unit);
    let after = slots.update(i, SlotView::Single(Some(value)));
    let setter = lemma_setter(schema.fields[i]);
    lemma_call_planned(schema, unit, i, setter, slots, InputView::One(value));
    lemma_call_admits(schema, unit, slots, setter.name, InputView::One(value));
    lemma_build(schema, unit, slots);
    lemma_build(schema, unit, after);
    lemma_first(unit.steps(slots), |pair: (BuildStepView, SlotView)| lacking(pair));
}

/// An optional field that was never set.
///
/// While no call was a call of the setter of an optional field, the slot
/// of the field holds no value, and so does the field of the assembled
/// record.
pub proof fn law_optional_omitted(
    schema: RecordSchemaView,
    unit: GeneratedUnitView,
    i: int,
    calls: Seq<Call>,
)
    requires
        generates(schema, unit),
        0 <= i < schema.fields.len(),
        shape(schema.fields[i]) is Optional,
        never_calls(calls, schema.fields[i].name),
    ensures
        run(unit, unit.empty(), calls)[i] == SlotView::Single(None),
        unit.build(run(unit, unit.empty(), calls)) matches Ok(record) ==> record.fields[i] == (
        RecordFieldView {
            name: schema.fields[i].name,
            value: FieldValueView::Optional(None),
        }),
{
    lemma_generated(schema, unit);
    lemma_setter(schema.fields[i]);
    let slots = run(unit, unit.empty(), calls);
    // No call touched the slot: it holds what it held in the empty builder.
    lemma_run(schema, unit, unit.empty(), calls);
    lemma_build(schema, unit, slots);
}

/// A repeated field whose appender has a name of its own.
///
/// Both methods are usable. A call of the appender is accepted and adds
/// its value at the end of the sequence in the slot; a call of the setter
/// is accepted and puts its argument in the place of the sequence,
/// whatever was appended before. Neither touches another slot. Assembly
/// never fails for the field, and the record holds the sequence.
pub proof fn law_repeated(
    schema: RecordSchemaView,
    unit: GeneratedUnitView,
    i: int,
    slots: Seq<SlotView>,
    value: Seq<char>,
    values: Seq<Seq<char>>,
)
    requires
        generates(schema, unit),
        unit.admits(slots),
        0 <= i < schema.fields.len(),
        shape(schema.fields[i]) matches ShapeView::Repeated { element, method_name }
            && method_name != schema.fields[i].name,
    ensures
        slots[i] is Many,
        unit.call(slots, shape(schema.fields[i])->method_name, InputView::One(value)) == Ok::<
            Seq<SlotView>,
            CallError,
        >(slots.update(i, SlotView::Many(slots[i]->Many_0.push(value)))),
        unit.call(slots, schema.fields[i].name, InputView::Many(values)) == Ok::<
            Seq<SlotView>,
            CallError,
        >(slots.update(i, SlotView::Many(values))),
        unit.missing(slots) != Some(i),
        unit.build(slots) matches Ok(record) ==> record.fields[i] == (RecordFieldView {
            name: schema.fields[i].name,
            value: FieldValueView::Repeated(slots[i]->Many_0),
        }),
{
    lemma_generated(schema, unit);
    let f = schema.fields[i];
    let appender = lemma_appender(f);
    let setter = MethodView {
        name: f.name,
        field: f.name,
        param: f.declared_type,
        action: Action::Replace,
    };
    lemma_call_planned(schema, unit, i, appender, slots, InputView::One(value));
    lemma_call_planned(schema, unit, i, setter, slots, InputView::Many(values));
    lemma_build(schema, unit, slots);
    lemma_first(unit.steps(slots), |pair: (BuildStepView, SlotView)| lacking(pair));
}

/// The order of what was appended.
///
/// While no call was a call of the setter of the whole sequence, the slot
/// of a repeated field holds the values that were handed to its appender,
/// every one of them, in the order of the calls. Where the appender has
/// the field's own name there is no such setter, and this holds of every
/// run.
pub proof fn law_appended_in_order(
    schema: RecordSchemaView,
    unit: GeneratedUnitView,
    i: int,
    calls: Seq<Call>,
)
    requires
        generates(schema, unit),
        0 <= i < schema.fields.len(),
        shape(schema.fields[i]) matches ShapeView::Repeated { element, method_name }
            && (method_name == schema.fields[i].name || never_calls(
            calls,
            schema.fields[i].name,
        )),
    ensures
        run(unit, unit.empty(), calls)[i] == SlotView::Many(
            handed(calls, shape(schema.fields[i])->method_name),
        ),
    decreases calls.len(),
{
    lemma_generated(schema, unit);
    let f = schema.fields[i];
    let name = shape(f)->method_name;
    let appender = lemma_appender(f);
    if calls.len() > 0 {
        let earlier = calls.drop_last();
        assert forall|c: int| 0 <= c < earlier.len() implies (#[trigger] earlier[c]) == calls[c] by {}
        law_appended_in_order(schema, unit, i, earlier);
        lemma_run(schema, unit, unit.empty(), earlier);
        let before = run(unit, unit.empty(), earlier);
        let last = calls[calls.len() - 1];
        if last.0 == name {
            lemma_call_planned(schema, unit, i, appender, before, last.1);
        } else {
            lemma_call_frame(schema, unit, i, before, last.0, last.1);
        }
    }
}

/// A repeated field whose appender has the field's own name.
///
/// No method sets the field as a whole: every method that acts on it
/// appends, and a call that hands a whole sequence to the field's name is
/// refused.
pub proof fn law_self_named(
    schema: RecordSchemaView,
    unit: GeneratedUnitView,
    i: int,
    slots: Seq<SlotView>,
    values: Seq<Seq<char>>,
)
    requires
        generates(schema, unit),
        0 <= i < schema.fields.len(),
        shape(schema.fields[i]) matches ShapeView::Repeated { element, method_name }
            && method_name == schema.fields[i].name,
    ensures
        forall|k: int|
            0 <= k < unit.methods.len() && (#[trigger] unit.methods[k]).field
                == schema.fields[i].name ==> unit.methods[k].action == Action::Append,
        unit.call(slots, schema.fields[i].name, InputView::Many(values)) == Err::<
            Seq<SlotView>,
            CallError,
        >(CallError::WrongArgument),
{
    lemma_generated(schema, unit);
    let f = schema.fields[i];
    let appender = lemma_appender(f);
    lemma_call_planned(schema, unit, i, appender, slots, InputView::Many(values));
    assert forall|k: int|
        0 <= k < unit.methods.len() && (#[trigger] unit.methods[k]).field
            == f.name implies unit.methods[k].action == Action::Append by {
        // The method belongs to a field of the same name, which is field
        // `i`, and so it is the appender.
        let owner = lemma_methods_owned(schema.fields, k);
        lemma_slot_of_field(schema, unit, owner);
        lemma_slot_of_field(schema, unit, i);
    }
}

/// The last value wins.
///
/// Setting a plain or optional field twice is setting it once, to the
/// second value.
pub proof fn law_last_value_wins(
    schema: RecordSchemaView,
    unit: GeneratedUnitView,
    i: int,
    slots: Seq<SlotView>,
    first_value: Seq<char>,
    second_value: Seq<char>,
)
    requires
        generates(schema, unit),
        unit.admits(slots),
        0 <= i < schema.fields.len(),
        !(shape(schema.fields[i]) is Repeated),
    ensures
        run(
            unit,
            slots,
            seq![
                (schema.fields[i].name, InputView::One(first_value)),
                (schema.fields[i].name, InputView::One(second_value)),
            ],
        ) == run(unit, slots, seq![(schema.fields[i].name, InputView::One(second_value))]),
{
    let name = schema.fields[i].name;
    let setter = lemma_setter(schema.fields[i]);
    let one = seq![(name, InputView::One(first_value))];
    let two = seq![(name, InputView::One(first_value)), (name, InputView::One(second_value))];
    let other = seq![(name, InputView::One(second_value))];
    let none = Seq::<Call>::empty();
    assert(two.drop_last() =~= one);
    assert(one.drop_last() =~= none);
    assert(other.drop_last() =~= none);
    assert(run(unit, slots, none) == slots);
    lemma_call_planned(schema, unit, i, setter, slots, InputView::One(first_value));
    lemma_call_planned(schema, unit, i, setter, slots, InputView::One(second_value));
    let middle = slots.update(i, SlotView::Single(Some(first_value)));
    assert(run(unit, slots, one) == middle);
    lemma_call_planned(schema, unit, i, setter, middle, InputView::One(second_value));
    assert(middle.update(i, SlotView::Single(Some(second_value))) =~= slots.update(
        i,
        SlotView::Single(Some(second_value)),
    ));
}

} // verus!
