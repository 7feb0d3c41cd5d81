//! What a generated builder does: the empty builder, calls of its
//! methods, and the assembly of the record.
//!
//! This is the meaning of the code that a generated unit is rendered as.
//! Values are texts. A slot holds one value or none, or a sequence of
//! values.

use crate::assemble::{
    build_name, fits, BuildStep, BuildStepView, GeneratedUnit, GeneratedUnitView, Initial,
};
use crate::find::{first, lemma_first, lemma_first_is, lemma_first_none};
use crate::plan::Action;
use vstd::prelude::*;

verus! {

/// What a storage field of a builder holds.
#[derive(Debug, PartialEq, Eq)]
pub enum Slot {
    /// One value, or none.
    Single(Option<String>),
    /// A sequence of values.
    Many(Vec<String>),
}

/// What a storage field holds, as a mathematical value.
pub enum SlotView {
    Single(Option<Seq<char>>),
    Many(Seq<Seq<char>>),
}

impl View for Slot {
    type V = SlotView;

    open spec fn view(&self) -> SlotView {
        match self {
            Slot::Single(value) => SlotView::Single(value.deep_view()),
            Slot::Many(values) => SlotView::Many(values.deep_view()),
        }
    }
}

impl DeepView for Slot {
    type V = SlotView;

    open spec fn deep_view(&self) -> SlotView {
        self@
    }
}

/// The argument of a call.
#[derive(Debug, PartialEq, Eq)]
pub enum Input {
    /// One value.
    One(String),
    /// A whole sequence of values.
    Many(Vec<String>),
}

/// The argument of a call as a mathematical value.
pub enum InputView {
    One(Seq<char>),
    Many(Seq<Seq<char>>),
}

impl View for Input {
    type V = InputView;

    open spec fn view(&self) -> InputView {
        match self {
            Input::One(value) => InputView::One(value@),
            Input::Many(values) => InputView::Many(values.deep_view()),
        }
    }
}

/// Why a call was refused. Written as code, such a call would not compile.
#[derive(Debug, Clone, Copy, PartialEq, Eq)]
pub enum CallError {
    /// The builder has no method of that name.
    NoSuchMethod,
    /// The method takes one value and was given a sequence, or takes a
    /// sequence and was given one value.
    WrongArgument,
}

/// The value of a field of an assembled record.
#[derive(Debug, PartialEq, Eq)]
pub enum FieldValue {
    /// The value of a plain field.
    Required(String),
    /// The value of an optional field, which may be absent.
    Optional(Option<String>),
    /// The values of a repeated field.
    Repeated(Vec<String>),
}

/// The value of a field of a record as a mathematical value.
pub enum FieldValueView {
    Required(Seq<char>),
    Optional(Option<Seq<char>>),
    Repeated(Seq<Seq<char>>),
}

impl View for FieldValue {
    type V = FieldValueView;

    open spec fn view(&self) -> FieldValueView {
        match self {
            FieldValue::Required(value) => FieldValueView::Required(value@),
            FieldValue::Optional(value) => FieldValueView::Optional(value.deep_view()),
            FieldValue::Repeated(values) => FieldValueView::Repeated(values.deep_view()),
        }
    }
}

/// A field of an assembled record.
#[derive(Debug, PartialEq, Eq)]
pub struct RecordField {
    pub name: String,
    pub value: FieldValue,
}

/// A field of a record as a mathematical value.
pub struct RecordFieldView {
    pub name: Seq<char>,
    pub value: FieldValueView,
}

impl View for RecordField {
    type V = RecordFieldView;

    open spec fn view(&self) -> RecordFieldView {
        RecordFieldView { name: self.name@, value: self.value@ }
    }
}

impl DeepView for RecordField {
    type V = RecordFieldView;

    open spec fn deep_view(&self) -> RecordFieldView {
        self@
    }
}

/// An assembled record: its fields in the order of the schema.
#[derive(Debug, PartialEq, Eq)]
pub struct Record {
    pub name: String,
    pub fields: Vec<RecordField>,
}

/// An assembled record as a mathematical value.
pub struct RecordView {
    pub name: Seq<char>,
    pub fields: Seq<RecordFieldView>,
}

impl View for Record {
    type V = RecordView;

    open spec fn view(&self) -> RecordView {
        RecordView { name: self.name@, fields: self.fields.deep_view() }
    }
}

/// What a slot of the empty builder holds.
pub open spec fn empty_slot(initial: Initial) -> SlotView {
    match initial {
        Initial::Absent => SlotView::Single(None),
        Initial::Empty => SlotView::Many(Seq::empty()),
    }
}

/// A slot keeps the kind of content that it started out with.
pub open spec fn holds(initial: Initial, slot: SlotView) -> bool {
    match initial {
        Initial::Absent => slot is Single,
        Initial::Empty => slot is Many,
    }
}

/// What a slot holds after an action with the given argument, where the
/// action takes an argument of that form.
pub open spec fn act(action: Action, slot: SlotView, input: InputView) -> Option<SlotView> {
    match (action, input) {
        (Action::Assign, InputView::One(value)) => Some(SlotView::Single(Some(value))),
        (Action::Replace, InputView::Many(values)) => Some(SlotView::Many(values)),
        (Action::Append, InputView::One(value)) => Some(SlotView::Many(slot->Many_0.push(value))),
        _ => None,
    }
}

/// The value of a field of the record, taken from its slot.
pub open spec fn taken(step: BuildStepView, slot: SlotView) -> FieldValueView {
    match slot {
        SlotView::Many(values) => FieldValueView::Repeated(values),
        SlotView::Single(value) => match step {
            BuildStepView::Require { message } => FieldValueView::Required(value->0),
            BuildStepView::Copy => FieldValueView::Optional(value),
        },
    }
}

/// A required value is absent.
pub open spec fn lacking(pair: (BuildStepView, SlotView)) -> bool {
    pair.0 is Require && pair.1 == SlotView::Single(None)
}

/// The test for being the text `name`.
pub open spec fn named(name: Seq<char>) -> spec_fn(Seq<char>) -> bool {
    |n: Seq<char>| n == name
}

/// No text occurs twice.
pub open spec fn distinct(names: Seq<Seq<char>>) -> bool {
    forall|i: int, j: int| 0 <= i < j < names.len() ==> names[i] != names[j]
}

impl GeneratedUnitView {
    /// The names of the methods, in the order of their declaration.
    pub open spec fn method_names(self) -> Seq<Seq<char>> {
        Seq::new(self.methods.len(), |k: int| self.methods[k].name)
    }

    /// The names of the storage fields, in order.
    pub open spec fn field_names(self) -> Seq<Seq<char>> {
        Seq::new(self.storage_fields.len(), |i: int| self.storage_fields[i].name)
    }

    /// No two methods have one name, none is called `build` as the
    /// assembly routine is, and no two storage fields have one name.
    /// As code, only such a builder compiles.
    pub open spec fn unambiguous(self) -> bool {
        &&& distinct(self.method_names())
        &&& !self.method_names().contains(build_name())
        &&& distinct(self.field_names())
    }

    /// The position of the method called `name`.
    pub open spec fn method_index(self, name: Seq<char>) -> Option<int> {
        first(self.method_names(), named(name))
    }

    /// The position of the storage field called `field`.
    pub open spec fn slot_index(self, field: Seq<char>) -> Option<int> {
        first(self.field_names(), named(field))
    }

    /// The slots of the empty builder.
    pub open spec fn empty(self) -> Seq<SlotView> {
        Seq::new(self.zero_value_ctor.len(), |i: int| empty_slot(self.zero_value_ctor[i]))
    }

    /// The slots are those of a builder of this unit: one per storage
    /// field, each of the kind that it started out with.
    pub open spec fn admits(self, slots: Seq<SlotView>) -> bool {
        &&& slots.len() == self.storage_fields.len()
        &&& forall|i: int|
            0 <= i < slots.len() ==> holds(self.zero_value_ctor[i], #[trigger] slots[i])
    }

    /// The slots after a call of the method `name`, or why the call is
    /// refused. A call changes the slot of the method's field and no other.
    pub open spec fn call(self, slots: Seq<SlotView>, name: Seq<char>, input: InputView) -> Result<
        Seq<SlotView>,
        CallError,
    > {
        match self.method_index(name) {
            None => Err(CallError::NoSuchMethod),
            Some(k) => {
                let i = self.slot_index(self.methods[k].field)->0;
                match act(self.methods[k].action, slots[i], input) {
                    Some(slot) => Ok(slots.update(i, slot)),
                    None => Err(CallError::WrongArgument),
                }
            },
        }
    }

    /// Each build step beside the slot that it reads.
    pub open spec fn steps(self, slots: Seq<SlotView>) -> Seq<(BuildStepView, SlotView)> {
        Seq::new(self.build_routine.len(), |i: int| (self.build_routine[i], slots[i]))
    }

    /// The position of the first required field whose value is absent.
    pub open spec fn missing(self, slots: Seq<SlotView>) -> Option<int> {
        first(self.steps(slots), |pair: (BuildStepView, SlotView)| lacking(pair))
    }

    /// The record assembled from the slots, or the message of the first
    /// required field whose value is absent.
    pub open spec fn build(self, slots: Seq<SlotView>) -> Result<RecordView, Seq<char>> {
        match self.missing(slots) {
            Some(i) => Err(self.build_routine[i]->message),
            None => Ok(
                RecordView {
                    name: self.record_name,
                    fields: Seq::new(
                        self.build_routine.len(),
                        |i: int|
                            RecordFieldView {
                                name: self.storage_fields[i].name,
                                value: taken(self.build_routine[i], slots[i]),
                            },
                    ),
                },
            ),
        }
    }
}

/// The position of `name` among `names`.
fn position(names: &Vec<&String>, name: &String) -> (r: Option<usize>)
    ensures
        match r {
            Some(i) => i < names.len() && first(names.deep_view(), named(name@)) == Some(i as int),
            None => first(names.deep_view(), named(name@)) is None,
        },
{
    let ghost p = named(name@);
    let mut i: usize = 0;
    while i < names.len()
        invariant
            i <= names.len(),
            p == named(name@),
            forall|j: int| 0 <= j < i ==> !p(#[trigger] names.deep_view()[j]),
        decreases names.len() - i,
    {
        if *names[i] == *name {
            proof {
                lemma_first_is(names.deep_view(), p, i as int);
            }
            return Some(i);
        }
        i = i + 1;
    }
    proof {
        lemma_first_none(names.deep_view(), p);
    }
    None
}

/// Whether no text occurs twice among `names`.
fn all_distinct(names: &Vec<&String>) -> (r: bool)
    ensures
        r == distinct(names.deep_view()),
{
    let ghost texts = names.deep_view();
    let mut j: usize = 0;
    while j < names.len()
        invariant
            j <= names.len(),
            texts == names.deep_view(),
            forall|a: int, b: int| 0 <= a < b < j ==> texts[a] != texts[b],
        decreases names.len() - j,
    {
        let mut i: usize = 0;
        while i < j
            invariant
                i <= j < names.len(),
                texts == names.deep_view(),
                forall|a: int| 0 <= a < i ==> texts[a] != texts[j as int],
            decreases j - i,
        {
            if *names[i] == *names[j] {
                assert(texts[i as int] == texts[j as int]);
                return false;
            }
            i = i + 1;
        }
        j = j + 1;
    }
    true
}

impl<'a> GeneratedUnit<'a> {
    /// The names of the methods, in the order of their declaration.
    pub fn method_names(&self) -> (r: Vec<&String>)
        ensures
            r.deep_view() == self@.method_names(),
    {
        let methods = self.methods();
        let mut names: Vec<&String> = Vec::new();
        let mut k: usize = 0;
        while k < methods.len()
            invariant
                k <= methods.len(),
                methods.deep_view() == self@.methods,
                names.len() == k,
                forall|j: int| 0 <= j < k ==> (#[trigger] names[j])@ == self@.methods[j].name,
            decreases methods.len() - k,
        {
            names.push(&methods[k].name);
            k = k + 1;
        }
        names
    }

    /// The names of the storage fields, in order.
    pub fn field_names(&self) -> (r: Vec<&String>)
        ensures
            r.deep_view() == self@.field_names(),
    {
        let fields = self.storage_fields();
        let mut names: Vec<&String> = Vec::new();
        let mut i: usize = 0;
        while i < fields.len()
            invariant
                i <= fields.len(),
                fields.deep_view() == self@.storage_fields,
                names.len() == i,
                forall|j: int|
                    0 <= j < i ==> (#[trigger] names[j])@ == self@.storage_fields[j].name,
            decreases fields.len() - i,
        {
            names.push(&fields[i].name);
            i = i + 1;
        }
        names
    }

    /// Whether the builder, written as code, is free of clashing names.
    pub fn is_unambiguous(&self) -> (r: bool)
        ensures
            r == self@.unambiguous(),
    {
        let methods = self.method_names();
        let fields = self.field_names();
        let build = self.build_name();
        let clash = position(&methods, &build);
        proof {
            lemma_first(methods.deep_view(), named(build@));
        }
        all_distinct(&methods) && clash.is_none() && all_distinct(&fields)
    }
}

/// In a well-formed unit with distinct field names, every method finds
/// the slot that it acts on, and fits it.
pub proof fn lemma_target(unit: GeneratedUnitView, k: int) -> (i: int)
    requires
        unit.wf(),
        distinct(unit.field_names()),
        0 <= k < unit.methods.len(),
    ensures
        unit.slot_index(unit.methods[k].field) == Some(i),
        0 <= i < unit.storage_fields.len(),
        fits(unit.methods[k].action, unit.zero_value_ctor[i]),
{
    let field = unit.methods[k].field;
    let i = choose|i: int|
        0 <= i < unit.storage_fields.len() && (#[trigger] unit.storage_fields[i]).name == (
        #[trigger] unit.methods[k]).field && fits(unit.methods[k].action, unit.zero_value_ctor[i]);
    let names = unit.field_names();
    let p = named(field);
    assert forall|j: int| 0 <= j < i implies !p(#[trigger] names[j]) by {
        assert(names[j] != names[i]);
    }
    lemma_first_is(names, p, i);
    i
}

/// Replacing an element of a vector replaces its view in the vector's view.
proof fn lemma_update_view<T: DeepView>(before: Vec<T>, after: Vec<T>, i: int, x: T)
    requires
        0 <= i < before.len(),
        after@ == before@.update(i, x),
    ensures
        after.deep_view() == before.deep_view().update(i, x.deep_view()),
{
}

/// Copies texts one by one.
fn copy_texts(values: &Vec<String>) -> (r: Vec<String>)
    ensures
        r.deep_view() == values.deep_view(),
{
    let mut out: Vec<String> = Vec::new();
    let mut i: usize = 0;
    while i < values.len()
        invariant
            i <= values.len(),
            out.len() == i,
            forall|j: int| 0 <= j < i ==> (#[trigger] out[j])@ == values[j]@,
        decreases values.len() - i,
    {
        out.push(values[i].clone());
        i = i + 1;
    }
    out
}

/// Copies a text that may be absent.
fn copy_text(value: &Option<String>) -> (r: Option<String>)
    ensures
        r.deep_view() == value.deep_view(),
{
    match value {
        Some(text) => Some(text.clone()),
        None => None,
    }
}

/// A builder at work: a generated unit and what its slots hold.
#[derive(Debug)]
pub struct Builder<'a> {
    unit: &'a GeneratedUnit<'a>,
    slots: Vec<Slot>,
}

/// A builder at work as a mathematical value: its unit and what its slots hold.
pub struct BuilderView {
    pub unit: GeneratedUnitView,
    pub slots: Seq<SlotView>,
}

impl<'a> View for Builder<'a> {
    type V = BuilderView;

    closed spec fn view(&self) -> BuilderView {
        BuilderView { unit: self.unit@, slots: self.slots.deep_view() }
    }
}

impl<'a> Builder<'a> {
    /// The unit is well-formed and free of clashing names, and the slots
    /// are slots of that unit. Every builder that `new` returns is so, and
    /// no call changes that.
    pub open spec fn wf(self) -> bool {
        &&& self@.unit.wf()
        &&& self@.unit.unambiguous()
        &&& self@.unit.admits(self@.slots)
    }

    /// The empty builder of a unit, unless names clash in the unit.
    pub fn new(unit: &'a GeneratedUnit<'a>) -> (r: Option<Builder<'a>>)
        ensures
            match r {
                Some(builder) => unit@.unambiguous() && builder.wf() && builder@.unit == unit@
                    && builder@.slots == unit@.empty(),
                None => !unit@.unambiguous(),
            },
    {
        if !unit.is_unambiguous() {
            return None;
        }
        proof {
            use_type_invariant(unit);
        }
        let initial = unit.zero_value_ctor();
        let mut slots: Vec<Slot> = Vec::new();
        let mut i: usize = 0;
        while i < initial.len()
            invariant
                i <= initial.len(),
                initial.deep_view() == unit@.zero_value_ctor,
                slots.len() == i,
                forall|j: int|
                    0 <= j < i ==> (#[trigger] slots[j])@ == empty_slot(unit@.zero_value_ctor[j]),
            decreases initial.len() - i,
        {
            let slot = match initial[i] {
                Initial::Absent => Slot::Single(None),
                Initial::Empty => Slot::Many(Vec::new()),
            };
            assert(slot@ =~= empty_slot(unit@.zero_value_ctor[i as int])) by {
                if let Slot::Many(values) = slot {
                    assert(values.deep_view() =~= Seq::<Seq<char>>::empty());
                }
            }
            slots.push(slot);
            i = i + 1;
        }
        Some(Builder { unit, slots })
    }

    /// Calls the method `name` with the argument `input`.
    ///
    /// A call that is accepted changes the slot of the method's field, and
    /// returns the builder itself, so that calls can be chained. A call
    /// that is refused changes nothing.
    pub fn call(&mut self, name: &str, input: Input) -> (r: Result<&mut Self, CallError>)
        requires
            old(self).wf(),
        ensures
            match old(self)@.unit.call(old(self)@.slots, name@, input@) {
                Ok(slots) => r matches Ok(same) && same.wf() && same@.unit == old(self)@.unit
                    && same@.slots == slots && *final(self) == *final(same),
                Err(error) => r matches Err(refusal) && refusal == error && *final(self) == *old(
                    self,
                ),
            },
    {
        let unit = self.unit;
        let methods = unit.methods();
        let names = unit.method_names();
        let wanted = name.to_owned();
        let k = match position(&names, &wanted) {
            Some(k) => k,
            None => {
                return Err(CallError::NoSuchMethod);
            },
        };
        let method = &methods[k];
        let fields = unit.field_names();
        proof {
            lemma_target(unit@, k as int);
        }
        let i = position(&fields, &method.field).unwrap();
        let ghost before = self.slots;
        match method.action {
            Action::Assign => match input {
                Input::One(value) => {
                    let slot = Slot::Single(Some(value));
                    self.slots.set(i, slot);
                    proof {
                        lemma_update_view(before, self.slots, i as int, slot);
                    }
                    Ok(self)
                },
                Input::Many(_) => Err(CallError::WrongArgument),
            },
            Action::Replace => match input {
                Input::Many(values) => {
                    let slot = Slot::Many(values);
                    self.slots.set(i, slot);
                    proof {
                        lemma_update_view(before, self.slots, i as int, slot);
                    }
                    Ok(self)
                },
                Input::One(_) => Err(CallError::WrongArgument),
            },
            Action::Append => match input {
                Input::One(value) => {
                    let mut held = Slot::Many(Vec::new());
                    self.slots.set_and_swap(i, &mut held);
                    match held {
                        Slot::Many(values) => {
                            let mut values = values;
                            let ghost earlier = values;
                            values.push(value);
                            assert(values.deep_view() =~= earlier.deep_view().push(value@));
                            let slot = Slot::Many(values);
                            self.slots.set(i, slot);
                            proof {
                                assert(self.slots@ =~= before@.update(i as int, slot));
                                lemma_update_view(before, self.slots, i as int, slot);
                            }
                            Ok(self)
                        },
                        Slot::Single(_) => unreached(),
                    }
                },
                Input::Many(_) => Err(CallError::WrongArgument),
            },
        }
    }

    /// Assembles the record. The builder stays as it is.
    ///
    /// The fields are taken in order; the first required field whose
    /// value is absent ends the assembly with its message.
    pub fn build(&self) -> (r: Result<Record, String>)
        requires
            self.wf(),
        ensures
            match r {
                Ok(record) => self@.unit.build(self@.slots) == Ok::<RecordView, Seq<char>>(
                    record@,
                ),
                Err(message) => self@.unit.build(self@.slots) == Err::<RecordView, Seq<char>>(
                    message@,
                ),
            },
    {
        let unit = self.unit;
        let steps = unit.build_routine();
        let storage = unit.storage_fields();
        let ghost pairs = unit@.steps(self@.slots);
        let ghost p = |pair: (BuildStepView, SlotView)| lacking(pair);
        let mut fields: Vec<RecordField> = Vec::new();
        let mut i: usize = 0;
        while i < steps.len()
            invariant
                i <= steps.len(),
                steps.len() == storage.len(),
                steps.len() == self.slots.len(),
                steps.deep_view() == unit@.build_routine,
                storage.deep_view() == unit@.storage_fields,
                unit@ == self@.unit,
                self.slots.deep_view() == self@.slots,
                pairs == unit@.steps(self@.slots),
                p == (|pair: (BuildStepView, SlotView)| lacking(pair)),
                forall|j: int| 0 <= j < i ==> !p(#[trigger] pairs[j]),
                fields.len() == i,
                forall|j: int|
                    0 <= j < i ==> (#[trigger] fields[j])@ == (RecordFieldView {
                        name: unit@.storage_fields[j].name,
                        value: taken(unit@.build_routine[j], self@.slots[j]),
                    }),
            decreases steps.len() - i,
        {
            let value = match &self.slots[i] {
                Slot::Many(values) => FieldValue::Repeated(copy_texts(values)),
                Slot::Single(value) => match &steps[i] {
                    BuildStep::Require { message } => match value {
                        Some(text) => FieldValue::Required(text.clone()),
                        None => {
                            proof {
                                lemma_first_is(pairs, p, i as int);
                            }
                            return Err(message.clone());
                        },
                    },
                    BuildStep::Copy => FieldValue::Optional(copy_text(value)),
                },
            };
            fields.push(RecordField { name: storage[i].name.clone(), value });
            i = i + 1;
        }
        proof {
            lemma_first_none(pairs, p);
        }
        let record = Record { name: unit.record_name().clone(), fields };
        assert(record@.fields =~= self@.unit.build(self@.slots)->Ok_0.fields);
        Ok(record)
    }

    /// The unit that this is a builder of.
    pub fn unit(&self) -> (r: &'a GeneratedUnit<'a>)
        ensures
            r@ == self@.unit,
    {
        self.unit
    }

    /// What the slots hold, in the order of the storage fields.
    pub fn slots(&self) -> (r: &Vec<Slot>)
        ensures
            r.deep_view() == self@.slots,
    {
        &self.slots
    }
}

} // verus!
