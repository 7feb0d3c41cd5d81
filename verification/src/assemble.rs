//! Putting the builder together: its storage, its methods, the
//! constructor of the empty builder, and the routine that assembles the
//! record.

use crate::decorator::{field_supported, supported, Diagnostic, DiagnosticView};
use crate::find::{first, lemma_first_is, lemma_first_none};
use crate::plan::{
    field_shape, plan_methods, planned, shape_of, Action, FieldShape, Method, MethodView,
    ShapeView,
};
use crate::schema::{FieldSchema, FieldSchemaView, RecordSchema, RecordSchemaView};
use crate::type_shape::{TypeExpr, TypeExprView};
use vstd::prelude::*;
use vstd::string::StringExecFns;

verus! {

/// The type of a storage slot.
#[derive(Debug, PartialEq, Eq)]
pub enum SlotType<'a> {
    /// The type of the field as it was declared.
    Declared { ty: &'a TypeExpr },
    /// `Option` of the type of the field.
    OptionOf { ty: &'a TypeExpr },
}

/// The type of a storage slot as a mathematical value.
pub enum SlotTypeView {
    Declared { ty: TypeExprView },
    OptionOf { ty: TypeExprView },
}

impl<'a> View for SlotType<'a> {
    type V = SlotTypeView;

    open spec fn view(&self) -> SlotTypeView {
        match self {
            SlotType::Declared { ty } => SlotTypeView::Declared { ty: ty@ },
            SlotType::OptionOf { ty } => SlotTypeView::OptionOf { ty: ty@ },
        }
    }
}

/// One field of the builder.
#[derive(Debug, PartialEq, Eq)]
pub struct StorageField<'a> {
    pub name: String,
    pub ty: SlotType<'a>,
}

/// A field of the builder as a mathematical value.
pub struct StorageFieldView {
    pub name: Seq<char>,
    pub ty: SlotTypeView,
}

impl<'a> View for StorageField<'a> {
    type V = StorageFieldView;

    open spec fn view(&self) -> StorageFieldView {
        StorageFieldView { name: self.name@, ty: self.ty@ }
    }
}

impl<'a> DeepView for StorageField<'a> {
    type V = StorageFieldView;

    open spec fn deep_view(&self) -> StorageFieldView {
        self@
    }
}

/// What a slot of the empty builder holds.
#[derive(Debug, Clone, Copy, PartialEq, Eq)]
pub enum Initial {
    /// No value.
    Absent,
    /// The empty sequence.
    Empty,
}

impl DeepView for Initial {
    type V = Initial;

    open spec fn deep_view(&self) -> Initial {
        *self
    }
}

/// How one field of the record is taken from its slot.
#[derive(Debug, PartialEq, Eq)]
pub enum BuildStep {
    /// The value must be present: assembly fails with `message` otherwise.
    Require { message: String },
    /// What the slot holds is copied through.
    Copy,
}

/// A build step as a mathematical value.
pub enum BuildStepView {
    Require { message: Seq<char> },
    Copy,
}

impl View for BuildStep {
    type V = BuildStepView;

    open spec fn view(&self) -> BuildStepView {
        match self {
            BuildStep::Require { message } => BuildStepView::Require { message: message@ },
            BuildStep::Copy => BuildStepView::Copy,
        }
    }
}

impl DeepView for BuildStep {
    type V = BuildStepView;

    open spec fn deep_view(&self) -> BuildStepView {
        self@
    }
}

/// A generated builder as a mathematical value.
pub struct GeneratedUnitView {
    pub record_name: Seq<char>,
    pub builder_type_name: Seq<char>,
    pub storage_fields: Seq<StorageFieldView>,
    pub methods: Seq<MethodView>,
    pub zero_value_ctor: Seq<Initial>,
    pub build_routine: Seq<BuildStepView>,
}

/// An action fits a slot when it acts on the kind of content that the
/// slot starts out with.
pub open spec fn fits(action: Action, initial: Initial) -> bool {
    match action {
        Action::Assign => initial == Initial::Absent,
        Action::Replace => initial == Initial::Empty,
        Action::Append => initial == Initial::Empty,
    }
}

impl GeneratedUnitView {
    /// The parts of the unit agree: there is one initial content and one
    /// build step per storage field, only a slot that starts out absent is
    /// required, and every method acts on a storage field that it fits.
    pub open spec fn wf(self) -> bool {
        &&& self.zero_value_ctor.len() == self.storage_fields.len()
        &&& self.build_routine.len() == self.storage_fields.len()
        &&& forall|i: int|
            0 <= i < self.build_routine.len() && (#[trigger] self.build_routine[i]) is Require
                ==> self.zero_value_ctor[i] == Initial::Absent
        &&& forall|k: int|
            0 <= k < self.methods.len() ==> exists|i: int|
                0 <= i < self.storage_fields.len() && (#[trigger] self.storage_fields[i]).name == (
                #[trigger] self.methods[k]).field && fits(
                    self.methods[k].action,
                    self.zero_value_ctor[i],
                )
    }
}

/// The storage slot for a field.
pub open spec fn storage_of(f: FieldSchemaView, shape: ShapeView) -> StorageFieldView {
    StorageFieldView {
        name: f.name,
        ty: match shape {
            ShapeView::Plain { ty } => SlotTypeView::OptionOf { ty },
            ShapeView::Optional { inner } => SlotTypeView::Declared { ty: f.declared_type },
            ShapeView::Repeated { element, method_name } => SlotTypeView::Declared {
                ty: f.declared_type,
            },
        },
    }
}

/// What the slot of a field starts out with.
pub open spec fn initial_of(shape: ShapeView) -> Initial {
    match shape {
        ShapeView::Plain { ty } => Initial::Absent,
        ShapeView::Optional { inner } => Initial::Absent,
        ShapeView::Repeated { element, method_name } => Initial::Empty,
    }
}

/// The message of the failed assembly for a plain field that was not set.
pub open spec fn not_set(field: Seq<char>) -> Seq<char> {
    field + " is not set"@
}

/// How a field of the record is taken from its slot.
pub open spec fn step_of(f: FieldSchemaView, shape: ShapeView) -> BuildStepView {
    match shape {
        ShapeView::Plain { ty } => BuildStepView::Require { message: not_set(f.name) },
        ShapeView::Optional { inner } => BuildStepView::Copy,
        ShapeView::Repeated { element, method_name } => BuildStepView::Copy,
    }
}

/// The shape of a field whose decorator, if any, is well-formed.
pub open spec fn shape(f: FieldSchemaView) -> ShapeView {
    shape_of(f)->Ok_0
}

/// The methods for the given fields, field by field.
pub open spec fn methods_of(fields: Seq<FieldSchemaView>) -> Seq<MethodView>
    decreases fields.len(),
{
    if fields.len() == 0 {
        Seq::empty()
    } else {
        methods_of(fields.drop_last()) + planned(fields.last(), shape(fields.last())).methods()
    }
}

/// The name of the builder of a record.
pub open spec fn builder_name(record: Seq<char>) -> Seq<char> {
    record + "Builder"@
}

/// The name of the function that the record gets: it returns the empty
/// builder.
pub open spec fn factory_name() -> Seq<char> {
    "builder"@
}

/// The name under which the builder assembles the record.
pub open spec fn build_name() -> Seq<char> {
    "build"@
}

/// The builder for a record all of whose decorators are well-formed.
pub open spec fn unit_of(schema: RecordSchemaView) -> GeneratedUnitView {
    GeneratedUnitView {
        record_name: schema.name,
        builder_type_name: builder_name(schema.name),
        storage_fields: Seq::new(
            schema.fields.len(),
            |i: int| storage_of(schema.fields[i], shape(schema.fields[i])),
        ),
        methods: methods_of(schema.fields),
        zero_value_ctor: Seq::new(schema.fields.len(), |i: int| initial_of(shape(schema.fields[i]))),
        build_routine: Seq::new(
            schema.fields.len(),
            |i: int| step_of(schema.fields[i], shape(schema.fields[i])),
        ),
    }
}

/// A field is malformed when its decorator is.
pub open spec fn malformed(f: FieldSchemaView) -> bool {
    shape_of(f) is Err
}

/// What is generated for a record: the builder, or the diagnostic of the
/// first field whose decorator is malformed.
pub open spec fn generated(schema: RecordSchemaView) -> Result<GeneratedUnitView, DiagnosticView> {
    match first(schema.fields, |f: FieldSchemaView| malformed(f)) {
        Some(i) => Err(shape_of(schema.fields[i])->Err_0),
        None => Ok(unit_of(schema)),
    }
}

impl RecordSchemaView {
    /// Every field of the record can be generated for.
    pub open spec fn supported(self) -> bool {
        forall|i: int| 0 <= i < self.fields.len() ==> supported(#[trigger] self.fields[i])
    }
}

/// Every method for the given fields belongs to one of them: it acts on
/// that field, and fits what the slot of that field starts out with.
pub proof fn lemma_methods_owned(fields: Seq<FieldSchemaView>, k: int) -> (i: int)
    requires
        0 <= k < methods_of(fields).len(),
    ensures
        0 <= i < fields.len(),
        methods_of(fields)[k].field == fields[i].name,
        fits(methods_of(fields)[k].action, initial_of(shape(fields[i]))),
        planned(fields[i], shape(fields[i])).methods().contains(methods_of(fields)[k]),
    decreases fields.len(),
{
    let before = methods_of(fields.drop_last());
    let last = planned(fields.last(), shape(fields.last())).methods();
    if k < before.len() {
        let i = lemma_methods_owned(fields.drop_last(), k);
        i
    } else {
        let i = fields.len() - 1;
        i
    }
}

/// The methods planned for a field are among the methods of the fields.
pub proof fn lemma_methods_present(fields: Seq<FieldSchemaView>, i: int, m: MethodView) -> (k: int)
    requires
        0 <= i < fields.len(),
        planned(fields[i], shape(fields[i])).methods().contains(m),
    ensures
        0 <= k < methods_of(fields).len(),
        methods_of(fields)[k] == m,
    decreases fields.len(),
{
    let before = methods_of(fields.drop_last());
    let last = planned(fields.last(), shape(fields.last())).methods();
    if i < fields.len() - 1 {
        let k = lemma_methods_present(fields.drop_last(), i, m);
        k
    } else {
        let j = choose|j: int| 0 <= j < last.len() && last[j] == m;
        before.len() + j
    }
}

/// The parts of a generated builder agree.
pub proof fn lemma_unit_wf(schema: RecordSchemaView)
    ensures
        unit_of(schema).wf(),
{
    let unit = unit_of(schema);
    assert forall|k: int| 0 <= k < unit.methods.len() implies exists|i: int|
        0 <= i < unit.storage_fields.len() && (#[trigger] unit.storage_fields[i]).name == (
        #[trigger] unit.methods[k]).field && fits(
            unit.methods[k].action,
            unit.zero_value_ctor[i],
        ) by {
        let i = lemma_methods_owned(schema.fields, k);
        assert(unit.storage_fields[i].name == unit.methods[k].field);
    }
}

/// A generated builder: what is handed on to be rendered as code.
#[derive(Debug, PartialEq, Eq)]
pub struct GeneratedUnit<'a> {
    record_name: String,
    builder_type_name: String,
    storage_fields: Vec<StorageField<'a>>,
    methods: Vec<Method<'a>>,
    zero_value_ctor: Vec<Initial>,
    build_routine: Vec<BuildStep>,
}

impl<'a> View for GeneratedUnit<'a> {
    type V = GeneratedUnitView;

    closed spec fn view(&self) -> GeneratedUnitView {
        GeneratedUnitView {
            record_name: self.record_name@,
            builder_type_name: self.builder_type_name@,
            storage_fields: self.storage_fields.deep_view(),
            methods: self.methods.deep_view(),
            zero_value_ctor: self.zero_value_ctor.deep_view(),
            build_routine: self.build_routine.deep_view(),
        }
    }
}

impl<'a> GeneratedUnit<'a> {
    /// The parts of a generated builder agree.
    #[verifier::type_invariant]
    pub open spec fn inv(self) -> bool {
        self@.wf()
    }

    /// The name of the function that the record gets: it returns the
    /// empty builder.
    pub fn factory_name(&self) -> (r: String)
        ensures
            r@ == factory_name(),
    {
        "builder".to_owned()
    }

    /// The name under which the builder assembles the record.
    pub fn build_name(&self) -> (r: String)
        ensures
            r@ == build_name(),
    {
        "build".to_owned()
    }

    /// The name of the record that the builder assembles.
    pub fn record_name(&self) -> (r: &String)
        ensures
            r@ == self@.record_name,
    {
        &self.record_name
    }

    /// The name of the builder's type.
    pub fn builder_type_name(&self) -> (r: &String)
        ensures
            r@ == self@.builder_type_name,
    {
        &self.builder_type_name
    }

    /// The fields of the builder, one per field of the record, in order.
    pub fn storage_fields(&self) -> (r: &Vec<StorageField<'a>>)
        ensures
            r.deep_view() == self@.storage_fields,
    {
        &self.storage_fields
    }

    /// The methods of the builder, in the order of their declaration.
    pub fn methods(&self) -> (r: &Vec<Method<'a>>)
        ensures
            r.deep_view() == self@.methods,
    {
        &self.methods
    }

    /// What each field of the empty builder holds.
    pub fn zero_value_ctor(&self) -> (r: &Vec<Initial>)
        ensures
            r.deep_view() == self@.zero_value_ctor,
    {
        &self.zero_value_ctor
    }

    /// How each field of the record is taken from the builder, in order.
    /// Assembly stops at the first required field that is absent.
    pub fn build_routine(&self) -> (r: &Vec<BuildStep>)
        ensures
            r.deep_view() == self@.build_routine,
    {
        &self.build_routine
    }
}

fn storage_for<'a>(f: &'a FieldSchema, shape: &FieldShape<'a>) -> (r: StorageField<'a>)
    ensures
        r@ == storage_of(f@, shape@),
{
    let ty = match shape {
        FieldShape::Plain { ty } => SlotType::OptionOf { ty },
        FieldShape::Optional { inner: _ } => SlotType::Declared { ty: &f.declared_type },
        FieldShape::Repeated { element: _, method_name: _ } => SlotType::Declared {
            ty: &f.declared_type,
        },
    };
    StorageField { name: f.name.clone(), ty }
}

fn initial_for<'a>(shape: &FieldShape<'a>) -> (r: Initial)
    ensures
        r == initial_of(shape@),
{
    match shape {
        FieldShape::Plain { ty: _ } => Initial::Absent,
        FieldShape::Optional { inner: _ } => Initial::Absent,
        FieldShape::Repeated { element: _, method_name: _ } => Initial::Empty,
    }
}

fn step_for<'a>(f: &'a FieldSchema, shape: &FieldShape<'a>) -> (r: BuildStep)
    ensures
        r@ == step_of(f@, shape@),
{
    match shape {
        FieldShape::Plain { ty: _ } => {
            let mut message = f.name.clone();
            message.append(" is not set");
            BuildStep::Require { message }
        },
        FieldShape::Optional { inner: _ } => BuildStep::Copy,
        FieldShape::Repeated { element: _, method_name: _ } => BuildStep::Copy,
    }
}

/// Pushing onto a vector pushes the element's view onto the vector's view.
proof fn lemma_push_view<T: DeepView>(before: Vec<T>, after: Vec<T>, x: T)
    requires
        after@ == before@.push(x),
    ensures
        after.deep_view() == before.deep_view().push(x.deep_view()),
{
}

/// Generates the builder for a record.
///
/// The fields are taken in order. The first field whose decorator is
/// malformed ends the generation with its diagnostic, and no builder is
/// generated then.
///
/// A decorator that names an appender must stand on a field whose type
/// is `Vec` of one type; `derive_checked` tests that first.
pub fn derive<'a>(input: &'a RecordSchema) -> (r: Result<GeneratedUnit<'a>, Diagnostic>)
    requires
        input@.supported(),
    ensures
        match r {
            Ok(unit) => generated(input@) == Ok::<GeneratedUnitView, DiagnosticView>(unit@),
            Err(diagnostic) => generated(input@) == Err::<GeneratedUnitView, DiagnosticView>(
                diagnostic@,
            ),
        },
{
    let ghost fields = input@.fields;
    let ghost p = |f: FieldSchemaView| malformed(f);
    let mut builder_type_name = input.name.clone();
    builder_type_name.append("Builder");
    let mut storage_fields: Vec<StorageField<'a>> = Vec::new();
    let mut methods: Vec<Method<'a>> = Vec::new();
    let mut zero_value_ctor: Vec<Initial> = Vec::new();
    let mut build_routine: Vec<BuildStep> = Vec::new();
    let mut i: usize = 0;
    while i < input.fields.len()
        invariant
            i <= input.fields.len(),
            fields == input@.fields,
            input@.supported(),
            p == (|f: FieldSchemaView| malformed(f)),
            forall|j: int| 0 <= j < i ==> !p(#[trigger] fields[j]),
            storage_fields.deep_view() =~= Seq::new(
                i as nat,
                |j: int| storage_of(fields[j], shape(fields[j])),
            ),
            zero_value_ctor.deep_view() =~= Seq::new(
                i as nat,
                |j: int| initial_of(shape(fields[j])),
            ),
            build_routine.deep_view() =~= Seq::new(
                i as nat,
                |j: int| step_of(fields[j], shape(fields[j])),
            ),
            methods.deep_view() =~= methods_of(fields.take(i as int)),
        decreases input.fields.len() - i,
    {
        let f = &input.fields[i];
        assert(fields[i as int] == f@);
        let shape = match field_shape(f) {
            Ok(shape) => shape,
            Err(diagnostic) => {
                proof {
                    lemma_first_is(fields, p, i as int);
                }
                return Err(diagnostic);
            },
        };
        let plan = plan_methods(f, &shape);
        let ghost storage_before = storage_fields;
        let ghost initial_before = zero_value_ctor;
        let ghost steps_before = build_routine;
        let storage = storage_for(f, &shape);
        let initial = initial_for(&shape);
        let step = step_for(f, &shape);
        let ghost pushed = (storage, initial, step);
        storage_fields.push(storage);
        zero_value_ctor.push(initial);
        build_routine.push(step);
        let set_whole = plan.set_whole;
        let append_one = plan.append_one;
        if let Some(method) = set_whole {
            methods.push(method);
        }
        if let Some(method) = append_one {
            methods.push(method);
        }
        proof {
            lemma_push_view(storage_before, storage_fields, pushed.0);
            lemma_push_view(initial_before, zero_value_ctor, pushed.1);
            lemma_push_view(steps_before, build_routine, pushed.2);
            assert(fields.take(i + 1).drop_last() =~= fields.take(i as int));
        }
        i = i + 1;
    }
    proof {
        assert(fields.take(i as int) =~= fields);
        lemma_first_none(fields, p);
        lemma_unit_wf(input@);
    }
    let unit = GeneratedUnit {
        record_name: input.name.clone(),
        builder_type_name,
        storage_fields,
        methods,
        zero_value_ctor,
        build_routine,
    };
    Ok(unit)
}

/// Generates the builder for a record if every field can be generated
/// for, and nothing otherwise.
pub fn derive_checked<'a>(input: &'a RecordSchema) -> (r: Option<
    Result<GeneratedUnit<'a>, Diagnostic>,
>)
    ensures
        match r {
            None => !input@.supported(),
            Some(Ok(unit)) => input@.supported() && generated(input@) == Ok::<
                GeneratedUnitView,
                DiagnosticView,
            >(unit@),
            Some(Err(diagnostic)) => input@.supported() && generated(input@) == Err::<
                GeneratedUnitView,
                DiagnosticView,
            >(diagnostic@),
        },
{
    let mut i: usize = 0;
    while i < input.fields.len()
        invariant
            i <= input.fields.len(),
            forall|j: int| 0 <= j < i ==> supported(#[trigger] input@.fields[j]),
        decreases input.fields.len() - i,
    {
        let f = &input.fields[i];
        assert(input@.fields[i as int] == f@);
        if !field_supported(f) {
            return None;
        }
        i = i + 1;
    }
    Some(derive(input))
}

} // verus!
