//! The document model: gap policies, field values, and operator documents.

use vstd::prelude::*;

use crate::keymap::KeyMap;

verus! {

/// How a pipeline aggregation treats buckets with missing data: skip them,
/// or treat the missing value as zero.
#[derive(Clone, Copy, PartialEq, Eq, Structural, Debug)]
pub enum GapPolicy {
    Skip,
    InsertZeros,
}

impl GapPolicy {
    /// The fixed token this policy serializes to inside an operator document.
    pub open spec fn spec_token(self) -> Seq<char> {
        match self {
            GapPolicy::Skip => "skip"@,
            GapPolicy::InsertZeros => "insert_zeros"@,
        }
    }

    /// The serialized form of this policy.
    pub fn token(&self) -> (t: String)
        ensures
            t@ == self.spec_token(),
    {
        match self {
            GapPolicy::Skip => "skip".to_owned(),
            GapPolicy::InsertZeros => "insert_zeros".to_owned(),
        }
    }
}

/// A value stored under a field key: a string, an integer, or a map from
/// bucket-path variable names to bucket-path expressions.
#[derive(Clone, PartialEq, Eq, Debug)]
pub enum FieldValue {
    Text(String),
    Integer(i64),
    Paths(KeyMap<String>),
}

/// The mathematical value of a field.
pub enum FieldView {
    Text(Seq<char>),
    Integer(int),
    Paths(Map<Seq<char>, Seq<char>>),
}

impl View for FieldValue {
    type V = FieldView;

    open spec fn view(&self) -> FieldView {
        match self {
            FieldValue::Text(s) => FieldView::Text(s@),
            FieldValue::Integer(n) => FieldView::Integer(*n as int),
            FieldValue::Paths(m) => FieldView::Paths(m@),
        }
    }
}

/// One aggregation-query node: a single-key document, keyed by the
/// operator's name, holding that operator's field map.
#[derive(Clone, PartialEq, Eq, Debug)]
pub struct OperatorDoc {
    name: String,
    fields: KeyMap<FieldValue>,
}

/// The mathematical value of an operator document.
pub struct DocView {
    pub name: Seq<char>,
    pub fields: Map<Seq<char>, FieldView>,
}

impl View for OperatorDoc {
    type V = DocView;

    closed spec fn view(&self) -> DocView {
        DocView { name: self.name@, fields: self.fields@ }
    }
}

impl OperatorDoc {
    /// Well-formedness: the field map keeps pairwise-distinct keys.
    pub closed spec fn wf(&self) -> bool {
        self.fields.wf()
    }

    /// Wrap a field map under an operator name.
    pub fn new(name: String, fields: KeyMap<FieldValue>) -> (d: OperatorDoc)
        ensures
            d@.name == name@,
            d@.fields == fields@,
            fields.wf() ==> d.wf(),
    {
        OperatorDoc { name, fields }
    }

    /// The operator's name: the document's single top-level key.
    pub fn operator(&self) -> (n: &String)
        ensures
            n@ == self@.name,
    {
        &self.name
    }

    /// The operator's field map.
    pub fn fields(&self) -> (f: &KeyMap<FieldValue>)
        ensures
            f@ == self@.fields,
            self.wf() ==> f.wf(),
    {
        &self.fields
    }
}

} // verus!
