//! The metadata document: a self-describing record that carries the full
//! payload of a recorded value as named numbers, lists and strings.

use crate::numbers::Scalar;
use vstd::prelude::*;

verus! {

/// What a [`Value`] holds, as a mathematical value.
pub enum ValueView {
    /// A single-precision number.
    Number(Scalar),
    /// A list of single-precision numbers.
    Numbers(Seq<Scalar>),
    /// A list of whole numbers.
    Integers(Seq<int>),
    /// A list of strings.
    Texts(Seq<Seq<char>>),
}

/// The value of one field of a document.
#[derive(Debug, PartialEq, Eq)]
pub enum Value {
    /// A single-precision number.
    Number(Scalar),
    /// A list of single-precision numbers.
    Numbers(Vec<Scalar>),
    /// A list of whole numbers.
    Integers(Vec<i128>),
    /// A list of strings.
    Texts(Vec<String>),
}

/// The strings of a list, each as its characters.
pub open spec fn texts_of(values: Seq<String>) -> Seq<Seq<char>> {
    Seq::new(values.len(), |i: int| values[i]@)
}

/// The numbers of a list, each as a mathematical integer.
pub open spec fn integers_of(values: Seq<i128>) -> Seq<int> {
    Seq::new(values.len(), |i: int| values[i] as int)
}

impl View for Value {
    type V = ValueView;

    open spec fn view(&self) -> ValueView {
        match self {
            Value::Number(value) => ValueView::Number(*value),
            Value::Numbers(values) => ValueView::Numbers(values@),
            Value::Integers(values) => ValueView::Integers(integers_of(values@)),
            Value::Texts(values) => ValueView::Texts(texts_of(values@)),
        }
    }
}

/// A copy of a list of numbers.
fn copy_numbers(values: &Vec<Scalar>) -> (copy: Vec<Scalar>)
    ensures
        copy@ == values@,
{
    let mut copy: Vec<Scalar> = Vec::new();
    let mut i: usize = 0;
    while i < values.len()
        invariant
            i <= values.len(),
            copy.len() == i,
            forall|j: int| 0 <= j < i ==> copy@[j] == values@[j],
        decreases values.len() - i,
    {
        copy.push(values[i]);
        i = i + 1;
    }
    assert(copy@ =~= values@);
    copy
}

/// A copy of a list of whole numbers.
fn copy_integers(values: &Vec<i128>) -> (copy: Vec<i128>)
    ensures
        copy@ == values@,
{
    let mut copy: Vec<i128> = Vec::new();
    let mut i: usize = 0;
    while i < values.len()
        invariant
            i <= values.len(),
            copy.len() == i,
            forall|j: int| 0 <= j < i ==> copy@[j] == values@[j],
        decreases values.len() - i,
    {
        copy.push(values[i]);
        i = i + 1;
    }
    assert(copy@ =~= values@);
    copy
}

/// A copy of a list of strings.
fn copy_texts(values: &Vec<String>) -> (copy: Vec<String>)
    ensures
        texts_of(copy@) == texts_of(values@),
{
    let mut copy: Vec<String> = Vec::new();
    let mut i: usize = 0;
    while i < values.len()
        invariant
            i <= values.len(),
            copy.len() == i,
            forall|j: int| 0 <= j < i ==> copy@[j]@ == values@[j]@,
        decreases values.len() - i,
    {
        copy.push(values[i].clone());
        i = i + 1;
    }
    assert(texts_of(copy@) =~= texts_of(values@));
    copy
}

impl Value {
    /// The list of the given counts or indices, in their order.
    pub fn indices(values: &Vec<usize>) -> (list: Value)
        ensures
            list@ == ValueView::Integers(Seq::new(values@.len(), |i: int| values@[i] as int)),
    {
        let mut items: Vec<i128> = Vec::new();
        let mut i: usize = 0;
        while i < values.len()
            invariant
                i <= values.len(),
                items.len() == i,
                forall|j: int| 0 <= j < i ==> items@[j] == values@[j],
            decreases values.len() - i,
        {
            items.push(values[i] as i128);
            i = i + 1;
        }
        assert(integers_of(items@) =~= Seq::new(values@.len(), |i: int| values@[i] as int));
        Value::Integers(items)
    }

    /// The list of the given signed numbers, in their order.
    pub fn signed(values: &Vec<i32>) -> (list: Value)
        ensures
            list@ == ValueView::Integers(Seq::new(values@.len(), |i: int| values@[i] as int)),
    {
        let mut items: Vec<i128> = Vec::new();
        let mut i: usize = 0;
        while i < values.len()
            invariant
                i <= values.len(),
                items.len() == i,
                forall|j: int| 0 <= j < i ==> items@[j] == values@[j],
            decreases values.len() - i,
        {
            items.push(values[i] as i128);
            i = i + 1;
        }
        assert(integers_of(items@) =~= Seq::new(values@.len(), |i: int| values@[i] as int));
        Value::Integers(items)
    }

    /// The list of the given strings, in their order.
    pub fn texts(values: &Vec<String>) -> (list: Value)
        ensures
            list@ == ValueView::Texts(texts_of(values@)),
    {
        Value::Texts(copy_texts(values))
    }
}

impl Clone for Value {
    /// A copy that holds the same value.
    fn clone(&self) -> (copy: Value)
        ensures
            copy@ == self@,
    {
        match self {
            Value::Number(value) => Value::Number(*value),
            Value::Numbers(values) => Value::Numbers(copy_numbers(values)),
            Value::Integers(values) => Value::Integers(copy_integers(values)),
            Value::Texts(values) => Value::Texts(copy_texts(values)),
        }
    }
}

/// A metadata document: named fields, in the order in which they were
/// written.
#[derive(Debug, PartialEq, Eq)]
pub struct Document {
    pub fields: Vec<(String, Value)>,
}

/// The name and the value of each field, in order.
pub open spec fn fields_of(fields: Seq<(String, Value)>) -> Seq<(Seq<char>, ValueView)> {
    Seq::new(fields.len(), |i: int| (fields[i].0@, fields[i].1@))
}

impl View for Document {
    type V = Seq<(Seq<char>, ValueView)>;

    open spec fn view(&self) -> Seq<(Seq<char>, ValueView)> {
        fields_of(self.fields@)
    }
}

impl Document {
    /// The document without fields.
    pub fn new() -> (doc: Document)
        ensures
            doc@ == Seq::<(Seq<char>, ValueView)>::empty(),
    {
        let doc = Document { fields: Vec::new() };
        assert(doc@ =~= Seq::<(Seq<char>, ValueView)>::empty());
        doc
    }

    /// Writes one more field behind those that are there.
    pub fn with(self, key: &str, value: Value) -> (doc: Document)
        ensures
            doc@ == self@.push((key@, value@)),
    {
        let mut fields = self.fields;
        let ghost before = fields@;
        fields.push((key.to_string(), value));
        assert(fields_of(fields@) =~= fields_of(before).push((key@, value@)));
        Document { fields }
    }
}

impl Clone for Document {
    /// A copy that holds the same document.
    fn clone(&self) -> (copy: Document)
        ensures
            copy@ == self@,
    {
        let mut fields: Vec<(String, Value)> = Vec::new();
        let mut i: usize = 0;
        while i < self.fields.len()
            invariant
                i <= self.fields.len(),
                fields.len() == i,
                forall|j: int|
                    0 <= j < i ==> fields@[j].0@ == self.fields@[j].0@ && fields@[j].1@
                        == self.fields@[j].1@,
            decreases self.fields.len() - i,
        {
            let key = self.fields[i].0.clone();
            let value = self.fields[i].1.clone();
            fields.push((key, value));
            i = i + 1;
        }
        assert(fields_of(fields@) =~= fields_of(self.fields@));
        Document { fields }
    }
}

} // verus!
