//! Untyped, self-describing values: the shape in which a factor listing
//! arrives before it is parsed.

use crate::text::same_text;
use vstd::prelude::*;

verus! {

/// An untyped value as a transport hands it over.
#[derive(Debug, PartialEq, Eq)]
pub enum Value {
    /// The explicit absence of a value.
    Null,
    /// A truth value.
    Bool(bool),
    /// A number, kept as its decimal text; nothing here interprets it.
    Number(String),
    /// A string.
    Text(String),
    /// An ordered list of values.
    List(Vec<Value>),
    /// A record: named fields, in the order in which they were written.
    Record(Vec<(String, Value)>),
}

/// The mathematical content of a [`Value`].
pub ghost enum ValueView {
    Null,
    Bool(bool),
    Number(Seq<char>),
    Text(Seq<char>),
    List(Seq<ValueView>),
    Record(Seq<(Seq<char>, ValueView)>),
}

/// The content of a list of values, item by item.
pub open spec fn view_items(items: Vec<Value>) -> Seq<ValueView>
    decreases items, 0int,
{
    Seq::new(
        items@.len(),
        |i: int|
            if 0 <= i < items@.len() {
                view_value(items@[i])
            } else {
                ValueView::Null
            },
    )
}

/// The content of the fields of a record, field by field.
pub open spec fn view_fields(fields: Vec<(String, Value)>) -> Seq<(Seq<char>, ValueView)>
    decreases fields, 0int,
{
    Seq::new(
        fields@.len(),
        |i: int|
            if 0 <= i < fields@.len() {
                (fields@[i].0@, view_value(fields@[i].1))
            } else {
                (Seq::empty(), ValueView::Null)
            },
    )
}

/// The content of a value.
pub open spec fn view_value(v: Value) -> ValueView
    decreases v, 1int,
{
    match v {
        Value::Null => ValueView::Null,
        Value::Bool(b) => ValueView::Bool(b),
        Value::Number(n) => ValueView::Number(n@),
        Value::Text(t) => ValueView::Text(t@),
        Value::List(items) => ValueView::List(view_items(items)),
        Value::Record(fields) => ValueView::Record(view_fields(fields)),
    }
}

impl View for Value {
    type V = ValueView;

    open spec fn view(&self) -> ValueView {
        view_value(*self)
    }
}

impl ValueView {
    /// The text that the value is; nothing for a value of any other shape.
    pub open spec fn text(self) -> Option<Seq<char>> {
        match self {
            ValueView::Text(t) => Some(t),
            _ => None,
        }
    }

    /// The field called `name` of a record; nothing for a value that is no
    /// record, or a record without that field.
    pub open spec fn field(self, name: Seq<char>) -> Option<ValueView> {
        match self {
            ValueView::Record(fields) => find(fields, name),
            _ => None,
        }
    }
}

/// The first field called `name` at or after position `start`.
pub open spec fn find_from(
    fields: Seq<(Seq<char>, ValueView)>,
    name: Seq<char>,
    start: int,
) -> Option<ValueView>
    decreases fields.len() - start,
{
    if start < 0 || start >= fields.len() {
        None
    } else if fields[start].0 == name {
        Some(fields[start].1)
    } else {
        find_from(fields, name, start + 1)
    }
}

/// The field called `name`: where the name occurs more than once, the first
/// occurrence counts.
pub open spec fn find(fields: Seq<(Seq<char>, ValueView)>, name: Seq<char>) -> Option<ValueView> {
    find_from(fields, name, 0)
}

/// The mapping that named entries stand for: each name that occurs, with the
/// value of its first occurrence.
pub open spec fn as_map(entries: Seq<(Seq<char>, ValueView)>) -> Map<Seq<char>, ValueView> {
    Map::new(|name: Seq<char>| find(entries, name) is Some, |name: Seq<char>| find(entries, name)->0)
}

/// The content of a value that may be absent.
pub open spec fn view_found(found: Option<&Value>) -> Option<ValueView> {
    match found {
        Some(v) => Some(v@),
        None => None,
    }
}

/// Looks a field up by name among the fields of a record, or a relation
/// among the links of a factor: what the mapping that the entries stand for
/// holds under the name.
pub fn lookup<'a>(fields: &'a Vec<(String, Value)>, name: &str) -> (found: Option<&'a Value>)
    ensures
        view_found(found) == find(view_fields(*fields), name@),
        match found {
            Some(v) => as_map(view_fields(*fields)).contains_key(name@) && as_map(
                view_fields(*fields),
            )[name@] == v@,
            None => !as_map(view_fields(*fields)).contains_key(name@),
        },
{
    let mut i: usize = 0;
    while i < fields.len()
        invariant
            i <= fields.len(),
            find(view_fields(*fields), name@) == find_from(view_fields(*fields), name@, i as int),
        decreases fields.len() - i,
    {
        if same_text(fields[i].0.as_str(), name) {
            return Some(&fields[i].1);
        }
        i += 1;
    }
    None
}

impl Value {
    /// The field called `name`, if the value is a record that has one.
    pub fn get(&self, name: &str) -> (found: Option<&Value>)
        ensures
            view_found(found) == self@.field(name@),
    {
        match self {
            Value::Record(fields) => lookup(fields, name),
            _ => None,
        }
    }

    /// The string that the value is, if it is one.
    pub fn as_text(&self) -> (text: Option<&String>)
        ensures
            match text {
                Some(t) => self@.text() == Some(t@),
                None => self@.text() is None,
            },
    {
        match self {
            Value::Text(t) => Some(t),
            _ => None,
        }
    }
}

impl Clone for Value {
    /// A deep copy: the copy has the content of the value it is made from.
    fn clone(&self) -> (copy: Value)
        ensures
            copy@ == self@,
        decreases self,
    {
        match self {
            Value::Null => Value::Null,
            Value::Bool(b) => Value::Bool(*b),
            Value::Number(n) => Value::Number(n.clone()),
            Value::Text(t) => Value::Text(t.clone()),
            Value::List(items) => Value::List(clone_items(items)),
            Value::Record(fields) => Value::Record(clone_fields(fields)),
        }
    }
}

/// Copies a list of values, item by item.
fn clone_items(items: &Vec<Value>) -> (copy: Vec<Value>)
    ensures
        view_items(copy) == view_items(*items),
    decreases items,
{
    let mut copy: Vec<Value> = Vec::new();
    let mut i: usize = 0;
    while i < items.len()
        invariant
            i <= items.len(),
            copy@.len() == i,
            forall|k: int| 0 <= k < i ==> (#[trigger] copy@[k])@ == items@[k]@,
        decreases items.len() - i,
    {
        copy.push(items[i].clone());
        i += 1;
    }
    assert(view_items(copy) =~= view_items(*items));
    copy
}

/// Copies the fields of a record, or the links of a factor, entry by entry.
pub fn clone_fields(fields: &Vec<(String, Value)>) -> (copy: Vec<(String, Value)>)
    ensures
        view_fields(copy) == view_fields(*fields),
    decreases fields,
{
    let mut copy: Vec<(String, Value)> = Vec::new();
    let mut i: usize = 0;
    while i < fields.len()
        invariant
            i <= fields.len(),
            copy@.len() == i,
            forall|k: int|
                0 <= k < i ==> (#[trigger] copy@[k]).0@ == fields@[k].0@ && copy@[k].1@
                    == fields@[k].1@,
        decreases fields.len() - i,
    {
        copy.push((fields[i].0.clone(), fields[i].1.clone()));
        i += 1;
    }
    assert(view_fields(copy) =~= view_fields(*fields));
    copy
}

} // verus!
