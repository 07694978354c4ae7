//! The Bokeh document model: objects with an id, a type name and ordered
//! attributes, and the values those attributes hold.

use vstd::prelude::*;

verus! {

/// A value held by a Bokeh model attribute.
pub enum BokehValue {
    Null,
    Bool(bool),
    Int(i64),
    /// A number, held as the IEEE-754 bit pattern of an `f64`.
    Float(u64),
    /// The number NaN, written as `{"type":"number","value":"nan"}`.
    NaN,
    Str(String),
    /// A reference `{"id": ...}` to a model defined elsewhere in the document.
    Ref(String),
    /// A data-source column reference `{"type":"field","field":...}`.
    Field(String),
    /// A column reference with a transform applied to it.
    FieldTransform { field: String, transform: Box<BokehValue> },
    /// A literal value wrapper `{"type":"value","value":...}`.
    Value(Box<BokehValue>),
    Array(Vec<BokehValue>),
    /// An ordered map `{"type":"map","entries":[[k, v], ...]}`.
    Entries(Vec<(String, BokehValue)>),
    /// A model defined inline.
    Object(Box<BokehObject>),
}

/// A Bokeh model: `{"type":"object","name":...,"id":...,"attributes":{...}}`.
pub struct BokehObject {
    pub name: String,
    pub id: String,
    pub attributes: Vec<(String, BokehValue)>,
}

/// The mathematical value a [`BokehValue`] stands for.
#[verifier::ext_equal]
pub enum ModelValue {
    Null,
    Bool(bool),
    Int(i64),
    Float(u64),
    NaN,
    Str(Seq<char>),
    Ref(Seq<char>),
    Field(Seq<char>),
    FieldTransform(Seq<char>, Box<ModelValue>),
    Value(Box<ModelValue>),
    Array(Seq<ModelValue>),
    Entries(Seq<(Seq<char>, ModelValue)>),
    Object(Box<ModelObject>),
}

/// The mathematical value a [`BokehObject`] stands for.
#[verifier::ext_equal]
pub struct ModelObject {
    pub name: Seq<char>,
    pub id: Seq<char>,
    pub attrs: Seq<(Seq<char>, ModelValue)>,
}

/// A model with the given name, id and attributes.
pub open spec fn mobj(name: Seq<char>, id: Seq<char>, attrs: Seq<(Seq<char>, ModelValue)>) -> ModelObject {
    ModelObject { name, id, attrs }
}

/// An inline model value.
pub open spec fn mval(o: ModelObject) -> ModelValue {
    ModelValue::Object(Box::new(o))
}

/// The view of an optional model.
pub open spec fn opt_view(o: Option<BokehObject>) -> Option<ModelObject> {
    match o {
        Some(x) => Some(view_object(x)),
        None => None,
    }
}

/// A string value.
pub open spec fn mstr(s: Seq<char>) -> ModelValue {
    ModelValue::Str(s)
}

pub open spec fn view_value(v: BokehValue) -> ModelValue
    decreases v,
{
    match v {
        BokehValue::Null => ModelValue::Null,
        BokehValue::Bool(b) => ModelValue::Bool(b),
        BokehValue::Int(i) => ModelValue::Int(i),
        BokehValue::Float(f) => ModelValue::Float(f),
        BokehValue::NaN => ModelValue::NaN,
        BokehValue::Str(s) => ModelValue::Str(s@),
        BokehValue::Ref(s) => ModelValue::Ref(s@),
        BokehValue::Field(s) => ModelValue::Field(s@),
        BokehValue::FieldTransform { field, transform } => ModelValue::FieldTransform(
            field@,
            Box::new(view_value(*transform)),
        ),
        BokehValue::Value(inner) => ModelValue::Value(Box::new(view_value(*inner))),
        BokehValue::Array(a) => ModelValue::Array(view_values(a@)),
        BokehValue::Entries(e) => ModelValue::Entries(view_attrs(e@)),
        BokehValue::Object(o) => ModelValue::Object(Box::new(view_object(*o))),
    }
}

pub open spec fn view_values(s: Seq<BokehValue>) -> Seq<ModelValue>
    decreases s,
{
    if s.len() == 0 {
        Seq::empty()
    } else {
        view_values(s.drop_last()).push(view_value(s.last()))
    }
}

pub open spec fn view_attrs(s: Seq<(String, BokehValue)>) -> Seq<(Seq<char>, ModelValue)>
    decreases s,
{
    if s.len() == 0 {
        Seq::empty()
    } else {
        view_attrs(s.drop_last()).push((s.last().0@, view_value(s.last().1)))
    }
}

pub open spec fn view_object(o: BokehObject) -> ModelObject
    decreases o,
{
    ModelObject { name: o.name@, id: o.id@, attrs: view_attrs(o.attributes@) }
}

impl View for BokehValue {
    type V = ModelValue;

    open spec fn view(&self) -> ModelValue {
        view_value(*self)
    }
}

impl View for BokehObject {
    type V = ModelObject;

    open spec fn view(&self) -> ModelObject {
        view_object(*self)
    }
}


/// Viewing a sequence of values after a push adds the pushed value's view.
pub proof fn lemma_view_values_push(s: Seq<BokehValue>, x: BokehValue)
    ensures
        view_values(s.push(x)) == view_values(s).push(view_value(x)),
{
    assert(s.push(x).drop_last() =~= s);
}

/// Viewing a sequence of attributes after a push adds the pushed pair's view.
pub proof fn lemma_view_attrs_push(s: Seq<(String, BokehValue)>, k: String, x: BokehValue)
    ensures
        view_attrs(s.push((k, x))) == view_attrs(s).push((k@, view_value(x))),
{
    assert(s.push((k, x)).drop_last() =~= s);
}

/// The view of a sequence of values is taken element by element.
pub proof fn lemma_view_values_index(s: Seq<BokehValue>)
    ensures
        view_values(s).len() == s.len(),
        forall|i: int| 0 <= i < s.len() ==> #[trigger] view_values(s)[i] == view_value(s[i]),
    decreases s.len(),
{
    if s.len() > 0 {
        lemma_view_values_index(s.drop_last());
    }
}

/// The view of a sequence of attributes is taken pair by pair.
pub proof fn lemma_view_attrs_index(s: Seq<(String, BokehValue)>)
    ensures
        view_attrs(s).len() == s.len(),
        forall|i: int|
            0 <= i < s.len() ==> #[trigger] view_attrs(s)[i] == (s[i].0@, view_value(s[i].1)),
    decreases s.len(),
{
    if s.len() > 0 {
        lemma_view_attrs_index(s.drop_last());
    }
}

impl BokehObject {
    /// A model with the given type name and id and no attributes.
    pub fn new(name: &str, id: String) -> (r: Self)
        ensures
            r@ == (ModelObject { name: name@, id: id@, attrs: Seq::empty() }),
    {
        let r = BokehObject { name: String::from_str(name), id, attributes: Vec::new() };
        proof {
            assert(r.attributes@ =~= Seq::<(String, BokehValue)>::empty());
        }
        r
    }

    /// Append the attribute `key = value` (builder style).
    pub fn attr(self, key: &str, value: BokehValue) -> (r: Self)
        ensures
            r@ == (ModelObject {
                name: self@.name,
                id: self@.id,
                attrs: self@.attrs.push((key@, value@)),
            }),
    {
        let mut r = self;
        let k = String::from_str(key);
        proof {
            lemma_view_attrs_push(r.attributes@, k, value);
        }
        r.attributes.push((k, value));
        r
    }

    /// Wrap this model as an inline attribute value.
    pub fn into_value(self) -> (r: BokehValue)
        ensures
            r@ == ModelValue::Object(Box::new(self@)),
    {
        BokehValue::Object(Box::new(self))
    }
}

impl BokehValue {
    /// A reference to the model with the given id.
    pub fn ref_of(id: &str) -> (r: Self)
        ensures
            r@ == ModelValue::Ref(id@),
    {
        BokehValue::Ref(String::from_str(id))
    }

    /// A reference to a data-source column.
    pub fn field(name: &str) -> (r: Self)
        ensures
            r@ == ModelValue::Field(name@),
    {
        BokehValue::Field(String::from_str(name))
    }

    /// A literal value wrapper around `v`.
    pub fn value_of(v: BokehValue) -> (r: Self)
        ensures
            r@ == ModelValue::Value(Box::new(v@)),
    {
        BokehValue::Value(Box::new(v))
    }

    /// A column reference with a transform (such as a color mapper).
    pub fn field_transform(field: &str, transform: BokehValue) -> (r: Self)
        ensures
            r@ == ModelValue::FieldTransform(field@, Box::new(transform@)),
    {
        BokehValue::FieldTransform { field: String::from_str(field), transform: Box::new(transform) }
    }
}

impl Clone for BokehValue {
    fn clone(&self) -> (r: Self)
        ensures
            r@ == self@,
        decreases self,
    {
        match self {
            BokehValue::Null => BokehValue::Null,
            BokehValue::Bool(b) => BokehValue::Bool(*b),
            BokehValue::Int(i) => BokehValue::Int(*i),
            BokehValue::Float(f) => BokehValue::Float(*f),
            BokehValue::NaN => BokehValue::NaN,
            BokehValue::Str(s) => BokehValue::Str(s.clone()),
            BokehValue::Ref(s) => BokehValue::Ref(s.clone()),
            BokehValue::Field(s) => BokehValue::Field(s.clone()),
            BokehValue::FieldTransform { field, transform } => {
                let t = (**transform).clone();
                BokehValue::FieldTransform { field: field.clone(), transform: Box::new(t) }
            },
            BokehValue::Value(inner) => {
                let t = (**inner).clone();
                BokehValue::Value(Box::new(t))
            },
            BokehValue::Array(a) => BokehValue::Array(clone_values(a)),
            BokehValue::Entries(e) => BokehValue::Entries(clone_attrs(e)),
            BokehValue::Object(o) => {
                let c = (**o).clone();
                BokehValue::Object(Box::new(c))
            },
        }
    }
}

/// A copy of a value list, equal to it in the model.
pub fn clone_values(a: &Vec<BokehValue>) -> (r: Vec<BokehValue>)
    ensures
        view_values(r@) == view_values(a@),
    decreases a,
{
    let mut out: Vec<BokehValue> = Vec::new();
    let n = a.len();
    for i in 0..n
        invariant
            n == a@.len(),
            view_values(out@) == view_values(a@.take(i as int)),
    {
        let c = a[i].clone();
        proof {
            lemma_view_values_push(out@, c);
            lemma_view_values_push(a@.take(i as int), a@[i as int]);
            assert(a@.take(i as int).push(a@[i as int]) =~= a@.take(i + 1));
        }
        out.push(c);
    }
    proof {
        assert(a@.take(n as int) =~= a@);
    }
    out
}

/// A copy of an attribute list, equal to it in the model.
pub fn clone_attrs(e: &Vec<(String, BokehValue)>) -> (r: Vec<(String, BokehValue)>)
    ensures
        view_attrs(r@) == view_attrs(e@),
    decreases e,
{
    let mut out: Vec<(String, BokehValue)> = Vec::new();
    let n = e.len();
    for i in 0..n
        invariant
            n == e@.len(),
            view_attrs(out@) == view_attrs(e@.take(i as int)),
    {
        let k = e[i].0.clone();
        let c = e[i].1.clone();
        proof {
            lemma_view_attrs_push(out@, k, c);
            lemma_view_attrs_push(e@.take(i as int), e@[i as int].0, e@[i as int].1);
            assert(e@.take(i as int).push(e@[i as int]) =~= e@.take(i + 1));
        }
        out.push((k, c));
    }
    proof {
        assert(e@.take(n as int) =~= e@);
    }
    out
}

impl Clone for BokehObject {
    fn clone(&self) -> (r: Self)
        ensures
            r@ == self@,
        decreases self,
    {
        BokehObject {
            name: self.name.clone(),
            id: self.id.clone(),
            attributes: clone_attrs(&self.attributes),
        }
    }
}

} // verus!
