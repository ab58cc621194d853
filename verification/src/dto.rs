//! The values that travel to and from the database, as typed data.
//!
//! Every type here has a view: the same data with strings and vectors read
//! as sequences, which is what the contracts of the library speak of.
use vstd::prelude::*;

verus! {

/// A value in the database's tagged representation.
///
/// A double is held by its IEEE 754 bit pattern, a geographical point by the
/// bit patterns of its latitude and longitude, and bytes by the base64 text
/// that carries them. A map is a list of entries.
#[derive(Debug, PartialEq, Eq)]
pub enum Value {
    Null,
    Boolean(bool),
    Integer(i64),
    Double(u64),
    Timestamp(String),
    String(String),
    Bytes(String),
    Reference(String),
    GeoPoint(u64, u64),
    Array(Vec<Value>),
    Object(Vec<(String, Value)>),
}

/// The mathematical content of a [`Value`].
pub enum ValueView {
    Null,
    Boolean(bool),
    Integer(i64),
    Double(u64),
    Timestamp(Seq<char>),
    String(Seq<char>),
    Bytes(Seq<char>),
    Reference(Seq<char>),
    GeoPoint(u64, u64),
    Array(Seq<ValueView>),
    Object(Seq<(Seq<char>, ValueView)>),
}

/// The views of a list of values.
pub open spec fn values_view(items: Seq<Value>) -> Seq<ValueView>
    decreases items, 0nat,
{
    Seq::new(
        items.len(),
        |i: int|
            if 0 <= i < items.len() {
                value_view(items[i])
            } else {
                ValueView::Null
            },
    )
}

/// The views of a list of named values.
pub open spec fn fields_view(entries: Seq<(String, Value)>) -> Seq<(Seq<char>, ValueView)>
    decreases entries, 0nat,
{
    Seq::new(
        entries.len(),
        |i: int|
            if 0 <= i < entries.len() {
                (entries[i].0@, value_view(entries[i].1))
            } else {
                (Seq::empty(), ValueView::Null)
            },
    )
}

/// The view of a value.
pub open spec fn value_view(value: Value) -> ValueView
    decreases value, 1nat,
{
    match value {
        Value::Null => ValueView::Null,
        Value::Boolean(b) => ValueView::Boolean(b),
        Value::Integer(i) => ValueView::Integer(i),
        Value::Double(bits) => ValueView::Double(bits),
        Value::Timestamp(t) => ValueView::Timestamp(t@),
        Value::String(s) => ValueView::String(s@),
        Value::Bytes(b) => ValueView::Bytes(b@),
        Value::Reference(r) => ValueView::Reference(r@),
        Value::GeoPoint(latitude, longitude) => ValueView::GeoPoint(latitude, longitude),
        Value::Array(items) => ValueView::Array(values_view(items@)),
        Value::Object(entries) => ValueView::Object(fields_view(entries@)),
    }
}

impl View for Value {
    type V = ValueView;

    open spec fn view(&self) -> ValueView {
        value_view(*self)
    }
}

/// The keys of a list of entries, in order.
pub open spec fn keys_of<V>(entries: Seq<(Seq<char>, V)>) -> Seq<Seq<char>> {
    Seq::new(entries.len(), |i: int| entries[i].0)
}

/// No key occurs twice among the entries.
pub open spec fn distinct_keys<V>(entries: Seq<(Seq<char>, V)>) -> bool {
    forall|i: int, j: int|
        0 <= i < j < entries.len() ==> (#[trigger] entries[i]).0 != (#[trigger] entries[j]).0
}

impl ValueView {
    /// Every map inside the value, at any depth, has distinct keys.
    pub open spec fn well_formed(self) -> bool
        decreases self,
    {
        match self {
            ValueView::Array(items) => forall|i: int|
                0 <= i < items.len() ==> (#[trigger] items[i]).well_formed(),
            ValueView::Object(entries) => distinct_keys(entries) && forall|i: int|
                0 <= i < entries.len() ==> (#[trigger] entries[i]).1.well_formed(),
            _ => true,
        }
    }
}

/// A document: its resource name, its fields, and when it was created and
/// last updated, as the database reports them.
#[derive(Debug, PartialEq, Eq)]
pub struct Document {
    pub name: String,
    pub fields: Option<Vec<(String, Value)>>,
    pub create_time: Option<String>,
    pub update_time: Option<String>,
}

/// The mathematical content of a [`Document`].
pub struct DocumentView {
    pub name: Seq<char>,
    pub fields: Option<Seq<(Seq<char>, ValueView)>>,
    pub create_time: Option<Seq<char>>,
    pub update_time: Option<Seq<char>>,
}

/// The view of an optional string.
pub open spec fn text_view(text: Option<String>) -> Option<Seq<char>> {
    match text {
        Some(t) => Some(t@),
        None => None,
    }
}

impl View for Document {
    type V = DocumentView;

    open spec fn view(&self) -> DocumentView {
        DocumentView {
            name: self.name@,
            fields: match self.fields {
                Some(entries) => Some(fields_view(entries@)),
                None => None,
            },
            create_time: text_view(self.create_time),
            update_time: text_view(self.update_time),
        }
    }
}

/// One entry of the answer to a query. An entry without a document is a
/// signal of the stream, such as a progress marker.
#[derive(Debug, PartialEq, Eq)]
pub struct RunQueryResponse {
    pub skipped_results: Option<i32>,
    pub transaction: Option<String>,
    pub document: Option<Document>,
    pub read_time: Option<String>,
}

/// How a field is compared with a value in a filter.
#[derive(Debug, Clone, Copy, PartialEq, Eq, Structural)]
pub enum FieldOperator {
    Unspecified,
    LessThan,
    LessThanOrEqual,
    GreaterThan,
    GreaterThanOrEqual,
    Equal,
    ArrayContains,
}

/// A field of a document, named by its path.
#[derive(Debug, PartialEq, Eq)]
pub struct FieldReference {
    pub field_path: String,
}

/// The fields that a query hands out: all of them where no list is given.
#[derive(Debug, PartialEq, Eq)]
pub struct Projection {
    pub fields: Option<Vec<FieldReference>>,
}

/// A collection that a query looks into.
#[derive(Debug, PartialEq, Eq)]
pub struct CollectionSelector {
    pub collection_id: Option<String>,
    pub all_descendants: Option<bool>,
}

/// A comparison of one field with a value.
#[derive(Debug, PartialEq, Eq)]
pub struct FieldFilter {
    pub field: FieldReference,
    pub op: FieldOperator,
    pub value: Value,
}

/// The condition of a query.
#[derive(Debug, PartialEq, Eq)]
pub struct Filter {
    pub field_filter: Option<FieldFilter>,
}

/// One key of an ordering. The direction is absent for ascending order.
#[derive(Debug, PartialEq, Eq)]
pub struct Order {
    pub field: Option<FieldReference>,
    pub direction: Option<String>,
}

/// A query: what to hand out, where to look, on what condition and in what
/// order.
#[derive(Debug, PartialEq, Eq)]
pub struct StructuredQuery {
    pub select: Option<Projection>,
    pub from: Option<Vec<CollectionSelector>>,
    pub where_: Option<Filter>,
    pub order_by: Option<Vec<Order>>,
}

/// The body of the request that runs a query.
#[derive(Debug, PartialEq, Eq)]
pub struct RunQueryRequest {
    pub structured_query: Option<StructuredQuery>,
}

/// The mathematical content of a [`Projection`]: the paths of its fields.
pub struct ProjectionView {
    pub fields: Option<Seq<Seq<char>>>,
}

/// The mathematical content of a [`CollectionSelector`].
pub struct CollectionSelectorView {
    pub collection_id: Option<Seq<char>>,
    pub all_descendants: Option<bool>,
}

/// The mathematical content of a [`FieldFilter`].
pub struct FieldFilterView {
    pub field_path: Seq<char>,
    pub op: FieldOperator,
    pub value: ValueView,
}

/// The mathematical content of a [`Filter`].
pub struct FilterView {
    pub field_filter: Option<FieldFilterView>,
}

/// The mathematical content of an [`Order`].
pub struct OrderView {
    pub field_path: Option<Seq<char>>,
    pub direction: Option<Seq<char>>,
}

/// The mathematical content of a [`StructuredQuery`].
pub struct StructuredQueryView {
    pub select: Option<ProjectionView>,
    pub from: Option<Seq<CollectionSelectorView>>,
    pub where_: Option<FilterView>,
    pub order_by: Option<Seq<OrderView>>,
}

/// The mathematical content of a [`RunQueryRequest`].
pub struct RunQueryRequestView {
    pub structured_query: Option<StructuredQueryView>,
}

/// The paths of a list of fields.
pub open spec fn paths_view(fields: Seq<FieldReference>) -> Seq<Seq<char>> {
    Seq::new(fields.len(), |i: int| fields[i].field_path@)
}

/// The views of a list of collections.
pub open spec fn selectors_view(selectors: Seq<CollectionSelector>) -> Seq<CollectionSelectorView> {
    Seq::new(selectors.len(), |i: int| selectors[i]@)
}

/// The views of a list of ordering keys.
pub open spec fn orders_view(orders: Seq<Order>) -> Seq<OrderView> {
    Seq::new(orders.len(), |i: int| orders[i]@)
}

impl View for Projection {
    type V = ProjectionView;

    open spec fn view(&self) -> ProjectionView {
        ProjectionView {
            fields: match self.fields {
                Some(fields) => Some(paths_view(fields@)),
                None => None,
            },
        }
    }
}

impl View for CollectionSelector {
    type V = CollectionSelectorView;

    open spec fn view(&self) -> CollectionSelectorView {
        CollectionSelectorView {
            collection_id: text_view(self.collection_id),
            all_descendants: self.all_descendants,
        }
    }
}

impl View for FieldFilter {
    type V = FieldFilterView;

    open spec fn view(&self) -> FieldFilterView {
        FieldFilterView { field_path: self.field.field_path@, op: self.op, value: self.value@ }
    }
}

impl View for Filter {
    type V = FilterView;

    open spec fn view(&self) -> FilterView {
        FilterView {
            field_filter: match self.field_filter {
                Some(filter) => Some(filter@),
                None => None,
            },
        }
    }
}

impl View for Order {
    type V = OrderView;

    open spec fn view(&self) -> OrderView {
        OrderView {
            field_path: match self.field {
                Some(field) => Some(field.field_path@),
                None => None,
            },
            direction: text_view(self.direction),
        }
    }
}

impl View for StructuredQuery {
    type V = StructuredQueryView;

    open spec fn view(&self) -> StructuredQueryView {
        StructuredQueryView {
            select: match self.select {
                Some(projection) => Some(projection@),
                None => None,
            },
            from: match self.from {
                Some(selectors) => Some(selectors_view(selectors@)),
                None => None,
            },
            where_: match self.where_ {
                Some(filter) => Some(filter@),
                None => None,
            },
            order_by: match self.order_by {
                Some(orders) => Some(orders_view(orders@)),
                None => None,
            },
        }
    }
}

impl View for RunQueryRequest {
    type V = RunQueryRequestView;

    open spec fn view(&self) -> RunQueryRequestView {
        RunQueryRequestView {
            structured_query: match self.structured_query {
                Some(query) => Some(query@),
                None => None,
            },
        }
    }
}

/// The error descriptor that the database sends with a failed request: a
/// numeric code, a message for people, and a status word such as
/// `NOT_FOUND`.
#[derive(Debug, Clone, PartialEq, Eq)]
pub struct GoogleRestApiError {
    pub code: u64,
    pub message: String,
    pub status: String,
}

/// The mathematical content of a [`GoogleRestApiError`].
pub struct GoogleRestApiErrorView {
    pub code: u64,
    pub message: Seq<char>,
    pub status: Seq<char>,
}

impl View for GoogleRestApiError {
    type V = GoogleRestApiErrorView;

    open spec fn view(&self) -> GoogleRestApiErrorView {
        GoogleRestApiErrorView { code: self.code, message: self.message@, status: self.status@ }
    }
}

} // verus!
