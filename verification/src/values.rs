//! Native values, and the mapping between them and the database's values.
//!
//! The mapping is total from native values to wire values. Back, it is
//! checked against the shape that the caller expects, and a wire value of a
//! kind that has no native counterpart is an error, never a default.
use vstd::prelude::*;
use vstd::string::*;
use crate::dto::{
    distinct_keys, fields_view, keys_of, Document, DocumentView, Value, ValueView,
};
use crate::errors::{ErrorKind, FirebaseError, FirebaseErrorView};

verus! {

/// A value as application code holds it. A double is held by its IEEE 754
/// bit pattern; a map is a list of entries.
#[derive(Debug, PartialEq, Eq)]
pub enum NativeValue {
    Null,
    Bool(bool),
    Integer(i64),
    Double(u64),
    Timestamp(String),
    String(String),
    Array(Vec<NativeValue>),
    Object(Vec<(String, NativeValue)>),
}

/// The mathematical content of a [`NativeValue`].
pub enum NativeView {
    Null,
    Bool(bool),
    Integer(i64),
    Double(u64),
    Timestamp(Seq<char>),
    String(Seq<char>),
    Array(Seq<NativeView>),
    Object(Seq<(Seq<char>, NativeView)>),
}

/// The views of a list of native values.
pub open spec fn natives_view(items: Seq<NativeValue>) -> Seq<NativeView>
    decreases items, 0nat,
{
    Seq::new(
        items.len(),
        |i: int|
            if 0 <= i < items.len() {
                native_view(items[i])
            } else {
                NativeView::Null
            },
    )
}

/// The views of a list of named native values.
pub open spec fn native_fields_view(entries: Seq<(String, NativeValue)>) -> Seq<
    (Seq<char>, NativeView),
>
    decreases entries, 0nat,
{
    Seq::new(
        entries.len(),
        |i: int|
            if 0 <= i < entries.len() {
                (entries[i].0@, native_view(entries[i].1))
            } else {
                (Seq::empty(), NativeView::Null)
            },
    )
}

/// The view of a native value.
pub open spec fn native_view(value: NativeValue) -> NativeView
    decreases value, 1nat,
{
    match value {
        NativeValue::Null => NativeView::Null,
        NativeValue::Bool(b) => NativeView::Bool(b),
        NativeValue::Integer(i) => NativeView::Integer(i),
        NativeValue::Double(bits) => NativeView::Double(bits),
        NativeValue::Timestamp(t) => NativeView::Timestamp(t@),
        NativeValue::String(s) => NativeView::String(s@),
        NativeValue::Array(items) => NativeView::Array(natives_view(items@)),
        NativeValue::Object(entries) => NativeView::Object(native_fields_view(entries@)),
    }
}

impl View for NativeValue {
    type V = NativeView;

    open spec fn view(&self) -> NativeView {
        native_view(*self)
    }
}

impl NativeView {
    /// Every map inside the value, at any depth, has distinct keys.
    pub open spec fn well_formed(self) -> bool
        decreases self,
    {
        match self {
            NativeView::Array(items) => forall|i: int|
                0 <= i < items.len() ==> (#[trigger] items[i]).well_formed(),
            NativeView::Object(entries) => distinct_keys(entries) && forall|i: int|
                0 <= i < entries.len() ==> (#[trigger] entries[i]).1.well_formed(),
            _ => true,
        }
    }
}

/// The native shape that a caller expects of a wire value.
#[derive(Debug, PartialEq, Eq)]
pub enum Shape {
    /// Whatever the value holds.
    Any,
    Null,
    Bool,
    Integer,
    Double,
    Timestamp,
    String,
    /// An array whose items all have the given shape.
    Array(Box<Shape>),
    /// A map whose values all have the given shape.
    Object(Box<Shape>),
    /// Null, or a value of the given shape.
    Optional(Box<Shape>),
    /// A map that holds, under each of the given keys, a value of the shape
    /// that goes with the key. A key may be missing from the map where its
    /// shape is optional, and the map may hold other keys too. Where the map
    /// holds a key twice, the first entry counts.
    Record(Vec<(String, Shape)>),
}

/// Why a wire value could not be mapped to a native value.
#[derive(Debug, Clone, Copy, PartialEq, Eq, Structural)]
pub enum MappingError {
    /// The value holds bytes, a reference or a geographical point.
    UnsupportedKind,
    /// The value is not of the expected shape.
    ShapeMismatch,
}

/// The wire values that stand for a list of native values.
pub open spec fn spec_natives_to_wire(items: Seq<NativeView>) -> Seq<ValueView>
    decreases items, 0nat,
{
    Seq::new(
        items.len(),
        |i: int|
            if 0 <= i < items.len() {
                spec_native_to_wire(items[i])
            } else {
                ValueView::Null
            },
    )
}

/// The wire entries that stand for a list of named native values.
pub open spec fn spec_fields_to_wire(entries: Seq<(Seq<char>, NativeView)>) -> Seq<
    (Seq<char>, ValueView),
>
    decreases entries, 0nat,
{
    Seq::new(
        entries.len(),
        |i: int|
            if 0 <= i < entries.len() {
                (entries[i].0, spec_native_to_wire(entries[i].1))
            } else {
                (Seq::empty(), ValueView::Null)
            },
    )
}

/// The wire value that stands for a native value.
pub open spec fn spec_native_to_wire(value: NativeView) -> ValueView
    decreases value, 1nat,
{
    match value {
        NativeView::Null => ValueView::Null,
        NativeView::Bool(b) => ValueView::Boolean(b),
        NativeView::Integer(i) => ValueView::Integer(i),
        NativeView::Double(bits) => ValueView::Double(bits),
        NativeView::Timestamp(t) => ValueView::Timestamp(t),
        NativeView::String(s) => ValueView::String(s),
        NativeView::Array(items) => ValueView::Array(spec_natives_to_wire(items)),
        NativeView::Object(entries) => ValueView::Object(spec_fields_to_wire(entries)),
    }
}

/// The wire value, at every depth, is of a kind that has a native counterpart.
pub open spec fn supported(wire: ValueView) -> bool
    decreases wire,
{
    match wire {
        ValueView::Bytes(_) => false,
        ValueView::Reference(_) => false,
        ValueView::GeoPoint(_, _) => false,
        ValueView::Array(items) => forall|i: int|
            0 <= i < items.len() ==> supported(#[trigger] items[i]),
        ValueView::Object(entries) => forall|i: int|
            0 <= i < entries.len() ==> supported((#[trigger] entries[i]).1),
        _ => true,
    }
}

/// The key stands at the given place among the keys, and at no place before.
pub open spec fn first_at(keys: Seq<Seq<char>>, key: Seq<char>, at: int) -> bool {
    &&& 0 <= at < keys.len()
    &&& keys[at] == key
    &&& forall|before: int| 0 <= before < at ==> #[trigger] keys[before] != key
}

/// The key stands nowhere among the keys.
pub open spec fn missing(keys: Seq<Seq<char>>, key: Seq<char>) -> bool {
    forall|at: int| 0 <= at < keys.len() ==> #[trigger] keys[at] != key
}

/// The wire value is of the given shape.
pub open spec fn fits(wire: ValueView, shape: Shape) -> bool
    decreases wire, shape,
{
    match shape {
        Shape::Any => true,
        Shape::Null => wire is Null,
        Shape::Bool => wire is Boolean,
        Shape::Integer => wire is Integer,
        Shape::Double => wire is Double,
        Shape::Timestamp => wire is Timestamp,
        Shape::String => wire is String,
        Shape::Array(item) => match wire {
            ValueView::Array(items) => forall|i: int|
                0 <= i < items.len() ==> fits(#[trigger] items[i], *item),
            _ => false,
        },
        Shape::Object(item) => match wire {
            ValueView::Object(entries) => forall|i: int|
                0 <= i < entries.len() ==> fits((#[trigger] entries[i]).1, *item),
            _ => false,
        },
        Shape::Optional(inner) => wire is Null || fits(wire, *inner),
        Shape::Record(fields) => match wire {
            ValueView::Object(entries) => forall|j: int|
                #![trigger fields[j]]
                0 <= j < fields.len() ==> {
                    &&& forall|i: int|
                        0 <= i < entries.len() && first_at(keys_of(entries), fields[j].0@, i)
                            ==> fits((#[trigger] entries[i]).1, fields[j].1)
                    &&& missing(keys_of(entries), fields[j].0@) ==> fields[j].1 is Optional
                },
            _ => false,
        },
    }
}

/// The native values that a list of supported wire values stands for.
pub open spec fn plain_items(items: Seq<ValueView>) -> Seq<NativeView>
    decreases items, 0nat,
{
    Seq::new(
        items.len(),
        |i: int|
            if 0 <= i < items.len() {
                plain(items[i])
            } else {
                NativeView::Null
            },
    )
}

/// The named native values that a list of supported wire entries stands for.
pub open spec fn plain_fields(entries: Seq<(Seq<char>, ValueView)>) -> Seq<
    (Seq<char>, NativeView),
>
    decreases entries, 0nat,
{
    Seq::new(
        entries.len(),
        |i: int|
            if 0 <= i < entries.len() {
                (entries[i].0, plain(entries[i].1))
            } else {
                (Seq::empty(), NativeView::Null)
            },
    )
}

/// The native value that a supported wire value stands for.
pub open spec fn plain(wire: ValueView) -> NativeView
    decreases wire, 1nat,
{
    match wire {
        ValueView::Boolean(b) => NativeView::Bool(b),
        ValueView::Integer(i) => NativeView::Integer(i),
        ValueView::Double(bits) => NativeView::Double(bits),
        ValueView::Timestamp(t) => NativeView::Timestamp(t),
        ValueView::String(s) => NativeView::String(s),
        ValueView::Array(items) => NativeView::Array(plain_items(items)),
        ValueView::Object(entries) => NativeView::Object(plain_fields(entries)),
        _ => NativeView::Null,
    }
}

/// What mapping a wire value to the given shape comes to.
pub open spec fn spec_wire_to_native(wire: ValueView, shape: Shape) -> Result<
    NativeView,
    MappingError,
> {
    if !supported(wire) {
        Err(MappingError::UnsupportedKind)
    } else if !fits(wire, shape) {
        Err(MappingError::ShapeMismatch)
    } else {
        Ok(plain(wire))
    }
}

/// Maps a native value to the wire value that stands for it.
#[verifier::loop_isolation(false)]
pub fn native_to_wire(value: &NativeValue) -> (wire: Value)
    ensures
        wire@ == spec_native_to_wire(value@),
    decreases value,
{
    match value {
        NativeValue::Null => Value::Null,
        NativeValue::Bool(b) => Value::Boolean(*b),
        NativeValue::Integer(i) => Value::Integer(*i),
        NativeValue::Double(bits) => Value::Double(*bits),
        NativeValue::Timestamp(t) => Value::Timestamp(t.clone()),
        NativeValue::String(s) => Value::String(s.clone()),
        NativeValue::Array(items) => {
            let mut out: Vec<Value> = Vec::new();
            let mut i: usize = 0;
            while i < items.len()
                invariant
                    i <= items.len(),
                    out.len() == i,
                    forall|j: int| 0 <= j < i ==> out[j]@ == spec_native_to_wire(items[j]@),
                decreases items.len() - i,
            {
                out.push(native_to_wire(&items[i]));
                i += 1;
            }
            let wire = Value::Array(out);
            assert(wire@->Array_0 =~= spec_native_to_wire(value@)->Array_0);
            wire
        },
        NativeValue::Object(entries) => {
            let mut out: Vec<(String, Value)> = Vec::new();
            let mut i: usize = 0;
            while i < entries.len()
                invariant
                    i <= entries.len(),
                    out.len() == i,
                    forall|j: int|
                        0 <= j < i ==> out[j].0@ == entries[j].0@ && out[j].1@
                            == spec_native_to_wire(entries[j].1@),
                decreases entries.len() - i,
            {
                out.push((entries[i].0.clone(), native_to_wire(&entries[i].1)));
                i += 1;
            }
            let wire = Value::Object(out);
            assert(wire@->Object_0 =~= spec_native_to_wire(value@)->Object_0);
            wire
        },
    }
}

/// Whether the wire value can be mapped at all.
#[verifier::loop_isolation(false)]
pub fn is_supported(wire: &Value) -> (yes: bool)
    ensures
        yes == supported(wire@),
    decreases wire,
{
    match wire {
        Value::Bytes(_) => false,
        Value::Reference(_) => false,
        Value::GeoPoint(_, _) => false,
        Value::Array(items) => {
            let mut i: usize = 0;
            while i < items.len()
                invariant
                    i <= items.len(),
                    forall|j: int| 0 <= j < i ==> supported(items[j]@),
                decreases items.len() - i,
            {
                if !is_supported(&items[i]) {
                    assert(wire@->Array_0[i as int] == items[i as int]@);
                    return false;
                }
                i += 1;
            }
            true
        },
        Value::Object(entries) => {
            let mut i: usize = 0;
            while i < entries.len()
                invariant
                    i <= entries.len(),
                    forall|j: int| 0 <= j < i ==> supported(entries[j].1@),
                decreases entries.len() - i,
            {
                if !is_supported(&entries[i].1) {
                    assert(wire@->Object_0[i as int].1 == entries[i as int].1@);
                    return false;
                }
                i += 1;
            }
            true
        },
        _ => true,
    }
}

/// Whether the wire value is of the given shape.
#[verifier::loop_isolation(false)]
pub fn has_shape(wire: &Value, shape: &Shape) -> (yes: bool)
    ensures
        yes == fits(wire@, *shape),
    decreases wire, shape,
{
    match shape {
        Shape::Any => true,
        Shape::Null => matches!(wire, Value::Null),
        Shape::Bool => matches!(wire, Value::Boolean(_)),
        Shape::Integer => matches!(wire, Value::Integer(_)),
        Shape::Double => matches!(wire, Value::Double(_)),
        Shape::Timestamp => matches!(wire, Value::Timestamp(_)),
        Shape::String => matches!(wire, Value::String(_)),
        Shape::Array(item) => match wire {
            Value::Array(items) => {
                let mut i: usize = 0;
                while i < items.len()
                    invariant
                        i <= items.len(),
                        forall|j: int| 0 <= j < i ==> fits(items[j]@, **item),
                    decreases items.len() - i,
                {
                    if !has_shape(&items[i], item) {
                        assert(wire@->Array_0[i as int] == items[i as int]@);
                        return false;
                    }
                    i += 1;
                }
                true
            },
            _ => false,
        },
        Shape::Object(item) => match wire {
            Value::Object(entries) => {
                let mut i: usize = 0;
                while i < entries.len()
                    invariant
                        i <= entries.len(),
                        forall|j: int| 0 <= j < i ==> fits(entries[j].1@, **item),
                    decreases entries.len() - i,
                {
                    if !has_shape(&entries[i].1, item) {
                        assert(wire@->Object_0[i as int].1 == entries[i as int].1@);
                        return false;
                    }
                    i += 1;
                }
                true
            },
            _ => false,
        },
        Shape::Optional(inner) => match wire {
            Value::Null => true,
            _ => has_shape(wire, inner),
        },
        Shape::Record(fields) => match wire {
            Value::Object(entries) => {
                let ghost keys = keys_of(fields_view(entries@));
                let mut j: usize = 0;
                while j < fields.len()
                    invariant
                        j <= fields.len(),
                        keys == keys_of(fields_view(entries@)),
                        forall|k: int|
                            #![trigger fields[k]]
                            0 <= k < j ==> {
                                &&& forall|i: int|
                                    0 <= i < entries.len() && first_at(keys, fields[k].0@, i)
                                        ==> fits((#[trigger] fields_view(entries@)[i]).1, fields[k].1)
                                &&& missing(keys, fields[k].0@) ==> fields[k].1 is Optional
                            },
                    decreases fields.len() - j,
                {
                    match position(entries, &fields[j].0) {
                        Some(at) => {
                            if !has_shape(&entries[at].1, &fields[j].1) {
                                assert(fields_view(entries@)[at as int].1 == entries[at as int].1@);
                                assert(!missing(keys, fields[j as int].0@)) by {
                                    assert(keys[at as int] == fields[j as int].0@);
                                }
                                return false;
                            }
                            assert forall|i: int|
                                0 <= i < entries.len() && first_at(
                                    keys,
                                    fields[j as int].0@,
                                    i,
                                ) implies fits(
                                (#[trigger] fields_view(entries@)[i]).1,
                                fields[j as int].1,
                            ) by {
                                assert(i == at);
                            }
                            assert(!missing(keys, fields[j as int].0@)) by {
                                assert(keys[at as int] == fields[j as int].0@);
                            }
                        },
                        None => {
                            if !matches!(fields[j].1, Shape::Optional(_)) {
                                return false;
                            }
                        },
                    }
                    j += 1;
                }
                true
            },
            _ => false,
        },
    }
}

/// Finds the first entry with the given key.
fn position(entries: &Vec<(String, Value)>, key: &String) -> (found: Option<usize>)
    ensures
        match found {
            Some(at) => first_at(keys_of(fields_view(entries@)), key@, at as int),
            None => missing(keys_of(fields_view(entries@)), key@),
        },
{
    let mut at: usize = 0;
    while at < entries.len()
        invariant
            at <= entries.len(),
            forall|before: int|
                0 <= before < at ==> #[trigger] keys_of(fields_view(entries@))[before] != key@,
        decreases entries.len() - at,
    {
        if entries[at].0 == *key {
            return Some(at);
        }
        at += 1;
    }
    None
}

/// The native value of a wire value that can be mapped.
#[verifier::loop_isolation(false)]
fn to_plain(wire: &Value) -> (value: NativeValue)
    requires
        supported(wire@),
    ensures
        value@ == plain(wire@),
    decreases wire,
{
    match wire {
        Value::Boolean(b) => NativeValue::Bool(*b),
        Value::Integer(i) => NativeValue::Integer(*i),
        Value::Double(bits) => NativeValue::Double(*bits),
        Value::Timestamp(t) => NativeValue::Timestamp(t.clone()),
        Value::String(s) => NativeValue::String(s.clone()),
        Value::Array(items) => {
            let mut out: Vec<NativeValue> = Vec::new();
            let mut i: usize = 0;
            while i < items.len()
                invariant
                    i <= items.len(),
                    out.len() == i,
                    forall|j: int| 0 <= j < i ==> out[j]@ == plain(items[j]@),
                decreases items.len() - i,
            {
                assert(wire@->Array_0[i as int] == items[i as int]@);
                out.push(to_plain(&items[i]));
                i += 1;
            }
            let value = NativeValue::Array(out);
            assert(value@->Array_0 =~= plain(wire@)->Array_0);
            value
        },
        Value::Object(entries) => {
            let mut out: Vec<(String, NativeValue)> = Vec::new();
            let mut i: usize = 0;
            while i < entries.len()
                invariant
                    i <= entries.len(),
                    out.len() == i,
                    forall|j: int|
                        0 <= j < i ==> out[j].0@ == entries[j].0@ && out[j].1@ == plain(
                            entries[j].1@,
                        ),
                decreases entries.len() - i,
            {
                assert(wire@->Object_0[i as int].1 == entries[i as int].1@);
                out.push((entries[i].0.clone(), to_plain(&entries[i].1)));
                i += 1;
            }
            let value = NativeValue::Object(out);
            assert(value@->Object_0 =~= plain(wire@)->Object_0);
            value
        },
        _ => NativeValue::Null,
    }
}

/// Maps a wire value to the native value it stands for, provided that it is
/// of the shape the caller expects.
///
/// A value that holds bytes, a reference or a geographical point at any depth
/// is refused as unsupported; one that is supported but not of the expected
/// shape is refused as a mismatch. Nothing is coerced.
pub fn wire_to_native(wire: &Value, shape: &Shape) -> (result: Result<NativeValue, MappingError>)
    ensures
        match result {
            Ok(value) => spec_wire_to_native(wire@, *shape) == Ok::<NativeView, MappingError>(
                value@,
            ),
            Err(e) => spec_wire_to_native(wire@, *shape) == Err::<NativeView, MappingError>(e),
        },
{
    if !is_supported(wire) {
        Err(MappingError::UnsupportedKind)
    } else if !has_shape(wire, shape) {
        Err(MappingError::ShapeMismatch)
    } else {
        Ok(to_plain(wire))
    }
}

/// A native value mapped to the wire and back is the value itself, whether
/// no shape is asked for or any shape that the wire value is of.
pub proof fn lemma_round_trip(value: NativeView)
    ensures
        supported(spec_native_to_wire(value)),
        plain(spec_native_to_wire(value)) == value,
        spec_wire_to_native(spec_native_to_wire(value), Shape::Any) == Ok::<
            NativeView,
            MappingError,
        >(value),
        forall|shape: Shape| #[trigger]
            fits(spec_native_to_wire(value), shape) ==> spec_wire_to_native(
                spec_native_to_wire(value),
                shape,
            ) == Ok::<NativeView, MappingError>(value),
    decreases value,
{
    let wire = spec_native_to_wire(value);
    match value {
        NativeView::Array(items) => {
            assert forall|i: int| 0 <= i < items.len() implies supported(
                #[trigger] wire->Array_0[i],
            ) && plain(wire->Array_0[i]) == items[i] by {
                lemma_round_trip(items[i]);
            }
            assert(plain(wire)->Array_0 =~= items);
        },
        NativeView::Object(entries) => {
            assert forall|i: int| 0 <= i < entries.len() implies supported(
                (#[trigger] wire->Object_0[i]).1,
            ) && plain(wire->Object_0[i].1) == entries[i].1 by {
                lemma_round_trip(entries[i].1);
            }
            assert(plain(wire)->Object_0 =~= entries);
        },
        _ => {},
    }
}

/// A wire value that can be mapped loses nothing on the way: the native
/// value it stands for is mapped back to the very same wire value.
pub proof fn lemma_round_trip_from_wire(wire: ValueView)
    requires
        supported(wire),
    ensures
        spec_native_to_wire(plain(wire)) == wire,
    decreases wire,
{
    let value = plain(wire);
    match wire {
        ValueView::Array(items) => {
            assert forall|i: int| 0 <= i < items.len() implies spec_native_to_wire(
                #[trigger] value->Array_0[i],
            ) == items[i] by {
                lemma_round_trip_from_wire(items[i]);
            }
            assert(spec_native_to_wire(value)->Array_0 =~= items);
        },
        ValueView::Object(entries) => {
            assert forall|i: int| 0 <= i < entries.len() implies spec_native_to_wire(
                (#[trigger] value->Object_0[i]).1,
            ) == entries[i].1 by {
                lemma_round_trip_from_wire(entries[i].1);
            }
            assert(spec_native_to_wire(value)->Object_0 =~= entries);
        },
        _ => {},
    }
}

/// The mapping to the wire keeps the keys of every map as they are: the
/// wire value has distinct keys at every depth exactly if the native value
/// has.
pub proof fn lemma_wire_keeps_distinct_keys(value: NativeView)
    ensures
        spec_native_to_wire(value).well_formed() == value.well_formed(),
    decreases value,
{
    let wire = spec_native_to_wire(value);
    match value {
        NativeView::Array(items) => {
            assert forall|i: int| 0 <= i < items.len() implies (#[trigger] wire->Array_0[i]).well_formed()
                == items[i].well_formed() by {
                lemma_wire_keeps_distinct_keys(items[i]);
            }
            if value.well_formed() {
                assert forall|i: int| 0 <= i < items.len() implies (#[trigger] wire->Array_0[i]).well_formed() by {
                    assert(items[i].well_formed());
                }
            }
            if wire.well_formed() {
                assert forall|i: int| 0 <= i < items.len() implies (#[trigger] items[i]).well_formed() by {
                    assert(wire->Array_0[i].well_formed());
                }
            }
        },
        NativeView::Object(entries) => {
            let fields = wire->Object_0;
            assert forall|i: int| 0 <= i < entries.len() implies (#[trigger] fields[i]).1.well_formed()
                == entries[i].1.well_formed() && fields[i].0 == entries[i].0 by {
                lemma_wire_keeps_distinct_keys(entries[i].1);
            }
            if value.well_formed() {
                assert forall|i: int, j: int| 0 <= i < j < fields.len() implies (#[trigger] fields[i]).0 != (
                #[trigger] fields[j]).0 by {
                    assert(entries[i].0 != entries[j].0);
                }
                assert forall|i: int| 0 <= i < fields.len() implies (#[trigger] fields[i]).1.well_formed() by {
                    assert(entries[i].1.well_formed());
                }
            }
            if wire.well_formed() {
                assert forall|i: int, j: int| 0 <= i < j < entries.len() implies (#[trigger] entries[i]).0 != (
                #[trigger] entries[j]).0 by {
                    assert(fields[i].0 != fields[j].0);
                }
                assert forall|i: int| 0 <= i < entries.len() implies (#[trigger] entries[i]).1.well_formed() by {
                    assert(fields[i].1.well_formed());
                }
            }
        },
        _ => {},
    }
}

/// The text that says what a mapping error is.
pub open spec fn spec_mapping_message(error: MappingError) -> Seq<char> {
    match error {
        MappingError::UnsupportedKind => "The value is of a kind that has no native counterpart"@,
        MappingError::ShapeMismatch => "The value is not of the expected shape"@,
    }
}

/// The error that a failed mapping becomes for the given resource.
pub open spec fn spec_mapping_failure(error: MappingError, resource: Seq<char>) -> FirebaseErrorView {
    FirebaseErrorView {
        kind: ErrorKind::Mapping,
        message: spec_mapping_message(error),
        status: None,
        resource,
    }
}

/// The error that a failed mapping becomes for the given resource.
pub fn mapping_failure(error: MappingError, resource: &str) -> (failure: FirebaseError)
    ensures
        failure@ == spec_mapping_failure(error, resource@),
{
    match error {
        MappingError::UnsupportedKind => FirebaseError::new(
            ErrorKind::Mapping,
            "The value is of a kind that has no native counterpart",
            resource,
        ),
        MappingError::ShapeMismatch => FirebaseError::new(
            ErrorKind::Mapping,
            "The value is not of the expected shape",
            resource,
        ),
    }
}

/// The document that carries the entries of a native map as its fields. It
/// has no name and no times: the database gives it those.
pub open spec fn spec_pod_to_document(entries: Seq<(Seq<char>, NativeView)>) -> DocumentView {
    DocumentView {
        name: Seq::empty(),
        fields: Some(spec_fields_to_wire(entries)),
        create_time: None,
        update_time: None,
    }
}

/// Turns a native map into the document to send. Any other native value is
/// no document and is refused as a mismatch.
///
/// Every entry of the map becomes a field, one whose value is null too: a
/// field is absent from the document only if its key is absent from the map.
pub fn pod_to_document(pod: &NativeValue) -> (result: Result<Document, MappingError>)
    ensures
        match result {
            Ok(document) => pod@ matches NativeView::Object(entries) && document@
                == spec_pod_to_document(entries),
            Err(error) => !(pod@ is Object) && error == MappingError::ShapeMismatch,
        },
{
    match native_to_wire(pod) {
        Value::Object(fields) => Ok(
            Document { name: String::new(), fields: Some(fields), create_time: None, update_time: None },
        ),
        _ => Err(MappingError::ShapeMismatch),
    }
}

/// The fields of a document as one wire value: a map, empty where the
/// document has no fields.
pub open spec fn spec_document_value(document: DocumentView) -> ValueView {
    match document.fields {
        Some(fields) => ValueView::Object(fields),
        None => ValueView::Object(Seq::empty()),
    }
}

/// Turns a document that was read into the native map of its fields,
/// provided that the map is of the shape the caller expects.
pub fn document_to_pod(document: Document, shape: &Shape) -> (result: Result<
    NativeValue,
    MappingError,
>)
    ensures
        match result {
            Ok(value) => spec_wire_to_native(spec_document_value(document@), *shape) == Ok::<
                NativeView,
                MappingError,
            >(value@),
            Err(e) => spec_wire_to_native(spec_document_value(document@), *shape) == Err::<
                NativeView,
                MappingError,
            >(e),
        },
{
    let wire = match document.fields {
        Some(fields) => Value::Object(fields),
        None => Value::Object(Vec::new()),
    };
    assert(wire@ == spec_document_value(document@)) by {
        assert(fields_view(Seq::<(String, Value)>::empty()) =~= Seq::empty());
    }
    wire_to_native(&wire, shape)
}

} // verus!
