//! Querying a collection.
use vstd::prelude::*;
use vstd::string::*;
use crate::documents::{firebase_url_query, spec_firebase_url_query};
use crate::dto::{
    orders_view, selectors_view, CollectionSelector, CollectionSelectorView, Document,
    FieldFilter, FieldFilterView, FieldOperator, FieldReference, Filter, FilterView, Order,
    OrderView, Projection, ProjectionView, RunQueryRequest, RunQueryRequestView,
    RunQueryResponse, StructuredQuery, StructuredQueryView,
};
use crate::http::{Method, Payload, PayloadView, Request, RequestView};
use crate::values::{native_to_wire, spec_native_to_wire, NativeValue};

verus! {

/// The ordering key that stands for a field and a flag that is set for
/// ascending order: the direction is left out when ascending.
pub open spec fn spec_order(field_path: Seq<char>, ascending: bool) -> OrderView {
    OrderView {
        field_path: Some(field_path),
        direction: if ascending {
            None
        } else {
            Some("desc"@)
        },
    }
}

/// The ordering keys that stand for a list of fields and flags.
pub open spec fn spec_orders(keys: Seq<(String, bool)>) -> Seq<OrderView> {
    Seq::new(keys.len(), |i: int| spec_order(keys[i].0@, keys[i].1))
}

/// The body of the request that queries a collection: every field of the
/// documents is selected, the one collection is looked into, and the filter
/// and the ordering are there where they were given.
pub open spec fn spec_query_body(
    collection_id: Seq<char>,
    where_value: Option<(NativeValue, FieldOperator, &str)>,
    orderby_value: Option<Vec<(String, bool)>>,
) -> RunQueryRequestView {
    RunQueryRequestView {
        structured_query: Some(
            StructuredQueryView {
                select: Some(ProjectionView { fields: None }),
                from: Some(
                    seq![
                        CollectionSelectorView {
                            collection_id: Some(collection_id),
                            all_descendants: None,
                        },
                    ],
                ),
                where_: match where_value {
                    Some((value, op, field)) => Some(
                        FilterView {
                            field_filter: Some(
                                FieldFilterView {
                                    field_path: field@,
                                    op,
                                    value: spec_native_to_wire(value@),
                                },
                            ),
                        },
                    ),
                    None => None,
                },
                order_by: match orderby_value {
                    Some(keys) => Some(spec_orders(keys@)),
                    None => None,
                },
            },
        ),
    }
}

/// The request that queries a collection.
pub open spec fn spec_query(
    project_id: Seq<char>,
    collection_id: Seq<char>,
    where_value: Option<(NativeValue, FieldOperator, &str)>,
    orderby_value: Option<Vec<(String, bool)>>,
) -> RequestView {
    RequestView {
        method: Method::Post,
        url: spec_firebase_url_query(project_id),
        payload: PayloadView::Query(spec_query_body(collection_id, where_value, orderby_value)),
        resource: collection_id,
    }
}

/// Prepares a query for documents of a collection, for example all
/// documents of `tests` whose field `id` equals a given value.
///
/// `where_value` holds the value, the operator and the field of a filter.
/// `orderby_value` holds the fields to order by, each with a flag that is set
/// for ascending order. Without it, the database decides on the order.
pub fn query(
    project_id: &str,
    collection_id: &str,
    where_value: Option<(NativeValue, FieldOperator, &str)>,
    orderby_value: Option<Vec<(String, bool)>>,
) -> (request: Request)
    ensures
        request@ == spec_query(project_id@, collection_id@, where_value, orderby_value),
{
    let url = firebase_url_query(project_id);
    let mut from: Vec<CollectionSelector> = Vec::new();
    from.push(
        CollectionSelector {
            collection_id: Some(String::from_str(collection_id)),
            all_descendants: None,
        },
    );
    assert(selectors_view(from@) =~= seq![
        CollectionSelectorView { collection_id: Some(collection_id@), all_descendants: None },
    ]);
    let mut structured_query = StructuredQuery {
        select: Some(Projection { fields: None }),
        from: Some(from),
        where_: None,
        order_by: None,
    };
    if let Some((value, op, field)) = &where_value {
        structured_query.where_ = Some(
            Filter {
                field_filter: Some(
                    FieldFilter {
                        field: FieldReference { field_path: String::from_str(field) },
                        op: *op,
                        value: native_to_wire(value),
                    },
                ),
            },
        );
    }
    if let Some(keys) = &orderby_value {
        let mut orders: Vec<Order> = Vec::new();
        let mut i: usize = 0;
        while i < keys.len()
            invariant
                i <= keys.len(),
                orders.len() == i,
                forall|j: int| 0 <= j < i ==> orders[j]@ == spec_order(keys[j].0@, keys[j].1),
            decreases keys.len() - i,
        {
            let direction = if keys[i].1 {
                None
            } else {
                Some(String::from_str("desc"))
            };
            orders.push(
                Order { field: Some(FieldReference { field_path: keys[i].0.clone() }), direction },
            );
            i += 1;
        }
        assert(orders_view(orders@) =~= spec_orders(keys@));
        structured_query.order_by = Some(orders);
    }
    let query_request = RunQueryRequest { structured_query: Some(structured_query) };
    Request {
        method: Method::Post,
        url,
        payload: Payload::Query(query_request),
        resource: String::from_str(collection_id),
    }
}

/// The documents that a list of entries holds, in order: an entry without a
/// document contributes nothing.
pub open spec fn documents_in(entries: Seq<RunQueryResponse>) -> Seq<Document>
    decreases entries.len(),
{
    if entries.len() == 0 {
        Seq::empty()
    } else {
        match entries[0].document {
            Some(document) => seq![document] + documents_in(entries.drop_first()),
            None => documents_in(entries.drop_first()),
        }
    }
}

/// The documents that a query found, handed out one by one.
///
/// The entries of the answer that hold no document are passed over.
#[derive(Debug)]
pub struct Query {
    stack: Vec<RunQueryResponse>,
}

impl Query {
    /// The entries not yet looked at, the next one first.
    pub closed spec fn remaining(&self) -> Seq<RunQueryResponse> {
        self.stack@.reverse()
    }

    /// The documents still to be handed out, the next one first.
    pub open spec fn pending(&self) -> Seq<Document> {
        documents_in(self.remaining())
    }

    /// Wraps the entries of the answer to a query.
    pub fn new(responses: Vec<RunQueryResponse>) -> (found: Query)
        ensures
            found.remaining() == responses@,
    {
        let mut source = responses;
        let mut stack: Vec<RunQueryResponse> = Vec::new();
        let ghost all = source@;
        while source.len() > 0
            invariant
                source.len() <= all.len(),
                source@ == all.subrange(0, source.len() as int),
                stack@ == all.subrange(source.len() as int, all.len() as int).reverse(),
            decreases source.len(),
        {
            let entry = source.pop().unwrap();
            stack.push(entry);
            assert(stack@ =~= all.subrange(source.len() as int, all.len() as int).reverse());
            assert(source@ =~= all.subrange(0, source.len() as int));
        }
        assert(stack@.reverse() =~= all);
        Query { stack }
    }

    /// Hands out the next document, if there is one.
    pub fn next(&mut self) -> (document: Option<Document>)
        ensures
            match document {
                Some(d) => old(self).pending().len() > 0 && d == old(self).pending()[0]
                    && final(self).pending() == old(self).pending().drop_first(),
                None => old(self).pending().len() == 0 && final(self).remaining().len() == 0,
            },
    {
        while self.stack.len() > 0
            invariant
                self.pending() == old(self).pending(),
            decreases self.stack.len(),
        {
            let ghost before = self.remaining();
            let entry = self.stack.pop().unwrap();
            assert(self.remaining() =~= before.drop_first());
            assert(entry == before[0]);
            if let Some(document) = entry.document {
                assert(self.pending() =~= old(self).pending().drop_first());
                return Some(document);
            }
        }
        assert(self.remaining() =~= Seq::<RunQueryResponse>::empty());
        None
    }

    /// Hands out all the documents that are left.
    pub fn into_documents(self) -> (documents: Vec<Document>)
        ensures
            documents@ == self.pending(),
    {
        let mut rest = self;
        let mut documents: Vec<Document> = Vec::new();
        loop
            invariant
                documents@ + rest.pending() == self.pending(),
            decreases rest.pending().len(),
        {
            match rest.next() {
                Some(document) => {
                    documents.push(document);
                    assert(documents@ + rest.pending() =~= self.pending());
                },
                None => {
                    assert(documents@ =~= self.pending());
                    return documents;
                },
            }
        }
    }
}

} // verus!
