//! The trusted boundary to the replicated-document runtime (`yrs`).
//!
//! Every item here either declares an outside type or wraps one call into the
//! runtime behind a contract stated over the model of `crate::model`.  The
//! model names are uninterpreted: `doc_graph` gives the contents of the
//! document's root graph map as seen through a mutation scope, and the
//! binding functions say which document, node or field a handle points at; a
//! binding is a property of the handle alone and survives edits.  Everything
//! above this module is verified against these contracts.

use vstd::prelude::*;

use crate::model::{EditKind, EditOp, Entry, Field, Item, Val, edit_script_for, field_name};
use crate::model::Error;
use similar::DiffTag;
use similar::algorithms::myers::diff_deadline_raw;
use similar::algorithms::{Capture, Replace};
use yrs::any::Number;
use yrs::{Any, Array, DeepObservable, GetString, Map as YrsMap, Observable, Out, ReadTxn, Text, Transact};

verus! {

#[verifier::external_type_specification]
#[verifier::external_body]
pub struct ExDoc(yrs::Doc);

#[verifier::external_type_specification]
#[verifier::external_body]
pub struct ExMapRef(yrs::MapRef);

#[verifier::external_type_specification]
#[verifier::external_body]
pub struct ExArrayRef(yrs::ArrayRef);

#[verifier::external_type_specification]
#[verifier::external_body]
pub struct ExTextRef(yrs::TextRef);

#[verifier::external_type_specification]
#[verifier::external_body]
pub struct ExTransactionMut<'a>(yrs::TransactionMut<'a>);

/// The identity of a document: two handles to the same document share it.
pub uninterp spec fn doc_key(d: yrs::Doc) -> int;

/// The document a mutation scope belongs to.
pub uninterp spec fn txn_key(t: yrs::TransactionMut) -> int;

/// The contents of the root graph map of the document a mutation scope
/// belongs to: task-id to entry.  All reads and writes below are stated over
/// this one map.
pub uninterp spec fn doc_graph(t: yrs::TransactionMut) -> Map<Seq<char>, Entry>;

/// What a map handle is bound to.
pub enum MapBinding {
    /// The root graph map of the document with the given key.
    Root { doc: int },
    /// The node stored in the root graph map under the given id.
    TaskNode { doc: int, id: Seq<char> },
    /// A handle this crate never creates.
    Unknown,
}

/// The binding of a map handle: fixed for the handle's lifetime.
pub uninterp spec fn map_binding(m: yrs::MapRef) -> MapBinding;

/// Where a child-sequence or rich-text handle lives: a field of a node of a
/// document, at a particular instance of the collection stored there.
pub struct SeqBinding {
    pub doc: int,
    pub id: Seq<char>,
    pub field: Field,
    /// The instance the handle refers to.  Resetting the field stores a
    /// fresh instance, so handles to the old one stop being live.
    pub inst: int,
}

/// The binding of an ordered-sequence handle: fixed for the handle's lifetime.
pub uninterp spec fn arr_binding(a: yrs::ArrayRef) -> SeqBinding;

/// The binding of a rich-text handle: fixed for the handle's lifetime.
pub uninterp spec fn text_binding(x: yrs::TextRef) -> SeqBinding;

/// The instance of the nested collection (ordered sequence or rich text)
/// currently stored in the given field of the given node.  Editing a
/// collection's content keeps its instance; resetting the field replaces it.
pub uninterp spec fn slot_inst(t: yrs::TransactionMut, id: Seq<char>, f: Field) -> int;

/// There is a root graph map in the document the scope belongs to.
pub uninterp spec fn has_graph_root(t: yrs::TransactionMut) -> bool;

/// No field of any node changed its collection instance between the two
/// states.
pub open spec fn insts_same(t1: yrs::TransactionMut, t2: yrs::TransactionMut) -> bool {
    forall|id: Seq<char>, f: Field| #[trigger] slot_inst(t2, id, f) == slot_inst(t1, id, f)
}

/// No field changed its collection instance, except possibly the given one.
pub open spec fn insts_same_but(
    t1: yrs::TransactionMut,
    t2: yrs::TransactionMut,
    id: Seq<char>,
    f: Field,
) -> bool {
    forall|id2: Seq<char>, f2: Field|
        !(id2 == id && f2 == f) ==> #[trigger] slot_inst(t2, id2, f2) == slot_inst(t1, id2, f2)
}

/// No field outside the given node changed its collection instance.
pub open spec fn insts_same_outside(
    t1: yrs::TransactionMut,
    t2: yrs::TransactionMut,
    id: Seq<char>,
) -> bool {
    forall|id2: Seq<char>, f2: Field|
        id2 != id ==> #[trigger] slot_inst(t2, id2, f2) == slot_inst(t1, id2, f2)
}

// ---------------------------------------------------------------------------
// Derived spec shorthands over the model.
// ---------------------------------------------------------------------------

/// The graph has a task node under `id`.
pub open spec fn is_node_at(g: Map<Seq<char>, Entry>, id: Seq<char>) -> bool {
    g.contains_key(id) && g[id] is Node
}

/// The fields of the node under `id`.
pub open spec fn fields_at(g: Map<Seq<char>, Entry>, id: Seq<char>) -> Map<Field, Val> {
    match g[id] {
        Entry::Node(f) => f,
        Entry::Foreign => Map::empty(),
    }
}

/// `m` is a handle to the root graph map of `t`'s document.
pub open spec fn is_graph_handle(m: yrs::MapRef, t: yrs::TransactionMut) -> bool {
    map_binding(m) == (MapBinding::Root { doc: txn_key(t) })
}

/// The id a node handle is bound to.
pub open spec fn handle_id(m: yrs::MapRef) -> Seq<char> {
    match map_binding(m) {
        MapBinding::TaskNode { id, .. } => id,
        _ => Seq::empty(),
    }
}

/// `m` is a handle to a node of `t`'s document, and that node is present.
pub open spec fn node_live(m: yrs::MapRef, t: yrs::TransactionMut) -> bool {
    &&& map_binding(m) == (MapBinding::TaskNode { doc: txn_key(t), id: handle_id(m) })
    &&& is_node_at(doc_graph(t), handle_id(m))
}

/// `a` is a handle to an ordered-sequence field of a live node of `t`'s
/// document, and that field currently holds a sequence.
pub open spec fn arr_live(a: yrs::ArrayRef, t: yrs::TransactionMut) -> bool {
    &&& arr_binding(a).doc == txn_key(t)
    &&& arr_binding(a).inst == slot_inst(t, arr_binding(a).id, arr_binding(a).field)
    &&& is_node_at(doc_graph(t), arr_binding(a).id)
    &&& fields_at(doc_graph(t), arr_binding(a).id)[arr_binding(a).field] is VList
    &&& fields_at(doc_graph(t), arr_binding(a).id).contains_key(arr_binding(a).field)
}

/// The items of the sequence `a` is bound to.
pub open spec fn arr_items(a: yrs::ArrayRef, t: yrs::TransactionMut) -> Seq<Item> {
    match fields_at(doc_graph(t), arr_binding(a).id)[arr_binding(a).field] {
        Val::VList(items) => items,
        _ => Seq::empty(),
    }
}

/// `x` is a handle to a rich-text field of a live node of `t`'s document, and
/// that field currently holds rich text.
pub open spec fn text_live(x: yrs::TextRef, t: yrs::TransactionMut) -> bool {
    &&& text_binding(x).doc == txn_key(t)
    &&& text_binding(x).inst == slot_inst(t, text_binding(x).id, text_binding(x).field)
    &&& is_node_at(doc_graph(t), text_binding(x).id)
    &&& fields_at(doc_graph(t), text_binding(x).id)[text_binding(x).field] is VText
    &&& fields_at(doc_graph(t), text_binding(x).id).contains_key(text_binding(x).field)
}

/// The content of the rich text `x` is bound to.
pub open spec fn text_content(x: yrs::TextRef, t: yrs::TransactionMut) -> Seq<char> {
    match fields_at(doc_graph(t), text_binding(x).id)[text_binding(x).field] {
        Val::VText(s) => s,
        _ => Seq::empty(),
    }
}

/// The graph after the node under `id` had field `f` set to `v` (creating the
/// node's entry in the model if the field map was empty).
pub open spec fn graph_with_field(
    g: Map<Seq<char>, Entry>,
    id: Seq<char>,
    f: Field,
    v: Val,
) -> Map<Seq<char>, Entry> {
    g.insert(id, Entry::Node(fields_at(g, id).insert(f, v)))
}

// ---------------------------------------------------------------------------
// Document- and graph-level wrappers.
// ---------------------------------------------------------------------------

/// Relies on `yrs::Doc::new` and `yrs::Doc::get_or_insert_map`: a fresh
/// document together with its root graph map.  The two calls are fused so
/// that the root is acquired on a document that provably has no live
/// transaction yet (`get_or_insert_map` opens a write transaction
/// internally and must not run against a document with an active scope).
#[verifier::external_body]
pub(crate) fn doc_new_with_root() -> (r: (yrs::Doc, yrs::MapRef))
    ensures
        map_binding(r.1) == (MapBinding::Root { doc: doc_key(r.0) }),
{
    let d = yrs::Doc::new();
    let g = d.get_or_insert_map("graph");
    (d, g)
}

/// Relies on `yrs::ReadTxn::get_map`: the root map under the graph name,
/// exactly when the document the scope belongs to has one.
#[verifier::external_body]
pub(crate) fn txn_graph_root(t: &yrs::TransactionMut) -> (r: Option<yrs::MapRef>)
    ensures
        r is Some <==> has_graph_root(*t),
        r matches Some(m) ==> map_binding(m) == (MapBinding::Root { doc: txn_key(*t) }),
{
    t.get_map("graph")
}

/// Relies on `yrs::Transact::try_transact_mut_with`: acquires the exclusive
/// mutation scope, or reports that one is already active.
#[verifier::external_body]
pub(crate) fn doc_transact_mut<'a>(d: &'a yrs::Doc, origin: &str) -> (r: Result<
    yrs::TransactionMut<'a>,
    Error,
>)
    ensures
        r matches Ok(t) ==> txn_key(t) == doc_key(*d),
        r matches Err(e) ==> e == Error::TransactionUnavailable,
{
    match d.try_transact_mut_with(origin) {
        Ok(t) => Ok(t),
        Err(_) => Err(Error::TransactionUnavailable),
    }
}

/// Relies on `yrs::Map::keys`: every key of the graph map, each exactly once,
/// in unspecified order.
#[verifier::external_body]
pub(crate) fn graph_keys(m: &yrs::MapRef, t: &yrs::TransactionMut) -> (r: Vec<String>)
    requires
        is_graph_handle(*m, *t),
    ensures
        forall|i: int| 0 <= i < r@.len() ==> doc_graph(*t).contains_key(#[trigger] r@[i]@),
        forall|id: Seq<char>|
            doc_graph(*t).contains_key(id) ==> exists|i: int| 0 <= i < r@.len() && #[trigger] r@[i]@ == id,
        forall|i: int, j: int| 0 <= i < j < r@.len() ==> r@[i]@ != r@[j]@,
{
    m.keys(t).map(|k| k.to_string()).collect()
}

/// What a graph lookup found.
pub enum GotEntry {
    /// No entry under the id.
    Missing,
    /// An entry that is not a nested map.
    Foreign,
    /// A task node.
    Node(yrs::MapRef),
}

/// Relies on `yrs::Map::get`: the entry under `id`, classified by shape.
#[verifier::external_body]
pub(crate) fn graph_get(m: &yrs::MapRef, t: &yrs::TransactionMut, id: &str) -> (r: GotEntry)
    requires
        is_graph_handle(*m, *t),
    ensures
        match r {
            GotEntry::Missing => !doc_graph(*t).contains_key(id@),
            GotEntry::Foreign => doc_graph(*t).contains_key(id@) && doc_graph(*t)[id@] is Foreign,
            GotEntry::Node(n) => {
                &&& doc_graph(*t).contains_key(id@)
                &&& doc_graph(*t)[id@] is Node
                &&& map_binding(n) == (MapBinding::TaskNode { doc: txn_key(*t), id: id@ })
            },
        },
{
    match m.get(t, id) {
        None => GotEntry::Missing,
        Some(Out::YMap(n)) => GotEntry::Node(n),
        Some(_) => GotEntry::Foreign,
    }
}

/// Relies on `yrs::Map::get_or_init`: returns the node under `id`, resetting
/// the entry to a fresh empty node if it is absent or not a nested map.
#[verifier::external_body]
pub(crate) fn graph_get_or_init(m: &yrs::MapRef, t: &mut yrs::TransactionMut, id: &str) -> (r:
    yrs::MapRef)
    requires
        is_graph_handle(*m, *old(t)),
    ensures
        txn_key(*final(t)) == txn_key(*old(t)),
        map_binding(r) == (MapBinding::TaskNode { doc: txn_key(*old(t)), id: id@ }),
        doc_graph(*final(t)) == if is_node_at(doc_graph(*old(t)), id@) {
            doc_graph(*old(t))
        } else {
            doc_graph(*old(t)).insert(id@, Entry::Node(Map::empty()))
        },
        is_node_at(doc_graph(*old(t)), id@) ==> insts_same(*old(t), *final(t)),
        insts_same_outside(*old(t), *final(t), id@),
{
    m.get_or_init(t, id)
}

// ---------------------------------------------------------------------------
// Node-level wrappers.
// ---------------------------------------------------------------------------

/// What a node field read found.
pub enum Got {
    Absent,
    GStr(String),
    GInt(i64),
    GBool(bool),
    GNull,
    GList(yrs::ArrayRef),
    GText(yrs::TextRef),
    GOther,
}

/// Relies on `yrs::Map::get` and the shape of `yrs::Out` / `yrs::Any`: reads
/// one field of a node, classified by variant.  A numeric primitive is
/// truncated to the signed integer the model stores for it.
#[verifier::external_body]
pub(crate) fn node_get(m: &yrs::MapRef, t: &yrs::TransactionMut, f: Field) -> (r: Got)
    requires
        node_live(*m, *t),
    ensures
        ({
            let flds = fields_at(doc_graph(*t), handle_id(*m));
            match r {
                Got::Absent => !flds.contains_key(f),
                Got::GStr(s) => flds.contains_key(f) && flds[f] == Val::VStr(s@),
                Got::GInt(i) => flds.contains_key(f) && flds[f] == Val::VInt(i),
                Got::GBool(b) => flds.contains_key(f) && flds[f] == Val::VBool(b),
                Got::GNull => flds.contains_key(f) && flds[f] is VNull,
                Got::GList(a) => {
                    &&& flds.contains_key(f)
                    &&& flds[f] is VList
                    &&& arr_binding(a) == (SeqBinding {
                        doc: txn_key(*t),
                        id: handle_id(*m),
                        field: f,
                        inst: slot_inst(*t, handle_id(*m), f),
                    })
                },
                Got::GText(x) => {
                    &&& flds.contains_key(f)
                    &&& flds[f] is VText
                    &&& text_binding(x) == (SeqBinding {
                        doc: txn_key(*t),
                        id: handle_id(*m),
                        field: f,
                        inst: slot_inst(*t, handle_id(*m), f),
                    })
                },
                Got::GOther => flds.contains_key(f) && flds[f] is VOther,
            }
        }),
{
    match m.get(t, field_name(f)) {
        None => Got::Absent,
        Some(Out::Any(Any::String(s))) => Got::GStr(s.to_string()),
        Some(Out::Any(Any::Number(Number::Int(i)))) => Got::GInt(i),
        Some(Out::Any(Any::Number(Number::Float(x)))) => Got::GInt(x as i64),
        Some(Out::Any(Any::Bool(b))) => Got::GBool(b),
        Some(Out::Any(Any::Null)) | Some(Out::Any(Any::Undefined)) => Got::GNull,
        Some(Out::YArray(a)) => Got::GList(a),
        Some(Out::YText(x)) => Got::GText(x),
        Some(_) => Got::GOther,
    }
}

/// A scalar value to store into a node field.
pub enum Scalar {
    SStr(String),
    SInt(i64),
    SBool(bool),
    SNull,
}

/// The model value a stored scalar reads back as.
pub open spec fn scalar_val(s: Scalar) -> Val {
    match s {
        Scalar::SStr(x) => Val::VStr(x@),
        Scalar::SInt(i) => Val::VInt(i),
        Scalar::SBool(b) => Val::VBool(b),
        Scalar::SNull => Val::VNull,
    }
}

/// Relies on `yrs::Map::try_update`: after the call the field holds the given
/// scalar; nothing else in the graph changes.
#[verifier::external_body]
pub(crate) fn node_set(m: &yrs::MapRef, t: &mut yrs::TransactionMut, f: Field, s: Scalar)
    requires
        node_live(*m, *old(t)),
    ensures
        txn_key(*final(t)) == txn_key(*old(t)),
        doc_graph(*final(t)) == graph_with_field(
            doc_graph(*old(t)),
            handle_id(*m),
            f,
            scalar_val(s),
        ),
        insts_same_but(*old(t), *final(t), handle_id(*m), f),
{
    let v: Any = match s {
        Scalar::SStr(x) => Any::from(x),
        Scalar::SInt(i) => Any::from(i),
        Scalar::SBool(b) => Any::from(b),
        Scalar::SNull => Any::Null,
    };
    let _ = m.try_update(t, field_name(f), v);
}

/// Relies on `yrs::Map::get_or_init`: returns the ordered sequence stored
/// under the field, resetting the field to an empty sequence if it currently
/// holds anything else.
#[verifier::external_body]
pub(crate) fn node_init_array(m: &yrs::MapRef, t: &mut yrs::TransactionMut, f: Field) -> (r:
    yrs::ArrayRef)
    requires
        node_live(*m, *old(t)),
    ensures
        txn_key(*final(t)) == txn_key(*old(t)),
        arr_binding(r) == (SeqBinding {
            doc: txn_key(*old(t)),
            id: handle_id(*m),
            field: f,
            inst: slot_inst(*final(t), handle_id(*m), f),
        }),
        doc_graph(*final(t)) == if fields_at(doc_graph(*old(t)), handle_id(*m)).contains_key(f)
            && fields_at(doc_graph(*old(t)), handle_id(*m))[f] is VList {
            doc_graph(*old(t))
        } else {
            graph_with_field(doc_graph(*old(t)), handle_id(*m), f, Val::VList(Seq::empty()))
        },
        (fields_at(doc_graph(*old(t)), handle_id(*m)).contains_key(f) && fields_at(
            doc_graph(*old(t)),
            handle_id(*m),
        )[f] is VList) ==> insts_same(*old(t), *final(t)),
        insts_same_but(*old(t), *final(t), handle_id(*m), f),
{
    m.get_or_init(t, field_name(f))
}

/// Relies on `yrs::Map::get_or_init`: returns the rich text stored under the
/// field, resetting the field to empty rich text if it currently holds
/// anything else.
#[verifier::external_body]
pub(crate) fn node_init_text(m: &yrs::MapRef, t: &mut yrs::TransactionMut, f: Field) -> (r:
    yrs::TextRef)
    requires
        node_live(*m, *old(t)),
    ensures
        txn_key(*final(t)) == txn_key(*old(t)),
        text_binding(r) == (SeqBinding {
            doc: txn_key(*old(t)),
            id: handle_id(*m),
            field: f,
            inst: slot_inst(*final(t), handle_id(*m), f),
        }),
        doc_graph(*final(t)) == if fields_at(doc_graph(*old(t)), handle_id(*m)).contains_key(f)
            && fields_at(doc_graph(*old(t)), handle_id(*m))[f] is VText {
            doc_graph(*old(t))
        } else {
            graph_with_field(doc_graph(*old(t)), handle_id(*m), f, Val::VText(Seq::empty()))
        },
        (fields_at(doc_graph(*old(t)), handle_id(*m)).contains_key(f) && fields_at(
            doc_graph(*old(t)),
            handle_id(*m),
        )[f] is VText) ==> insts_same(*old(t), *final(t)),
        insts_same_but(*old(t), *final(t), handle_id(*m), f),
{
    m.get_or_init(t, field_name(f))
}

// ---------------------------------------------------------------------------
// Rich-text wrappers.
// ---------------------------------------------------------------------------

/// Relies on `yrs::GetString::get_string`: the flattened string content.
#[verifier::external_body]
pub(crate) fn text_get(x: &yrs::TextRef, t: &yrs::TransactionMut) -> (r: String)
    requires
        text_live(*x, *t),
    ensures
        r@ == text_content(*x, *t),
{
    x.get_string(t)
}

/// Relies on `yrs::Text::remove_range` (over the full length): clears the
/// content; nothing else in the graph changes.
#[verifier::external_body]
pub(crate) fn text_clear(x: &yrs::TextRef, t: &mut yrs::TransactionMut)
    requires
        text_live(*x, *old(t)),
    ensures
        txn_key(*final(t)) == txn_key(*old(t)),
        doc_graph(*final(t)) == graph_with_field(
            doc_graph(*old(t)),
            text_binding(*x).id,
            text_binding(*x).field,
            Val::VText(Seq::empty()),
        ),
        insts_same(*old(t), *final(t)),
{
    x.remove_range(t, 0, x.len(t));
}

/// Relies on `yrs::Text::insert` at position zero: prepends the chunk;
/// nothing else in the graph changes.
#[verifier::external_body]
pub(crate) fn text_insert_front(x: &yrs::TextRef, t: &mut yrs::TransactionMut, s: &str)
    requires
        text_live(*x, *old(t)),
    ensures
        txn_key(*final(t)) == txn_key(*old(t)),
        doc_graph(*final(t)) == graph_with_field(
            doc_graph(*old(t)),
            text_binding(*x).id,
            text_binding(*x).field,
            Val::VText(s@ + text_content(*x, *old(t))),
        ),
        insts_same(*old(t), *final(t)),
{
    x.insert(t, 0, s);
}

// ---------------------------------------------------------------------------
// Ordered-sequence wrappers.
// ---------------------------------------------------------------------------

/// Relies on `yrs::Array::iter`: every element in order, strings kept and any
/// foreign element marked `None`.
#[verifier::external_body]
pub(crate) fn arr_strings(a: &yrs::ArrayRef, t: &yrs::TransactionMut) -> (r: Vec<Option<String>>)
    requires
        arr_live(*a, *t),
    ensures
        r@.len() == arr_items(*a, *t).len() && r@.len() <= u32::MAX,
        forall|i: int|
            0 <= i < r@.len() ==> match #[trigger] r@[i] {
                Some(s) => arr_items(*a, *t)[i] == Item::IStr(s@),
                None => arr_items(*a, *t)[i] is IOther,
            },
{
    a.iter(t)
        .map(
            |it| match it {
                Out::Any(Any::String(s)) => Some(s.to_string()),
                _ => None,
            },
        )
        .collect()
}

/// Relies on `yrs::Array::remove_range`: deletes `len` items at `index`;
/// nothing else in the graph changes.
#[verifier::external_body]
pub(crate) fn arr_remove_range(a: &yrs::ArrayRef, t: &mut yrs::TransactionMut, index: u32, len: u32)
    requires
        arr_live(*a, *old(t)),
        index + len <= arr_items(*a, *old(t)).len(),
    ensures
        txn_key(*final(t)) == txn_key(*old(t)),
        doc_graph(*final(t)) == graph_with_field(
            doc_graph(*old(t)),
            arr_binding(*a).id,
            arr_binding(*a).field,
            Val::VList(
                arr_items(*a, *old(t)).subrange(0, index as int) + arr_items(*a, *old(t)).subrange(
                    index + len,
                    arr_items(*a, *old(t)).len() as int,
                ),
            ),
        ),
        insts_same(*old(t), *final(t)),
{
    a.remove_range(t, index, len);
}

/// Relies on `yrs::Array::insert_range`: splices the strings in at `index`;
/// nothing else in the graph changes.
#[verifier::external_body]
pub(crate) fn arr_insert_range(
    a: &yrs::ArrayRef,
    t: &mut yrs::TransactionMut,
    index: u32,
    values: &Vec<String>,
)
    requires
        arr_live(*a, *old(t)),
        index <= arr_items(*a, *old(t)).len(),
        arr_items(*a, *old(t)).len() + values@.len() <= u32::MAX,
    ensures
        txn_key(*final(t)) == txn_key(*old(t)),
        doc_graph(*final(t)) == graph_with_field(
            doc_graph(*old(t)),
            arr_binding(*a).id,
            arr_binding(*a).field,
            Val::VList(
                arr_items(*a, *old(t)).subrange(0, index as int) + values@.map_values(
                    |s: String| Item::IStr(s@),
                ) + arr_items(*a, *old(t)).subrange(
                    index as int,
                    arr_items(*a, *old(t)).len() as int,
                ),
            ),
        ),
        insts_same(*old(t), *final(t)),
{
    a.insert_range(t, index, values.to_vec());
}

/// Relies on `yrs::Array::push_back`: appends the string; nothing else in the
/// graph changes.
#[verifier::external_body]
pub(crate) fn arr_push(a: &yrs::ArrayRef, t: &mut yrs::TransactionMut, v: &str)
    requires
        arr_live(*a, *old(t)),
        arr_items(*a, *old(t)).len() < u32::MAX,
    ensures
        txn_key(*final(t)) == txn_key(*old(t)),
        doc_graph(*final(t)) == graph_with_field(
            doc_graph(*old(t)),
            arr_binding(*a).id,
            arr_binding(*a).field,
            Val::VList(arr_items(*a, *old(t)).push(Item::IStr(v@))),
        ),
        insts_same(*old(t), *final(t)),
{
    let _ = a.push_back(t, v);
}

// ---------------------------------------------------------------------------
// Diffing.
// ---------------------------------------------------------------------------

/// Relies on `similar`'s raw Myers search (`diff_deadline_raw`, no
/// deadline) through its `Capture` and `Replace` hooks: the emitted spans
/// tile both sequences in ascending contiguous order and transform `old`
/// into `new`, with equal spans carrying equal content.
///
/// Minimality is promised only when either input has at most 96 elements.
/// In raw mode the bounded-split heuristic is disabled (its cost cap is
/// lifted), but one shortcut remains: a front-anchor peel that can commit a
/// non-optimal prefix split.  That peel requires both sides of a subproblem
/// to exceed 96 elements, so when either whole input is at most 96 long it
/// can never fire and the search is the exact shortest-path one; beyond
/// that the script is near-minimal but not contractually so.
#[verifier::external_body]
pub(crate) fn diff_slices(old: &Vec<String>, new: &Vec<String>) -> (r: Vec<EditOp>)
    ensures
        edit_script_for(
            r@,
            old@.map_values(|s: String| s@),
            new@.map_values(|s: String| s@),
        ),
        (old@.len() <= 96 || new@.len() <= 96) ==> forall|other: Seq<EditOp>|
            edit_script_for(
                other,
                old@.map_values(|s: String| s@),
                new@.map_values(|s: String| s@),
            ) ==> crate::model::script_cost(r@) <= #[trigger] crate::model::script_cost(other),
{
    let mut d = Replace::new(Capture::new());
    let _ = diff_deadline_raw(&mut d, old.as_slice(), 0..old.len(), new.as_slice(), 0..new.len(), None);
    let mut r = Vec::new();
    for op in d.into_inner().into_ops() {
        let (kind, o, n) = (match op.tag() {
            DiffTag::Equal => EditKind::Equal,
            DiffTag::Delete => EditKind::Delete,
            DiffTag::Insert => EditKind::Insert,
            DiffTag::Replace => EditKind::Replace,
        }, op.old_range(), op.new_range());
        r.push(EditOp { kind, old_start: o.start, old_end: o.end, new_start: n.start, new_end: n.end });
    }
    r
}

} // verus!

verus! {

/// Writing a field twice leaves only the second value.
pub proof fn lemma_field_overwrite(
    g: Map<Seq<char>, Entry>,
    id: Seq<char>,
    f: Field,
    v1: Val,
    v2: Val,
)
    ensures
        graph_with_field(graph_with_field(g, id, f, v1), id, f, v2) == graph_with_field(
            g,
            id,
            f,
            v2,
        ),
{
    assert(fields_at(graph_with_field(g, id, f, v1), id) =~= fields_at(g, id).insert(f, v1));
    assert(fields_at(g, id).insert(f, v1).insert(f, v2) =~= fields_at(g, id).insert(f, v2));
    assert(graph_with_field(graph_with_field(g, id, f, v1), id, f, v2) =~= graph_with_field(
        g,
        id,
        f,
        v2,
    ));
}

/// Writing the value a field already holds changes nothing.
pub proof fn lemma_field_same(g: Map<Seq<char>, Entry>, id: Seq<char>, f: Field, v: Val)
    requires
        is_node_at(g, id),
        fields_at(g, id).contains_key(f),
        fields_at(g, id)[f] == v,
    ensures
        graph_with_field(g, id, f, v) == g,
{
    assert(fields_at(g, id).insert(f, v) =~= fields_at(g, id));
    assert(g[id] == Entry::Node(fields_at(g, id)));
    assert(graph_with_field(g, id, f, v) =~= g);
}

} // verus!

verus! {

#[verifier::external_type_specification]
#[verifier::external_body]
pub struct ExUpdateEvent(yrs::UpdateEvent);

#[verifier::external_type_specification]
#[verifier::external_body]
pub struct ExMapEvent(yrs::types::map::MapEvent);

#[verifier::external_type_specification]
#[verifier::external_body]
pub struct ExEvents<'a>(yrs::types::Events<'a>);

/// Relies on `yrs::Doc::observe_update_v2`: registers the callback under the
/// given key, to fire on every update; it stays attached until the same key
/// is unobserved.
#[verifier::external_body]
pub(crate) fn doc_observe_update_v2<F: Fn(&yrs::TransactionMut, &yrs::UpdateEvent) + Send + Sync + 'static>(
    d: &yrs::Doc,
    key: &str,
    f: F,
) -> (r: Result<(), Error>)
    ensures
        r matches Err(e) ==> e == Error::TransactionUnavailable,
{
    match d.observe_update_v2(key.to_owned().as_str(), f) {
        Ok(()) => Ok(()),
        Err(_) => Err(Error::TransactionUnavailable),
    }
}

/// Relies on `yrs::Doc::unobserve_update_v2`: detaches the callback under the
/// key; reports whether one was attached.
#[verifier::external_body]
pub(crate) fn doc_unobserve_update_v2(d: &yrs::Doc, key: &str) -> (r: Result<bool, Error>)
    ensures
        r matches Err(e) ==> e == Error::TransactionUnavailable,
{
    match d.unobserve_update_v2(key.to_owned().as_str()) {
        Ok(b) => Ok(b),
        Err(_) => Err(Error::TransactionUnavailable),
    }
}

/// Relies on `yrs::Observable::observe`: registers the callback under the
/// given key, to fire on every change to the graph map itself.
#[verifier::external_body]
pub(crate) fn graph_observe<F: Fn(&yrs::TransactionMut, &yrs::types::map::MapEvent) + Send + Sync + 'static>(
    m: &yrs::MapRef,
    key: &str,
    f: F,
) {
    m.observe(key.to_owned().as_str(), f);
}

/// Relies on `yrs::Observable::unobserve`: detaches the callback under the
/// key; reports whether one was attached.
#[verifier::external_body]
pub(crate) fn graph_unobserve(m: &yrs::MapRef, key: &str) -> (r: bool) {
    m.unobserve(key.to_owned().as_str())
}

/// Relies on `yrs::DeepObservable::observe_deep`: registers the callback
/// under the given key, to fire on every change in the graph's subtree.
#[verifier::external_body]
pub(crate) fn graph_observe_deep<F: Fn(&yrs::TransactionMut, &yrs::types::Events) + Send + Sync + 'static>(
    m: &yrs::MapRef,
    key: &str,
    f: F,
) {
    m.observe_deep(key.to_owned().as_str(), f);
}

/// Relies on `yrs::DeepObservable::unobserve_deep`: detaches the callback
/// under the key; reports whether one was attached.
#[verifier::external_body]
pub(crate) fn graph_unobserve_deep(m: &yrs::MapRef, key: &str) -> (r: bool) {
    m.unobserve_deep(key.to_owned().as_str())
}

} // verus!

verus! {

#[verifier::external_type_specification]
#[verifier::external_body]
pub struct ExTransaction<'a>(yrs::Transaction<'a>);

/// Relies on `yrs::Transact::try_transact`: acquires a read-only snapshot,
/// or reports that an exclusive scope is already active.
#[verifier::external_body]
pub(crate) fn doc_transact<'a>(d: &'a yrs::Doc) -> (r: Result<yrs::Transaction<'a>, Error>)
    ensures
        r matches Err(e) ==> e == Error::TransactionUnavailable,
{
    match d.try_transact() {
        Ok(t) => Ok(t),
        Err(_) => Err(Error::TransactionUnavailable),
    }
}

} // verus!
