//! Typed facades over the replicated document: `YDocProxy` for the whole
//! graph, `YTaskProxy` for one node.  Every read re-queries the document;
//! every write goes through a caller-supplied mutation scope.  The contracts
//! are stated over the model of `crate::model` through the trusted boundary
//! of `crate::ybridge`.

use vstd::prelude::*;

use crate::model::{
    Entry, Error, Field, Item, Task, Val, children_val, dec_children, dec_opt_bool, dec_opt_int,
    dec_opt_str, dec_str, dec_text, items_all_strings, items_strings, managed_kind, node_err,
    node_ok, node_task, task_fields,
};
use crate::nums::{numeral_val, parse_u64, valid_u64_numeral};
use crate::reconcile::{apply_edits, items_for, reconcile_script, vec_str_eq, views_of};
use crate::ybridge::{
    Got, GotEntry, MapBinding, Scalar, arr_binding, arr_insert_range, arr_items, arr_live,
    arr_push, arr_remove_range, arr_strings, doc_graph, doc_key, doc_new_with_root,
    doc_transact_mut, fields_at, graph_get, graph_get_or_init, graph_keys, graph_with_field,
    has_graph_root,
    handle_id, is_graph_handle, is_node_at, lemma_field_overwrite, lemma_field_same, map_binding,
    node_get, node_init_array, node_init_text, node_live, node_set, text_clear, text_get,
    text_insert_front, txn_graph_root, txn_key,
};

verus! {

/// The value an optional borrowed string stands for.
pub open spec fn opt_view(v: Option<&str>) -> Option<Seq<char>> {
    match v {
        Some(s) => Some(s@),
        None => None,
    }
}

/// How an optional string is written: the value, or the explicit null marker.
pub open spec fn opt_str_write(v: Option<Seq<char>>) -> Val {
    crate::model::opt_str_val(v)
}

/// The current items of a node's child sequence, empty when the field is
/// absent or holds another variant (which a write resets to an empty list).
pub open spec fn children_items(f: Map<Field, Val>) -> Seq<Item> {
    if f.contains_key(Field::Children) && f[Field::Children] is VList {
        match f[Field::Children] {
            Val::VList(items) => items,
            _ => Seq::empty(),
        }
    } else {
        Seq::empty()
    }
}

/// What deriving the rollup flag reports: true for an explicit `"Rollup"`
/// kind; with any other kind, or no kind at all, the flag is whether the
/// child list is non-empty.  Errors of the fields it reads pass through:
/// the kind first, then — when it does not decide — the children.
pub open spec fn rollup_result(f: Map<Field, Val>) -> Result<bool, Error> {
    match dec_opt_str(f, Field::Kind) {
        Err(e) => Err(e),
        Ok(k) => if k == Some("Rollup"@) {
            Ok(true)
        } else {
            match dec_children(f) {
                Err(e) => Err(e),
                Ok(c) => Ok(c.len() > 0),
            }
        },
    }
}

/// What deriving the managed flag reports: whether the kind is in the fixed
/// managed set; an absent kind is not managed.
pub open spec fn managed_result(f: Map<Field, Val>) -> Result<bool, Error> {
    match dec_opt_str(f, Field::Kind) {
        Err(e) => Err(e),
        Ok(Some(k)) => Ok(managed_kind(k)),
        Ok(None) => Ok(false),
    }
}

/// A typed handle to one task node.  It caches nothing: every accessor
/// re-reads the document through the given scope.
pub struct YTaskProxy {
    y_task: yrs::MapRef,
}

impl YTaskProxy {
    /// The id of the node this handle is bound to.
    pub closed spec fn task_id(self) -> Seq<char> {
        handle_id(self.y_task)
    }

    /// The handle points into `t`'s document and its node is present.
    pub closed spec fn live(self, t: yrs::TransactionMut) -> bool {
        node_live(self.y_task, t)
    }

    /// The node's current fields.
    pub closed spec fn fields(self, t: yrs::TransactionMut) -> Map<Field, Val> {
        fields_at(doc_graph(t), self.task_id())
    }

    /// The underlying node handle.
    pub closed spec fn handle(self) -> yrs::MapRef {
        self.y_task
    }

    /// Wraps an existing node handle.
    pub fn new(y_task: yrs::MapRef) -> (r: YTaskProxy)
        ensures
            r.handle() == y_task,
            r.task_id() == handle_id(y_task),
    {
        YTaskProxy { y_task }
    }

    /// Reads a required string field.
    fn get_string(&self, txn: &yrs::TransactionMut, f: Field) -> (r: Result<String, Error>)
        requires
            self.live(*txn),
        ensures
            r matches Ok(s) ==> dec_str(self.fields(*txn), f) == Ok::<Seq<char>, Error>(s@),
            r is Ok <==> dec_str(self.fields(*txn), f) is Ok,
            r matches Err(e) ==> dec_str(self.fields(*txn), f) == Err::<Seq<char>, Error>(e),
    {
        match node_get(&self.y_task, txn, f) {
            Got::GStr(s) => Ok(s),
            Got::Absent => Err(Error::MissingField),
            Got::GNull => Err(Error::MissingField),
            _ => Err(Error::TypeMismatch),
        }
    }

    /// Reads an optional string field.
    fn get_optional_string(&self, txn: &yrs::TransactionMut, f: Field) -> (r: Result<
        Option<String>,
        Error,
    >)
        requires
            self.live(*txn),
        ensures
            r matches Ok(o) ==> dec_opt_str(self.fields(*txn), f) == Ok::<_, Error>(opt_string_view(o)),
            r is Ok <==> dec_opt_str(self.fields(*txn), f) is Ok,
            r matches Err(e) ==> dec_opt_str(self.fields(*txn), f) == Err::<Option<Seq<char>>, Error>(e),
    {
        match node_get(&self.y_task, txn, f) {
            Got::GStr(s) => Ok(Some(s)),
            Got::Absent => Ok(None),
            Got::GNull => Ok(None),
            _ => Err(Error::TypeMismatch),
        }
    }

    /// Reads an optional integer field.
    fn get_optional_number(&self, txn: &yrs::TransactionMut, f: Field) -> (r: Result<
        Option<i64>,
        Error,
    >)
        requires
            self.live(*txn),
        ensures
            r matches Ok(o) ==> dec_opt_int(self.fields(*txn), f) == Ok::<_, Error>(o),
            r is Ok <==> dec_opt_int(self.fields(*txn), f) is Ok,
            r matches Err(e) ==> dec_opt_int(self.fields(*txn), f) == Err::<Option<i64>, Error>(e),
    {
        match node_get(&self.y_task, txn, f) {
            Got::GInt(i) => Ok(Some(i)),
            Got::Absent => Ok(None),
            Got::GNull => Ok(None),
            _ => Err(Error::TypeMismatch),
        }
    }

    /// Reads an optional boolean field.
    fn get_optional_bool(&self, txn: &yrs::TransactionMut, f: Field) -> (r: Result<
        Option<bool>,
        Error,
    >)
        requires
            self.live(*txn),
        ensures
            r matches Ok(o) ==> dec_opt_bool(self.fields(*txn), f) == Ok::<_, Error>(o),
            r is Ok <==> dec_opt_bool(self.fields(*txn), f) is Ok,
            r matches Err(e) ==> dec_opt_bool(self.fields(*txn), f) == Err::<Option<bool>, Error>(e),
    {
        match node_get(&self.y_task, txn, f) {
            Got::GBool(b) => Ok(Some(b)),
            Got::Absent => Ok(None),
            Got::GNull => Ok(None),
            _ => Err(Error::TypeMismatch),
        }
    }

    /// Writes one scalar field.
    fn set_scalar(&self, txn: &mut yrs::TransactionMut, f: Field, s: Scalar)
        requires
            self.live(*old(txn)),
        ensures
            self.live(*final(txn)),
            txn_key(*final(txn)) == txn_key(*old(txn)),
            doc_graph(*final(txn)) == graph_with_field(
                doc_graph(*old(txn)),
                self.task_id(),
                f,
                crate::ybridge::scalar_val(s),
            ),
    {
        node_set(&self.y_task, txn, f, s);
    }

    /// Writes an optional string field: `None` stores the null marker.
    fn set_optional_string(&self, txn: &mut yrs::TransactionMut, f: Field, v: Option<&str>)
        requires
            self.live(*old(txn)),
        ensures
            self.live(*final(txn)),
            txn_key(*final(txn)) == txn_key(*old(txn)),
            doc_graph(*final(txn)) == graph_with_field(
                doc_graph(*old(txn)),
                self.task_id(),
                f,
                opt_str_write(opt_view(v)),
            ),
    {
        match v {
            Some(s) => self.set_scalar(txn, f, Scalar::SStr(s.to_owned())),
            None => self.set_scalar(txn, f, Scalar::SNull),
        }
    }

    /// Writes an optional integer field: `None` stores the null marker.
    fn set_optional_number(&self, txn: &mut yrs::TransactionMut, f: Field, v: Option<i64>)
        requires
            self.live(*old(txn)),
        ensures
            self.live(*final(txn)),
            txn_key(*final(txn)) == txn_key(*old(txn)),
            doc_graph(*final(txn)) == graph_with_field(
                doc_graph(*old(txn)),
                self.task_id(),
                f,
                crate::model::opt_int_val(v),
            ),
    {
        match v {
            Some(i) => self.set_scalar(txn, f, Scalar::SInt(i)),
            None => self.set_scalar(txn, f, Scalar::SNull),
        }
    }

    /// The task id stored on the node.
    pub fn get_id(&self, txn: &yrs::TransactionMut) -> (r: Result<String, Error>)
        requires
            self.live(*txn),
        ensures
            r matches Ok(s) ==> dec_str(self.fields(*txn), Field::Id) == Ok::<Seq<char>, Error>(s@),
            r is Ok <==> dec_str(self.fields(*txn), Field::Id) is Ok,
            r matches Err(e) ==> dec_str(self.fields(*txn), Field::Id) == Err::<Seq<char>, Error>(e),
    {
        self.get_string(txn, Field::Id)
    }

    fn set_id(&self, txn: &mut yrs::TransactionMut, id: &str)
        requires
            self.live(*old(txn)),
        ensures
            self.live(*final(txn)),
            txn_key(*final(txn)) == txn_key(*old(txn)),
            doc_graph(*final(txn)) == graph_with_field(
                doc_graph(*old(txn)),
                self.task_id(),
                Field::Id,
                Val::VStr(id@),
            ),
    {
        self.set_scalar(txn, Field::Id, Scalar::SStr(id.to_owned()));
    }

    /// The sequence-number string stored on the node.
    pub fn get_num(&self, txn: &yrs::TransactionMut) -> (r: Result<String, Error>)
        requires
            self.live(*txn),
        ensures
            r matches Ok(s) ==> dec_str(self.fields(*txn), Field::Num) == Ok::<Seq<char>, Error>(s@),
            r is Ok <==> dec_str(self.fields(*txn), Field::Num) is Ok,
            r matches Err(e) ==> dec_str(self.fields(*txn), Field::Num) == Err::<Seq<char>, Error>(e),
    {
        self.get_string(txn, Field::Num)
    }

    /// Overwrites the sequence-number string.
    pub fn set_num(&self, txn: &mut yrs::TransactionMut, num: &str)
        requires
            self.live(*old(txn)),
        ensures
            self.live(*final(txn)),
            txn_key(*final(txn)) == txn_key(*old(txn)),
            doc_graph(*final(txn)) == graph_with_field(
                doc_graph(*old(txn)),
                self.task_id(),
                Field::Num,
                Val::VStr(num@),
            ),
    {
        self.set_scalar(txn, Field::Num, Scalar::SStr(num.to_owned()));
    }

    /// The display name stored on the node.
    pub fn get_name(&self, txn: &yrs::TransactionMut) -> (r: Result<String, Error>)
        requires
            self.live(*txn),
        ensures
            r matches Ok(s) ==> dec_str(self.fields(*txn), Field::Name) == Ok::<Seq<char>, Error>(s@),
            r is Ok <==> dec_str(self.fields(*txn), Field::Name) is Ok,
            r matches Err(e) ==> dec_str(self.fields(*txn), Field::Name) == Err::<Seq<char>, Error>(e),
    {
        self.get_string(txn, Field::Name)
    }

    /// Overwrites the display name.
    pub fn set_name(&self, txn: &mut yrs::TransactionMut, name: &str)
        requires
            self.live(*old(txn)),
        ensures
            self.live(*final(txn)),
            txn_key(*final(txn)) == txn_key(*old(txn)),
            doc_graph(*final(txn)) == graph_with_field(
                doc_graph(*old(txn)),
                self.task_id(),
                Field::Name,
                Val::VStr(name@),
            ),
    {
        self.set_scalar(txn, Field::Name, Scalar::SStr(name.to_owned()));
    }

    /// The description, flattened to a plain string.
    pub fn get_desc(&self, txn: &yrs::TransactionMut) -> (r: Result<Option<String>, Error>)
        requires
            self.live(*txn),
        ensures
            r matches Ok(o) ==> dec_text(self.fields(*txn), Field::Desc) == Ok::<_, Error>(opt_string_view(o)),
            r is Ok <==> dec_text(self.fields(*txn), Field::Desc) is Ok,
            r matches Err(e) ==> dec_text(self.fields(*txn), Field::Desc) == Err::<Option<Seq<char>>, Error>(e),
    {
        match node_get(&self.y_task, txn, Field::Desc) {
            Got::GText(x) => Ok(Some(text_get(&x, txn))),
            Got::Absent => Ok(None),
            Got::GNull => Ok(None),
            _ => Err(Error::TypeMismatch),
        }
    }

    /// Replaces the entire description (or clears it to the null marker).
    /// The replacement is wholesale by design: the field is not co-edited
    /// character by character.
    pub fn set_desc(&self, txn: &mut yrs::TransactionMut, desc: Option<&str>)
        requires
            self.live(*old(txn)),
        ensures
            self.live(*final(txn)),
            txn_key(*final(txn)) == txn_key(*old(txn)),
            doc_graph(*final(txn)) == graph_with_field(
                doc_graph(*old(txn)),
                self.task_id(),
                Field::Desc,
                crate::model::desc_val(opt_view(desc)),
            ),
    {
        let ghost g0 = doc_graph(*old(txn));
        match desc {
            Some(s) => {
                let x = node_init_text(&self.y_task, txn, Field::Desc);
                let ghost g1 = doc_graph(*txn);
                text_clear(&x, txn);
                text_insert_front(&x, txn, s);
                proof {
                    let id = self.task_id();
                    assert(s@ + Seq::<char>::empty() =~= s@);
                    lemma_field_overwrite(
                        g1,
                        id,
                        Field::Desc,
                        Val::VText(Seq::empty()),
                        Val::VText(s@),
                    );
                    if !(self.fields(*old(txn)).contains_key(Field::Desc) && self.fields(
                        *old(txn),
                    )[Field::Desc] is VText) {
                        lemma_field_overwrite(
                            g0,
                            id,
                            Field::Desc,
                            Val::VText(Seq::empty()),
                            Val::VText(s@),
                        );
                    }
                }
            },
            None => {
                self.set_scalar(txn, Field::Desc, Scalar::SNull);
            },
        }
    }
}

/// The value an optional owned string stands for.
pub open spec fn opt_string_view(o: Option<String>) -> Option<Seq<char>> {
    match o {
        Some(s) => Some(s@),
        None => None,
    }
}

} // verus!

verus! {

impl YTaskProxy {
    /// The ordered child ids.  An absent field reads as empty; a sequence
    /// with foreign elements, or any other variant, is a type mismatch.
    pub fn get_children(&self, txn: &yrs::TransactionMut) -> (r: Result<Vec<String>, Error>)
        requires
            self.live(*txn),
        ensures
            r matches Ok(v) ==> dec_children(self.fields(*txn)) == Ok::<_, Error>(v.deep_view()),
            r is Ok <==> dec_children(self.fields(*txn)) is Ok,
            r matches Err(e) ==> dec_children(self.fields(*txn)) == Err::<Seq<Seq<char>>, Error>(e),
    {
        match node_get(&self.y_task, txn, Field::Children) {
            Got::Absent => {
                let v: Vec<String> = Vec::new();
                proof {
                    assert(v.deep_view() =~= Seq::<Seq<char>>::empty());
                }
                Ok(v)
            },
            Got::GList(a) => {
                let items = arr_strings(&a, txn);
                let ghost stored = arr_items(a, *txn);
                proof {
                    assert(self.fields(*txn).contains_key(Field::Children));
                    assert(self.fields(*txn)[Field::Children] == Val::VList(stored));
                }
                let mut v: Vec<String> = Vec::new();
                let mut i: usize = 0;
                while i < items.len()
                    invariant
                        self.live(*txn),
                        self.fields(*txn).contains_key(Field::Children),
                        self.fields(*txn)[Field::Children] == Val::VList(stored),
                        0 <= i <= items@.len(),
                        items@.len() == stored.len(),
                        forall|j: int|
                            0 <= j < items@.len() ==> match #[trigger] items@[j] {
                                Some(s) => stored[j] == Item::IStr(s@),
                                None => stored[j] is IOther,
                            },
                        v@.len() == i,
                        forall|j: int| 0 <= j < i ==> #[trigger] stored[j] == Item::IStr(v@[j]@),
                    decreases items@.len() - i,
                {
                    proof {
                        assert(match items@[i as int] {
                            Some(x) => stored[i as int] == Item::IStr(x@),
                            None => stored[i as int] is IOther,
                        });
                    }
                    match &items[i] {
                        Some(s) => v.push(s.clone()),
                        None => {
                            proof {
                                assert(stored[i as int] is IOther);
                                assert(!items_all_strings(stored));
                            }
                            return Err(Error::TypeMismatch);
                        },
                    }
                    i = i + 1;
                }
                proof {
                    assert(items_all_strings(stored));
                    assert(v.deep_view() =~= items_strings(stored));
                }
                Ok(v)
            },
            _ => Err(Error::TypeMismatch),
        }
    }

    /// Reconciles the stored child sequence into `new_children`: computes a
    /// minimal edit script against the current list and applies it highest
    /// span first, so spans both lists share are left untouched.  A stored
    /// sequence that is not a well-typed string list is replaced wholesale.
    pub fn set_children(&self, txn: &mut yrs::TransactionMut, new_children: &Vec<String>)
        requires
            self.live(*old(txn)),
            new_children@.len() <= u32::MAX,
        ensures
            self.live(*final(txn)),
            txn_key(*final(txn)) == txn_key(*old(txn)),
            doc_graph(*final(txn)) == graph_with_field(
                doc_graph(*old(txn)),
                self.task_id(),
                Field::Children,
                children_val(new_children.deep_view()),
            ),
    {
        let ghost g0 = doc_graph(*old(txn));
        let ghost id = self.task_id();
        let ghost was_list = self.fields(*old(txn)).contains_key(Field::Children) && self.fields(
            *old(txn),
        )[Field::Children] is VList;
        let a = node_init_array(&self.y_task, txn, Field::Children);
        let ghost g1 = doc_graph(*txn);
        let items = arr_strings(&a, txn);
        let ghost stored = arr_items(a, *txn);
        proof {
            assert(new_children.deep_view() =~= views_of(new_children@));
        }
        let mut old_children: Vec<String> = Vec::new();
        let mut all_strings: bool = true;
        let mut i: usize = 0;
        while i < items.len()
            invariant
                0 <= i <= items@.len(),
                items@.len() == stored.len(),
                forall|j: int|
                    0 <= j < items@.len() ==> match #[trigger] items@[j] {
                        Some(s) => stored[j] == Item::IStr(s@),
                        None => stored[j] is IOther,
                    },
                all_strings ==> old_children@.len() == i,
                all_strings ==> forall|j: int|
                    0 <= j < i ==> stored[j] == Item::IStr(#[trigger] old_children@[j]@),
            decreases items@.len() - i,
        {
            match &items[i] {
                Some(s) => old_children.push(s.clone()),
                None => all_strings = false,
            }
            i = i + 1;
        }
        if all_strings {
            proof {
                assert(stored =~= crate::reconcile::items_for(views_of(old_children@)));
            }
            if old_children.len() as u64 + new_children.len() as u64 <= u32::MAX as u64 {
                if !vec_str_eq(&old_children, new_children) {
                    let ops = reconcile_script(&old_children, new_children);
                    apply_edits(&a, txn, &ops, &old_children, new_children);
                    proof {
                        if !was_list {
                            lemma_field_overwrite(
                                g0,
                                id,
                                Field::Children,
                                Val::VList(Seq::empty()),
                                children_val(views_of(new_children@)),
                            );
                        }
                    }
                } else {
                    proof {
                        assert(children_val(views_of(new_children@)) == Val::VList(stored)) by {
                            assert(views_of(old_children@) == views_of(new_children@));
                        }
                        if was_list {
                            lemma_field_same(g0, id, Field::Children, Val::VList(stored));
                        } else {
                            assert(stored =~= Seq::<Item>::empty());
                        }
                    }
                }
                return ;
            }
        }
        // The stored sequence is corrupt (or degenerately long): replace it
        // wholesale; correctness over minimality when the starting state is
        // untrustworthy.
        let n = items.len() as u32;
        arr_remove_range(&a, txn, 0, n);
        proof {
            assert(arr_items(a, *txn) =~= Seq::<Item>::empty());
            lemma_field_overwrite(
                g1,
                id,
                Field::Children,
                Val::VList(Seq::empty()),
                children_val(views_of(new_children@)),
            );
            if !was_list {
                lemma_field_overwrite(
                    g0,
                    id,
                    Field::Children,
                    Val::VList(Seq::empty()),
                    children_val(views_of(new_children@)),
                );
            }
        }
        arr_insert_range(&a, txn, 0, new_children);
        proof {
            assert(Seq::<Item>::empty().subrange(0, 0) =~= Seq::<Item>::empty());
            assert(arr_items(a, *txn) =~= new_children@.map_values(|s: String| Item::IStr(s@)));
            assert(new_children@.map_values(|s: String| Item::IStr(s@)) =~= items_for(
                views_of(new_children@),
            ));
        }
    }

    /// Appends a child id unless it is already present; reports whether an
    /// append happened.  Never reorders or removes existing elements.
    pub fn push_child(&self, txn: &mut yrs::TransactionMut, child: &str) -> (r: Result<bool, Error>)
        requires
            self.live(*old(txn)),
            children_items(self.fields(*old(txn))).len() < u32::MAX,
        ensures
            r is Ok,
            ({
                let items0 = children_items(self.fields(*old(txn)));
                let present = exists|i: int|
                    0 <= i < items0.len() && items0[i] == Item::IStr(child@);
                &&& r matches Ok(b) ==> b == !present
                &&& present ==> doc_graph(*final(txn)) == doc_graph(*old(txn))
                &&& !present ==> doc_graph(*final(txn)) == graph_with_field(
                    doc_graph(*old(txn)),
                    self.task_id(),
                    Field::Children,
                    Val::VList(items0.push(Item::IStr(child@))),
                )
            }),
            self.live(*final(txn)),
            txn_key(*final(txn)) == txn_key(*old(txn)),
    {
        let ghost g0 = doc_graph(*old(txn));
        let ghost id = self.task_id();
        let ghost was_list = self.fields(*old(txn)).contains_key(Field::Children) && self.fields(
            *old(txn),
        )[Field::Children] is VList;
        let a = node_init_array(&self.y_task, txn, Field::Children);
        let ghost items0 = children_items(self.fields(*old(txn)));
        proof {
            if !was_list {
                assert(items0 =~= Seq::<Item>::empty());
            }
            assert(arr_items(a, *txn) == items0);
        }
        let items = arr_strings(&a, txn);
        let wanted = child.to_owned();
        let mut i: usize = 0;
        while i < items.len()
            invariant
                self.live(*txn),
                arr_live(a, *txn),
                arr_binding(a).id == self.task_id(),
                arr_binding(a).field == Field::Children,
                arr_items(a, *txn) == items0,
                items0 == children_items(self.fields(*old(txn))),
                txn_key(*txn) == txn_key(*old(txn)),
                was_list == (self.fields(*old(txn)).contains_key(Field::Children) && self.fields(
                    *old(txn),
                )[Field::Children] is VList),
                was_list ==> doc_graph(*txn) == doc_graph(*old(txn)),
                !was_list ==> items0 == Seq::<Item>::empty(),
                !was_list ==> doc_graph(*txn) == graph_with_field(
                    doc_graph(*old(txn)),
                    self.task_id(),
                    Field::Children,
                    Val::VList(Seq::empty()),
                ),
                0 <= i <= items@.len(),
                items@.len() == items0.len(),
                forall|j: int|
                    0 <= j < items@.len() ==> match #[trigger] items@[j] {
                        Some(s) => items0[j] == Item::IStr(s@),
                        None => items0[j] is IOther,
                    },
                wanted@ == child@,
                forall|j: int| 0 <= j < i ==> #[trigger] items0[j] != Item::IStr(child@),
            decreases items@.len() - i,
        {
            proof {
                assert(match items@[i as int] {
                    Some(x) => items0[i as int] == Item::IStr(x@),
                    None => items0[i as int] is IOther,
                });
            }
            match &items[i] {
                Some(s) => {
                    if s.eq(&wanted) {
                        proof {
                            assert(items0[i as int] == Item::IStr(child@));
                            if !was_list {
                                assert(false);
                            }
                        }
                        return Ok(false);
                    }
                },
                None => {},
            }
            i = i + 1;
        }
        arr_push(&a, txn, child);
        proof {
            if !was_list {
                lemma_field_overwrite(
                    g0,
                    id,
                    Field::Children,
                    Val::VList(Seq::empty()),
                    Val::VList(items0.push(Item::IStr(child@))),
                );
            }
        }
        Ok(true)
    }
}

} // verus!

use vstd::string::StringExecFns;

verus! {

impl YTaskProxy {
    /// The assignee, if set.
    pub fn get_assignee(&self, txn: &yrs::TransactionMut) -> (r: Result<Option<String>, Error>)
        requires
            self.live(*txn),
        ensures
            r matches Ok(o) ==> dec_opt_str(self.fields(*txn), Field::Assignee) == Ok::<_, Error>(opt_string_view(o)),
            r is Ok <==> dec_opt_str(self.fields(*txn), Field::Assignee) is Ok,
            r matches Err(e) ==> dec_opt_str(self.fields(*txn), Field::Assignee) == Err::<Option<Seq<char>>, Error>(e),
    {
        self.get_optional_string(txn, Field::Assignee)
    }

    /// Overwrites the assignee; `None` clears it to the null marker.
    pub fn set_assignee(&self, txn: &mut yrs::TransactionMut, assignee: Option<&str>)
        requires
            self.live(*old(txn)),
        ensures
            self.live(*final(txn)),
            txn_key(*final(txn)) == txn_key(*old(txn)),
            doc_graph(*final(txn)) == graph_with_field(
                doc_graph(*old(txn)),
                self.task_id(),
                Field::Assignee,
                opt_str_write(opt_view(assignee)),
            ),
    {
        self.set_optional_string(txn, Field::Assignee, assignee);
    }

    /// The reporter, if set.
    pub fn get_reporter(&self, txn: &yrs::TransactionMut) -> (r: Result<Option<String>, Error>)
        requires
            self.live(*txn),
        ensures
            r matches Ok(o) ==> dec_opt_str(self.fields(*txn), Field::Reporter) == Ok::<_, Error>(opt_string_view(o)),
            r is Ok <==> dec_opt_str(self.fields(*txn), Field::Reporter) is Ok,
            r matches Err(e) ==> dec_opt_str(self.fields(*txn), Field::Reporter) == Err::<Option<Seq<char>>, Error>(e),
    {
        self.get_optional_string(txn, Field::Reporter)
    }

    /// Overwrites the reporter; `None` clears it to the null marker.
    pub fn set_reporter(&self, txn: &mut yrs::TransactionMut, reporter: Option<&str>)
        requires
            self.live(*old(txn)),
        ensures
            self.live(*final(txn)),
            txn_key(*final(txn)) == txn_key(*old(txn)),
            doc_graph(*final(txn)) == graph_with_field(
                doc_graph(*old(txn)),
                self.task_id(),
                Field::Reporter,
                opt_str_write(opt_view(reporter)),
            ),
    {
        self.set_optional_string(txn, Field::Reporter, reporter);
    }

    /// The status label, if set.
    pub fn get_status(&self, txn: &yrs::TransactionMut) -> (r: Result<Option<String>, Error>)
        requires
            self.live(*txn),
        ensures
            r matches Ok(o) ==> dec_opt_str(self.fields(*txn), Field::Status) == Ok::<_, Error>(opt_string_view(o)),
            r is Ok <==> dec_opt_str(self.fields(*txn), Field::Status) is Ok,
            r matches Err(e) ==> dec_opt_str(self.fields(*txn), Field::Status) == Err::<Option<Seq<char>>, Error>(e),
    {
        self.get_optional_string(txn, Field::Status)
    }

    /// Overwrites the status label; `None` clears it to the null marker.
    pub fn set_status(&self, txn: &mut yrs::TransactionMut, status: Option<&str>)
        requires
            self.live(*old(txn)),
        ensures
            self.live(*final(txn)),
            txn_key(*final(txn)) == txn_key(*old(txn)),
            doc_graph(*final(txn)) == graph_with_field(
                doc_graph(*old(txn)),
                self.task_id(),
                Field::Status,
                opt_str_write(opt_view(status)),
            ),
    {
        self.set_optional_string(txn, Field::Status, status);
    }

    /// The status timestamp (epoch milliseconds), if set.
    pub fn get_status_time(&self, txn: &yrs::TransactionMut) -> (r: Result<Option<i64>, Error>)
        requires
            self.live(*txn),
        ensures
            r matches Ok(o) ==> dec_opt_int(self.fields(*txn), Field::StatusTime) == Ok::<_, Error>(o),
            r is Ok <==> dec_opt_int(self.fields(*txn), Field::StatusTime) is Ok,
            r matches Err(e) ==> dec_opt_int(self.fields(*txn), Field::StatusTime) == Err::<Option<i64>, Error>(e),
    {
        self.get_optional_number(txn, Field::StatusTime)
    }

    /// Overwrites the status timestamp; `None` clears it to the null marker.
    pub fn set_status_time(&self, txn: &mut yrs::TransactionMut, status_time: Option<i64>)
        requires
            self.live(*old(txn)),
        ensures
            self.live(*final(txn)),
            txn_key(*final(txn)) == txn_key(*old(txn)),
            doc_graph(*final(txn)) == graph_with_field(
                doc_graph(*old(txn)),
                self.task_id(),
                Field::StatusTime,
                crate::model::opt_int_val(status_time),
            ),
    {
        self.set_optional_number(txn, Field::StatusTime, status_time);
    }

    /// The link into an external system, if set.
    pub fn get_url(&self, txn: &yrs::TransactionMut) -> (r: Result<Option<String>, Error>)
        requires
            self.live(*txn),
        ensures
            r matches Ok(o) ==> dec_opt_str(self.fields(*txn), Field::Url) == Ok::<_, Error>(opt_string_view(o)),
            r is Ok <==> dec_opt_str(self.fields(*txn), Field::Url) is Ok,
            r matches Err(e) ==> dec_opt_str(self.fields(*txn), Field::Url) == Err::<Option<Seq<char>>, Error>(e),
    {
        self.get_optional_string(txn, Field::Url)
    }

    /// Overwrites the link; `None` clears it to the null marker.
    pub fn set_url(&self, txn: &mut yrs::TransactionMut, url: Option<&str>)
        requires
            self.live(*old(txn)),
        ensures
            self.live(*final(txn)),
            txn_key(*final(txn)) == txn_key(*old(txn)),
            doc_graph(*final(txn)) == graph_with_field(
                doc_graph(*old(txn)),
                self.task_id(),
                Field::Url,
                opt_str_write(opt_view(url)),
            ),
    {
        self.set_optional_string(txn, Field::Url, url);
    }

    /// The kind tag, if set.
    pub fn get_kind(&self, txn: &yrs::TransactionMut) -> (r: Result<Option<String>, Error>)
        requires
            self.live(*txn),
        ensures
            r matches Ok(o) ==> dec_opt_str(self.fields(*txn), Field::Kind) == Ok::<_, Error>(opt_string_view(o)),
            r is Ok <==> dec_opt_str(self.fields(*txn), Field::Kind) is Ok,
            r matches Err(e) ==> dec_opt_str(self.fields(*txn), Field::Kind) == Err::<Option<Seq<char>>, Error>(e),
    {
        self.get_optional_string(txn, Field::Kind)
    }

    /// Overwrites the kind tag; `None` clears it to the null marker.
    pub fn set_kind(&self, txn: &mut yrs::TransactionMut, kind: Option<&str>)
        requires
            self.live(*old(txn)),
        ensures
            self.live(*final(txn)),
            txn_key(*final(txn)) == txn_key(*old(txn)),
            doc_graph(*final(txn)) == graph_with_field(
                doc_graph(*old(txn)),
                self.task_id(),
                Field::Kind,
                opt_str_write(opt_view(kind)),
            ),
    {
        self.set_optional_string(txn, Field::Kind, kind);
    }

    /// The estimate, if set.
    pub fn get_estimate(&self, txn: &yrs::TransactionMut) -> (r: Result<Option<i64>, Error>)
        requires
            self.live(*txn),
        ensures
            r matches Ok(o) ==> dec_opt_int(self.fields(*txn), Field::Estimate) == Ok::<_, Error>(o),
            r is Ok <==> dec_opt_int(self.fields(*txn), Field::Estimate) is Ok,
            r matches Err(e) ==> dec_opt_int(self.fields(*txn), Field::Estimate) == Err::<Option<i64>, Error>(e),
    {
        self.get_optional_number(txn, Field::Estimate)
    }

    /// Overwrites the estimate; `None` clears it to the null marker.
    pub fn set_estimate(&self, txn: &mut yrs::TransactionMut, estimate: Option<i64>)
        requires
            self.live(*old(txn)),
        ensures
            self.live(*final(txn)),
            txn_key(*final(txn)) == txn_key(*old(txn)),
            doc_graph(*final(txn)) == graph_with_field(
                doc_graph(*old(txn)),
                self.task_id(),
                Field::Estimate,
                crate::model::opt_int_val(estimate),
            ),
    {
        self.set_optional_number(txn, Field::Estimate, estimate);
    }

    /// The deadline, if set.
    pub fn get_deadline(&self, txn: &yrs::TransactionMut) -> (r: Result<Option<i64>, Error>)
        requires
            self.live(*txn),
        ensures
            r matches Ok(o) ==> dec_opt_int(self.fields(*txn), Field::Deadline) == Ok::<_, Error>(o),
            r is Ok <==> dec_opt_int(self.fields(*txn), Field::Deadline) is Ok,
            r matches Err(e) ==> dec_opt_int(self.fields(*txn), Field::Deadline) == Err::<Option<i64>, Error>(e),
    {
        self.get_optional_number(txn, Field::Deadline)
    }

    /// Overwrites the deadline; `None` clears it to the null marker.
    pub fn set_deadline(&self, txn: &mut yrs::TransactionMut, deadline: Option<i64>)
        requires
            self.live(*old(txn)),
        ensures
            self.live(*final(txn)),
            txn_key(*final(txn)) == txn_key(*old(txn)),
            doc_graph(*final(txn)) == graph_with_field(
                doc_graph(*old(txn)),
                self.task_id(),
                Field::Deadline,
                crate::model::opt_int_val(deadline),
            ),
    {
        self.set_optional_number(txn, Field::Deadline, deadline);
    }

    /// The archived flag, if set.
    pub fn get_archived(&self, txn: &yrs::TransactionMut) -> (r: Result<Option<bool>, Error>)
        requires
            self.live(*txn),
        ensures
            r matches Ok(o) ==> dec_opt_bool(self.fields(*txn), Field::Archived) == Ok::<_, Error>(o),
            r is Ok <==> dec_opt_bool(self.fields(*txn), Field::Archived) is Ok,
            r matches Err(e) ==> dec_opt_bool(self.fields(*txn), Field::Archived) == Err::<Option<bool>, Error>(e),
    {
        self.get_optional_bool(txn, Field::Archived)
    }

    /// Overwrites the archived flag; `None` clears it to the null marker.
    pub fn set_archived(&self, txn: &mut yrs::TransactionMut, archived: Option<bool>)
        requires
            self.live(*old(txn)),
        ensures
            self.live(*final(txn)),
            txn_key(*final(txn)) == txn_key(*old(txn)),
            doc_graph(*final(txn)) == graph_with_field(
                doc_graph(*old(txn)),
                self.task_id(),
                Field::Archived,
                crate::model::opt_bool_val(archived),
            ),
    {
        match archived {
            Some(b) => self.set_scalar(txn, Field::Archived, Scalar::SBool(b)),
            None => self.set_scalar(txn, Field::Archived, Scalar::SNull),
        }
    }

    /// Whether this node is a rollup: an explicit `"Rollup"` kind, or —
    /// with any other kind, or none — a non-empty child list.  The kind
    /// decides only when it is the rollup tag.
    pub fn is_rollup(&self, txn: &yrs::TransactionMut) -> (r: Result<bool, Error>)
        requires
            self.live(*txn),
        ensures
            r == rollup_result(self.fields(*txn)),
    {
        match self.get_kind(txn) {
            Err(e) => Err(e),
            Ok(kind) => {
                let is_tag = match &kind {
                    Some(k) => {
                        let tag = String::from_str("Rollup");
                        k.eq(&tag)
                    },
                    None => false,
                };
                if is_tag {
                    Ok(true)
                } else {
                    match self.get_children(txn) {
                        Err(e) => Err(e),
                        Ok(c) => {
                            proof {
                                assert(c.deep_view().len() == c@.len());
                            }
                            Ok(c.len() > 0)
                        },
                    }
                }
            },
        }
    }

    /// Whether this node's content is owned by an external integration: its
    /// kind is in the fixed managed set.
    pub fn is_managed(&self, txn: &yrs::TransactionMut) -> (r: Result<bool, Error>)
        requires
            self.live(*txn),
        ensures
            r == managed_result(self.fields(*txn)),
    {
        match self.get_kind(txn) {
            Err(e) => Err(e),
            Ok(Some(k)) => {
                let gh = String::from_str("github");
                let ghpr = String::from_str("github_pr");
                Ok(k.eq(&gh) || k.eq(&ghpr))
            },
            Ok(None) => Ok(false),
        }
    }

    /// Materializes the whole domain record, failing on the first malformed
    /// field in schema order.
    pub fn to_task(&self, txn: &yrs::TransactionMut) -> (r: Result<Task, Error>)
        requires
            self.live(*txn),
        ensures
            r is Ok <==> node_ok(self.fields(*txn)),
            r matches Ok(task) ==> task@ == node_task(self.fields(*txn)),
            r matches Err(e) ==> e == node_err(self.fields(*txn)),
    {
        let id = match self.get_id(txn) {
            Ok(v) => v,
            Err(e) => return Err(e),
        };
        let num = match self.get_num(txn) {
            Ok(v) => v,
            Err(e) => return Err(e),
        };
        let name = match self.get_name(txn) {
            Ok(v) => v,
            Err(e) => return Err(e),
        };
        let desc = match self.get_desc(txn) {
            Ok(v) => v,
            Err(e) => return Err(e),
        };
        let children = match self.get_children(txn) {
            Ok(v) => v,
            Err(e) => return Err(e),
        };
        let assignee = match self.get_assignee(txn) {
            Ok(v) => v,
            Err(e) => return Err(e),
        };
        let reporter = match self.get_reporter(txn) {
            Ok(v) => v,
            Err(e) => return Err(e),
        };
        let status = match self.get_status(txn) {
            Ok(v) => v,
            Err(e) => return Err(e),
        };
        let status_time = match self.get_status_time(txn) {
            Ok(v) => v,
            Err(e) => return Err(e),
        };
        let url = match self.get_url(txn) {
            Ok(v) => v,
            Err(e) => return Err(e),
        };
        let kind = match self.get_kind(txn) {
            Ok(v) => v,
            Err(e) => return Err(e),
        };
        let estimate = match self.get_estimate(txn) {
            Ok(v) => v,
            Err(e) => return Err(e),
        };
        let deadline = match self.get_deadline(txn) {
            Ok(v) => v,
            Err(e) => return Err(e),
        };
        let archived = match self.get_archived(txn) {
            Ok(v) => v,
            Err(e) => return Err(e),
        };
        let task = Task {
            id,
            num,
            name,
            desc,
            children,
            assignee,
            reporter,
            status,
            status_time,
            url,
            kind,
            estimate,
            deadline,
            archived,
        };
        proof {
            assert(task@ =~= node_task(self.fields(*txn)));
        }
        Ok(task)
    }
}

} // verus!

verus! {

/// The fields of the node under `id`, or the empty map where no node exists
/// yet (an upsert starts from nothing).
pub open spec fn node_fields_or_empty(g: Map<Seq<char>, Entry>, id: Seq<char>) -> Map<Field, Val> {
    if is_node_at(g, id) {
        fields_at(g, id)
    } else {
        Map::empty()
    }
}

/// Every entry of the graph is a task node.
pub open spec fn all_nodes(g: Map<Seq<char>, Entry>) -> bool {
    forall|id: Seq<char>| #[trigger] g.contains_key(id) ==> g[id] is Node
}

/// Every entry is a node and decodes into a task without error.
pub open spec fn graph_all_ok(g: Map<Seq<char>, Entry>) -> bool {
    forall|id: Seq<char>| #[trigger]
        g.contains_key(id) ==> g[id] is Node && node_ok(fields_at(g, id))
}

/// Every entry is a node whose sequence number is a valid numeral.
pub open spec fn node_num_ok(f: Map<Field, Val>) -> bool {
    dec_str(f, Field::Num) is Ok && valid_u64_numeral(dec_str(f, Field::Num)->Ok_0)
}

/// The numeric value of a node's sequence number.
pub open spec fn node_num_val(f: Map<Field, Val>) -> int {
    numeral_val(dec_str(f, Field::Num)->Ok_0)
}

/// Every entry is a node with a valid sequence number.
pub open spec fn graph_nums_ok(g: Map<Seq<char>, Entry>) -> bool {
    forall|id: Seq<char>| #[trigger]
        g.contains_key(id) ==> g[id] is Node && node_num_ok(fields_at(g, id))
}

/// The error a failed graph materialization reports, tied to a witness
/// entry: a non-node entry reports `NotANode`; a node that fails to decode
/// reports that node's first decode error.
pub open spec fn scan_err_witness(g: Map<Seq<char>, Entry>, e: Error) -> bool {
    exists|id: Seq<char>| #[trigger]
        g.contains_key(id) && ((g[id] is Foreign && e == Error::NotANode) || (g[id] is Node
            && !node_ok(fields_at(g, id)) && e == node_err(fields_at(g, id))))
}

/// The error a failed sequence-number read reports, tied to a witness
/// entry: a non-node entry reports `NotANode`; a node whose number string
/// fails to decode reports that field's error.
pub open spec fn num_err_witness(g: Map<Seq<char>, Entry>, e: Error) -> bool {
    exists|id: Seq<char>| #[trigger]
        g.contains_key(id) && ((g[id] is Foreign && e == Error::NotANode) || (g[id] is Node
            && dec_str(fields_at(g, id), Field::Num) is Err && Err::<Seq<char>, Error>(e)
            == dec_str(fields_at(g, id), Field::Num)))
}

/// The error a failed allocation reports, tied to a witness entry: beyond
/// the cases of [`num_err_witness`], a number string that is not a valid
/// in-range numeral, or one at the integer ceiling (where the successor
/// would not be representable), reports `ParseError`.
pub open spec fn next_num_err_witness(g: Map<Seq<char>, Entry>, e: Error) -> bool {
    exists|id: Seq<char>| #[trigger]
        g.contains_key(id) && ((g[id] is Foreign && e == Error::NotANode) || (g[id] is Node
            && dec_str(fields_at(g, id), Field::Num) is Err && Err::<Seq<char>, Error>(e)
            == dec_str(fields_at(g, id), Field::Num)) || (g[id] is Node && dec_str(
            fields_at(g, id),
            Field::Num,
        ) is Ok && !valid_u64_numeral(dec_str(fields_at(g, id), Field::Num)->Ok_0) && e
            == Error::ParseError) || (g[id] is Node && node_num_ok(fields_at(g, id))
            && node_num_val(fields_at(g, id)) == u64::MAX && e == Error::ParseError))
}

/// The whole graph, materialized: one `(id, task)` entry per node, in the
/// document's enumeration order (which carries no meaning).
pub struct Graph {
    pub entries: Vec<(String, Task)>,
}

/// A typed facade over the whole replicated document.
pub struct YDocProxy {
    doc: yrs::Doc,
    graph: yrs::MapRef,
}

impl YDocProxy {
    /// The handle pair is internally consistent.
    pub closed spec fn wf(self) -> bool {
        map_binding(self.graph) == (MapBinding::Root { doc: doc_key(self.doc) })
    }

    /// The identity of the underlying document.
    pub closed spec fn key(self) -> int {
        doc_key(self.doc)
    }

    /// `t` is a mutation scope of this proxy's document.
    pub closed spec fn owns(self, t: yrs::TransactionMut) -> bool {
        self.wf() && txn_key(t) == doc_key(self.doc)
    }

    /// Opens a fresh document with an empty graph.
    ///
    /// The contract states only well-formedness.  The model ties graph
    /// contents to each mutation scope, not to a document's history; a
    /// document handle outlives its first edits, so a trusted clause "any
    /// scope of a fresh document reads an empty graph" would be false of
    /// every scope opened after a write, and is deliberately not stated.
    /// A verified caller that needs emptiness observes it instead: within a
    /// scope, `to_graph` returning no entries pins the graph to the empty
    /// domain by its own contract, after which the enumeration and
    /// allocation contracts take over.
    pub fn new() -> (r: YDocProxy)
        ensures
            r.wf(),
    {
        let (doc, graph) = doc_new_with_root();
        YDocProxy { doc, graph }
    }

    /// Adopts an existing document; fails if it has no graph map.
    pub fn new_from_existing_doc(doc: yrs::Doc, txn: &yrs::TransactionMut) -> (r: Result<
        YDocProxy,
        Error,
    >)
        requires
            txn_key(*txn) == doc_key(doc),
        ensures
            r is Ok <==> has_graph_root(*txn),
            r matches Ok(p) ==> p.wf() && p.key() == doc_key(doc),
            r matches Err(e) ==> e == Error::MissingField,
    {
        match txn_graph_root(txn) {
            Some(graph) => Ok(YDocProxy { doc, graph }),
            None => Err(Error::MissingField),
        }
    }

    /// Acquires the exclusive mutation scope, tagged with an origin; fails if
    /// one is already active rather than blocking or retrying.
    pub fn transact_mut_with(&self, origin: &str) -> (r: Result<yrs::TransactionMut<'_>, Error>)
        requires
            self.wf(),
        ensures
            r matches Ok(t) ==> self.owns(t),
            r matches Err(e) ==> e == Error::TransactionUnavailable,
    {
        doc_transact_mut(&self.doc, origin)
    }

    /// Looks a task up by id.
    pub fn get(&self, txn: &yrs::TransactionMut, id: &str) -> (r: Result<YTaskProxy, Error>)
        requires
            self.owns(*txn),
        ensures
            r is Ok <==> is_node_at(doc_graph(*txn), id@),
            r matches Ok(p) ==> p.live(*txn) && p.task_id() == id@,
            r matches Err(e) ==> e == (if doc_graph(*txn).contains_key(id@) {
                Error::NotANode
            } else {
                Error::NotFound
            }),
    {
        match graph_get(&self.graph, txn, id) {
            GotEntry::Missing => Err(Error::NotFound),
            GotEntry::Foreign => Err(Error::NotANode),
            GotEntry::Node(n) => Ok(YTaskProxy::new(n)),
        }
    }

    /// Idempotent upsert: creates the node if absent, then overwrites every
    /// schema field with the given task's values — a full overwrite, not a
    /// patch, so cleared optional fields are visibly nulled.
    pub fn set(&self, txn: &mut yrs::TransactionMut, task: &Task) -> (p: YTaskProxy)
        requires
            self.owns(*old(txn)),
            task.children@.len() <= u32::MAX,
        ensures
            self.owns(*final(txn)),
            p.live(*final(txn)),
            p.task_id() == task.id@,
            doc_graph(*final(txn)) == doc_graph(*old(txn)).insert(
                task.id@,
                Entry::Node(
                    task_fields(node_fields_or_empty(doc_graph(*old(txn)), task.id@), task@),
                ),
            ),
    {
        let ghost g0 = doc_graph(*old(txn));
        let ghost id = task.id@;
        let ghost prior = node_fields_or_empty(g0, id);
        let y_task = graph_get_or_init(&self.graph, txn, task.id.as_str());
        let p = YTaskProxy::new(y_task);
        proof {
            assert(fields_at(doc_graph(*txn), id) =~= prior);
        }
        p.set_id(txn, task.id.as_str());
        p.set_num(txn, task.num.as_str());
        p.set_name(txn, task.name.as_str());
        match &task.desc {
            Some(s) => p.set_desc(txn, Some(s.as_str())),
            None => p.set_desc(txn, None),
        }
        p.set_children(txn, &task.children);
        match &task.assignee {
            Some(s) => p.set_assignee(txn, Some(s.as_str())),
            None => p.set_assignee(txn, None),
        }
        match &task.reporter {
            Some(s) => p.set_reporter(txn, Some(s.as_str())),
            None => p.set_reporter(txn, None),
        }
        match &task.status {
            Some(s) => p.set_status(txn, Some(s.as_str())),
            None => p.set_status(txn, None),
        }
        p.set_status_time(txn, task.status_time);
        match &task.url {
            Some(s) => p.set_url(txn, Some(s.as_str())),
            None => p.set_url(txn, None),
        }
        match &task.kind {
            Some(s) => p.set_kind(txn, Some(s.as_str())),
            None => p.set_kind(txn, None),
        }
        p.set_estimate(txn, task.estimate);
        p.set_deadline(txn, task.deadline);
        p.set_archived(txn, task.archived);
        proof {
            assert(doc_graph(*txn) =~~= g0.insert(
                id,
                Entry::Node(task_fields(prior, task@)),
            ));
        }
        p
    }
}

} // verus!

verus! {

/// The string is one of the requested numbers.
pub open spec fn in_nums(nums: Seq<String>, s: Seq<char>) -> bool {
    exists|q: int| 0 <= q < nums.len() && #[trigger] nums[q]@ == s
}

/// The node under `id` exists, decodes a number string, and that string is
/// one of the requested numbers.
pub open spec fn matching_at(g: Map<Seq<char>, Entry>, nums: Seq<String>, id: Seq<char>) -> bool {
    &&& g.contains_key(id)
    &&& g[id] is Node
    &&& dec_str(fields_at(g, id), Field::Num) is Ok
    &&& in_nums(nums, dec_str(fields_at(g, id), Field::Num)->Ok_0)
}

/// Every graph entry is represented by some handle in the vector.
pub open spec fn covers_graph(g: Map<Seq<char>, Entry>, v: Seq<YTaskProxy>) -> bool {
    forall|id: Seq<char>| #[trigger] g.contains_key(id) ==> exists|j: int|
        0 <= j < v.len() && (#[trigger] v[j]).task_id() == id
}

/// Whether a string equals some element of a vector.
fn vec_contains(nums: &Vec<String>, s: &String) -> (r: bool)
    ensures
        r <==> exists|i: int| 0 <= i < nums@.len() && #[trigger] nums@[i]@ == s@,
{
    let mut i: usize = 0;
    while i < nums.len()
        invariant
            0 <= i <= nums@.len(),
            forall|j: int| 0 <= j < i ==> #[trigger] nums@[j]@ != s@,
        decreases nums@.len() - i,
    {
        if nums[i].eq(s) {
            return true;
        }
        i = i + 1;
    }
    false
}

impl YDocProxy {
    /// Lazy handles for every node, in the document's enumeration order
    /// (which carries no meaning); fails on the first entry that is not a
    /// node.
    #[verifier::rlimit(50)]
    pub fn tasks(&self, txn: &yrs::TransactionMut) -> (r: Result<Vec<YTaskProxy>, Error>)
        requires
            self.owns(*txn),
        ensures
            r is Ok <==> all_nodes(doc_graph(*txn)),
            r matches Ok(v) ==> forall|j: int| 0 <= j < v@.len() ==> (#[trigger] v@[j]).live(*txn),
            r matches Ok(v) ==> forall|j: int|
                0 <= j < v@.len() ==> doc_graph(*txn).contains_key((#[trigger] v@[j]).task_id()),
            r matches Ok(v) ==> covers_graph(doc_graph(*txn), v@),
            r matches Ok(v) ==> forall|j1: int, j2: int|
                0 <= j1 < j2 < v@.len() ==> (#[trigger] v@[j1]).task_id() != (
                #[trigger] v@[j2]).task_id(),
            r matches Err(e) ==> e == Error::NotANode && !all_nodes(doc_graph(*txn)),
    {
        let keys = graph_keys(&self.graph, txn);
        let mut v: Vec<YTaskProxy> = Vec::new();
        let mut i: usize = 0;
        while i < keys.len()
            invariant
                self.owns(*txn),
                0 <= i <= keys@.len(),
                forall|j: int|
                    0 <= j < keys@.len() ==> doc_graph(*txn).contains_key(#[trigger] keys@[j]@),
                forall|id: Seq<char>|
                    doc_graph(*txn).contains_key(id) ==> exists|j: int|
                        0 <= j < keys@.len() && #[trigger] keys@[j]@ == id,
                forall|j1: int, j2: int| 0 <= j1 < j2 < keys@.len() ==> keys@[j1]@ != keys@[j2]@,
                v@.len() == i,
                forall|j: int|
                    0 <= j < i ==> (#[trigger] v@[j]).live(*txn) && v@[j].task_id() == keys@[j]@,
            decreases keys@.len() - i,
        {
            let p = match self.get(txn, keys[i].as_str()) {
                Ok(p) => p,
                Err(_) => {
                    proof {
                        assert(doc_graph(*txn).contains_key(keys@[i as int]@));
                        assert(!all_nodes(doc_graph(*txn)));
                    }
                    return Err(Error::NotANode);
                },
            };
            v.push(p);
            i = i + 1;
        }
        proof {
            assert(covers_graph(doc_graph(*txn), v@)) by {
                assert forall|id: Seq<char>| #[trigger]
                    doc_graph(*txn).contains_key(id) implies exists|j: int|
                    0 <= j < v@.len() && (#[trigger] v@[j]).task_id() == id by {
                    let j = choose|j: int| 0 <= j < keys@.len() && #[trigger] keys@[j]@ == id;
                    assert(v@[j].live(*txn));
                    assert(v@[j].task_id() == id);
                }
            }
            assert forall|id: Seq<char>| #[trigger]
                doc_graph(*txn).contains_key(id) implies doc_graph(*txn)[id] is Node by {
                let j = choose|j: int| 0 <= j < keys@.len() && #[trigger] keys@[j]@ == id;
                assert(v@[j].live(*txn));
            }
        }
        Ok(v)
    }

    /// Materializes the whole graph; fails fast on the first malformed node,
    /// returning no partial graph.
    pub fn to_graph(&self, txn: &yrs::TransactionMut) -> (r: Result<Graph, Error>)
        requires
            self.owns(*txn),
        ensures
            r is Ok <==> graph_all_ok(doc_graph(*txn)),
            r matches Ok(gr) ==> {
                &&& forall|j: int|
                    0 <= j < gr.entries@.len() ==> doc_graph(*txn).contains_key(
                        (#[trigger] gr.entries@[j]).0@,
                    ) && gr.entries@[j].1@ == node_task(
                        fields_at(doc_graph(*txn), gr.entries@[j].0@),
                    )
                &&& forall|id: Seq<char>| #[trigger]
                    doc_graph(*txn).contains_key(id) ==> exists|j: int|
                        0 <= j < gr.entries@.len() && (#[trigger] gr.entries@[j]).0@ == id
                &&& forall|j1: int, j2: int|
                    0 <= j1 < j2 < gr.entries@.len() ==> (#[trigger] gr.entries@[j1]).0@ != (
                    #[trigger] gr.entries@[j2]).0@
            },
            r matches Err(e) ==> !graph_all_ok(doc_graph(*txn)) && scan_err_witness(
                doc_graph(*txn),
                e,
            ),
    {
        let keys = graph_keys(&self.graph, txn);
        let mut entries: Vec<(String, Task)> = Vec::new();
        let mut i: usize = 0;
        while i < keys.len()
            invariant
                self.owns(*txn),
                0 <= i <= keys@.len(),
                forall|j: int|
                    0 <= j < keys@.len() ==> doc_graph(*txn).contains_key(#[trigger] keys@[j]@),
                forall|id: Seq<char>|
                    doc_graph(*txn).contains_key(id) ==> exists|j: int|
                        0 <= j < keys@.len() && #[trigger] keys@[j]@ == id,
                forall|j1: int, j2: int| 0 <= j1 < j2 < keys@.len() ==> keys@[j1]@ != keys@[j2]@,
                entries@.len() == i,
                forall|j: int|
                    0 <= j < i ==> (#[trigger] entries@[j]).0@ == keys@[j]@ && doc_graph(
                        *txn,
                    )[keys@[j]@] is Node && node_ok(fields_at(doc_graph(*txn), keys@[j]@))
                        && entries@[j].1@ == node_task(fields_at(doc_graph(*txn), keys@[j]@)),
            decreases keys@.len() - i,
        {
            let p = match self.get(txn, keys[i].as_str()) {
                Ok(p) => p,
                Err(_) => {
                    proof {
                        assert(doc_graph(*txn).contains_key(keys@[i as int]@));
                        assert(doc_graph(*txn)[keys@[i as int]@] is Foreign);
                    }
                    return Err(Error::NotANode);
                },
            };
            let task = match p.to_task(txn) {
                Ok(t) => t,
                Err(e) => {
                    proof {
                        assert(doc_graph(*txn).contains_key(keys@[i as int]@));
                        assert(!node_ok(fields_at(doc_graph(*txn), keys@[i as int]@)));
                    }
                    return Err(e);
                },
            };
            let key = keys[i].clone();
            entries.push((key, task));
            i = i + 1;
        }
        proof {
            assert forall|id: Seq<char>| #[trigger]
                doc_graph(*txn).contains_key(id) implies doc_graph(*txn)[id] is Node && node_ok(
                fields_at(doc_graph(*txn), id),
            ) by {
                let j = choose|j: int| 0 <= j < keys@.len() && #[trigger] keys@[j]@ == id;
                assert((entries@[j]).0@ == keys@[j]@);
            }
            assert forall|id: Seq<char>| #[trigger]
                doc_graph(*txn).contains_key(id) implies exists|j: int|
                0 <= j < entries@.len() && (#[trigger] entries@[j]).0@ == id by {
                let j = choose|j: int| 0 <= j < keys@.len() && #[trigger] keys@[j]@ == id;
                assert((entries@[j]).0@ == id);
            }
        }
        Ok(Graph { entries })
    }

    /// Looks tasks up by their sequence-number strings: a linear scan with an
    /// early exit once as many matches as requested numbers are found.  A
    /// requested number with no match is silently omitted.
    pub fn get_by_nums(&self, txn: &yrs::TransactionMut, nums: &Vec<String>) -> (r: Result<
        Vec<YTaskProxy>,
        Error,
    >)
        requires
            self.owns(*txn),
        ensures
            r matches Ok(v) ==> v@.len() <= nums@.len(),
            r matches Ok(v) ==> forall|j: int|
                0 <= j < v@.len() ==> (#[trigger] v@[j]).live(*txn) && doc_graph(
                    *txn,
                ).contains_key(v@[j].task_id()) && dec_str(
                    fields_at(doc_graph(*txn), v@[j].task_id()),
                    Field::Num,
                ) is Ok && in_nums(
                    nums@,
                    dec_str(fields_at(doc_graph(*txn), v@[j].task_id()), Field::Num)->Ok_0,
                ),
            r matches Ok(v) ==> forall|j1: int, j2: int|
                0 <= j1 < j2 < v@.len() ==> (#[trigger] v@[j1]).task_id() != (
                #[trigger] v@[j2]).task_id(),
            r matches Ok(v) ==> v@.len() < nums@.len() ==> forall|id: Seq<char>|
                (#[trigger] doc_graph(*txn).contains_key(id) && doc_graph(*txn)[id] is Node
                    && dec_str(fields_at(doc_graph(*txn), id), Field::Num) is Ok && in_nums(
                    nums@,
                    dec_str(fields_at(doc_graph(*txn), id), Field::Num)->Ok_0,
                )) ==> exists|j: int| 0 <= j < v@.len() && (#[trigger] v@[j]).task_id() == id,
            (all_nodes(doc_graph(*txn)) && (forall|id: Seq<char>| #[trigger]
                doc_graph(*txn).contains_key(id) ==> dec_str(
                    fields_at(doc_graph(*txn), id),
                    Field::Num,
                ) is Ok)) ==> r is Ok,
            r matches Err(e) ==> num_err_witness(doc_graph(*txn), e),
    {
        let mut v: Vec<YTaskProxy> = Vec::new();
        if nums.len() == 0 {
            return Ok(v);
        }
        let keys = graph_keys(&self.graph, txn);
        let mut i: usize = 0;
        while i < keys.len()
            invariant
                self.owns(*txn),
                0 <= i <= keys@.len(),
                nums@.len() > 0,
                forall|j: int|
                    0 <= j < keys@.len() ==> doc_graph(*txn).contains_key(#[trigger] keys@[j]@),
                forall|id: Seq<char>|
                    doc_graph(*txn).contains_key(id) ==> exists|j: int|
                        0 <= j < keys@.len() && #[trigger] keys@[j]@ == id,
                forall|j1: int, j2: int| 0 <= j1 < j2 < keys@.len() ==> keys@[j1]@ != keys@[j2]@,
                v@.len() <= i,
                v@.len() < nums@.len(),
                forall|j: int|
                    0 <= j < v@.len() ==> (#[trigger] v@[j]).live(*txn) && doc_graph(
                        *txn,
                    ).contains_key(v@[j].task_id()) && dec_str(
                        fields_at(doc_graph(*txn), v@[j].task_id()),
                        Field::Num,
                    ) is Ok && in_nums(
                        nums@,
                        dec_str(fields_at(doc_graph(*txn), v@[j].task_id()), Field::Num)->Ok_0,
                    ),
                forall|j1: int, j2: int|
                    0 <= j1 < j2 < v@.len() ==> (#[trigger] v@[j1]).task_id() != (
                    #[trigger] v@[j2]).task_id(),
                forall|j: int|
                    0 <= j < v@.len() ==> exists|k: int|
                        0 <= k < i && (#[trigger] v@[j]).task_id() == keys@[k]@,
                forall|k: int|
                    0 <= k < i && matching_at(doc_graph(*txn), nums@, #[trigger] keys@[k]@)
                        ==> exists|j: int|
                        0 <= j < v@.len() && (#[trigger] v@[j]).task_id() == keys@[k]@,
            decreases keys@.len() - i,
        {
            let p = match self.get(txn, keys[i].as_str()) {
                Ok(p) => p,
                Err(_) => {
                    proof {
                        assert(doc_graph(*txn).contains_key(keys@[i as int]@));
                        assert(doc_graph(*txn)[keys@[i as int]@] is Foreign);
                    }
                    return Err(Error::NotANode);
                },
            };
            let num = match p.get_num(txn) {
                Ok(n) => n,
                Err(e) => {
                    proof {
                        assert(doc_graph(*txn).contains_key(keys@[i as int]@));
                        assert(doc_graph(*txn)[keys@[i as int]@] is Node);
                    }
                    return Err(e);
                },
            };
            let matched = vec_contains(nums, &num);
            let ghost v_before = v@;
            if matched {
                v.push(p);
            }
            proof {
                assert forall|k: int|
                    0 <= k < i + 1 && matching_at(
                        doc_graph(*txn),
                        nums@,
                        #[trigger] keys@[k]@,
                    ) implies exists|j: int|
                    0 <= j < v@.len() && (#[trigger] v@[j]).task_id() == keys@[k]@ by {
                    if k == i as int {
                        assert(matched);
                        assert(v@[v@.len() - 1].task_id() == keys@[k]@);
                    } else {
                        let j = choose|j: int|
                            0 <= j < v_before.len() && (#[trigger] v_before[j]).task_id()
                                == keys@[k]@;
                        assert(v@[j].task_id() == keys@[k]@);
                    }
                }
            }
            if matched && v.len() == nums.len() {
                return Ok(v);
            }
            i = i + 1;
        }
        proof {
            assert forall|id: Seq<char>|
                (#[trigger] doc_graph(*txn).contains_key(id) && doc_graph(*txn)[id] is Node
                    && dec_str(fields_at(doc_graph(*txn), id), Field::Num) is Ok && in_nums(
                    nums@,
                    dec_str(fields_at(doc_graph(*txn), id), Field::Num)->Ok_0,
                )) implies exists|j: int|
                0 <= j < v@.len() && (#[trigger] v@[j]).task_id() == id by {
                let k = choose|k: int| 0 <= k < keys@.len() && #[trigger] keys@[k]@ == id;
                assert(matching_at(doc_graph(*txn), nums@, keys@[k]@));
            }
        }
        Ok(v)
    }

    /// The next free sequence number: one more than the largest stored one,
    /// or one for an empty graph.  Strict by design: a single node whose
    /// number does not parse (or a number at the integer ceiling) makes
    /// allocation fail rather than silently reuse a number.
    pub fn next_num(&self, txn: &yrs::TransactionMut) -> (r: Result<u64, Error>)
        requires
            self.owns(*txn),
        ensures
            r is Ok <==> (graph_nums_ok(doc_graph(*txn)) && (forall|id: Seq<char>| #[trigger]
                doc_graph(*txn).contains_key(id) ==> node_num_val(
                    fields_at(doc_graph(*txn), id),
                ) < u64::MAX)),
            r matches Ok(n) ==> {
                &&& n >= 1
                &&& forall|id: Seq<char>| #[trigger]
                    doc_graph(*txn).contains_key(id) ==> node_num_val(
                        fields_at(doc_graph(*txn), id),
                    ) < n
                &&& n > 1 ==> exists|id: Seq<char>|
                    #[trigger] doc_graph(*txn).contains_key(id) && node_num_val(
                        fields_at(doc_graph(*txn), id),
                    ) == n - 1
            },
            r matches Err(e) ==> next_num_err_witness(doc_graph(*txn), e),
    {
        let keys = graph_keys(&self.graph, txn);
        let mut max_num: u64 = 0;
        let mut i: usize = 0;
        while i < keys.len()
            invariant
                self.owns(*txn),
                0 <= i <= keys@.len(),
                forall|j: int|
                    0 <= j < keys@.len() ==> doc_graph(*txn).contains_key(#[trigger] keys@[j]@),
                forall|id: Seq<char>|
                    doc_graph(*txn).contains_key(id) ==> exists|j: int|
                        0 <= j < keys@.len() && #[trigger] keys@[j]@ == id,
                forall|j: int|
                    0 <= j < i ==> {
                        let f = fields_at(doc_graph(*txn), #[trigger] keys@[j]@);
                        doc_graph(*txn)[keys@[j]@] is Node && node_num_ok(f) && node_num_val(f)
                            <= max_num
                    },
                max_num == 0 || exists|j: int|
                    0 <= j < i && node_num_val(
                        fields_at(doc_graph(*txn), #[trigger] keys@[j]@),
                    ) == max_num,
            decreases keys@.len() - i,
        {
            let p = match self.get(txn, keys[i].as_str()) {
                Ok(p) => p,
                Err(_) => {
                    proof {
                        assert(doc_graph(*txn).contains_key(keys@[i as int]@));
                        assert(doc_graph(*txn)[keys@[i as int]@] is Foreign);
                    }
                    return Err(Error::NotANode);
                },
            };
            let num = match p.get_num(txn) {
                Ok(n) => n,
                Err(e) => {
                    proof {
                        assert(doc_graph(*txn).contains_key(keys@[i as int]@));
                        assert(doc_graph(*txn)[keys@[i as int]@] is Node);
                    }
                    return Err(e);
                },
            };
            let value = match parse_u64(num.as_str()) {
                Some(x) => x,
                None => {
                    proof {
                        assert(doc_graph(*txn).contains_key(keys@[i as int]@));
                        assert(doc_graph(*txn)[keys@[i as int]@] is Node);
                        assert(!valid_u64_numeral(
                            dec_str(
                                fields_at(doc_graph(*txn), keys@[i as int]@),
                                Field::Num,
                            )->Ok_0,
                        ));
                    }
                    return Err(Error::ParseError);
                },
            };
            if value > max_num {
                max_num = value;
            }
            i = i + 1;
        }
        if max_num == u64::MAX {
            proof {
                let j = choose|j: int|
                    0 <= j < keys@.len() && node_num_val(
                        fields_at(doc_graph(*txn), #[trigger] keys@[j]@),
                    ) == max_num;
                assert(doc_graph(*txn).contains_key(keys@[j]@));
                assert(doc_graph(*txn)[keys@[j]@] is Node && node_num_ok(
                    fields_at(doc_graph(*txn), keys@[j]@),
                ));
            }
            return Err(Error::ParseError);
        }
        proof {
            assert forall|id: Seq<char>| #[trigger]
                doc_graph(*txn).contains_key(id) implies doc_graph(*txn)[id] is Node
                && node_num_ok(fields_at(doc_graph(*txn), id)) && node_num_val(
                fields_at(doc_graph(*txn), id),
            ) <= max_num by {
                let j = choose|j: int| 0 <= j < keys@.len() && #[trigger] keys@[j]@ == id;
            }
            if max_num > 0 {
                let j = choose|j: int|
                    0 <= j < keys@.len() && node_num_val(
                        fields_at(doc_graph(*txn), #[trigger] keys@[j]@),
                    ) == max_num;
                assert(doc_graph(*txn).contains_key(keys@[j]@));
            }
        }
        Ok(max_num + 1)
    }
}

} // verus!

verus! {

impl YDocProxy {
    /// Registers a callback, under a caller-chosen key, to run on every
    /// update to the document (raw update granularity).  The callback runs
    /// synchronously inside the committing scope and must not open a new
    /// mutation scope.  It stays attached until [`Self::unobserve_update_v2`]
    /// is called with the same key.
    ///
    /// The observer registry mutates behind the shared document handle and
    /// is outside the model: the contracts of this family fix only the
    /// error value, not the registry's state or the reported booleans.
    pub fn observe_update_v2<F: Fn(&yrs::TransactionMut, &yrs::UpdateEvent) + Send + Sync + 'static>(
        &self,
        key: &str,
        f: F,
    ) -> (r: Result<(), Error>)
        ensures
            r matches Err(e) ==> e == Error::TransactionUnavailable,
    {
        crate::ybridge::doc_observe_update_v2(&self.doc, key, f)
    }

    /// Detaches the update callback registered under the key; reports
    /// whether one was attached.
    pub fn unobserve_update_v2(&self, key: &str) -> (r: Result<bool, Error>)
        ensures
            r matches Err(e) ==> e == Error::TransactionUnavailable,
    {
        crate::ybridge::doc_unobserve_update_v2(&self.doc, key)
    }

    /// Registers a callback, under a caller-chosen key, to run on shallow
    /// changes to the top-level graph map.  It stays attached until
    /// [`Self::unobserve_graph`] is called with the same key.
    pub fn observe_graph<F: Fn(&yrs::TransactionMut, &yrs::types::map::MapEvent) + Send + Sync + 'static>(
        &self,
        key: &str,
        f: F,
    ) {
        crate::ybridge::graph_observe(&self.graph, key, f);
    }

    /// Detaches the shallow graph callback registered under the key.
    pub fn unobserve_graph(&self, key: &str) -> bool {
        crate::ybridge::graph_unobserve(&self.graph, key)
    }

    /// Registers a callback, under a caller-chosen key, to run on every
    /// change anywhere in the graph's subtree.  It stays attached until
    /// [`Self::unobserve_deep_graph`] is called with the same key.
    pub fn observe_deep_graph<F: Fn(&yrs::TransactionMut, &yrs::types::Events) + Send + Sync + 'static>(
        &self,
        key: &str,
        f: F,
    ) {
        crate::ybridge::graph_observe_deep(&self.graph, key, f);
    }

    /// Detaches the deep graph callback registered under the key.
    pub fn unobserve_deep_graph(&self, key: &str) -> bool {
        crate::ybridge::graph_unobserve_deep(&self.graph, key)
    }
}

} // verus!

verus! {

impl YDocProxy {
    /// Acquires a read-only snapshot of the document, for callers outside
    /// this crate; the typed readers here take a mutation scope instead,
    /// which also serves for reading.
    pub fn transact(&self) -> (r: Result<yrs::Transaction<'_>, Error>)
        ensures
            r matches Err(e) ==> e == Error::TransactionUnavailable,
    {
        crate::ybridge::doc_transact(&self.doc)
    }
}

} // verus!

verus! {

impl Graph {
    /// Looks a materialized task up by the id it is stored under.
    pub fn get_task(&self, id: &str) -> (r: Option<&Task>)
        ensures
            r matches Some(t) ==> exists|j: int|
                0 <= j < self.entries@.len() && (#[trigger] self.entries@[j]).0@ == id@
                    && self.entries@[j].1 == *t,
            r is None ==> forall|j: int|
                0 <= j < self.entries@.len() ==> (#[trigger] self.entries@[j]).0@ != id@,
    {
        let wanted = id.to_owned();
        let mut j: usize = 0;
        while j < self.entries.len()
            invariant
                0 <= j <= self.entries@.len(),
                wanted@ == id@,
                forall|k: int| 0 <= k < j ==> (#[trigger] self.entries@[k]).0@ != id@,
            decreases self.entries@.len() - j,
        {
            if self.entries[j].0.eq(&wanted) {
                return Some(&self.entries[j].1);
            }
            j = j + 1;
        }
        None
    }
}

} // verus!

verus! {

/// Acquires the exclusive mutation scope of a raw document handle, tagged
/// with an origin.  This is the public path by which verified code can meet
/// [`YDocProxy::new_from_existing_doc`]'s precondition for a document
/// obtained elsewhere.
pub fn acquire_mutation_scope<'a>(doc: &'a yrs::Doc, origin: &str) -> (r: Result<
    yrs::TransactionMut<'a>,
    Error,
>)
    ensures
        r matches Ok(t) ==> txn_key(t) == doc_key(*doc),
        r matches Err(e) ==> e == Error::TransactionUnavailable,
{
    doc_transact_mut(doc, origin)
}

impl YTaskProxy {
    /// Opens the closed views for callers outside this module: the fields a
    /// handle reads are the graph's entry under the handle's id, so writer
    /// contracts (stated over `doc_graph`) chain with reader contracts
    /// (stated over `fields`).
    pub proof fn lemma_fields_are_graph_entry(self, t: yrs::TransactionMut)
        ensures
            self.fields(t) == fields_at(doc_graph(t), self.task_id()),
            self.live(t) ==> is_node_at(doc_graph(t), self.task_id()),
    {
    }

    /// A live handle stays live in any later state of the same scope whose
    /// graph still holds a node under its id.
    pub proof fn lemma_live_preserved(self, t1: yrs::TransactionMut, t2: yrs::TransactionMut)
        requires
            self.live(t1),
            txn_key(t2) == txn_key(t1),
            is_node_at(doc_graph(t2), self.task_id()),
        ensures
            self.live(t2),
    {
    }
}

impl YDocProxy {
    /// Ownership of a scope carries to any later state of the same scope.
    pub proof fn lemma_owns_preserved(self, t1: yrs::TransactionMut, t2: yrs::TransactionMut)
        requires
            self.owns(t1),
            txn_key(t2) == txn_key(t1),
        ensures
            self.owns(t2),
    {
    }

    /// A well-formed proxy owns any scope of its document — in particular
    /// one from [`acquire_mutation_scope`] on the document it adopted.
    pub proof fn lemma_owns_of_key(self, t: yrs::TransactionMut)
        requires
            self.wf(),
            txn_key(t) == self.key(),
        ensures
            self.owns(t),
    {
    }
}

} // verus!
