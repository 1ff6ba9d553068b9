//! The mathematical model of the replicated document, and the domain types.
//!
//! A document holds one root map (the graph) from task-id to a node; a node is
//! a map from field name to a dynamically-typed primitive.  The model mirrors
//! that shape with ghost types: `Entry` for a graph entry, `Val` for a field
//! value, `Item` for one element of an ordered child sequence.  The encoding
//! of a `Task` onto a node and the decoding of a node back into a `Task` are
//! given here as spec functions; the executable code in `yproxy` is proved
//! against them.

use vstd::prelude::*;

verus! {

/// The fields a task node may carry.  Field names are wire-stable; the wire
/// spelling of each is given by [`field_str`].
#[derive(Clone, Copy, PartialEq, Eq, Structural, Debug)]
pub enum Field {
    Id,
    Num,
    Name,
    Desc,
    Children,
    Assignee,
    Reporter,
    Status,
    StatusTime,
    Url,
    Kind,
    Estimate,
    Deadline,
    Archived,
}

/// The wire name of a field, as stored in the document.
pub open spec fn field_str(f: Field) -> Seq<char> {
    match f {
        Field::Id => "id"@,
        Field::Num => "num"@,
        Field::Name => "name"@,
        Field::Desc => "desc"@,
        Field::Children => "children"@,
        Field::Assignee => "assignee"@,
        Field::Reporter => "reporter"@,
        Field::Status => "status"@,
        Field::StatusTime => "statusTime"@,
        Field::Url => "url"@,
        Field::Kind => "kind"@,
        Field::Estimate => "estimate"@,
        Field::Deadline => "deadline"@,
        Field::Archived => "archived"@,
    }
}

/// The wire name of a field, for handing to the document runtime.
pub fn field_name(f: Field) -> (r: &'static str)
    ensures
        r@ == field_str(f),
{
    match f {
        Field::Id => "id",
        Field::Num => "num",
        Field::Name => "name",
        Field::Desc => "desc",
        Field::Children => "children",
        Field::Assignee => "assignee",
        Field::Reporter => "reporter",
        Field::Status => "status",
        Field::StatusTime => "statusTime",
        Field::Url => "url",
        Field::Kind => "kind",
        Field::Estimate => "estimate",
        Field::Deadline => "deadline",
        Field::Archived => "archived",
    }
}

/// One element of a node's ordered child sequence: a string, or foreign
/// content written by some other client.
#[verifier::ext_equal]
pub enum Item {
    IStr(Seq<char>),
    IOther,
}

/// The model of one field value: the document's primitive variants, with
/// numbers already taken to the signed integer they read back as.
#[verifier::ext_equal]
pub enum Val {
    /// A string primitive.
    VStr(Seq<char>),
    /// A numeric primitive, as the integer it truncates to on read.
    VInt(i64),
    /// A boolean primitive.
    VBool(bool),
    /// An explicit null (or undefined) marker: a visible, intentional clear.
    VNull,
    /// An ordered sequence.
    VList(Seq<Item>),
    /// A rich-text value, flattened to its string content.
    VText(Seq<char>),
    /// Anything else (a nested map, foreign content).
    VOther,
}

/// One entry of the root graph map.
#[verifier::ext_equal]
pub enum Entry {
    /// A task node: a map from field to value.
    Node(Map<Field, Val>),
    /// An entry that is not a nested map at all.
    Foreign,
}

/// The error kinds every fallible operation reports.  No operation panics on
/// malformed document content.
#[derive(Clone, Copy, PartialEq, Eq, Structural, Debug)]
pub enum Error {
    /// A required field is absent (or explicitly cleared).
    MissingField,
    /// A primitive is present but has the wrong variant.
    TypeMismatch,
    /// A task id is absent from the graph.
    NotFound,
    /// A graph entry maps to a non-node value.
    NotANode,
    /// A `num` field does not parse as an unsigned integer where required.
    ParseError,
    /// Acquiring the exclusive mutation scope failed.
    TransactionUnavailable,
}

/// The domain record for one work item.
#[derive(Clone, Debug, PartialEq, Eq)]
pub struct Task {
    /// Stable primary key.
    pub id: String,
    /// Secondary human-facing sequence key; must parse as an unsigned integer
    /// where sequence numbers are allocated.
    pub num: String,
    /// Display name (required).
    pub name: String,
    /// Optional long text, replaced wholesale on write.
    pub desc: Option<String>,
    /// Ordered child task ids.
    pub children: Vec<String>,
    pub assignee: Option<String>,
    pub reporter: Option<String>,
    pub status: Option<String>,
    /// Epoch milliseconds.
    pub status_time: Option<i64>,
    pub url: Option<String>,
    /// `"Rollup"` marks a synthetic aggregation node; the managed set marks
    /// externally-synchronized nodes.
    pub kind: Option<String>,
    pub estimate: Option<i64>,
    pub deadline: Option<i64>,
    pub archived: Option<bool>,
}

/// The mathematical image of a [`Task`].
#[verifier::ext_equal]
pub struct TaskV {
    pub id: Seq<char>,
    pub num: Seq<char>,
    pub name: Seq<char>,
    pub desc: Option<Seq<char>>,
    pub children: Seq<Seq<char>>,
    pub assignee: Option<Seq<char>>,
    pub reporter: Option<Seq<char>>,
    pub status: Option<Seq<char>>,
    pub status_time: Option<i64>,
    pub url: Option<Seq<char>>,
    pub kind: Option<Seq<char>>,
    pub estimate: Option<i64>,
    pub deadline: Option<i64>,
    pub archived: Option<bool>,
}

impl View for Task {
    type V = TaskV;

    open spec fn view(&self) -> TaskV {
        TaskV {
            id: self.id@,
            num: self.num@,
            name: self.name@,
            desc: self.desc.deep_view(),
            children: self.children.deep_view(),
            assignee: self.assignee.deep_view(),
            reporter: self.reporter.deep_view(),
            status: self.status.deep_view(),
            status_time: self.status_time,
            url: self.url.deep_view(),
            kind: self.kind.deep_view(),
            estimate: self.estimate,
            deadline: self.deadline,
            archived: self.archived,
        }
    }
}

impl Default for Task {
    /// The empty record: every optional field absent, required strings empty.
    fn default() -> (r: Task)
        ensures
            r@.id == Seq::<char>::empty(),
            r@.num == Seq::<char>::empty(),
            r@.name == Seq::<char>::empty(),
            r@.desc is None && r@.children == Seq::<Seq<char>>::empty(),
            r@.assignee is None && r@.reporter is None && r@.status is None,
            r@.status_time is None && r@.url is None && r@.kind is None,
            r@.estimate is None && r@.deadline is None && r@.archived is None,
    {
        Task {
            id: String::new(),
            num: String::new(),
            name: String::new(),
            desc: None,
            children: Vec::new(),
            assignee: None,
            reporter: None,
            status: None,
            status_time: None,
            url: None,
            kind: None,
            estimate: None,
            deadline: None,
            archived: None,
        }
    }
}

// ---------------------------------------------------------------------------
// Encoding: what writing a Task leaves on a node.
// ---------------------------------------------------------------------------

/// How an optional string is stored: the value, or an explicit null marker so
/// that a clear is visible to observers and other replicas.
pub open spec fn opt_str_val(o: Option<Seq<char>>) -> Val {
    match o {
        Some(s) => Val::VStr(s),
        None => Val::VNull,
    }
}

pub open spec fn opt_int_val(o: Option<i64>) -> Val {
    match o {
        Some(i) => Val::VInt(i),
        None => Val::VNull,
    }
}

pub open spec fn opt_bool_val(o: Option<bool>) -> Val {
    match o {
        Some(b) => Val::VBool(b),
        None => Val::VNull,
    }
}

/// How the description is stored: rich text, or the null marker.
pub open spec fn desc_val(o: Option<Seq<char>>) -> Val {
    match o {
        Some(s) => Val::VText(s),
        None => Val::VNull,
    }
}

/// How a child list is stored: an ordered sequence of strings.
pub open spec fn children_val(c: Seq<Seq<char>>) -> Val {
    Val::VList(c.map_values(|s: Seq<char>| Item::IStr(s)))
}

/// The node fields after a full-overwrite write of `t` on top of `prior`.
/// Every schema field is overwritten; foreign fields of the node survive.
pub open spec fn task_fields(prior: Map<Field, Val>, t: TaskV) -> Map<Field, Val> {
    prior.insert(Field::Id, Val::VStr(t.id)).insert(Field::Num, Val::VStr(t.num)).insert(
        Field::Name,
        Val::VStr(t.name),
    ).insert(Field::Desc, desc_val(t.desc)).insert(Field::Children, children_val(t.children)).insert(
        Field::Assignee,
        opt_str_val(t.assignee),
    ).insert(Field::Reporter, opt_str_val(t.reporter)).insert(
        Field::Status,
        opt_str_val(t.status),
    ).insert(Field::StatusTime, opt_int_val(t.status_time)).insert(
        Field::Url,
        opt_str_val(t.url),
    ).insert(Field::Kind, opt_str_val(t.kind)).insert(
        Field::Estimate,
        opt_int_val(t.estimate),
    ).insert(Field::Deadline, opt_int_val(t.deadline)).insert(
        Field::Archived,
        opt_bool_val(t.archived),
    )
}

// ---------------------------------------------------------------------------
// Decoding: what reading a node yields, field by field.
// ---------------------------------------------------------------------------

/// A required string field: absent or cleared is an error.
pub open spec fn dec_str(f: Map<Field, Val>, fld: Field) -> Result<Seq<char>, Error> {
    if !f.contains_key(fld) {
        Err(Error::MissingField)
    } else {
        match f[fld] {
            Val::VStr(s) => Ok(s),
            Val::VNull => Err(Error::MissingField),
            _ => Err(Error::TypeMismatch),
        }
    }
}

/// An optional string field: absent or cleared reads as `None`.
pub open spec fn dec_opt_str(f: Map<Field, Val>, fld: Field) -> Result<Option<Seq<char>>, Error> {
    if !f.contains_key(fld) {
        Ok(None)
    } else {
        match f[fld] {
            Val::VStr(s) => Ok(Some(s)),
            Val::VNull => Ok(None),
            _ => Err(Error::TypeMismatch),
        }
    }
}

/// An optional integer field.
pub open spec fn dec_opt_int(f: Map<Field, Val>, fld: Field) -> Result<Option<i64>, Error> {
    if !f.contains_key(fld) {
        Ok(None)
    } else {
        match f[fld] {
            Val::VInt(i) => Ok(Some(i)),
            Val::VNull => Ok(None),
            _ => Err(Error::TypeMismatch),
        }
    }
}

/// An optional boolean field.
pub open spec fn dec_opt_bool(f: Map<Field, Val>, fld: Field) -> Result<Option<bool>, Error> {
    if !f.contains_key(fld) {
        Ok(None)
    } else {
        match f[fld] {
            Val::VBool(b) => Ok(Some(b)),
            Val::VNull => Ok(None),
            _ => Err(Error::TypeMismatch),
        }
    }
}

/// An optional rich-text field, read as its flattened string content.
pub open spec fn dec_text(f: Map<Field, Val>, fld: Field) -> Result<Option<Seq<char>>, Error> {
    if !f.contains_key(fld) {
        Ok(None)
    } else {
        match f[fld] {
            Val::VText(s) => Ok(Some(s)),
            Val::VNull => Ok(None),
            _ => Err(Error::TypeMismatch),
        }
    }
}

/// Whether every element of a stored child sequence is a string.
pub open spec fn items_all_strings(items: Seq<Item>) -> bool {
    forall|i: int| 0 <= i < items.len() ==> items[i] is IStr
}

/// The strings of a stored child sequence.
pub open spec fn items_strings(items: Seq<Item>) -> Seq<Seq<char>> {
    items.map_values(
        |it: Item|
            match it {
                Item::IStr(s) => s,
                Item::IOther => Seq::empty(),
            },
    )
}

/// The child list: absent reads as empty; a sequence with a non-string
/// element, or any other variant (a cleared marker included), is an error.
pub open spec fn dec_children(f: Map<Field, Val>) -> Result<Seq<Seq<char>>, Error> {
    if !f.contains_key(Field::Children) {
        Ok(Seq::empty())
    } else {
        match f[Field::Children] {
            Val::VList(items) => if items_all_strings(items) {
                Ok(items_strings(items))
            } else {
                Err(Error::TypeMismatch)
            },
            _ => Err(Error::TypeMismatch),
        }
    }
}

/// Whether a whole node decodes into a task without error.
pub open spec fn node_ok(f: Map<Field, Val>) -> bool {
    &&& dec_str(f, Field::Id) is Ok
    &&& dec_str(f, Field::Num) is Ok
    &&& dec_str(f, Field::Name) is Ok
    &&& dec_text(f, Field::Desc) is Ok
    &&& dec_children(f) is Ok
    &&& dec_opt_str(f, Field::Assignee) is Ok
    &&& dec_opt_str(f, Field::Reporter) is Ok
    &&& dec_opt_str(f, Field::Status) is Ok
    &&& dec_opt_int(f, Field::StatusTime) is Ok
    &&& dec_opt_str(f, Field::Url) is Ok
    &&& dec_opt_str(f, Field::Kind) is Ok
    &&& dec_opt_int(f, Field::Estimate) is Ok
    &&& dec_opt_int(f, Field::Deadline) is Ok
    &&& dec_opt_bool(f, Field::Archived) is Ok
}

/// The task a well-formed node decodes into.
pub open spec fn node_task(f: Map<Field, Val>) -> TaskV {
    TaskV {
        id: dec_str(f, Field::Id)->Ok_0,
        num: dec_str(f, Field::Num)->Ok_0,
        name: dec_str(f, Field::Name)->Ok_0,
        desc: dec_text(f, Field::Desc)->Ok_0,
        children: dec_children(f)->Ok_0,
        assignee: dec_opt_str(f, Field::Assignee)->Ok_0,
        reporter: dec_opt_str(f, Field::Reporter)->Ok_0,
        status: dec_opt_str(f, Field::Status)->Ok_0,
        status_time: dec_opt_int(f, Field::StatusTime)->Ok_0,
        url: dec_opt_str(f, Field::Url)->Ok_0,
        kind: dec_opt_str(f, Field::Kind)->Ok_0,
        estimate: dec_opt_int(f, Field::Estimate)->Ok_0,
        deadline: dec_opt_int(f, Field::Deadline)->Ok_0,
        archived: dec_opt_bool(f, Field::Archived)->Ok_0,
    }
}

/// The error a malformed node reports: the first field, in schema order, that
/// fails to decode.
pub open spec fn node_err(f: Map<Field, Val>) -> Error {
    if dec_str(f, Field::Id) is Err {
        dec_str(f, Field::Id)->Err_0
    } else if dec_str(f, Field::Num) is Err {
        dec_str(f, Field::Num)->Err_0
    } else if dec_str(f, Field::Name) is Err {
        dec_str(f, Field::Name)->Err_0
    } else if dec_text(f, Field::Desc) is Err {
        dec_text(f, Field::Desc)->Err_0
    } else if dec_children(f) is Err {
        dec_children(f)->Err_0
    } else if dec_opt_str(f, Field::Assignee) is Err {
        dec_opt_str(f, Field::Assignee)->Err_0
    } else if dec_opt_str(f, Field::Reporter) is Err {
        dec_opt_str(f, Field::Reporter)->Err_0
    } else if dec_opt_str(f, Field::Status) is Err {
        dec_opt_str(f, Field::Status)->Err_0
    } else if dec_opt_int(f, Field::StatusTime) is Err {
        dec_opt_int(f, Field::StatusTime)->Err_0
    } else if dec_opt_str(f, Field::Url) is Err {
        dec_opt_str(f, Field::Url)->Err_0
    } else if dec_opt_str(f, Field::Kind) is Err {
        dec_opt_str(f, Field::Kind)->Err_0
    } else if dec_opt_int(f, Field::Estimate) is Err {
        dec_opt_int(f, Field::Estimate)->Err_0
    } else if dec_opt_int(f, Field::Deadline) is Err {
        dec_opt_int(f, Field::Deadline)->Err_0
    } else {
        dec_opt_bool(f, Field::Archived)->Err_0
    }
}

// ---------------------------------------------------------------------------
// Derived predicates.
// ---------------------------------------------------------------------------

/// The fixed managed-kind set: nodes whose content is owned by an external
/// integration.  This list is a cross-component contract; changing it is a
/// coordinated schema change.
pub open spec fn managed_kind(s: Seq<char>) -> bool {
    s == "github"@ || s == "github_pr"@
}

// ---------------------------------------------------------------------------
// Edit scripts over child sequences.
// ---------------------------------------------------------------------------

#[derive(Clone, Copy, PartialEq, Eq, Structural, Debug)]
pub enum EditKind {
    Equal,
    Delete,
    Insert,
    Replace,
}

/// One span of an edit script: half-open ranges into the old and the new
/// sequence.
#[derive(Clone, Copy, Debug)]
pub struct EditOp {
    pub kind: EditKind,
    pub old_start: usize,
    pub old_end: usize,
    pub new_start: usize,
    pub new_end: usize,
}

/// `ops` tiles `old[..oe)` and `new[..ne)` back to front: consecutive spans,
/// each well-formed for its kind, with equal spans carrying equal content.
pub open spec fn script_covers(
    ops: Seq<EditOp>,
    oe: int,
    ne: int,
    old: Seq<Seq<char>>,
    new: Seq<Seq<char>>,
) -> bool
    decreases ops.len(),
{
    if ops.len() == 0 {
        oe == 0 && ne == 0
    } else {
        let op = ops.last();
        &&& op.old_end == oe
        &&& op.new_end == ne
        &&& op.old_start <= op.old_end
        &&& op.new_start <= op.new_end
        &&& match op.kind {
            EditKind::Equal => old.subrange(op.old_start as int, op.old_end as int) == new.subrange(
                op.new_start as int,
                op.new_end as int,
            ),
            EditKind::Delete => op.new_start == op.new_end,
            EditKind::Insert => op.old_start == op.old_end,
            EditKind::Replace => true,
        }
        &&& script_covers(ops.drop_last(), op.old_start as int, op.new_start as int, old, new)
    }
}

/// `ops` is an edit script transforming `old` into `new`.
pub open spec fn edit_script_for(ops: Seq<EditOp>, old: Seq<Seq<char>>, new: Seq<Seq<char>>) -> bool {
    script_covers(ops, old.len() as int, new.len() as int, old, new)
}

/// The cost of an edit script: elements deleted plus elements inserted;
/// spans marked equal are free.
pub open spec fn script_cost(ops: Seq<EditOp>) -> int
    decreases ops.len(),
{
    if ops.len() == 0 {
        0
    } else {
        script_cost(ops.drop_last()) + match ops.last().kind {
            EditKind::Equal => 0,
            EditKind::Delete => ops.last().old_end - ops.last().old_start,
            EditKind::Insert => ops.last().new_end - ops.last().new_start,
            EditKind::Replace => (ops.last().old_end - ops.last().old_start) + (
            ops.last().new_end - ops.last().new_start),
        }
    }
}

} // verus!
