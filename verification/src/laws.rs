//! Laws of the encoding, proved once for every task and every starting node.

use vstd::prelude::*;

use crate::model::{
    Entry, Field, Item, TaskV, Val, children_val, dec_children, dec_opt_bool, dec_opt_int,
    dec_opt_str, dec_str, dec_text, items_all_strings, items_strings, node_ok, node_task,
    task_fields,
};
use crate::ybridge::{fields_at, is_node_at};
use crate::yproxy::node_fields_or_empty;

verus! {

/// Writing a task is a faithful full overwrite: the node left behind decodes
/// without error, and decodes into exactly the task that was written —
/// whatever fields the node held before.  Together with `YDocProxy::set` and
/// `YTaskProxy::to_task` this says that `set` followed by `to_task` in the
/// same mutation scope yields an equal task (all fields populated or only
/// the required ones), and that setting a modified copy over an earlier
/// write reads back as exactly the modified copy.
pub proof fn lemma_task_round_trip(prior: Map<Field, Val>, t: TaskV)
    ensures
        node_ok(task_fields(prior, t)),
        node_task(task_fields(prior, t)) == t,
{
    let f = task_fields(prior, t);
    let stored = t.children.map_values(|s: Seq<char>| Item::IStr(s));
    assert(f[Field::Children] == children_val(t.children));
    assert(items_all_strings(stored));
    assert(items_strings(stored) =~= t.children);
    assert(dec_children(f) == Ok::<Seq<Seq<char>>, crate::model::Error>(t.children));
    assert(dec_str(f, Field::Id) == Ok::<Seq<char>, crate::model::Error>(t.id));
    assert(dec_str(f, Field::Num) == Ok::<Seq<char>, crate::model::Error>(t.num));
    assert(dec_str(f, Field::Name) == Ok::<Seq<char>, crate::model::Error>(t.name));
    assert(dec_text(f, Field::Desc) == Ok::<Option<Seq<char>>, crate::model::Error>(t.desc));
    assert(dec_opt_str(f, Field::Assignee) == Ok::<Option<Seq<char>>, crate::model::Error>(
        t.assignee,
    ));
    assert(dec_opt_str(f, Field::Reporter) == Ok::<Option<Seq<char>>, crate::model::Error>(
        t.reporter,
    ));
    assert(dec_opt_str(f, Field::Status) == Ok::<Option<Seq<char>>, crate::model::Error>(t.status));
    assert(dec_opt_int(f, Field::StatusTime) == Ok::<Option<i64>, crate::model::Error>(
        t.status_time,
    ));
    assert(dec_opt_str(f, Field::Url) == Ok::<Option<Seq<char>>, crate::model::Error>(t.url));
    assert(dec_opt_str(f, Field::Kind) == Ok::<Option<Seq<char>>, crate::model::Error>(t.kind));
    assert(dec_opt_int(f, Field::Estimate) == Ok::<Option<i64>, crate::model::Error>(t.estimate));
    assert(dec_opt_int(f, Field::Deadline) == Ok::<Option<i64>, crate::model::Error>(t.deadline));
    assert(dec_opt_bool(f, Field::Archived) == Ok::<Option<bool>, crate::model::Error>(t.archived));
    assert(node_task(f) =~= t);
}

/// The round trip at the document level: the graph `YDocProxy::set` leaves
/// behind (its ensures) holds, under the written id, a node that decodes
/// without error into exactly the written task — which is what
/// `YTaskProxy::to_task` then returns in the same mutation scope.
pub proof fn lemma_set_then_decode(g: Map<Seq<char>, Entry>, id: Seq<char>, t: TaskV)
    ensures
        ({
            let g2 = g.insert(id, Entry::Node(task_fields(node_fields_or_empty(g, id), t)));
            &&& is_node_at(g2, id)
            &&& node_ok(fields_at(g2, id))
            &&& node_task(fields_at(g2, id)) == t
        }),
{
    lemma_task_round_trip(node_fields_or_empty(g, id), t);
}

} // verus!
