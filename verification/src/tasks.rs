//! Task-list decoding and the task-completion command's request parts.
//!
//! A task-query reply arrives as raw entries whose title is a list of text
//! segments. The decoded list keeps, in order, one `(id, title)` pair per
//! entry with a nonempty title — the title is the first segment — and skips
//! entries whose title is empty.

use vstd::prelude::*;

use crate::models::{RawTaskEntry, RawTaskEntryView, TaskItem, TaskItemView};

verus! {

/// The views of a sequence of task items.
pub open spec fn task_views(s: Seq<TaskItem>) -> Seq<TaskItemView> {
    s.map_values(|t: TaskItem| t@)
}

/// The views of a sequence of raw entries.
pub open spec fn raw_entry_views(s: Seq<RawTaskEntry>) -> Seq<RawTaskEntryView> {
    s.map_values(|e: RawTaskEntry| e@)
}

/// What decoding a raw entry list yields: entries with an empty title list
/// are dropped, every other entry becomes its id paired with its first title
/// segment, and the order is kept.
pub open spec fn spec_decode_tasks(entries: Seq<RawTaskEntryView>) -> Seq<TaskItemView>
    decreases entries.len(),
{
    if entries.len() == 0 {
        Seq::empty()
    } else {
        let head = entries[0];
        let rest = spec_decode_tasks(entries.drop_first());
        if head.title.len() > 0 {
            seq![TaskItemView { id: head.id, title: head.title[0] }] + rest
        } else {
            rest
        }
    }
}

proof fn lemma_decode_tasks_snoc(entries: Seq<RawTaskEntryView>, e: RawTaskEntryView)
    ensures
        spec_decode_tasks(entries.push(e)) == spec_decode_tasks(entries) + (if e.title.len() > 0 {
            seq![TaskItemView { id: e.id, title: e.title[0] }]
        } else {
            Seq::<TaskItemView>::empty()
        }),
    decreases entries.len(),
{
    let whole = entries.push(e);
    if entries.len() == 0 {
        assert(whole[0] == e);
        assert(whole.drop_first() =~= Seq::<RawTaskEntryView>::empty());
        assert(spec_decode_tasks(whole.drop_first()) == Seq::<TaskItemView>::empty());
        assert(spec_decode_tasks(entries) + (if e.title.len() > 0 {
            seq![TaskItemView { id: e.id, title: e.title[0] }]
        } else {
            Seq::<TaskItemView>::empty()
        }) =~= spec_decode_tasks(whole));
    } else {
        assert(whole.drop_first() =~= entries.drop_first().push(e));
        assert(whole[0] == entries[0]);
        lemma_decode_tasks_snoc(entries.drop_first(), e);
        assert(spec_decode_tasks(entries) + (if e.title.len() > 0 {
            seq![TaskItemView { id: e.id, title: e.title[0] }]
        } else {
            Seq::<TaskItemView>::empty()
        }) =~= spec_decode_tasks(whole));
    }
}

/// Decodes a task-query result set: keeps, in order, one `(id, title)` pair
/// per entry whose title has at least one segment (the first segment is the
/// title) and drops every entry whose title list is empty.
pub fn decode_tasks(entries: &Vec<RawTaskEntry>) -> (r: Vec<TaskItem>)
    ensures
        task_views(r@) == spec_decode_tasks(raw_entry_views(entries@)),
{
    let mut r: Vec<TaskItem> = Vec::new();
    let mut i: usize = 0;
    while i < entries.len()
        invariant
            i <= entries@.len(),
            task_views(r@) == spec_decode_tasks(raw_entry_views(entries@.take(i as int))),
        decreases entries@.len() - i,
    {
        let entry = &entries[i];
        proof {
            assert(raw_entry_views(entries@.take(i + 1)) =~= raw_entry_views(
                entries@.take(i as int),
            ).push(entry@));
            lemma_decode_tasks_snoc(raw_entry_views(entries@.take(i as int)), entry@);
        }
        if entry.title.len() > 0 {
            let item = TaskItem { id: entry.id.clone(), title: entry.title[0].clone() };
            r.push(item);
            proof {
                assert(task_views(r@) =~= spec_decode_tasks(
                    raw_entry_views(entries@.take(i + 1)),
                ));
            }
        } else {
            proof {
                assert(task_views(r@) =~= spec_decode_tasks(
                    raw_entry_views(entries@.take(i + 1)),
                ));
            }
        }
        i += 1;
    }
    proof {
        assert(entries@.take(entries@.len() as int) =~= entries@);
    }
    r
}

} // verus!
