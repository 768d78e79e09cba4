//! What holds of the worker's actions over every state of the files.
use vstd::prelude::*;
use crate::paths::target_of;
use crate::sync::{
    ActionModel,
    ChangeKind,
    Files,
    SourceEntry,
    apply_action,
    apply_actions,
    entry_copy,
    reaction_actions,
};

verus! {

/// The plan of copies that bulk synchronisation makes of `entries`.
pub open spec fn bulk_copies(entries: Seq<SourceEntry>, target: Seq<char>, scope: Seq<char>) -> Seq<
    ActionModel,
> {
    entries.filter_map(|e: SourceEntry| entry_copy(e, target, scope))
}

spec fn copy_source(a: ActionModel) -> Seq<char> {
    match a {
        ActionModel::Copy(s, _) => s,
        ActionModel::Delete(t) => t,
    }
}

spec fn copy_target(a: ActionModel) -> Seq<char> {
    match a {
        ActionModel::Copy(_, t) => t,
        ActionModel::Delete(t) => t,
    }
}

/// Every action is a copy, no copy writes where one reads, and every source
/// is in `fs`.
spec fn plain_copies(fs: Files, acts: Seq<ActionModel>) -> bool {
    &&& forall|i: int| 0 <= i < acts.len() ==> #[trigger] acts[i] is Copy
    &&& forall|i: int, j: int|
        0 <= i < acts.len() && 0 <= j < acts.len() ==> copy_source(#[trigger] acts[i])
            != copy_target(#[trigger] acts[j])
    &&& forall|i: int| 0 <= i < acts.len() ==> fs.contains_key(copy_source(#[trigger] acts[i]))
}

/// What a sequence of copies writes, read from `fs`: each target gets its
/// source's contents, later copies winning.
spec fn copy_writes(fs: Files, acts: Seq<ActionModel>) -> Files
    decreases acts.len(),
{
    if acts.len() == 0 {
        Map::empty()
    } else {
        map![copy_target(acts[0]) => fs[copy_source(acts[0])]].union_prefer_right(
            copy_writes(fs, acts.drop_first()),
        )
    }
}

proof fn lemma_copy_writes_keys(fs: Files, acts: Seq<ActionModel>, k: Seq<char>)
    requires
        copy_writes(fs, acts).contains_key(k),
    ensures
        exists|i: int| 0 <= i < acts.len() && copy_target(#[trigger] acts[i]) == k,
    decreases acts.len(),
{
    if acts.len() > 0 && copy_target(acts[0]) != k {
        lemma_copy_writes_keys(fs, acts.drop_first(), k);
        let i = choose|i: int| 0 <= i < acts.len() - 1 && copy_target(#[trigger] acts.drop_first()[i]) == k;
        assert(acts[i + 1] == acts.drop_first()[i]);
    }
}

proof fn lemma_copy_writes_frame(f: Files, g: Files, acts: Seq<ActionModel>)
    requires
        forall|i: int| 0 <= i < acts.len() ==> f[copy_source(#[trigger] acts[i])] == g[copy_source(acts[i])],
    ensures
        copy_writes(f, acts) == copy_writes(g, acts),
    decreases acts.len(),
{
    if acts.len() > 0 {
        let rest = acts.drop_first();
        assert forall|i: int| 0 <= i < rest.len() implies f[copy_source(#[trigger] rest[i])] == g[copy_source(rest[i])] by {
            assert(rest[i] == acts[i + 1]);
        }
        lemma_copy_writes_frame(f, g, rest);
        assert(f[copy_source(acts[0])] == g[copy_source(acts[0])]);
    }
}

proof fn lemma_apply_copies(fs: Files, acts: Seq<ActionModel>)
    requires
        plain_copies(fs, acts),
    ensures
        apply_actions(fs, acts) == Some(fs.union_prefer_right(copy_writes(fs, acts))),
    decreases acts.len(),
{
    if acts.len() == 0 {
        assert(fs.union_prefer_right(copy_writes(fs, acts)) =~= fs);
    } else {
        let a = acts[0];
        assert(a is Copy);
        let s = copy_source(a);
        let t = copy_target(a);
        assert(fs.contains_key(s));
        let next = fs.insert(t, fs[s]);
        assert(apply_action(fs, a) == Some(next));
        let rest = acts.drop_first();
        assert forall|i: int| 0 <= i < rest.len() implies #[trigger] rest[i] is Copy by {
            assert(rest[i] == acts[i + 1]);
        }
        assert forall|i: int, j: int| 0 <= i < rest.len() && 0 <= j < rest.len() implies copy_source(
            #[trigger] rest[i],
        ) != copy_target(#[trigger] rest[j]) by {
            assert(rest[i] == acts[i + 1]);
            assert(rest[j] == acts[j + 1]);
        }
        assert forall|i: int| 0 <= i < rest.len() implies next.contains_key(
            copy_source(#[trigger] rest[i]),
        ) by {
            assert(rest[i] == acts[i + 1]);
        }
        lemma_apply_copies(next, rest);
        assert forall|i: int| 0 <= i < rest.len() implies next[copy_source(#[trigger] rest[i])]
            == fs[copy_source(rest[i])] by {
            assert(rest[i] == acts[i + 1]);
            assert(copy_source(acts[i + 1]) != copy_target(acts[0]));
        }
        lemma_copy_writes_frame(next, fs, rest);
        assert(next.union_prefer_right(copy_writes(next, rest)) =~= fs.union_prefer_right(
            copy_writes(fs, acts),
        ));
    }
}

proof fn lemma_copies_idempotent(fs: Files, acts: Seq<ActionModel>)
    requires
        plain_copies(fs, acts),
    ensures
        apply_actions(fs, acts) matches Some(once) && apply_actions(once, acts) == Some(once),
{
    lemma_apply_copies(fs, acts);
    let w = copy_writes(fs, acts);
    let once = fs.union_prefer_right(w);
    assert forall|i: int| 0 <= i < acts.len() implies once.contains_key(copy_source(#[trigger] acts[i]))
        && once[copy_source(acts[i])] == fs[copy_source(acts[i])] by {
        let s = copy_source(acts[i]);
        if w.contains_key(s) {
            lemma_copy_writes_keys(fs, acts, s);
            let j = choose|j: int| 0 <= j < acts.len() && copy_target(#[trigger] acts[j]) == s;
            assert(copy_source(acts[i]) != copy_target(acts[j]));
        }
    }
    lemma_apply_copies(once, acts);
    lemma_copy_writes_frame(once, fs, acts);
    assert(once.union_prefer_right(w) =~= once);
}

proof fn lemma_bulk_copies_shape(entries: Seq<SourceEntry>, target: Seq<char>, scope: Seq<char>)
    ensures
        forall|k: int|
            #![trigger bulk_copies(entries, target, scope)[k]]
            0 <= k < bulk_copies(entries, target, scope).len() ==> exists|i: int|
                0 <= i < entries.len() && entry_copy(#[trigger] entries[i], target, scope) == Some(
                    bulk_copies(entries, target, scope)[k],
                ),
    decreases entries.len(),
{
    if entries.len() > 0 {
        let init = entries.drop_last();
        lemma_bulk_copies_shape(init, target, scope);
        assert forall|k: int|
            #![trigger bulk_copies(entries, target, scope)[k]]
            0 <= k < bulk_copies(entries, target, scope).len() implies exists|i: int|
            0 <= i < entries.len() && entry_copy(#[trigger] entries[i], target, scope) == Some(
                bulk_copies(entries, target, scope)[k],
            ) by {
            if k < bulk_copies(init, target, scope).len() {
                let i = choose|i: int|
                    0 <= i < init.len() && entry_copy(#[trigger] init[i], target, scope) == Some(
                        bulk_copies(init, target, scope)[k],
                    );
                assert(entries[i] == init[i]);
            } else {
                assert(entries[entries.len() - 1] == entries.last());
            }
        }
    }
}

/// Bulk synchronisation is idempotent: when the target lies outside the
/// source directory and the source entries are unchanged, carrying out the
/// bulk plan a second time leaves every file as the first run left it.
pub proof fn lemma_bulk_sync_idempotent(
    entries: Seq<SourceEntry>,
    target: Seq<char>,
    scope: Seq<char>,
    fs: Files,
)
    requires
        forall|i: int| 0 <= i < entries.len() ==> fs.contains_key(#[trigger] entries[i].path@),
        forall|i: int, j: int|
            0 <= i < entries.len() && 0 <= j < entries.len() ==> target_of(
                #[trigger] entries[j].path@,
                target,
                scope,
            ) != Some(#[trigger] entries[i].path@),
    ensures
        apply_actions(fs, bulk_copies(entries, target, scope)) matches Some(once) && apply_actions(
            once,
            bulk_copies(entries, target, scope),
        ) == Some(once),
{
    let plan = bulk_copies(entries, target, scope);
    lemma_bulk_copies_shape(entries, target, scope);
    assert forall|k: int| 0 <= k < plan.len() implies #[trigger] plan[k] is Copy && fs.contains_key(
        copy_source(plan[k]),
    ) && exists|i: int| 0 <= i < entries.len() && copy_source(plan[k]) == #[trigger] entries[i].path@
        && Some(copy_target(plan[k])) == target_of(entries[i].path@, target, scope) by {
        let i = choose|i: int|
            0 <= i < entries.len() && entry_copy(#[trigger] entries[i], target, scope) == Some(plan[k]);
        assert(copy_source(plan[k]) == entries[i].path@);
    }
    assert forall|a: int, b: int| 0 <= a < plan.len() && 0 <= b < plan.len() implies copy_source(
        #[trigger] plan[a],
    ) != copy_target(#[trigger] plan[b]) by {
        let i = choose|i: int| 0 <= i < entries.len() && copy_source(plan[a]) == #[trigger] entries[i].path@
            && Some(copy_target(plan[a])) == target_of(entries[i].path@, target, scope);
        let j = choose|j: int| 0 <= j < entries.len() && copy_source(plan[b]) == #[trigger] entries[j].path@
            && Some(copy_target(plan[b])) == target_of(entries[j].path@, target, scope);
        assert(target_of(entries[j].path@, target, scope) != Some(entries[i].path@));
    }
    lemma_copies_idempotent(fs, plan);
}

/// Deleting a target entry that is not there succeeds and changes nothing;
/// so does deleting it again.
pub proof fn lemma_delete_absent(fs: Files, t: Seq<char>)
    ensures
        !fs.contains_key(t) ==> apply_action(fs, ActionModel::Delete(t)) == Some(fs),
        apply_action(fs, ActionModel::Delete(t)) matches Some(once) && apply_action(
            once,
            ActionModel::Delete(t),
        ) == Some(once),
{
    assert(!fs.contains_key(t) ==> fs.remove(t) =~= fs);
    assert(fs.remove(t).remove(t) =~= fs.remove(t));
}

/// Creating a file in the watched directory and then removing it brings the
/// files back to where they were before the creation, once the worker has
/// acted on both notifications.
pub proof fn lemma_create_remove_round_trip(
    fs: Files,
    path: Seq<char>,
    bytes: Seq<u8>,
    target: Seq<char>,
    scope: Seq<char>,
)
    requires
        !fs.contains_key(path),
        target_of(path, target, scope) is Some,
        !fs.contains_key(target_of(path, target, scope)->0),
        target_of(path, target, scope)->0 != path,
    ensures
        apply_actions(
            fs.insert(path, bytes),
            reaction_actions(ChangeKind::Create, seq![path], false, target, scope),
        ) matches Some(created) && apply_actions(
            created.remove(path),
            reaction_actions(ChangeKind::Removed, seq![path], false, target, scope),
        ) == Some(fs),
{
    let t = target_of(path, target, scope)->0;
    let copy = reaction_actions(ChangeKind::Create, seq![path], false, target, scope);
    let delete = reaction_actions(ChangeKind::Removed, seq![path], false, target, scope);
    assert(copy == seq![ActionModel::Copy(path, t)]);
    assert(delete == seq![ActionModel::Delete(t)]);
    let created = fs.insert(path, bytes).insert(t, bytes);
    assert(copy.drop_first() =~= Seq::<ActionModel>::empty());
    assert(delete.drop_first() =~= Seq::<ActionModel>::empty());
    assert(copy[0] == ActionModel::Copy(path, t));
    assert(apply_action(fs.insert(path, bytes), copy[0]) == Some(created));
    assert(apply_actions(created, copy.drop_first()) == Some(created));
    assert(apply_actions(fs.insert(path, bytes), copy) == Some(created));
    let removed = created.remove(path);
    assert(delete[0] == ActionModel::Delete(t));
    assert(apply_action(removed, delete[0]) == Some(removed.remove(t)));
    assert(apply_actions(removed.remove(t), delete.drop_first()) == Some(removed.remove(t)));
    assert(removed.remove(t) =~= fs);
}

/// A paired rename gives exactly one copy, of the new name, followed by
/// exactly one delete, of the old name's copy: afterwards the new name's copy
/// holds the renamed file's bytes and the old name has no copy.
pub proof fn lemma_rename_as_pair(
    fs: Files,
    from: Seq<char>,
    to: Seq<char>,
    target: Seq<char>,
    scope: Seq<char>,
)
    requires
        target_of(from, target, scope) is Some,
        target_of(to, target, scope) is Some,
        target_of(from, target, scope) != target_of(to, target, scope),
        fs.contains_key(to),
    ensures
        ({
            let new_copy = target_of(to, target, scope)->0;
            let old_copy = target_of(from, target, scope)->0;
            let acts = reaction_actions(ChangeKind::Renamed, seq![from, to], false, target, scope);
            &&& acts == seq![ActionModel::Copy(to, new_copy), ActionModel::Delete(old_copy)]
            &&& apply_actions(fs, acts) == Some(fs.insert(new_copy, fs[to]).remove(old_copy))
            &&& apply_actions(fs, acts)->0[new_copy] == fs[to]
            &&& !apply_actions(fs, acts)->0.contains_key(old_copy)
        }),
{
    let new_copy = target_of(to, target, scope)->0;
    let old_copy = target_of(from, target, scope)->0;
    let acts = reaction_actions(ChangeKind::Renamed, seq![from, to], false, target, scope);
    let paths = seq![from, to];
    assert(paths[0] == from && paths[1] == to);
    assert(acts == seq![ActionModel::Copy(to, new_copy), ActionModel::Delete(old_copy)]);
    let mid = fs.insert(new_copy, fs[to]);
    assert(acts.drop_first() =~= seq![ActionModel::Delete(old_copy)]);
    assert(acts.drop_first().drop_first() =~= Seq::<ActionModel>::empty());
    let rest = acts.drop_first();
    assert(rest[0] == ActionModel::Delete(old_copy));
    assert(apply_action(mid, rest[0]) == Some(mid.remove(old_copy)));
    assert(apply_actions(mid.remove(old_copy), rest.drop_first()) == Some(mid.remove(old_copy)));
    assert(apply_actions(mid, rest) == Some(mid.remove(old_copy)));
    assert(acts[0] == ActionModel::Copy(to, new_copy));
    assert(apply_action(fs, acts[0]) == Some(mid));
}

} // verus!
