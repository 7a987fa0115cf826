//! A filesystem modelled as the set of paths that exist, the effect of
//! operations on it, and what follows for the plans the library makes.

use vstd::prelude::*;
use crate::archive::{entry_ops, extraction_ops};
use crate::commands::{step_ops, uninstall_steps, Component, Step};
use crate::paths::rel_parts;
use crate::ops::{CheckModel, OpModel};
use crate::process::Platform;
use crate::steps::{
    backend_checkout, backend_missing_message, backends_dir, bin_dir, clean_core_all_ops, clean_sky_rts_all_ops, core_checkout,
    core_missing_message, glue_dir,
};
use crate::layout::{backend_artifact, core_artifact};

verus! {

/// `b` is `a` itself or lies somewhere below it.
pub open spec fn is_within(b: Seq<Seq<char>>, a: Seq<Seq<char>>) -> bool {
    a.len() <= b.len() && b.take(a.len() as int) == a
}

/// The paths an operation deletes, whatever exists.
pub open spec fn removes(op: OpModel, q: Seq<Seq<char>>) -> bool {
    match op {
        OpModel::RemoveTree(p) => is_within(q, p),
        OpModel::RemoveFile(p) => q == p,
        _ => false,
    }
}

/// The paths an operation creates: a directory and all its ancestors, or
/// the file it writes.
pub open spec fn creates(op: OpModel, q: Seq<Seq<char>>) -> bool {
    match op {
        OpModel::EnsureDir(p) => 1 <= q.len() && is_within(p, q),
        OpModel::WriteFile(p, _) => q == p,
        _ => false,
    }
}

/// The effect of an operation on the paths that exist, for the operations
/// whose effect is fixed by their arguments; others leave them as they are.
pub open spec fn apply(op: OpModel, fs: Set<Seq<Seq<char>>>) -> Set<Seq<Seq<char>>> {
    Set::new(|q: Seq<Seq<char>>| (fs.contains(q) && !removes(op, q)) || creates(op, q))
}

/// The effect of operations carried out in order.
pub open spec fn apply_all(ops: Seq<OpModel>, fs: Set<Seq<Seq<char>>>) -> Set<Seq<Seq<char>>>
    decreases ops.len(),
{
    if ops.len() == 0 {
        fs
    } else {
        apply_all(ops.drop_first(), apply(ops[0], fs))
    }
}

/// Whether an operation fails on the paths that exist: only a requirement
/// on a missing path does.
pub open spec fn fails_in(op: OpModel, fs: Set<Seq<Seq<char>>>) -> bool {
    match op {
        OpModel::Require(p, _) => !fs.contains(p),
        _ => false,
    }
}

/// Operations that only delete.
pub open spec fn is_removal(op: OpModel) -> bool {
    op is RemoveTree || op is RemoveFile
}

/// Deleting a tree and then making sure of a directory at the same place
/// leaves that directory existing and empty.
pub proof fn remove_then_ensure_is_empty(fs: Set<Seq<Seq<char>>>, p: Seq<Seq<char>>)
    requires
        p.len() >= 1,
    ensures
        ({
            let after = apply(OpModel::EnsureDir(p), apply(OpModel::RemoveTree(p), fs));
            &&& after.contains(p)
            &&& forall|q: Seq<Seq<char>>| #[trigger]
                after.contains(q) && is_within(q, p) ==> q == p
        }),
{
    let after = apply(OpModel::EnsureDir(p), apply(OpModel::RemoveTree(p), fs));
    assert(p.take(p.len() as int) =~= p);
    assert(after.contains(p));
    assert forall|q: Seq<Seq<char>>| #[trigger] after.contains(q) && is_within(q, p) implies q == p by {
        if !removes(OpModel::RemoveTree(p), q) {
            assert(creates(OpModel::EnsureDir(p), q));
            assert(q.len() <= p.len());
            assert(q =~= p);
        }
    }
}

/// What removal operations leave: the paths that none of them deletes.
proof fn removals_leave(ops: Seq<OpModel>, fs: Set<Seq<Seq<char>>>)
    requires
        forall|i: int| 0 <= i < ops.len() ==> is_removal(#[trigger] ops[i]),
    ensures
        apply_all(ops, fs) == Set::new(
            |q: Seq<Seq<char>>| fs.contains(q) && forall|i: int| 0 <= i < ops.len() ==> !removes(#[trigger] ops[i], q),
        ),
    decreases ops.len(),
{
    if ops.len() == 0 {
        assert(apply_all(ops, fs) =~= Set::new(
            |q: Seq<Seq<char>>| fs.contains(q) && forall|i: int| 0 <= i < ops.len() ==> !removes(#[trigger] ops[i], q),
        ));
    } else {
        let rest = ops.drop_first();
        assert forall|i: int| 0 <= i < rest.len() implies is_removal(#[trigger] rest[i]) by {
            assert(rest[i] == ops[i + 1]);
        }
        removals_leave(rest, apply(ops[0], fs));
        assert forall|q: Seq<Seq<char>>| apply_all(ops, fs).contains(q) == (fs.contains(q) && forall|i: int| 0 <= i < ops.len() ==> !removes(#[trigger] ops[i], q)) by {
            if fs.contains(q) && forall|i: int| 0 <= i < ops.len() ==> !removes(#[trigger] ops[i], q) {
                assert(!removes(ops[0], q));
                assert forall|i: int| 0 <= i < rest.len() implies !removes(#[trigger] rest[i], q) by {
                    assert(rest[i] == ops[i + 1]);
                }
            }
            if apply_all(ops, fs).contains(q) {
                assert forall|i: int| 0 <= i < ops.len() implies !removes(#[trigger] ops[i], q) by {
                    if i > 0 {
                        assert(rest[i - 1] == ops[i]);
                    }
                }
            }
        }
        assert(apply_all(ops, fs) =~= Set::new(
            |q: Seq<Seq<char>>| fs.contains(q) && forall|i: int| 0 <= i < ops.len() ==> !removes(#[trigger] ops[i], q),
        ));
    }
}

/// Some operation in `ops` creates `q`.
pub open spec fn created_by(ops: Seq<OpModel>, q: Seq<Seq<char>>) -> bool {
    exists|i: int| 0 <= i < ops.len() && creates(#[trigger] ops[i], q)
}

/// What operations that delete nothing leave: what existed, and what any
/// of them creates.
proof fn creations_leave(ops: Seq<OpModel>, fs: Set<Seq<Seq<char>>>)
    requires
        forall|i: int| 0 <= i < ops.len() ==> !is_removal(#[trigger] ops[i]),
    ensures
        apply_all(ops, fs) == Set::new(|q: Seq<Seq<char>>| fs.contains(q) || created_by(ops, q)),
    decreases ops.len(),
{
    if ops.len() == 0 {
        assert(apply_all(ops, fs) =~= Set::new(|q: Seq<Seq<char>>| fs.contains(q) || created_by(ops, q)));
    } else {
        let rest = ops.drop_first();
        assert forall|i: int| 0 <= i < rest.len() implies !is_removal(#[trigger] rest[i]) by {
            assert(rest[i] == ops[i + 1]);
        }
        creations_leave(rest, apply(ops[0], fs));
        assert forall|q: Seq<Seq<char>>| apply_all(ops, fs).contains(q) == (fs.contains(q) || created_by(ops, q)) by {
            if created_by(rest, q) {
                let i = choose|i: int| 0 <= i < rest.len() && creates(#[trigger] rest[i], q);
                assert(ops[i + 1] == rest[i]);
            }
            if created_by(ops, q) {
                let i = choose|i: int| 0 <= i < ops.len() && creates(#[trigger] ops[i], q);
                if i > 0 {
                    assert(rest[i - 1] == ops[i]);
                }
            }
            assert(!removes(ops[0], q));
        }
        assert(apply_all(ops, fs) =~= Set::new(|q: Seq<Seq<char>>| fs.contains(q) || created_by(ops, q)));
    }
}

/// Every operation of an entry's unpacking is among those of the whole
/// archive's, and none of them deletes anything.
proof fn extraction_contains_entries(dest: Seq<Seq<char>>, entries: Seq<(Seq<char>, u64, Seq<u8>)>)
    ensures
        forall|i: int| 0 <= i < extraction_ops(dest, entries).len() ==> !is_removal(#[trigger] extraction_ops(dest, entries)[i]),
        forall|k: int, j: int|
            0 <= k < entries.len() && 0 <= j < entry_ops(dest, entries[k]).len() ==> exists|i: int|
                0 <= i < extraction_ops(dest, entries).len() && #[trigger] extraction_ops(dest, entries)[i]
                    == #[trigger] entry_ops(dest, entries[k])[j],
    decreases entries.len(),
{
    if entries.len() > 0 {
        let init = entries.drop_last();
        extraction_contains_entries(dest, init);
        let a = extraction_ops(dest, init);
        let b = entry_ops(dest, entries.last());
        let all = extraction_ops(dest, entries);
        assert(all == a + b);
        assert forall|i: int| 0 <= i < all.len() implies !is_removal(#[trigger] all[i]) by {
            if i >= a.len() {
                assert(all[i] == b[i - a.len()]);
            }
        }
        assert forall|k: int, j: int|
            0 <= k < entries.len() && 0 <= j < entry_ops(dest, entries[k]).len() implies exists|i: int|
                0 <= i < all.len() && #[trigger] all[i] == #[trigger] entry_ops(dest, entries[k])[j] by {
            if k < init.len() {
                assert(entries[k] == init[k]);
                let i = choose|i: int| 0 <= i < a.len() && #[trigger] a[i] == entry_ops(dest, init[k])[j];
                assert(all[i] == a[i]);
            } else {
                assert(all[a.len() + j] == b[j]);
            }
        }
    }
}

/// Unpacking two entries gives the same paths in either order.
pub proof fn extraction_order_does_not_matter(
    dest: Seq<Seq<char>>,
    e1: (Seq<char>, u64, Seq<u8>),
    e2: (Seq<char>, u64, Seq<u8>),
    fs: Set<Seq<Seq<char>>>,
)
    ensures
        apply_all(extraction_ops(dest, seq![e1, e2]), fs) == apply_all(
            extraction_ops(dest, seq![e2, e1]),
            fs,
        ),
{
    let x = extraction_ops(dest, seq![e1, e2]);
    let y = extraction_ops(dest, seq![e2, e1]);
    assert(seq![e1, e2].drop_last() =~= seq![e1]);
    assert(seq![e2, e1].drop_last() =~= seq![e2]);
    assert(seq![e1].drop_last() =~= Seq::<(Seq<char>, u64, Seq<u8>)>::empty());
    assert(seq![e2].drop_last() =~= Seq::<(Seq<char>, u64, Seq<u8>)>::empty());
    let a = entry_ops(dest, e1);
    let b = entry_ops(dest, e2);
    let none = Seq::<(Seq<char>, u64, Seq<u8>)>::empty();
    assert(extraction_ops(dest, none) == Seq::<OpModel>::empty());
    assert(seq![e1].last() == e1);
    assert(seq![e2].last() == e2);
    assert(extraction_ops(dest, seq![e1]) == extraction_ops(dest, none) + a);
    assert(extraction_ops(dest, seq![e1]) =~= a);
    assert(extraction_ops(dest, seq![e2]) =~= b);
    assert(seq![e1, e2].last() == e2);
    assert(seq![e2, e1].last() == e1);
    assert(x =~= a + b);
    assert(y =~= b + a);
    extraction_contains_entries(dest, seq![e1, e2]);
    extraction_contains_entries(dest, seq![e2, e1]);
    creations_leave(x, fs);
    creations_leave(y, fs);
    assert forall|q: Seq<Seq<char>>| created_by(x, q) == created_by(y, q) by {
        if created_by(x, q) {
            let i = choose|i: int| 0 <= i < x.len() && creates(#[trigger] x[i], q);
            if i < a.len() {
                assert(y[b.len() + i] == x[i]);
            } else {
                assert(y[i - a.len()] == x[i]);
            }
        }
        if created_by(y, q) {
            let i = choose|i: int| 0 <= i < y.len() && creates(#[trigger] y[i], q);
            if i < b.len() {
                assert(x[a.len() + i] == y[i]);
            } else {
                assert(x[i - b.len()] == y[i]);
            }
        }
    }
    assert(apply_all(x, fs) =~= apply_all(y, fs));
}

/// Once an archive is unpacked, each named file entry's file and the
/// directory holding it exist, and the file is written with the entry's
/// content.
pub proof fn extracted_files_exist(
    dest: Seq<Seq<char>>,
    entries: Seq<(Seq<char>, u64, Seq<u8>)>,
    k: int,
    fs: Set<Seq<Seq<char>>>,
)
    requires
        0 <= k < entries.len(),
        entries[k].1 != 0,
        rel_parts(entries[k].0).len() > 0,
        dest.len() >= 1,
    ensures
        ({
            let parts = rel_parts(entries[k].0);
            let after = apply_all(extraction_ops(dest, entries), fs);
            &&& after.contains(dest + parts)
            &&& after.contains(dest + parts.drop_last())
            &&& exists|i: int| 0 <= i < extraction_ops(dest, entries).len()
                && #[trigger] extraction_ops(dest, entries)[i] == OpModel::WriteFile(dest + parts, entries[k].2)
        }),
{
    let parts = rel_parts(entries[k].0);
    let ops = extraction_ops(dest, entries);
    let mine = entry_ops(dest, entries[k]);
    extraction_contains_entries(dest, entries);
    creations_leave(ops, fs);
    assert(mine[0] == OpModel::EnsureDir(dest + parts.drop_last()));
    assert(mine[1] == OpModel::WriteFile(dest + parts, entries[k].2));
    let i0 = choose|i: int| 0 <= i < ops.len() && #[trigger] ops[i] == mine[0];
    let i1 = choose|i: int| 0 <= i < ops.len() && #[trigger] ops[i] == mine[1];
    let p = dest + parts.drop_last();
    assert(p.take(p.len() as int) =~= p);
    assert(creates(ops[i0], p));
    assert(creates(ops[i1], dest + parts));
}

/// The operations of a full clean of both components.
pub open spec fn full_clean_ops(p: Platform, h: Seq<Seq<char>>) -> Seq<OpModel> {
    clean_core_all_ops(p, h) + clean_sky_rts_all_ops(p, h)
}

/// A full clean only deletes, so none of its operations can fail, and
/// running it a second time finds nothing left to delete: the paths that
/// exist are the same after one run as after two.
pub proof fn full_clean_twice(p: Platform, h: Seq<Seq<char>>, branch: Seq<char>, fs: Set<Seq<Seq<char>>>)
    ensures
        uninstall_steps() == seq![Step::CleanAll(Component::Core), Step::CleanAll(Component::SkyRts)],
        full_clean_ops(p, h) == step_ops(p, h, uninstall_steps()[0], branch) + step_ops(p, h, uninstall_steps()[1], branch),
        forall|i: int| 0 <= i < full_clean_ops(p, h).len() ==> !fails_in(#[trigger] full_clean_ops(p, h)[i], fs),
        apply_all(full_clean_ops(p, h), apply_all(full_clean_ops(p, h), fs)) == apply_all(full_clean_ops(p, h), fs),
{
    let ops = full_clean_ops(p, h);
    assert forall|i: int| 0 <= i < ops.len() implies is_removal(#[trigger] ops[i]) by {}
    removals_leave(ops, fs);
    removals_leave(ops, apply_all(ops, fs));
    assert(apply_all(ops, apply_all(ops, fs)) =~= apply_all(ops, fs));
}

/// After a full clean, neither checkout nor anything the builds placed
/// (either library under its placed name, the shims, the backend's
/// assets) exists, nor anything below them.
pub proof fn full_clean_leaves_nothing_built(p: Platform, h: Seq<Seq<char>>, fs: Set<Seq<Seq<char>>>, q: Seq<Seq<char>>)
    requires
        is_within(q, core_checkout(h)) || is_within(q, backend_checkout(h))
            || q == bin_dir(h).push(core_artifact(p).1)
            || q == backends_dir(h).push("bin"@).push(backend_artifact(p).1)
            || is_within(q, glue_dir(h))
            || is_within(q, backends_dir(h).push("sky-rts"@)),
    ensures
        !apply_all(full_clean_ops(p, h), fs).contains(q),
{
    let ops = full_clean_ops(p, h);
    assert forall|i: int| 0 <= i < ops.len() implies is_removal(#[trigger] ops[i]) by {}
    removals_leave(ops, fs);
    assert(ops[0] == OpModel::RemoveTree(core_checkout(h)));
    assert(ops[1] == OpModel::RemoveFile(bin_dir(h).push(core_artifact(p).1)));
    assert(ops[2] == OpModel::RemoveTree(glue_dir(h)));
    assert(ops[3] == OpModel::RemoveTree(backend_checkout(h)));
    assert(ops[4] == OpModel::RemoveFile(backends_dir(h).push("bin"@).push(backend_artifact(p).1)));
    assert(ops[5] == OpModel::RemoveTree(backends_dir(h).push("sky-rts"@)));
    if is_within(q, core_checkout(h)) {
        assert(removes(ops[0], q));
    } else if q == bin_dir(h).push(core_artifact(p).1) {
        assert(removes(ops[1], q));
    } else if is_within(q, glue_dir(h)) {
        assert(removes(ops[2], q));
    } else if is_within(q, backend_checkout(h)) {
        assert(removes(ops[3], q));
    } else if q == backends_dir(h).push("bin"@).push(backend_artifact(p).1) {
        assert(removes(ops[4], q));
    } else {
        assert(removes(ops[5], q));
    }
}

/// The source directory a component is built from.
pub open spec fn build_source(h: Seq<Seq<char>>, c: Component) -> Seq<Seq<char>> {
    match c {
        Component::Core => core_checkout(h),
        Component::SkyRts => backend_checkout(h),
    }
}

/// The failure of building a component that was not fetched.
pub open spec fn missing_message(c: Component) -> Seq<char> {
    match c {
        Component::Core => core_missing_message(),
        Component::SkyRts => backend_missing_message(),
    }
}

/// Building a component whose sources are absent fails on its first
/// operation, with the message that asks for a fetch; the toolchain only
/// runs in a later operation, which a run that stops at the first failure
/// never reaches.
pub proof fn build_needs_fetched_sources(
    p: Platform,
    h: Seq<Seq<char>>,
    c: Component,
    branch: Seq<char>,
    fs: Set<Seq<Seq<char>>>,
)
    requires
        !fs.contains(build_source(h, c)),
    ensures
        ({
            let ops = step_ops(p, h, Step::Build(c), branch);
            &&& ops[0] == OpModel::Require(build_source(h, c), missing_message(c))
            &&& fails_in(ops[0], fs)
            &&& forall|i: int| 0 <= i < ops.len() && (#[trigger] ops[i] matches OpModel::Run(cmd) && cmd.check == CheckModel::BuildText) ==> i >= 1
        }),
{
}

} // verus!
