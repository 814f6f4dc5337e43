//! The order in which packages are made, and what an action on the command
//! line does.
use vstd::prelude::*;
use crate::registry::{deps_of, is_meta, law_dependency_levels, members_of, rank, PackageId};
use crate::types::Action;

verus! {

/// The packages that making `id` makes, in order.  A meta package makes
/// each of its members; any other package first makes each of its
/// dependencies (unless dependencies are ignored), then itself.  A package
/// reached twice is made twice; its stamps make the second time cheap.
pub open spec fn make_sequence(id: PackageId, ignore_deps: bool) -> Seq<PackageId>
    decreases rank(id), 1nat, 0nat,
{
    if is_meta(id) {
        make_sequence_all(members_of(id), ignore_deps, rank(id))
    } else if ignore_deps {
        seq![id]
    } else {
        make_sequence_all(deps_of(id), ignore_deps, rank(id)).push(id)
    }
}

/// The packages that making each of `ids` in turn makes.  Only packages
/// below the level `bound` are followed, which every dependency and member
/// of a package on level `bound` is.
pub open spec fn make_sequence_all(ids: Seq<PackageId>, ignore_deps: bool, bound: nat) -> Seq<
    PackageId,
>
    decreases bound, 0nat, ids.len(),
{
    if ids.len() == 0 {
        Seq::empty()
    } else if rank(ids.last()) < bound {
        make_sequence_all(ids.drop_last(), ignore_deps, bound) + make_sequence(
            ids.last(),
            ignore_deps,
        )
    } else {
        make_sequence_all(ids.drop_last(), ignore_deps, bound)
    }
}

/// The `k`-th dependency of the package at `i` in `s` comes before it.
pub open spec fn dep_made_before(s: Seq<PackageId>, i: int, k: int) -> bool {
    exists|j: int| 0 <= j < i && #[trigger] s[j] == deps_of(s[i])[k]
}

/// Every package in `s` comes after each of its dependencies.
pub open spec fn deps_come_first(s: Seq<PackageId>) -> bool {
    forall|i: int, k: int|
        0 <= i < s.len() && 0 <= k < deps_of(s[i]).len() ==> #[trigger] dep_made_before(s, i, k)
}

/// No meta package is in `s`.
pub open spec fn no_meta(s: Seq<PackageId>) -> bool {
    forall|i: int| 0 <= i < s.len() ==> !is_meta(#[trigger] s[i])
}

proof fn lemma_dep_before(s: Seq<PackageId>, i: int, k: int) -> (j: int)
    requires
        deps_come_first(s),
        0 <= i < s.len(),
        0 <= k < deps_of(s[i]).len(),
    ensures
        0 <= j < i,
        s[j] == deps_of(s[i])[k],
{
    assert(dep_made_before(s, i, k));
    choose|j: int| 0 <= j < i && s[j] == deps_of(s[i])[k]
}

proof fn lemma_deps_first_concat(a: Seq<PackageId>, b: Seq<PackageId>)
    requires
        deps_come_first(a),
        deps_come_first(b),
    ensures
        deps_come_first(a + b),
{
    let s = a + b;
    assert forall|i: int, k: int|
        0 <= i < s.len() && 0 <= k < deps_of(s[i]).len() implies #[trigger] dep_made_before(
            s,
            i,
            k,
        ) by {
        if i < a.len() {
            assert(s[i] == a[i]);
            let j = lemma_dep_before(a, i, k);
            assert(s[j] == a[j]);
        } else {
            let ib = i - a.len();
            assert(s[i] == b[ib]);
            let j = lemma_dep_before(b, ib, k);
            assert(s[j + a.len()] == b[j]);
        }
    }
}

proof fn lemma_no_meta_concat(a: Seq<PackageId>, b: Seq<PackageId>)
    requires
        no_meta(a),
        no_meta(b),
    ensures
        no_meta(a + b),
{
    assert forall|i: int| 0 <= i < (a + b).len() implies !is_meta(#[trigger] (a + b)[i]) by {
        if i < a.len() {
            assert((a + b)[i] == a[i]);
        } else {
            assert((a + b)[i] == b[i - a.len()]);
        }
    }
}

/// What the make order keeps: dependencies first, no meta package, and a
/// package that is not a meta package last.
proof fn lemma_make_sequence(id: PackageId, ignore_deps: bool)
    ensures
        no_meta(make_sequence(id, ignore_deps)),
        !ignore_deps ==> deps_come_first(make_sequence(id, ignore_deps)),
        !is_meta(id) ==> make_sequence(id, ignore_deps).len() > 0 && make_sequence(
            id,
            ignore_deps,
        ).last() == id,
    decreases rank(id), 1nat, 0nat,
{
    law_dependency_levels(id);
    let s = make_sequence(id, ignore_deps);
    if is_meta(id) {
        lemma_make_sequence_all(members_of(id), ignore_deps, rank(id));
    } else if ignore_deps {
        assert(no_meta(s));
    } else {
        let ds = deps_of(id);
        let a = make_sequence_all(ds, ignore_deps, rank(id));
        lemma_make_sequence_all(ds, ignore_deps, rank(id));
        assert(s == a.push(id));
        assert(no_meta(s)) by {
            assert forall|i: int| 0 <= i < s.len() implies !is_meta(#[trigger] s[i]) by {
                if i < a.len() {
                    assert(s[i] == a[i]);
                }
            }
        }
        assert(deps_come_first(s)) by {
            assert forall|i: int, k: int|
                0 <= i < s.len() && 0 <= k < deps_of(s[i]).len() implies #[trigger] dep_made_before(
                    s,
                    i,
                    k,
                ) by {
                if i < a.len() {
                    assert(s[i] == a[i]);
                    let j = lemma_dep_before(a, i, k);
                    assert(s[j] == a[j]);
                } else {
                    assert(s[i] == id);
                    let j = choose|j: int| 0 <= j < a.len() && a[j] == ds[k];
                    assert(s[j] == a[j]);
                }
            }
        }
    }
}

/// What the make order of a list keeps; besides, each package of the list
/// that is below `bound` and not a meta package is made.
proof fn lemma_make_sequence_all(ids: Seq<PackageId>, ignore_deps: bool, bound: nat)
    ensures
        no_meta(make_sequence_all(ids, ignore_deps, bound)),
        !ignore_deps ==> deps_come_first(make_sequence_all(ids, ignore_deps, bound)),
        forall|k: int|
            0 <= k < ids.len() && rank(ids[k]) < bound && !is_meta(ids[k]) ==> exists|j: int|
                0 <= j < make_sequence_all(ids, ignore_deps, bound).len() && make_sequence_all(
                    ids,
                    ignore_deps,
                    bound,
                )[j] == #[trigger] ids[k],
    decreases bound, 0nat, ids.len(),
{
    let s = make_sequence_all(ids, ignore_deps, bound);
    if ids.len() == 0 {
        assert(no_meta(s));
        assert(deps_come_first(s));
    } else {
        let init = ids.drop_last();
        let a = make_sequence_all(init, ignore_deps, bound);
        lemma_make_sequence_all(init, ignore_deps, bound);
        if rank(ids.last()) < bound {
            let b = make_sequence(ids.last(), ignore_deps);
            lemma_make_sequence(ids.last(), ignore_deps);
            assert(s == a + b);
            lemma_no_meta_concat(a, b);
            if !ignore_deps {
                lemma_deps_first_concat(a, b);
            }
            assert forall|k: int|
                0 <= k < ids.len() && rank(ids[k]) < bound && !is_meta(ids[k]) implies exists|j: int|
                    0 <= j < s.len() && s[j] == #[trigger] ids[k] by {
                if k < init.len() {
                    assert(init[k] == ids[k]);
                    let j = choose|j: int| 0 <= j < a.len() && a[j] == init[k];
                    assert(s[j] == a[j]);
                } else {
                    let j = a.len() + b.len() - 1;
                    assert(s[j] == b[b.len() - 1]);
                }
            }
        } else {
            assert(s == a);
            assert forall|k: int|
                0 <= k < ids.len() && rank(ids[k]) < bound && !is_meta(ids[k]) implies exists|j: int|
                    0 <= j < s.len() && s[j] == #[trigger] ids[k] by {
                assert(k < init.len());
                assert(init[k] == ids[k]);
            }
        }
    }
}

/// Making a package makes each of its dependencies before the package
/// that needs it, anywhere in the order.
pub proof fn law_deps_made_first(id: PackageId)
    ensures
        deps_come_first(make_sequence(id, false)),
{
    lemma_make_sequence(id, false);
}

/// No meta package is made itself: making one makes its members.
pub proof fn law_meta_never_made(id: PackageId, ignore_deps: bool)
    ensures
        no_meta(make_sequence(id, ignore_deps)),
{
    lemma_make_sequence(id, ignore_deps);
}

/// Making a package that is not a meta package makes it last.
pub proof fn law_package_made_last(id: PackageId, ignore_deps: bool)
    requires
        !is_meta(id),
    ensures
        make_sequence(id, ignore_deps).len() > 0,
        make_sequence(id, ignore_deps).last() == id,
{
    lemma_make_sequence(id, ignore_deps);
}

/// With dependencies ignored, making a package that is not a meta package
/// makes that package alone.
pub proof fn law_ignore_deps_makes_only_package(id: PackageId)
    requires
        !is_meta(id),
    ensures
        make_sequence(id, true) == seq![id],
{
}

/// Making each member of a meta package in turn.
pub fn make_order_all(ids: &Vec<PackageId>, ignore_deps: bool, bound: u8) -> (r: Vec<PackageId>)
    ensures
        r@ == make_sequence_all(ids@, ignore_deps, bound as nat),
    decreases bound, 0nat, 0nat,
{
    let mut r: Vec<PackageId> = Vec::new();
    let mut k: usize = 0;
    while k < ids.len()
        invariant
            k <= ids@.len(),
            r@ == make_sequence_all(ids@.take(k as int), ignore_deps, bound as nat),
        decreases ids@.len() - k,
    {
        assert(ids@.take(k as int + 1).drop_last() == ids@.take(k as int));
        let x = ids[k];
        if x.rank() < bound {
            let mut part = make_order(x, ignore_deps);
            r.append(&mut part);
        }
        k = k + 1;
    }
    assert(ids@.take(ids@.len() as int) == ids@);
    r
}

/// The packages that making `id` makes, in order.
pub fn make_order(id: PackageId, ignore_deps: bool) -> (r: Vec<PackageId>)
    ensures
        r@ == make_sequence(id, ignore_deps),
    decreases rank(id), 1nat, 0nat,
{
    if id.is_meta() {
        let members = id.members();
        make_order_all(&members, ignore_deps, id.rank())
    } else if ignore_deps {
        vec![id]
    } else {
        let deps = id.dependencies();
        let mut r = make_order_all(&deps, ignore_deps, id.rank());
        r.push(id);
        r
    }
}

/// One step of an action.
#[derive(Clone, Copy, Debug, PartialEq, Eq, Structural)]
pub enum ActionStep {
    /// Remove the package's work directory.
    Clean,
    /// Make the package and what it needs, in `make_order`.
    Make,
    /// Copy the staged sysroot into the real one.
    Deploy,
}

/// The steps of an action.
pub open spec fn action_steps_of(action: Action) -> Seq<ActionStep> {
    match action {
        Action::Install => seq![ActionStep::Make, ActionStep::Deploy],
        Action::Clean => seq![ActionStep::Clean],
        Action::RebuildOnly => seq![ActionStep::Clean, ActionStep::Make, ActionStep::Deploy],
    }
}

/// The steps of an action: installing makes the package
/// and deploys the sysroot; cleaning removes its work directory; rebuilding
/// cleans first.
pub fn action_steps(action: Action) -> (r: Vec<ActionStep>)
    ensures
        r@ == action_steps_of(action),
{
    match action {
        Action::Install => vec![ActionStep::Make, ActionStep::Deploy],
        Action::Clean => vec![ActionStep::Clean],
        Action::RebuildOnly => vec![ActionStep::Clean, ActionStep::Make, ActionStep::Deploy],
    }
}

} // verus!
