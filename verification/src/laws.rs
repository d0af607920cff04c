//! What holds of the collection's operations, taken together.
//!
//! Each statement is over the models of a collection (`Seq<RecipeView>`) and
//! the spec functions that the operations' own contracts use.

use vstd::prelude::*;
use crate::recipe::RecipeView;
use crate::store::StoreError;
use crate::store::created;
use crate::store::find_in;
use crate::store::first_match;
use crate::store::has_name;
use crate::store::distinct_names;
use crate::store::is_first_match;
use crate::store::lemma_first_match;
use crate::store::lemma_first_match_unique;
use crate::store::names_of;
use crate::store::replaced;

verus! {

/// The collection that an operation leaves: its result where it succeeded,
/// the collection it started from where it failed.
pub open spec fn state_after(
    before: Seq<RecipeView>,
    outcome: Result<Seq<RecipeView>, StoreError>,
) -> Seq<RecipeView> {
    match outcome {
        Ok(after) => after,
        Err(_) => before,
    }
}

/// Exactly one recipe of the collection carries this name.
pub open spec fn holds_once(c: Seq<RecipeView>, name: Seq<char>) -> bool {
    exists|k: int|
        0 <= k < c.len() && (#[trigger] c[k]).name == name && forall|j: int|
            0 <= j < c.len() && j != k ==> (#[trigger] c[j]).name != name
}

/// Creating each recipe of `rs` in turn, starting from `c`; the first failure
/// ends the run.
pub open spec fn created_all(c: Seq<RecipeView>, rs: Seq<RecipeView>) -> Result<
    Seq<RecipeView>,
    StoreError,
>
    decreases rs.len(),
{
    if rs.len() == 0 {
        Ok(c)
    } else {
        match created_all(c, rs.drop_last()) {
            Ok(so_far) => created(so_far, rs.last()),
            Err(e) => Err(e),
        }
    }
}

/// Creating a recipe whose name is not in the collection succeeds, and finding
/// by that name afterwards gives exactly that recipe.
pub proof fn law_create_then_find(c: Seq<RecipeView>, r: RecipeView)
    requires
        !has_name(c, r.name),
    ensures
        created(c, r) == Ok::<Seq<RecipeView>, StoreError>(c.push(r)),
        find_in(c.push(r), r.name) == Some(r),
{
    let after = c.push(r);
    assert(after[c.len() as int] == r);
    assert forall|j: int| 0 <= j < c.len() implies (#[trigger] after[j]).name != r.name by {
        assert(c[j].name != r.name);
    }
    assert(is_first_match(after, r.name, c.len() as int));
    lemma_first_match_unique(after, r.name, c.len() as int);
}

/// Creating a recipe and then one of the same name again: the second call
/// fails with a conflict, and the collection holds that name exactly once.
pub proof fn law_create_again_conflicts(c: Seq<RecipeView>, r: RecipeView, again: RecipeView)
    requires
        distinct_names(c),
        again.name == r.name,
    ensures
        ({
            let first = state_after(c, created(c, r));
            &&& created(first, again) == Err::<Seq<RecipeView>, StoreError>(StoreError::Conflict)
            &&& state_after(first, created(first, again)) == first
            &&& holds_once(first, r.name)
        }),
{
    let first = state_after(c, created(c, r));
    if has_name(c, r.name) {
        assert(first == c);
        let k = choose|i: int| 0 <= i < c.len() && (#[trigger] c[i]).name == r.name;
        assert forall|j: int| 0 <= j < c.len() && j != k implies (#[trigger] c[j]).name != r.name by {
            if j < k {
                assert(c[j].name != c[k].name);
            } else {
                assert(c[k].name != c[j].name);
            }
        }
        assert(holds_once(first, r.name));
    } else {
        assert(first == c.push(r));
        let k = c.len() as int;
        assert(first[k] == r);
        assert forall|j: int| 0 <= j < first.len() && j != k implies (#[trigger] first[j]).name
            != r.name by {
            assert(c[j].name != r.name);
        }
        assert(holds_once(first, r.name));
        assert(has_name(first, again.name));
    }
}

/// Replacing by a recipe whose name is not in the collection fails with
/// not-found and leaves the collection as it was.
pub proof fn law_replace_absent(c: Seq<RecipeView>, r: RecipeView)
    requires
        !has_name(c, r.name),
    ensures
        replaced(c, r) == Err::<Seq<RecipeView>, StoreError>(StoreError::NotFound),
        state_after(c, replaced(c, r)) == c,
        names_of(state_after(c, replaced(c, r))) == names_of(c),
{
}

/// Replacing by a recipe whose name is in the collection succeeds, finding by
/// that name afterwards gives exactly that recipe, and the collection keeps
/// its size and the order of its names.
pub proof fn law_replace_then_find(c: Seq<RecipeView>, r: RecipeView)
    requires
        has_name(c, r.name),
    ensures
        replaced(c, r) is Ok,
        find_in(replaced(c, r)->Ok_0, r.name) == Some(r),
        replaced(c, r)->Ok_0.len() == c.len(),
        names_of(replaced(c, r)->Ok_0) == names_of(c),
{
    lemma_first_match(c, r.name);
    let k = first_match(c, r.name);
    let after = c.update(k, r);
    assert(after[k] == r);
    assert forall|j: int| 0 <= j < k implies (#[trigger] after[j]).name != r.name by {
        assert(c[j].name != r.name);
    }
    assert(is_first_match(after, r.name, k));
    lemma_first_match_unique(after, r.name, k);
    assert(names_of(after) =~= names_of(c));
}

/// Creating recipes one after the other without a failure appends them in that
/// order: the names listed afterwards are the names before, followed by the
/// names of the recipes created, in the order of their creation.
pub proof fn law_creates_list_in_order(c: Seq<RecipeView>, rs: Seq<RecipeView>)
    requires
        created_all(c, rs) is Ok,
    ensures
        created_all(c, rs)->Ok_0 == c + rs,
        names_of(created_all(c, rs)->Ok_0) == names_of(c) + names_of(rs),
    decreases rs.len(),
{
    if rs.len() == 0 {
        assert(c + rs =~= c);
    } else {
        let front = rs.drop_last();
        law_creates_list_in_order(c, front);
        assert((c + front).push(rs.last()) =~= c + rs);
    }
    assert(names_of(c + rs) =~= names_of(c) + names_of(rs));
}

/// Starting from the empty collection, creating recipes without a failure
/// makes the list of names exactly the names created, in that order.
pub proof fn law_creates_from_empty_list_in_order(rs: Seq<RecipeView>)
    requires
        created_all(Seq::<RecipeView>::empty(), rs) is Ok,
    ensures
        names_of(created_all(Seq::<RecipeView>::empty(), rs)->Ok_0) == names_of(rs),
{
    law_creates_list_in_order(Seq::<RecipeView>::empty(), rs);
    assert(Seq::<RecipeView>::empty() + rs =~= rs);
}

/// Two creations with different names, neither in the collection, run one
/// after the other in either order: both succeed, and both names are in the
/// collection afterwards, whichever ran first.
pub proof fn law_two_creates_in_turn_keep_both(c: Seq<RecipeView>, a: RecipeView, b: RecipeView)
    requires
        !has_name(c, a.name),
        !has_name(c, b.name),
        a.name != b.name,
    ensures
        created(c, a) == Ok::<Seq<RecipeView>, StoreError>(c.push(a)),
        created(c.push(a), b) == Ok::<Seq<RecipeView>, StoreError>(c.push(a).push(b)),
        created(c, b) == Ok::<Seq<RecipeView>, StoreError>(c.push(b)),
        created(c.push(b), a) == Ok::<Seq<RecipeView>, StoreError>(c.push(b).push(a)),
        has_name(c.push(a).push(b), a.name) && has_name(c.push(a).push(b), b.name),
        has_name(c.push(b).push(a), a.name) && has_name(c.push(b).push(a), b.name),
{
    lemma_push_keeps_absent(c, a, b.name);
    lemma_push_keeps_absent(c, b, a.name);
    let ab = c.push(a).push(b);
    let ba = c.push(b).push(a);
    assert(ab[c.len() as int] == a && ab[c.len() as int + 1] == b);
    assert(ba[c.len() as int] == b && ba[c.len() as int + 1] == a);
}

/// Appending a recipe of another name brings no match for `name`.
proof fn lemma_push_keeps_absent(c: Seq<RecipeView>, r: RecipeView, name: Seq<char>)
    requires
        !has_name(c, name),
        r.name != name,
    ensures
        !has_name(c.push(r), name),
{
    let after = c.push(r);
    assert forall|j: int| 0 <= j < after.len() implies (#[trigger] after[j]).name != name by {
        if j < c.len() {
            assert(c[j].name != name);
        }
    }
}

} // verus!
