//! Laws the store operations obey, stated over the store's model.
//!
//! The store's contracts pin each operation down: a successful create turns
//! contents `s` into `s.push(u)`, a failed one leaves `s` as it is, and
//! listing returns exactly the contents. The laws below say what follows for
//! sequences of such operations.

use vstd::prelude::*;

use crate::store::{contains_id, ids_unique};
use crate::user::UserView;

verus! {

/// Membership in a concatenation splits into membership in either part.
proof fn lemma_contains_id_split(a: Seq<UserView>, b: Seq<UserView>, id: u32)
    ensures
        contains_id(a + b, id) <==> contains_id(a, id) || contains_id(b, id),
{
    if contains_id(a + b, id) {
        let k = choose|k: int| 0 <= k < (a + b).len() && (a + b)[k].id == id;
        if k < a.len() {
            assert(a[k] == (a + b)[k]);
        } else {
            assert(b[k - a.len()] == (a + b)[k]);
        }
    }
    if contains_id(a, id) {
        let k = choose|k: int| 0 <= k < a.len() && a[k].id == id;
        assert((a + b)[k] == a[k]);
    }
    if contains_id(b, id) {
        let k = choose|k: int| 0 <= k < b.len() && b[k].id == id;
        assert((a + b)[a.len() + k] == b[k]);
    }
}

/// Law: creating a record and then listing yields a list that contains that
/// exact record. A create on contents `s` succeeds exactly when `u.id` is
/// fresh and then leaves contents `s.push(u)`, and listing returns the
/// contents; those contain `u`.
pub proof fn lemma_create_then_list_contains(s: Seq<UserView>, u: UserView)
    requires
        !contains_id(s, u.id),
    ensures
        s.push(u).contains(u),
{
    assert(s.push(u)[s.len() as int] == u);
}

/// Law: once a record with some `id` is in the contents, any further create
/// carrying that `id` — whatever its other fields — meets the conflict
/// condition, so by the create contract it fails with `Conflict` and leaves
/// the contents unchanged.
pub proof fn lemma_duplicate_id_conflicts(s: Seq<UserView>, u: UserView, v: UserView)
    requires
        v.id == u.id,
    ensures
        contains_id(s.push(u), v.id),
{
    assert(s.push(u)[s.len() as int].id == v.id);
}

/// Law: creates with pairwise-distinct ids, all fresh for contents `s` and
/// serialized in any order (the store's lock admits them one at a time), all
/// succeed: each one in turn meets the success condition, each step extends
/// the contents by exactly that record, and the final contents hold every one
/// of them — no create is lost. Uniqueness of ids is preserved along the way.
pub proof fn lemma_distinct_creates_all_succeed(s: Seq<UserView>, us: Seq<UserView>)
    requires
        ids_unique(us),
        forall|i: int| 0 <= i < us.len() ==> !contains_id(s, #[trigger] us[i].id),
    ensures
        forall|i: int| 0 <= i < us.len() ==> !contains_id(s + us.take(i), #[trigger] us[i].id),
        forall|i: int|
            0 <= i < us.len() ==> (s + us.take(i)).push(#[trigger] us[i]) =~= s + us.take(i + 1),
        forall|i: int| 0 <= i < us.len() ==> (s + us).contains(#[trigger] us[i]),
        ids_unique(s) ==> ids_unique(s + us),
{
    assert forall|i: int| 0 <= i < us.len() implies !contains_id(
        s + us.take(i),
        #[trigger] us[i].id,
    ) by {
        lemma_contains_id_split(s, us.take(i), us[i].id);
        assert(!contains_id(us.take(i), us[i].id)) by {
            if contains_id(us.take(i), us[i].id) {
                let j = choose|j: int|
                    0 <= j < us.take(i).len() && us.take(i)[j].id == us[i].id;
                assert(us.take(i)[j] == us[j]);
                assert(false);
            }
        }
    }
    assert forall|i: int| 0 <= i < us.len() implies (s + us.take(i)).push(#[trigger] us[i]) =~= s
        + us.take(i + 1) by {
        assert(us.take(i + 1)[i] == us[i]);
    }
    assert forall|i: int| 0 <= i < us.len() implies (s + us).contains(#[trigger] us[i]) by {
        assert((s + us)[s.len() + i] == us[i]);
    }
    if ids_unique(s) {
        assert forall|i: int, j: int| 0 <= i < j < (s + us).len() implies (s + us)[i].id != (s
            + us)[j].id by {
            if j < s.len() {
                assert((s + us)[i] == s[i]);
                assert((s + us)[j] == s[j]);
            } else if i < s.len() {
                assert((s + us)[i] == s[i]);
                assert((s + us)[j] == us[j - s.len()]);
                if (s + us)[i].id == (s + us)[j].id {
                    assert(contains_id(s, us[j - s.len()].id)) by {
                        assert(s[i].id == us[j - s.len()].id);
                    }
                    assert(false);
                }
            } else {
                assert((s + us)[i] == us[i - s.len()]);
                assert((s + us)[j] == us[j - s.len()]);
            }
        }
    }
}

} // verus!
