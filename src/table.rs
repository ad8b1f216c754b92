//! What the repository expects of the store, as a model over a sequence of
//! rows, and the laws that the repository's decisions obey against it. A read
//! returns the matching rows; a write is one statement that the store either
//! carries out whole or, where it reports a failure, not at all.
use vstd::prelude::*;
use crate::error::ApiError;
use crate::models::UserRow;
use crate::repository::{
    after_read, after_write, first_query, success, OperationView, QueryView, StepView, WriteView,
};

verus! {

/// Whether a row answers a read.
pub open spec fn matches_query(r: UserRow, q: QueryView) -> bool {
    match q {
        QueryView::ByKey(k) => r.key == k,
        QueryView::ByEmail(e) => r.email == e,
    }
}

/// The rows that a read returns, in table order.
pub open spec fn select(t: Seq<UserRow>, q: QueryView) -> Seq<UserRow> {
    t.filter(|r: UserRow| matches_query(r, q))
}

/// A row after an update write.
pub open spec fn update_row(r: UserRow, w: WriteView) -> UserRow {
    match w {
        WriteView::SetVault(k, v) => if r.key == k {
            UserRow { vault: v, ..r }
        } else {
            r
        },
        WriteView::SetKeyAndVault(k, n, v) => if r.key == k {
            UserRow { key: n, vault: v, ..r }
        } else {
            r
        },
        WriteView::Insert(_, _, _) => r,
    }
}

/// The table after a write that the store carried out; `id` is the identifier
/// that the store gives a new row.
pub open spec fn apply(t: Seq<UserRow>, w: WriteView, id: int) -> Seq<UserRow> {
    match w {
        WriteView::Insert(e, k, v) => t.push(UserRow { id, email: e, key: k, vault: v }),
        _ => t.map_values(|r: UserRow| update_row(r, w)),
    }
}

/// One operation run against a store holding `t`: the table afterwards and the
/// reply. `written` says whether the store carried out the write, if there is one.
pub open spec fn execute(op: OperationView, t: Seq<UserRow>, id: int, written: bool) -> (
    Seq<UserRow>,
    Result<Seq<char>, ApiError>,
) {
    match after_read(op, Some(select(t, first_query(op)))) {
        StepView::Write(w) => if written {
            (apply(t, w, id), after_write(true))
        } else {
            (t, after_write(false))
        },
        StepView::Reply(r) => (t, r),
        StepView::Read(_) => (t, Err(ApiError::InternalError)),
    }
}

proof fn lemma_select_push(t: Seq<UserRow>, r: UserRow, q: QueryView)
    ensures
        select(t.push(r), q) == if matches_query(r, q) {
            select(t, q).push(r)
        } else {
            select(t, q)
        },
{
    reveal(Seq::filter);
    assert(t.push(r).drop_last() =~= t);
}

proof fn lemma_select_empty(t: Seq<UserRow>, q: QueryView)
    requires
        forall|i: int| 0 <= i < t.len() ==> !matches_query(#[trigger] t[i], q),
    ensures
        select(t, q).len() == 0,
    decreases t.len(),
{
    if t.len() > 0 {
        reveal(Seq::filter);
        lemma_select_empty(t.drop_last(), q);
    }
}

proof fn lemma_rotated_rows(t: Seq<UserRow>, k: Seq<char>, n: Seq<char>, v: Seq<char>)
    requires
        select(t, QueryView::ByKey(n)).len() == 0,
    ensures
        select(t.map_values(|r: UserRow| update_row(r, WriteView::SetKeyAndVault(k, n, v))), QueryView::ByKey(n))
            == select(t, QueryView::ByKey(k)).map_values(|r: UserRow| update_row(r, WriteView::SetKeyAndVault(k, n, v))),
    decreases t.len(),
{
    let w = WriteView::SetKeyAndVault(k, n, v);
    let f = |r: UserRow| update_row(r, w);
    if t.len() == 0 {
        assert(t.map_values(f) =~= t);
        assert(select(t, QueryView::ByKey(k)).map_values(f) =~= Seq::<UserRow>::empty());
    } else {
        let p = t.drop_last();
        let x = t.last();
        assert(t =~= p.push(x));
        lemma_select_push(p, x, QueryView::ByKey(n));
        lemma_select_push(p, x, QueryView::ByKey(k));
        lemma_rotated_rows(p, k, n, v);
        assert(t.map_values(f) =~= p.map_values(f).push(f(x)));
        lemma_select_push(p.map_values(f), f(x), QueryView::ByKey(n));
        assert(select(p, QueryView::ByKey(k)).push(x).map_values(f)
            =~= select(p, QueryView::ByKey(k)).map_values(f).push(f(x)));
    }
}

/// Registering with an email and a key that no user has succeeds; the key is
/// then found, and a second registration with the same email fails with
/// `UserExists` and leaves the table as it was.
pub proof fn lemma_register_then_find(
    t: Seq<UserRow>,
    email: Seq<char>,
    key: Seq<char>,
    vault: Seq<char>,
    id: int,
    other_key: Seq<char>,
    other_vault: Seq<char>,
    id2: int,
    written: bool,
)
    requires
        select(t, QueryView::ByEmail(email)).len() == 0,
        select(t, QueryView::ByKey(key)).len() == 0,
    ensures
        ({
            let (t2, reply) = execute(OperationView::Register(email, key, vault), t, id, true);
            &&& reply == Ok::<Seq<char>, ApiError>(success())
            &&& t2.len() == t.len() + 1
            &&& execute(OperationView::Authenticate(key), t2, id2, written) == (t2, Ok::<Seq<char>, ApiError>("1"@))
            &&& execute(OperationView::Register(email, other_key, other_vault), t2, id2, written)
                == (t2, Err::<Seq<char>, ApiError>(ApiError::UserExists))
        }),
{
    let row = UserRow { id, email, key, vault };
    let t2 = t.push(row);
    lemma_select_push(t, row, QueryView::ByKey(key));
    lemma_select_push(t, row, QueryView::ByEmail(email));
}

/// A vault request for a key that no user has fails with `UserNoExists`; once a
/// user registers with that key, it returns exactly the vault registered.
pub proof fn lemma_register_then_get_vault(
    t: Seq<UserRow>,
    email: Seq<char>,
    key: Seq<char>,
    vault: Seq<char>,
    id: int,
    id2: int,
    written: bool,
)
    requires
        select(t, QueryView::ByEmail(email)).len() == 0,
        select(t, QueryView::ByKey(key)).len() == 0,
    ensures
        execute(OperationView::GetVault(key), t, id2, written)
            == (t, Err::<Seq<char>, ApiError>(ApiError::UserNoExists)),
        ({
            let (t2, reply) = execute(OperationView::Register(email, key, vault), t, id, true);
            execute(OperationView::GetVault(key), t2, id2, written) == (t2, Ok::<Seq<char>, ApiError>(vault))
        }),
{
    let row = UserRow { id, email, key, vault };
    lemma_select_push(t, row, QueryView::ByKey(key));
    lemma_select_push(t, row, QueryView::ByEmail(email));
    assert(select(t, QueryView::ByKey(key)).push(row)[0] == row);
}

/// Rotating the key of a registered user to a key that no user has: afterwards
/// the old key is not found, and the new key is found with the new vault. Where
/// the store fails the write, the table stays as it was and the reply is
/// `DatabaseWrite`.
pub proof fn lemma_rotate_key(
    t: Seq<UserRow>,
    old_key: Seq<char>,
    new_key: Seq<char>,
    vault: Seq<char>,
    id: int,
    id2: int,
    written: bool,
)
    requires
        select(t, QueryView::ByKey(old_key)).len() == 1,
        select(t, QueryView::ByKey(new_key)).len() == 0,
    ensures
        execute(OperationView::UpdateKey(old_key, new_key, vault), t, id, false)
            == (t, Err::<Seq<char>, ApiError>(ApiError::DatabaseWrite)),
        ({
            let (t2, reply) = execute(OperationView::UpdateKey(old_key, new_key, vault), t, id, true);
            &&& reply == Ok::<Seq<char>, ApiError>(success())
            &&& t2.len() == t.len()
            &&& execute(OperationView::Authenticate(old_key), t2, id2, written) == (t2, Ok::<Seq<char>, ApiError>("0"@))
            &&& execute(OperationView::Authenticate(new_key), t2, id2, written) == (t2, Ok::<Seq<char>, ApiError>("1"@))
            &&& execute(OperationView::GetVault(new_key), t2, id2, written) == (t2, Ok::<Seq<char>, ApiError>(vault))
        }),
{
    let w = WriteView::SetKeyAndVault(old_key, new_key, vault);
    let f = |r: UserRow| update_row(r, w);
    let t2 = t.map_values(f);
    assert(old_key != new_key) by {
        if old_key == new_key {
            assert(select(t, QueryView::ByKey(old_key)).len() == 0);
        }
    }
    assert forall|i: int| 0 <= i < t2.len() implies !matches_query(#[trigger] t2[i], QueryView::ByKey(old_key)) by {
        assert(t2[i] == f(t[i]));
    }
    lemma_select_empty(t2, QueryView::ByKey(old_key));
    lemma_rotated_rows(t, old_key, new_key, vault);
    let found = select(t, QueryView::ByKey(old_key));
    assert(found.contains(found[0]));
    assert(matches_query(found[0], QueryView::ByKey(old_key)));
}

proof fn lemma_revaulted_rows(t: Seq<UserRow>, k: Seq<char>, v: Seq<char>)
    ensures
        select(t.map_values(|r: UserRow| update_row(r, WriteView::SetVault(k, v))), QueryView::ByKey(k))
            == select(t, QueryView::ByKey(k)).map_values(|r: UserRow| update_row(r, WriteView::SetVault(k, v))),
    decreases t.len(),
{
    let w = WriteView::SetVault(k, v);
    let f = |r: UserRow| update_row(r, w);
    if t.len() == 0 {
        assert(t.map_values(f) =~= t);
        assert(select(t, QueryView::ByKey(k)).map_values(f) =~= Seq::<UserRow>::empty());
    } else {
        let p = t.drop_last();
        let x = t.last();
        assert(t =~= p.push(x));
        lemma_select_push(p, x, QueryView::ByKey(k));
        lemma_revaulted_rows(p, k, v);
        assert(t.map_values(f) =~= p.map_values(f).push(f(x)));
        lemma_select_push(p.map_values(f), f(x), QueryView::ByKey(k));
        assert(select(p, QueryView::ByKey(k)).push(x).map_values(f)
            =~= select(p, QueryView::ByKey(k)).map_values(f).push(f(x)));
    }
}

/// Updating the vault of a registered user keeps its key and row, and a later
/// vault request returns the new vault.
pub proof fn lemma_update_vault(t: Seq<UserRow>, key: Seq<char>, vault: Seq<char>, id: int, id2: int, written: bool)
    requires
        select(t, QueryView::ByKey(key)).len() == 1,
    ensures
        ({
            let (t2, reply) = execute(OperationView::UpdateVault(key, vault), t, id, true);
            &&& reply == Ok::<Seq<char>, ApiError>(success())
            &&& t2.len() == t.len()
            &&& execute(OperationView::Authenticate(key), t2, id2, written) == (t2, Ok::<Seq<char>, ApiError>("1"@))
            &&& execute(OperationView::GetVault(key), t2, id2, written) == (t2, Ok::<Seq<char>, ApiError>(vault))
        }),
{
    lemma_revaulted_rows(t, key, vault);
    let found = select(t, QueryView::ByKey(key));
    assert(found.contains(found[0]));
    assert(matches_query(found[0], QueryView::ByKey(key)));
}

/// No two rows share a key, and no two share an email.
pub open spec fn is_consistent(t: Seq<UserRow>) -> bool {
    forall|i: int, j: int|
        0 <= i < t.len() && 0 <= j < t.len() && i != j ==> #[trigger] t[i].key != #[trigger] t[j].key
            && t[i].email != t[j].email
}

/// The key that an operation gives a user, where it gives one.
pub open spec fn key_set_by(op: OperationView) -> Option<Seq<char>> {
    match op {
        OperationView::Register(_, k, _) => Some(k),
        OperationView::UpdateKey(o, n, _) => if o == n {
            None
        } else {
            Some(n)
        },
        _ => None,
    }
}

proof fn lemma_no_match(t: Seq<UserRow>, q: QueryView, i: int)
    requires
        select(t, q).len() == 0,
        0 <= i < t.len(),
    ensures
        !matches_query(t[i], q),
{
    broadcast use Seq::lemma_filter_contains;

    let pred = |r: UserRow| matches_query(r, q);
    if pred(t[i]) {
        assert(t.filter(pred).contains(t[i]));
    }
}

/// Every operation keeps keys and emails unique, as long as a key that it gives
/// a user belongs to no user yet; an email is checked by registration itself.
pub proof fn lemma_operations_keep_consistency(op: OperationView, t: Seq<UserRow>, id: int, written: bool)
    requires
        is_consistent(t),
        key_set_by(op) matches Some(k) ==> select(t, QueryView::ByKey(k)).len() == 0,
    ensures
        is_consistent(execute(op, t, id, written).0),
{
    let t2 = execute(op, t, id, written).0;
    if t2 != t {
        match op {
            OperationView::Register(e, k, v) => {
                let row = UserRow { id, email: e, key: k, vault: v };
                assert(t2 == t.push(row));
                assert forall|i: int| 0 <= i < t.len() implies t[i].key != k && t[i].email != e by {
                    lemma_no_match(t, QueryView::ByKey(k), i);
                    lemma_no_match(t, QueryView::ByEmail(e), i);
                }
                assert forall|i: int, j: int|
                    0 <= i < t2.len() && 0 <= j < t2.len() && i != j implies #[trigger] t2[i].key
                        != #[trigger] t2[j].key && t2[i].email != t2[j].email by {
                    if i < t.len() && j < t.len() {
                        assert(t2[i] == t[i] && t2[j] == t[j]);
                    }
                }
            },
            OperationView::UpdateVault(k, v) => {
                let f = |r: UserRow| update_row(r, WriteView::SetVault(k, v));
                assert(t2 == t.map_values(f));
                assert forall|i: int, j: int|
                    0 <= i < t2.len() && 0 <= j < t2.len() && i != j implies #[trigger] t2[i].key
                        != #[trigger] t2[j].key && t2[i].email != t2[j].email by {
                    assert(t2[i] == f(t[i]) && t2[j] == f(t[j]));
                }
            },
            OperationView::UpdateKey(o, n, v) => {
                let f = |r: UserRow| update_row(r, WriteView::SetKeyAndVault(o, n, v));
                assert(t2 == t.map_values(f));
                assert forall|i: int, j: int|
                    0 <= i < t2.len() && 0 <= j < t2.len() && i != j implies #[trigger] t2[i].key
                        != #[trigger] t2[j].key && t2[i].email != t2[j].email by {
                    assert(t2[i] == f(t[i]) && t2[j] == f(t[j]));
                    if o != n {
                        lemma_no_match(t, QueryView::ByKey(n), i);
                        lemma_no_match(t, QueryView::ByKey(n), j);
                    }
                }
            },
            _ => {},
        }
    }
}

} // verus!
