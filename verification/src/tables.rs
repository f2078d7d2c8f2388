//! Tables of rows that are looked up by their id.
use vstd::prelude::*;

verus! {

/// Rows of a table that are looked up by their id.
pub trait Keyed {
    spec fn key_spec(&self) -> i32;

    fn key(&self) -> (k: i32)
        ensures
            k == self.key_spec(),
    ;
}

/// The first row with the given id, as a table lookup gives it.
pub open spec fn lookup<T: Keyed>(rows: Seq<T>, id: i32) -> Option<T>
    decreases rows.len(),
{
    if rows.len() == 0 {
        None
    } else if rows[0].key_spec() == id {
        Some(rows[0])
    } else {
        lookup(rows.drop_first(), id)
    }
}

/// A lookup finds the first row with the id: the row found has the id and no row before it
/// has; where nothing is found, no row has the id.
pub proof fn lemma_lookup_finds_first<T: Keyed>(rows: Seq<T>, id: i32)
    ensures
        lookup(rows, id) is None <==> forall|i: int|
            0 <= i < rows.len() ==> #[trigger] rows[i].key_spec() != id,
        lookup(rows, id) is Some ==> exists|i: int|
            0 <= i < rows.len() && rows[i] == lookup(rows, id)->0 && rows[i].key_spec() == id
                && forall|k: int| 0 <= k < i ==> #[trigger] rows[k].key_spec() != id,
    decreases rows.len(),
{
    if rows.len() > 0 {
        lemma_lookup_finds_first(rows.drop_first(), id);
        if rows[0].key_spec() != id {
            if lookup(rows, id) is Some {
                let i = choose|i: int|
                    0 <= i < rows.drop_first().len() && rows.drop_first()[i] == lookup(rows, id)->0
                        && rows.drop_first()[i].key_spec() == id && forall|k: int|
                        0 <= k < i ==> #[trigger] rows.drop_first()[k].key_spec() != id;
                assert(rows[i + 1] == rows.drop_first()[i]);
                assert forall|k: int| 0 <= k < i + 1 implies #[trigger] rows[k].key_spec() != id by {
                    if k > 0 {
                        assert(rows[k] == rows.drop_first()[k - 1]);
                    }
                }
            } else {
                assert forall|i: int| 0 <= i < rows.len() implies #[trigger] rows[i].key_spec() != id by {
                    if i > 0 {
                        assert(rows[i] == rows.drop_first()[i - 1]);
                    }
                }
            }
        }
        if forall|i: int| 0 <= i < rows.len() ==> #[trigger] rows[i].key_spec() != id {
            assert(rows[0].key_spec() != id);
            assert forall|i: int|
                0 <= i < rows.drop_first().len() implies #[trigger] rows.drop_first()[i].key_spec()
                != id by {
                assert(rows.drop_first()[i] == rows[i + 1]);
            }
        }
    }
}

/// Looks up the first row with the given id.
pub fn find_row<T: Keyed>(rows: &Vec<T>, id: i32) -> (r: Option<&T>)
    ensures
        r is None <==> lookup(rows@, id) is None,
        r matches Some(x) ==> lookup(rows@, id) == Some(*x),
{
    let n = rows.len();
    let mut i: usize = 0;
    assert(rows@.skip(0) =~= rows@);
    while i < n
        invariant
            n == rows@.len(),
            i <= n,
            lookup(rows@, id) == lookup(rows@.skip(i as int), id),
        decreases n - i,
    {
        assert(rows@.skip(i as int).drop_first() =~= rows@.skip(i + 1));
        if rows[i].key() == id {
            return Some(&rows[i]);
        }
        i += 1;
    }
    None
}

} // verus!
