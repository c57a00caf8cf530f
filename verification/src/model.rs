//! Values and their mathematical models: copying and comparing through the
//! model of a type.
use crate::text::{opt_texts, same_list};
use vstd::prelude::*;

verus! {

/// A type whose values are copied and compared by their model.
pub trait Model: View + Sized {
    /// A copy with the same model.
    fn dup(&self) -> (r: Self)
        ensures
            r@ == self@,
    ;

    /// Whether two values have the same model.
    fn same(&self, other: &Self) -> (r: bool)
        ensures
            r == (self@ == other@),
    ;
}

/// The models of the values of a list.
pub open spec fn models<T: View>(list: Seq<T>) -> Seq<T::V> {
    Seq::new(list.len(), |i: int| list[i]@)
}

/// The model of an optional value.
pub open spec fn opt_model<T: View>(value: Option<T>) -> Option<T::V> {
    match value {
        Some(x) => Some(x@),
        None => None,
    }
}

/// The models of the values of an optional list.
pub open spec fn opt_models<T: View>(list: Option<Vec<T>>) -> Option<Seq<T::V>> {
    match list {
        Some(v) => Some(models(v@)),
        None => None,
    }
}

/// Pushing a value adds its model at the end.
pub broadcast proof fn models_push<T: View>(list: Seq<T>, x: T)
    ensures
        #[trigger] models(list.push(x)) == models(list).push(x@),
{
    assert(models(list.push(x)) =~= models(list).push(x@));
}

/// A copy of every value of a list.
pub fn dup_all<T: Model>(list: &Vec<T>) -> (r: Vec<T>)
    ensures
        models(r@) == models(list@),
{
    let mut out: Vec<T> = Vec::new();
    let mut i: usize = 0;
    while i < list.len()
        invariant
            i <= list.len(),
            models(out@) == models(list@).take(i as int),
        decreases list.len() - i,
    {
        broadcast use models_push;

        out.push(list[i].dup());
        assert(models(list@).take(i + 1) =~= models(list@).take(i as int).push(
            models(list@)[i as int],
        ));
        i = i + 1;
    }
    assert(models(list@).take(i as int) =~= models(list@));
    out
}

/// A copy of an optional value.
pub fn dup_opt<T: Model>(value: &Option<T>) -> (r: Option<T>)
    ensures
        opt_model(r) == opt_model(*value),
{
    match value {
        Some(x) => Some(x.dup()),
        None => None,
    }
}

/// A copy of an optional list.
pub fn dup_opt_all<T: Model>(list: &Option<Vec<T>>) -> (r: Option<Vec<T>>)
    ensures
        opt_models(r) == opt_models(*list),
{
    match list {
        Some(v) => Some(dup_all(v)),
        None => None,
    }
}

/// Whether two lists hold values with the same models in the same order.
pub fn same_all<T: Model>(a: &Vec<T>, b: &Vec<T>) -> (r: bool)
    ensures
        r == (models(a@) == models(b@)),
{
    if a.len() != b.len() {
        assert(models(a@).len() != models(b@).len());
        return false;
    }
    let mut i: usize = 0;
    while i < a.len()
        invariant
            i <= a.len(),
            a.len() == b.len(),
            forall|k: int| 0 <= k < i ==> (#[trigger] a@[k])@ == b@[k]@,
        decreases a.len() - i,
    {
        if !a[i].same(&b[i]) {
            assert(models(a@)[i as int] != models(b@)[i as int]);
            return false;
        }
        i = i + 1;
    }
    assert(models(a@) =~= models(b@));
    true
}

/// Whether two optional values have the same model.
pub fn same_opt_model<T: Model>(a: &Option<T>, b: &Option<T>) -> (r: bool)
    ensures
        r == (opt_model(*a) == opt_model(*b)),
{
    match (a, b) {
        (Some(x), Some(y)) => x.same(y),
        (None, None) => true,
        _ => false,
    }
}

/// Whether two optional lists have the same models.
pub fn same_opt_all<T: Model>(a: &Option<Vec<T>>, b: &Option<Vec<T>>) -> (r: bool)
    ensures
        r == (opt_models(*a) == opt_models(*b)),
{
    match (a, b) {
        (Some(x), Some(y)) => same_all(x, y),
        (None, None) => true,
        _ => false,
    }
}

/// Whether two optional lists hold the same texts.
pub fn same_opt_list(a: &Option<Vec<String>>, b: &Option<Vec<String>>) -> (r: bool)
    ensures
        r == (opt_texts(*a) == opt_texts(*b)),
{
    match (a, b) {
        (Some(x), Some(y)) => same_list(x, y),
        (None, None) => true,
        _ => false,
    }
}

/// Whether two optional ports are the same.
pub fn same_u16(a: Option<u16>, b: Option<u16>) -> (r: bool)
    ensures
        r == (a == b),
{
    match (a, b) {
        (Some(x), Some(y)) => x == y,
        (None, None) => true,
        _ => false,
    }
}

/// Whether two optional switches are the same.
pub fn same_bool(a: Option<bool>, b: Option<bool>) -> (r: bool)
    ensures
        r == (a == b),
{
    match (a, b) {
        (Some(x), Some(y)) => x == y,
        (None, None) => true,
        _ => false,
    }
}

// ---------------------------------------------------------------------------
// Finding and keeping

/// The position of the first value that `p` picks.
pub open spec fn first_where<V>(list: Seq<V>, p: spec_fn(V) -> bool) -> Option<int>
    decreases list.len(),
{
    if list.len() == 0 {
        None
    } else if p(list[0]) {
        Some(0)
    } else {
        match first_where(list.skip(1), p) {
            Some(i) => Some(i + 1),
            None => None,
        }
    }
}

/// `first_where` finds the first value that `p` picks, if there is one.
pub proof fn first_where_facts<V>(list: Seq<V>, p: spec_fn(V) -> bool)
    ensures
        match first_where(list, p) {
            Some(i) => 0 <= i < list.len() && p(list[i]) && (forall|k: int|
                0 <= k < i ==> !p(#[trigger] list[k])),
            None => forall|k: int| 0 <= k < list.len() ==> !p(#[trigger] list[k]),
        },
    decreases list.len(),
{
    if list.len() > 0 && !p(list[0]) {
        let rest = list.skip(1);
        first_where_facts(rest, p);
        match first_where(list, p) {
            Some(i) => {
                assert(rest[i - 1] == list[i]);
                assert forall|k: int| 0 <= k < i implies !p(#[trigger] list[k]) by {
                    if k > 0 {
                        assert(rest[k - 1] == list[k]);
                    }
                }
            },
            None => {
                assert forall|k: int| 0 <= k < list.len() implies !p(#[trigger] list[k]) by {
                    if k > 0 {
                        assert(rest[k - 1] == list[k]);
                    }
                }
            },
        }
    }
}

/// The first value that `p` picks is the one found.
pub proof fn first_where_is<V>(list: Seq<V>, p: spec_fn(V) -> bool, i: int)
    requires
        0 <= i < list.len(),
        p(list[i]),
        forall|k: int| 0 <= k < i ==> !p(#[trigger] list[k]),
    ensures
        first_where(list, p) == Some(i),
{
    first_where_facts(list, p);
}

/// The position of the first value that `f` picks; `p` says what `f` computes.
pub(crate) fn find_first<T: View, F: Fn(&T) -> bool>(
    list: &Vec<T>,
    f: F,
    Ghost(p): Ghost<spec_fn(T::V) -> bool>,
) -> (r: Option<usize>)
    requires
        forall|x: &T| call_requires(f, (x,)),
        forall|x: &T, b: bool| call_ensures(f, (x,), b) ==> b == p(x@),
    ensures
        match r {
            Some(i) => i < list.len() && first_where(models(list@), p) == Some(i as int),
            None => first_where(models(list@), p) is None,
        },
{
    let mut i: usize = 0;
    while i < list.len()
        invariant
            i <= list.len(),
            forall|x: &T| call_requires(f, (x,)),
            forall|x: &T, b: bool| call_ensures(f, (x,), b) ==> b == p(x@),
            forall|k: int| 0 <= k < i ==> !p(#[trigger] models(list@)[k]),
        decreases list.len() - i,
    {
        if f(&list[i]) {
            proof {
                assert(p(models(list@)[i as int]));
                first_where_is(models(list@), p, i as int);
            }
            return Some(i);
        }
        i = i + 1;
    }
    proof {
        first_where_facts(models(list@), p);
    }
    None
}

/// Keeps the values that `f` picks, in order; `p` says what `f` computes.
pub(crate) fn keep_where<T: View, F: Fn(&T) -> bool>(
    list: &mut Vec<T>,
    f: F,
    Ghost(p): Ghost<spec_fn(T::V) -> bool>,
)
    requires
        forall|x: &T| call_requires(f, (x,)),
        forall|x: &T, b: bool| call_ensures(f, (x,), b) ==> b == p(x@),
    ensures
        models(final(list)@) == models(old(list)@).filter(p),
{
    let ghost all = models(list@);
    let ghost mut seen: int = 0;
    let mut i: usize = 0;
    proof {
        reveal(Seq::filter);
        assert(models(list@) =~= all.take(0).filter(p) + all.skip(0));
    }
    while i < list.len()
        invariant
            i <= list.len(),
            0 <= seen <= all.len(),
            forall|x: &T| call_requires(f, (x,)),
            forall|x: &T, b: bool| call_ensures(f, (x,), b) ==> b == p(x@),
            all.take(seen).filter(p).len() == i,
            models(list@) == all.take(seen).filter(p) + all.skip(seen),
        decreases list.len() - i,
    {
        let ghost kept = all.take(seen).filter(p);
        let ghost before = list@;
        proof {
            assert(models(before)[i as int] == (kept + all.skip(seen))[i as int]);
            assert(models(before)[i as int] == all[seen]);
            assert(all.take(seen + 1) =~= all.take(seen).push(all[seen]));
            crate::text::filter_push(all.take(seen), all[seen], p);
        }
        if f(&list[i]) {
            i = i + 1;
            proof {
                assert(kept + all.skip(seen) =~= kept.push(all[seen]) + all.skip(seen + 1));
            }
        } else {
            list.remove(i);
            proof {
                assert(models(list@) =~= models(before).remove(i as int));
                assert((kept + all.skip(seen)).remove(i as int) =~= kept + all.skip(seen + 1));
            }
        }
        proof {
            seen = seen + 1;
        }
    }
    proof {
        let kept = all.take(seen).filter(p);
        assert(models(list@).len() == kept.len() + all.skip(seen).len());
        assert(seen == all.len());
        assert(all.take(seen) =~= all);
        assert(models(list@) =~= kept);
    }
}

} // verus!
