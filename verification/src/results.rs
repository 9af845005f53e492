//! Collecting a sequence of fallible outcomes into one outcome, the way
//! `Iterator::collect::<Result<Vec<_>, _>>` does: the first error wins.
use vstd::prelude::*;

verus! {

/// The first error among `rs`, if any.
pub open spec fn first_error<T, E>(rs: Seq<Result<T, E>>) -> Option<E>
    decreases rs.len(),
{
    if rs.len() == 0 {
        None
    } else {
        match rs[0] {
            Err(e) => Some(e),
            Ok(_) => first_error(rs.drop_first()),
        }
    }
}

/// `vs` are the values of `rs`, all of which succeeded.
pub open spec fn values_of<T, E>(rs: Seq<Result<T, E>>, vs: Seq<T>) -> bool {
    &&& vs.len() == rs.len()
    &&& forall|i: int| 0 <= i < rs.len() ==> #[trigger] rs[i] == Ok::<T, E>(vs[i])
}

/// There is no first error exactly when every outcome succeeded.
pub proof fn lemma_first_error_none<T, E>(rs: Seq<Result<T, E>>)
    ensures
        first_error(rs) is None <==> forall|i: int| 0 <= i < rs.len() ==> (#[trigger] rs[i]) is Ok,
    decreases rs.len(),
{
    if rs.len() > 0 {
        let rest = rs.drop_first();
        lemma_first_error_none(rest);
        if rs[0] is Ok {
            if forall|i: int| 0 <= i < rest.len() ==> (#[trigger] rest[i]) is Ok {
                assert forall|i: int| 0 <= i < rs.len() implies (#[trigger] rs[i]) is Ok by {
                    if i > 0 {
                        assert(rs[i] == rest[i - 1]);
                    }
                }
            }
            if forall|i: int| 0 <= i < rs.len() ==> (#[trigger] rs[i]) is Ok {
                assert forall|i: int| 0 <= i < rest.len() implies (#[trigger] rest[i]) is Ok by {
                    assert(rest[i] == rs[i + 1]);
                }
            }
        } else {
            assert(!(rs[0] is Ok));
        }
    }
}

/// The values of all outcomes, or the first error among them.
pub fn collect_results<T, E>(rs: Vec<Result<T, E>>) -> (r: Result<Vec<T>, E>)
    ensures
        match r {
            Ok(vs) => first_error(rs@) is None && values_of(rs@, vs@),
            Err(e) => first_error(rs@) == Some(e),
        },
{
    let ghost orig = rs@;
    let mut rest = rs;
    let mut vs: Vec<T> = Vec::new();
    let n = rest.len();
    let mut i: usize = 0;
    assert(orig.subrange(0, n as int) == orig);
    while i < n
        invariant
            orig == rs@,
            n == orig.len(),
            i <= n,
            rest@ == orig.subrange(i as int, n as int),
            values_of(orig.take(i as int), vs@),
            first_error(orig) == first_error(orig.subrange(i as int, n as int)),
        decreases n - i,
    {
        let x = rest.remove(0);
        assert(x == orig[i as int]);
        assert(orig.subrange(i as int, n as int).drop_first() == orig.subrange(i + 1, n as int));
        match x {
            Ok(v) => {
                vs.push(v);
                assert(orig.take(i + 1) == orig.take(i as int).push(orig[i as int]));
            },
            Err(e) => {
                return Err(e);
            },
        }
        i = i + 1;
    }
    assert(orig.take(n as int) == orig);
    assert(orig.subrange(n as int, n as int).len() == 0);
    Ok(vs)
}

} // verus!
