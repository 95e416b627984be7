//! Repetition of grammar rules: zero or more items, and separated lists.
use vstd::prelude::*;
use crate::lexer::{byte_at, byte_exec, skip, ws0, ws1, ws1_exec, Class};

verus! {

/// A rule of the grammar: a spec function from the input and a position to
/// the model of what it reads and the position after it, and an executable
/// function proved to agree with it.
pub trait Grammar {
    type Out: View;

    spec fn spec_parse(s: Seq<u8>, p: int) -> Option<(<Self::Out as View>::V, int)>;

    fn parse(s: &[u8], p: usize) -> (r: Option<(Self::Out, usize)>)
        requires
            p <= s@.len(),
        ensures
            r matches Some((x, q)) ==> Self::spec_parse(s@, p as int) == Some((x@, q as int))
                && p <= q <= s@.len(),
            r is None ==> Self::spec_parse(s@, p as int) is None,
    ;
}

/// The models of a vector of values.
pub open spec fn views<T: View>(v: Seq<T>) -> Seq<T::V> {
    v.map_values(|x: T| x@)
}

/// Zero or more items, as many as the rule reads, each one moving forward.
pub open spec fn many0<G: Grammar>(s: Seq<u8>, p: int) -> (Seq<<G::Out as View>::V>, int)
    decreases s.len() - p,
{
    match G::spec_parse(s, p) {
        Some((x, q)) => if p < q <= s.len() {
            let r = many0::<G>(s, q);
            (seq![x] + r.0, r.1)
        } else {
            (seq![], p)
        },
        None => (seq![], p),
    }
}

/// Repetition reads as many items as it can: where it stops, the rule reads
/// nothing, or nothing that moves forward.
pub proof fn lemma_many0_maximal<G: Grammar>(s: Seq<u8>, p: int)
    ensures
        match G::spec_parse(s, many0::<G>(s, p).1) {
            Some((_, q)) => !(many0::<G>(s, p).1 < q <= s.len()),
            None => true,
        },
    decreases s.len() - p,
{
    match G::spec_parse(s, p) {
        Some((_, q)) => {
            if p < q <= s.len() {
                lemma_many0_maximal::<G>(s, q);
            }
        },
        None => {},
    }
}

/// Repetition reads its items one after another: there are positions, one
/// more than the items, from `p` to where it stops, each strictly after the
/// one before, and the rule reads the `i`-th item from the `i`-th position to
/// the next.
pub proof fn law_many0_items<G: Grammar>(s: Seq<u8>, p: int)
    requires
        0 <= p <= s.len(),
    ensures
        exists|rs: Seq<int>|
            {
                &&& rs.len() == many0::<G>(s, p).0.len() + 1
                &&& rs[0] == p
                &&& rs.last() == many0::<G>(s, p).1
                &&& forall|i: int|
                    0 <= i < many0::<G>(s, p).0.len() ==> #[trigger] rs[i] < rs[i + 1] <= s.len()
                        && G::spec_parse(s, rs[i]) == Some((many0::<G>(s, p).0[i], rs[i + 1]))
            },
    decreases s.len() - p,
{
    match G::spec_parse(s, p) {
        Some((x, q)) => {
            if p < q <= s.len() {
                law_many0_items::<G>(s, q);
                let rest = many0::<G>(s, q);
                let rs0 = choose|rs: Seq<int>|
                    {
                        &&& rs.len() == rest.0.len() + 1
                        &&& rs[0] == q
                        &&& rs.last() == rest.1
                        &&& forall|i: int|
                            0 <= i < rest.0.len() ==> #[trigger] rs[i] < rs[i + 1] <= s.len()
                                && G::spec_parse(s, rs[i]) == Some((rest.0[i], rs[i + 1]))
                    };
                let rs = seq![p] + rs0;
                let xs = many0::<G>(s, p).0;
                assert(xs == seq![x] + rest.0);
                assert forall|i: int| 0 <= i < xs.len() implies #[trigger] rs[i] < rs[i + 1] <= s.len()
                    && G::spec_parse(s, rs[i]) == Some((xs[i], rs[i + 1])) by {
                    if i > 0 {
                        assert(rs[i] == rs0[i - 1]);
                        assert(rs[i + 1] == rs0[i]);
                        assert(xs[i] == rest.0[i - 1]);
                    }
                }
                assert(rs.last() == rs0.last());
            } else {
                assert(seq![p].last() == p);
                assert(seq![p].len() == 1);
            }
        },
        None => {
            assert(seq![p].last() == p);
        },
    }
}

pub fn many0_exec<G: Grammar>(s: &[u8], p: usize) -> (r: (Vec<G::Out>, usize))
    requires
        p <= s@.len(),
    ensures
        views(r.0@) == many0::<G>(s@, p as int).0,
        r.1 == many0::<G>(s@, p as int).1,
        p <= r.1 <= s@.len(),
{
    let mut v: Vec<G::Out> = Vec::new();
    let mut cur = p;
    loop
        invariant
            p <= cur <= s@.len(),
            many0::<G>(s@, p as int) == (views(v@) + many0::<G>(s@, cur as int).0, many0::<G>(
                s@,
                cur as int,
            ).1),
        decreases s@.len() - cur,
    {
        match G::parse(s, cur) {
            Some((x, q)) => {
                if q > cur {
                    let ghost old_v = v@;
                    let ghost xv = x@;
                    v.push(x);
                    proof {
                        assert(views(v@) =~= views(old_v) + seq![xv]);
                        assert(many0::<G>(s@, cur as int).0 =~= seq![xv] + many0::<G>(
                            s@,
                            q as int,
                        ).0);
                        assert(views(old_v) + many0::<G>(s@, cur as int).0 =~= views(v@)
                            + many0::<G>(s@, q as int).0);
                    }
                    cur = q;
                } else {
                    proof {
                        assert(views(v@) + seq![] =~= views(v@));
                    }
                    return (v, cur);
                }
            },
            None => {
                proof {
                    assert(views(v@) + seq![] =~= views(v@));
                }
                return (v, cur);
            },
        }
    }
}

/// A separator between the items of a list.
pub trait Separator {
    spec fn spec_sep(s: Seq<u8>, p: int) -> Option<int>;

    fn sep(s: &[u8], p: usize) -> (r: Option<usize>)
        requires
            p <= s@.len(),
        ensures
            r matches Some(q) ==> Self::spec_sep(s@, p as int) == Some(q as int) && p <= q
                <= s@.len(),
            r is None ==> Self::spec_sep(s@, p as int) is None,
    ;
}

/// A comma, with optional spaces on both sides.
pub struct Comma;

impl Separator for Comma {
    open spec fn spec_sep(s: Seq<u8>, p: int) -> Option<int> {
        match byte_at(s, ws0(s, p), 44) {
            Some(q) => Some(ws0(s, q)),
            None => None,
        }
    }

    fn sep(s: &[u8], p: usize) -> (r: Option<usize>) {
        let a = skip(s, p, Class::Space);
        match byte_exec(s, a, 44) {
            Some(q) => Some(skip(s, q, Class::Space)),
            None => None,
        }
    }
}

/// One or more spaces or tabs.
pub struct Blank;

impl Separator for Blank {
    open spec fn spec_sep(s: Seq<u8>, p: int) -> Option<int> {
        ws1(s, p)
    }

    fn sep(s: &[u8], p: usize) -> (r: Option<usize>) {
        ws1_exec(s, p)
    }
}

/// An item preceded by a separator.
pub struct After<S, G> {
    pub sep: S,
    pub item: G,
}

impl<S: Separator, G: Grammar> Grammar for After<S, G> {
    type Out = G::Out;

    open spec fn spec_parse(s: Seq<u8>, p: int) -> Option<(<G::Out as View>::V, int)> {
        match S::spec_sep(s, p) {
            Some(a) => G::spec_parse(s, a),
            None => None,
        }
    }

    fn parse(s: &[u8], p: usize) -> (r: Option<(G::Out, usize)>) {
        match S::sep(s, p) {
            Some(a) => G::parse(s, a),
            None => None,
        }
    }
}

/// Zero or more items with a separator between each two of them. A separator
/// that no item follows is not part of the list.
pub open spec fn sep_list<S: Separator, G: Grammar>(s: Seq<u8>, p: int) -> (
    Seq<<G::Out as View>::V>,
    int,
) {
    match G::spec_parse(s, p) {
        Some((x, q)) => {
            let r = many0::<After<S, G>>(s, q);
            (seq![x] + r.0, r.1)
        },
        None => (seq![], p),
    }
}

pub fn sep_list_exec<S: Separator, G: Grammar>(s: &[u8], p: usize) -> (r: (Vec<G::Out>, usize))
    requires
        p <= s@.len(),
    ensures
        views(r.0@) == sep_list::<S, G>(s@, p as int).0,
        r.1 == sep_list::<S, G>(s@, p as int).1,
        p <= r.1 <= s@.len(),
{
    match G::parse(s, p) {
        Some((x, q)) => {
            let ghost xv = x@;
            let (rest, e) = many0_exec::<After<S, G>>(s, q);
            let mut v: Vec<G::Out> = Vec::new();
            v.push(x);
            let mut rest = rest;
            let ghost rv = rest@;
            v.append(&mut rest);
            proof {
                assert(views(v@) =~= seq![xv] + views(rv));
            }
            (v, e)
        },
        None => {
            let v: Vec<G::Out> = Vec::new();
            proof {
                assert(views(v@) =~= seq![]);
            }
            (v, p)
        },
    }
}

} // verus!
