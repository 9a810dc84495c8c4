//! The order of worktree-relative paths.
//!
//! Paths are ordered by their bytes, lexicographically, with the separator
//! `/` sorting before every other byte. On paths made of plain names joined
//! by single separators, the form in which both backends report paths,
//! this is the component order of `std::path::Path`: components compare
//! one after another, each byte by byte
//! ([`law_path_order_is_component_order`]).
use vstd::prelude::*;

verus! {

/// The `/` separator.
pub const SEPARATOR: u8 = 0x2f;

/// The rank of a byte in path order: the separator ranks below every other
/// byte, the other bytes keep their order.
pub open spec fn byte_rank(b: u8) -> int {
    if b == SEPARATOR {
        0
    } else {
        b as int + 1
    }
}

/// Lexicographic order on byte strings by [`byte_rank`].
pub open spec fn bytes_lt(a: Seq<u8>, b: Seq<u8>) -> bool
    decreases a.len(),
{
    if a.len() == 0 {
        b.len() > 0
    } else if b.len() == 0 {
        false
    } else if a[0] != b[0] {
        byte_rank(a[0]) < byte_rank(b[0])
    } else {
        bytes_lt(a.drop_first(), b.drop_first())
    }
}

/// Path order on paths given by their bytes.
pub open spec fn path_lt(a: Seq<u8>, b: Seq<u8>) -> bool {
    bytes_lt(a, b)
}

/// A sequence of paths in strictly ascending path order.
pub open spec fn strictly_ascending(s: Seq<Seq<u8>>) -> bool {
    forall|i: int, j: int| 0 <= i < j < s.len() ==> path_lt(#[trigger] s[i], #[trigger] s[j])
}

/// No byte string is below itself.
pub proof fn lemma_bytes_lt_irreflexive(a: Seq<u8>)
    ensures
        !bytes_lt(a, a),
    decreases a.len(),
{
    if a.len() > 0 {
        lemma_bytes_lt_irreflexive(a.drop_first());
    }
}

/// Path order is transitive on byte strings.
pub proof fn lemma_bytes_lt_transitive(a: Seq<u8>, b: Seq<u8>, c: Seq<u8>)
    requires
        bytes_lt(a, b),
        bytes_lt(b, c),
    ensures
        bytes_lt(a, c),
    decreases a.len(),
{
    if a.len() > 0 && b.len() > 0 && c.len() > 0 && a[0] == b[0] && b[0] == c[0] {
        lemma_bytes_lt_transitive(a.drop_first(), b.drop_first(), c.drop_first());
    }
}

/// Two different byte strings are ordered one way or the other.
pub proof fn lemma_bytes_lt_total(a: Seq<u8>, b: Seq<u8>)
    requires
        a != b,
    ensures
        bytes_lt(a, b) || bytes_lt(b, a),
    decreases a.len(),
{
    if a.len() > 0 && b.len() > 0 && a[0] == b[0] {
        if a.drop_first() == b.drop_first() {
            assert(a =~= seq![a[0]] + a.drop_first());
            assert(b =~= seq![b[0]] + b.drop_first());
        }
        lemma_bytes_lt_total(a.drop_first(), b.drop_first());
    } else if a.len() == 0 && b.len() == 0 {
        assert(a =~= b);
    }
}

/// No byte string is both below and above another.
pub proof fn lemma_bytes_lt_asymmetric(a: Seq<u8>, b: Seq<u8>)
    ensures
        !(bytes_lt(a, b) && bytes_lt(b, a)),
{
    if bytes_lt(a, b) && bytes_lt(b, a) {
        lemma_bytes_lt_transitive(a, b, a);
        lemma_bytes_lt_irreflexive(a);
    }
}

/// No path is below itself.
pub proof fn lemma_path_lt_irreflexive(a: Seq<u8>)
    ensures
        !path_lt(a, a),
{
    lemma_bytes_lt_irreflexive(a);
}

/// Path order is transitive.
pub proof fn lemma_path_lt_transitive(a: Seq<u8>, b: Seq<u8>, c: Seq<u8>)
    requires
        path_lt(a, b),
        path_lt(b, c),
    ensures
        path_lt(a, c),
{
    lemma_bytes_lt_transitive(a, b, c);
}

/// Two different paths are ordered one way or the other.
pub proof fn lemma_path_lt_total(a: Seq<u8>, b: Seq<u8>)
    requires
        a != b,
    ensures
        path_lt(a, b) || path_lt(b, a),
{
    lemma_bytes_lt_total(a, b);
}

/// No path is both below and above another.
pub proof fn lemma_path_lt_asymmetric(a: Seq<u8>, b: Seq<u8>)
    ensures
        !(path_lt(a, b) && path_lt(b, a)),
{
    lemma_bytes_lt_asymmetric(a, b);
}

/// Plain lexicographic order on byte strings.
pub open spec fn plain_lt(a: Seq<u8>, b: Seq<u8>) -> bool
    decreases a.len(),
{
    if a.len() == 0 {
        b.len() > 0
    } else if b.len() == 0 {
        false
    } else if a[0] != b[0] {
        a[0] < b[0]
    } else {
        plain_lt(a.drop_first(), b.drop_first())
    }
}

/// A plain name: a non-empty component without separator that is neither
/// `.` nor `..`.
pub open spec fn plain_name(c: Seq<u8>) -> bool {
    &&& c.len() > 0
    &&& !c.contains(SEPARATOR)
    &&& c != seq![0x2eu8]
    &&& c != seq![0x2eu8, 0x2eu8]
}

/// The path made of the components `cs`, joined by single separators.
pub open spec fn joined(cs: Seq<Seq<u8>>) -> Seq<u8>
    decreases cs.len(),
{
    if cs.len() == 0 {
        seq![]
    } else if cs.len() == 1 {
        cs[0]
    } else {
        cs[0] + seq![SEPARATOR] + joined(cs.drop_first())
    }
}

/// Lexicographic order on component sequences, components in plain byte
/// order: the order of `std::path::Path` on paths made of plain names.
pub open spec fn components_lt(a: Seq<Seq<u8>>, b: Seq<Seq<u8>>) -> bool
    decreases a.len(),
{
    if a.len() == 0 {
        b.len() > 0
    } else if b.len() == 0 {
        false
    } else if a[0] != b[0] {
        plain_lt(a[0], b[0])
    } else {
        components_lt(a.drop_first(), b.drop_first())
    }
}

/// Empty, or starting with the separator.
spec fn separated_tail(s: Seq<u8>) -> bool {
    s.len() == 0 || s[0] == SEPARATOR
}

/// Two components, each followed by the rest of its path, compare as the
/// components do, or, when they are equal, as the rests do.
proof fn lemma_component_then_rest(x: Seq<u8>, y: Seq<u8>, s: Seq<u8>, t: Seq<u8>)
    requires
        !x.contains(SEPARATOR),
        !y.contains(SEPARATOR),
        separated_tail(s),
        separated_tail(t),
    ensures
        bytes_lt(x + s, y + t) == if x == y {
            bytes_lt(s, t)
        } else {
            plain_lt(x, y)
        },
    decreases x.len(),
{
    if x.len() == 0 {
        assert(x + s =~= s);
        if y.len() == 0 {
            assert(y + t =~= t);
            assert(x =~= y);
        } else {
            assert((y + t)[0] == y[0]);
            assert(y.contains(y[0]));
        }
    } else if y.len() == 0 {
        assert(y + t =~= t);
        assert((x + s)[0] == x[0]);
        assert(x.contains(x[0]));
    } else {
        assert((x + s)[0] == x[0]);
        assert((y + t)[0] == y[0]);
        assert(x.contains(x[0]));
        assert(y.contains(y[0]));
        if x[0] == y[0] {
            assert((x + s).drop_first() =~= x.drop_first() + s);
            assert((y + t).drop_first() =~= y.drop_first() + t);
            assert forall|c: u8| x.drop_first().contains(c) implies x.contains(c) by {
                let i = choose|i: int| 0 <= i < x.drop_first().len() && x.drop_first()[i] == c;
                assert(x[i + 1] == c);
            };
            assert forall|c: u8| y.drop_first().contains(c) implies y.contains(c) by {
                let i = choose|i: int| 0 <= i < y.drop_first().len() && y.drop_first()[i] == c;
                assert(y[i + 1] == c);
            };
            lemma_component_then_rest(x.drop_first(), y.drop_first(), s, t);
            if x.drop_first() == y.drop_first() {
                assert(x =~= seq![x[0]] + x.drop_first());
                assert(y =~= seq![y[0]] + y.drop_first());
            } else {
                assert(x != y);
            }
        }
    }
}

/// A joined path: its first component, then the separated rest.
proof fn lemma_joined_head(cs: Seq<Seq<u8>>)
    requires
        cs.len() > 0,
    ensures
        joined(cs) == cs[0] + (if cs.len() == 1 {
            Seq::<u8>::empty()
        } else {
            seq![SEPARATOR] + joined(cs.drop_first())
        }),
{
    if cs.len() == 1 {
        assert(cs[0] + Seq::<u8>::empty() =~= cs[0]);
    } else {
        assert(cs[0] + seq![SEPARATOR] + joined(cs.drop_first()) =~= cs[0] + (seq![SEPARATOR]
            + joined(cs.drop_first())));
    }
}

/// Path order on paths made of plain names joined by single separators is
/// the order of their component sequences, component by component, each
/// byte by byte: the order of `std::path::Path` on such paths.
pub proof fn law_path_order_is_component_order(a: Seq<Seq<u8>>, b: Seq<Seq<u8>>)
    requires
        forall|i: int| 0 <= i < a.len() ==> plain_name(#[trigger] a[i]),
        forall|i: int| 0 <= i < b.len() ==> plain_name(#[trigger] b[i]),
    ensures
        path_lt(joined(a), joined(b)) == components_lt(a, b),
    decreases a.len(),
{
    if a.len() == 0 {
        if b.len() > 0 {
            assert(plain_name(b[0]));
            lemma_joined_head(b);
        }
    } else if b.len() == 0 {
        assert(plain_name(a[0]));
        lemma_joined_head(a);
    } else {
        assert(plain_name(a[0]));
        assert(plain_name(b[0]));
        lemma_joined_head(a);
        lemma_joined_head(b);
        let s = if a.len() == 1 {
            Seq::<u8>::empty()
        } else {
            seq![SEPARATOR] + joined(a.drop_first())
        };
        let t = if b.len() == 1 {
            Seq::<u8>::empty()
        } else {
            seq![SEPARATOR] + joined(b.drop_first())
        };
        lemma_component_then_rest(a[0], b[0], s, t);
        if a[0] == b[0] {
            assert forall|i: int| 0 <= i < a.drop_first().len() implies plain_name(
                #[trigger] a.drop_first()[i],
            ) by {
                assert(plain_name(a[i + 1]));
            };
            assert forall|i: int| 0 <= i < b.drop_first().len() implies plain_name(
                #[trigger] b.drop_first()[i],
            ) by {
                assert(plain_name(b[i + 1]));
            };
            law_path_order_is_component_order(a.drop_first(), b.drop_first());
            if a.len() > 1 && b.len() > 1 {
                assert(s.drop_first() =~= joined(a.drop_first()));
                assert(t.drop_first() =~= joined(b.drop_first()));
            } else if a.len() > 1 {
                assert(a.drop_first().len() > 0);
            } else if b.len() > 1 {
                assert(b.drop_first().len() > 0);
            }
        }
    }
}

/// Two different byte strings are ordered one way or the other in plain
/// order.
proof fn lemma_plain_lt_total(a: Seq<u8>, b: Seq<u8>)
    requires
        a != b,
    ensures
        plain_lt(a, b) || plain_lt(b, a),
    decreases a.len(),
{
    if a.len() > 0 && b.len() > 0 && a[0] == b[0] {
        if a.drop_first() == b.drop_first() {
            assert(a =~= seq![a[0]] + a.drop_first());
            assert(b =~= seq![b[0]] + b.drop_first());
        }
        lemma_plain_lt_total(a.drop_first(), b.drop_first());
    } else if a.len() == 0 && b.len() == 0 {
        assert(a =~= b);
    }
}

/// Two different component sequences are ordered one way or the other.
proof fn lemma_components_lt_total(a: Seq<Seq<u8>>, b: Seq<Seq<u8>>)
    requires
        a != b,
    ensures
        components_lt(a, b) || components_lt(b, a),
    decreases a.len(),
{
    if a.len() > 0 && b.len() > 0 {
        if a[0] == b[0] {
            if a.drop_first() == b.drop_first() {
                assert(a =~= seq![a[0]] + a.drop_first());
                assert(b =~= seq![b[0]] + b.drop_first());
            }
            lemma_components_lt_total(a.drop_first(), b.drop_first());
        } else {
            lemma_plain_lt_total(a[0], b[0]);
        }
    } else if a.len() == 0 && b.len() == 0 {
        assert(a =~= b);
    }
}

/// Paths made of plain names joined by single separators are equal exactly
/// when their component sequences are: equality of paths as bytes is
/// equality of `std::path::Path` values on such paths.
pub proof fn law_path_equality_is_component_equality(a: Seq<Seq<u8>>, b: Seq<Seq<u8>>)
    requires
        forall|i: int| 0 <= i < a.len() ==> plain_name(#[trigger] a[i]),
        forall|i: int| 0 <= i < b.len() ==> plain_name(#[trigger] b[i]),
    ensures
        (joined(a) == joined(b)) == (a == b),
{
    if a != b {
        lemma_components_lt_total(a, b);
        law_path_order_is_component_order(a, b);
        law_path_order_is_component_order(b, a);
        lemma_path_lt_irreflexive(joined(a));
    }
}

fn byte_rank_of(b: u8) -> (r: u16)
    ensures
        r as int == byte_rank(b),
{
    if b == SEPARATOR {
        0
    } else {
        b as u16 + 1
    }
}

/// Returns whether `a` comes before `b` in path order.
pub fn path_less(a: &[u8], b: &[u8]) -> (r: bool)
    ensures
        r == path_lt(a@, b@),
{
    let x = a;
    let y = b;
    let mut i: usize = 0;
    assert(x@.skip(0) =~= x@);
    assert(y@.skip(0) =~= y@);
    while i < x.len() && i < y.len()
        invariant
            x@ == a@,
            y@ == b@,
            i <= x@.len(),
            i <= y@.len(),
            bytes_lt(x@, y@) == bytes_lt(x@.skip(i as int), y@.skip(i as int)),
        decreases x@.len() - i,
    {
        if x[i] != y[i] {
            proof {
                assert(x@.skip(i as int)[0] == x@[i as int]);
                assert(y@.skip(i as int)[0] == y@[i as int]);
            }
            return byte_rank_of(x[i]) < byte_rank_of(y[i]);
        }
        assert(x@.skip(i as int).drop_first() =~= x@.skip(i + 1));
        assert(y@.skip(i as int).drop_first() =~= y@.skip(i + 1));
        i = i + 1;
    }
    x.len() == i && i < y.len()
}

} // verus!
