//! Device extension lists as the VR runtime reports them: names separated by
//! spaces, the whole list ended by a NUL byte.
use vstd::prelude::*;

verus! {

pub open spec fn is_separator(b: u8) -> bool {
    b == 0 || b == 32
}

/// The names, each followed by one NUL byte, one after the other.
pub open spec fn nul_terminated(names: Seq<Seq<u8>>) -> Seq<u8>
    decreases names.len(),
{
    if names.len() == 0 {
        Seq::empty()
    } else {
        nul_terminated(names.drop_last()) + names.last().push(0)
    }
}

pub proof fn lemma_nul_terminated_len(names: Seq<Seq<u8>>)
    ensures
        names.len() > 0 ==> nul_terminated(names).len() > 0 && nul_terminated(names).last() == 0,
        names.len() == 0 ==> nul_terminated(names).len() == 0,
        nul_terminated(names).len() >= names.len(),
    decreases names.len(),
{
    if names.len() > 0 {
        lemma_nul_terminated_len(names.drop_last());
    }
}

/// A list of names without NUL bytes is determined by its NUL-terminated
/// encoding: two such lists with the same encoding are equal.
pub proof fn lemma_nul_terminated_unique(a: Seq<Seq<u8>>, b: Seq<Seq<u8>>)
    requires
        nul_terminated(a) == nul_terminated(b),
        forall|i: int, j: int| 0 <= i < a.len() && 0 <= j < a[i].len() ==> #[trigger] a[i][j] != 0,
        forall|i: int, j: int| 0 <= i < b.len() && 0 <= j < b[i].len() ==> #[trigger] b[i][j] != 0,
    ensures
        a == b,
    decreases a.len() + b.len(),
{
    lemma_nul_terminated_len(a);
    lemma_nul_terminated_len(b);
    if a.len() == 0 || b.len() == 0 {
        assert(a =~= b);
    } else {
        let t = nul_terminated(a);
        let (pa, la) = (a.drop_last(), a.last());
        let (pb, lb) = (b.drop_last(), b.last());
        let (ta, tb) = (nul_terminated(pa), nul_terminated(pb));
        assert(t == ta + la.push(0));
        assert(t == tb + lb.push(0));
        assert(la == a[a.len() - 1]);
        assert(lb == b[b.len() - 1]);
        lemma_nul_terminated_len(pa);
        lemma_nul_terminated_len(pb);
        if la.len() < lb.len() {
            let k = t.len() - 2 - la.len();
            if pa.len() == 0 {
                assert(t.len() == la.len() + 1);
                assert(false);
            } else {
                assert(t[k] == ta[ta.len() - 1]);
                assert(t[k] == lb[k - tb.len()]);
                assert(false);
            }
        } else if lb.len() < la.len() {
            let k = t.len() - 2 - lb.len();
            if pb.len() == 0 {
                assert(t.len() == lb.len() + 1);
                assert(false);
            } else {
                assert(t[k] == tb[tb.len() - 1]);
                assert(t[k] == la[k - ta.len()]);
                assert(false);
            }
        }
        assert(ta.len() == tb.len());
        assert(ta =~= t.subrange(0, ta.len() as int));
        assert(tb =~= t.subrange(0, tb.len() as int));
        assert(la =~= t.subrange(ta.len() as int, t.len() - 1));
        assert(lb =~= t.subrange(tb.len() as int, t.len() - 1));
        assert forall|i: int, j: int| 0 <= i < pa.len() && 0 <= j < pa[i].len() implies #[trigger] pa[i][j]
            != 0 by {
            assert(pa[i] == a[i]);
        }
        assert forall|i: int, j: int| 0 <= i < pb.len() && 0 <= j < pb[i].len() implies #[trigger] pb[i][j]
            != 0 by {
            assert(pb[i] == b[i]);
        }
        lemma_nul_terminated_unique(pa, pb);
        assert(a =~= pa.push(la));
        assert(b =~= pb.push(lb));
    }
}

/// The list with every space turned into a NUL byte.
pub open spec fn spaces_to_nul(buf: Seq<u8>) -> Seq<u8> {
    buf.map_values(|b: u8| if b == 32 { 0u8 } else { b })
}

/// The list with spaces turned into NUL bytes, and a final NUL added when the
/// list does not already end with a separator.
pub open spec fn normalized_list(buf: Seq<u8>) -> Seq<u8> {
    if buf.len() > 0 && !is_separator(buf.last()) {
        spaces_to_nul(buf).push(0)
    } else {
        spaces_to_nul(buf)
    }
}

pub open spec fn names_view(names: Seq<Vec<u8>>) -> Seq<Seq<u8>> {
    names.map_values(|n: Vec<u8>| n@)
}

/// Splits an extension list at every space and NUL byte. Each separator ends
/// one name, so two separators in a row give an empty name; trailing bytes
/// after the last separator form a last name.
pub fn split_extension_list(buf: &[u8]) -> (r: Vec<Vec<u8>>)
    ensures
        nul_terminated(names_view(r@)) == normalized_list(buf@),
        forall|i: int, j: int|
            0 <= i < r@.len() && 0 <= j < r@[i]@.len() ==> !is_separator(#[trigger] r@[i]@[j]),
{
    let mut names: Vec<Vec<u8>> = Vec::new();
    let mut current: Vec<u8> = Vec::new();
    let mut i: usize = 0;
    while i < buf.len()
        invariant
            i <= buf@.len(),
            nul_terminated(names_view(names@)) + current@ == spaces_to_nul(buf@.subrange(0, i as int)),
            forall|k: int, j: int|
                0 <= k < names@.len() && 0 <= j < names@[k]@.len() ==> !is_separator(
                    #[trigger] names@[k]@[j],
                ),
            forall|j: int| 0 <= j < current@.len() ==> !is_separator(#[trigger] current@[j]),
            current@.len() == 0 ==> i == 0 || is_separator(buf@[i - 1]),
            current@.len() > 0 ==> i > 0 && !is_separator(buf@[i - 1]),
        decreases buf@.len() - i,
    {
        let b = buf[i];
        let ghost prefix = buf@.subrange(0, i as int);
        assert(buf@.subrange(0, i + 1) == prefix.push(b));
        assert(spaces_to_nul(prefix.push(b)) =~= spaces_to_nul(prefix).push(
            if b == 32 { 0u8 } else { b },
        ));
        if b == 0 || b == 32 {
            let ghost old_names = names@;
            let ghost piece = current@;
            names.push(current);
            current = Vec::new();
            assert(names_view(names@).drop_last() =~= names_view(old_names));
            assert(names_view(names@).last() == piece);
            assert(nul_terminated(names_view(names@)) == nul_terminated(names_view(old_names))
                + piece.push(0));
            assert(nul_terminated(names_view(names@)) + current@ =~= spaces_to_nul(
                buf@.subrange(0, i + 1),
            ));
        } else {
            current.push(b);
            assert(nul_terminated(names_view(names@)) + current@ =~= spaces_to_nul(
                buf@.subrange(0, i + 1),
            ));
        }
        i = i + 1;
    }
    assert(buf@.subrange(0, i as int) =~= buf@);
    if current.len() > 0 {
        let ghost old_names = names@;
        let ghost piece = current@;
        names.push(current);
        assert(names_view(names@).drop_last() =~= names_view(old_names));
        assert(names_view(names@).last() == piece);
        assert(nul_terminated(names_view(names@)) =~= normalized_list(buf@));
    } else {
        assert(nul_terminated(names_view(names@)) =~= normalized_list(buf@));
    }
    names
}

} // verus!
