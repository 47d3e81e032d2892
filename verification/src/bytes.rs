//! Byte strings: the fields between delimiters, the place of a byte, the end of a line.

use vstd::prelude::*;

verus! {

/// The fields of `s` between occurrences of `delim`, in order. There is
/// always at least one field, and a field may be empty.
pub open spec fn split(s: Seq<u8>, delim: u8) -> Seq<Seq<u8>>
    decreases s.len(),
{
    if s.len() == 0 {
        seq![Seq::<u8>::empty()]
    } else {
        let before = split(s.drop_last(), delim);
        if s.last() == delim {
            before.push(Seq::<u8>::empty())
        } else {
            before.update(before.len() - 1, before.last().push(s.last()))
        }
    }
}

/// Whether `b` occurs in `s`.
pub open spec fn holds(s: Seq<u8>, b: u8) -> bool {
    exists|i: int| 0 <= i < s.len() && s[i] == b
}

/// The fields joined again, with `delim` between neighbours.
pub open spec fn join(fields: Seq<Seq<u8>>, delim: u8) -> Seq<u8>
    decreases fields.len(),
{
    if fields.len() == 0 {
        Seq::<u8>::empty()
    } else if fields.len() == 1 {
        fields[0]
    } else {
        join(fields.drop_last(), delim).push(delim) + fields.last()
    }
}

/// Splitting yields at least one field.
pub proof fn lemma_split_len(s: Seq<u8>, delim: u8)
    ensures
        split(s, delim).len() >= 1,
    decreases s.len(),
{
    if s.len() > 0 {
        lemma_split_len(s.drop_last(), delim);
    }
}

/// No field of a split holds the delimiter, and the fields joined by the
/// delimiter give the input back: the two facts that pin `split` down.
pub proof fn lemma_join_of_split(s: Seq<u8>, delim: u8)
    ensures
        forall|k: int| 0 <= k < split(s, delim).len() ==> !holds(#[trigger] split(s, delim)[k], delim),
        join(split(s, delim), delim) == s,
    decreases s.len(),
{
    lemma_split_len(s, delim);
    if s.len() == 0 {
        assert(join(split(s, delim), delim) =~= s);
    } else {
        let before = split(s.drop_last(), delim);
        lemma_split_len(s.drop_last(), delim);
        lemma_join_of_split(s.drop_last(), delim);
        let now = split(s, delim);
        if s.last() == delim {
            assert(now.drop_last() =~= before);
            assert(join(now, delim) =~= s);
        } else {
            let grown = before.last().push(s.last());
            assert forall|k: int| 0 <= k < now.len() implies !holds(#[trigger] now[k], delim) by {
                if k == now.len() - 1 {
                    assert(!holds(before[k], delim));
                    if holds(grown, delim) {
                        let i = choose|i: int| 0 <= i < grown.len() && grown[i] == delim;
                        assert(before[k][i] == delim);
                    }
                } else {
                    assert(now[k] == before[k]);
                }
            }
            if before.len() == 1 {
                assert(join(before, delim) == before[0]);
                assert(join(now, delim) =~= s);
            } else {
                assert(now.drop_last() =~= before.drop_last());
                assert(s =~= s.drop_last().push(s.last()));
                assert(join(now, delim) =~= s);
            }
        }
    }
}

/// A string without the delimiter is its own single field.
pub proof fn lemma_split_plain(s: Seq<u8>, delim: u8)
    requires
        !holds(s, delim),
    ensures
        split(s, delim) == seq![s],
    decreases s.len(),
{
    if s.len() == 0 {
        assert(s =~= Seq::<u8>::empty());
    } else {
        let front = s.drop_last();
        assert(!holds(front, delim)) by {
            if holds(front, delim) {
                let i = choose|i: int| 0 <= i < front.len() && front[i] == delim;
                assert(s[i] == delim);
            }
        }
        lemma_split_plain(front, delim);
        assert(s.last() != delim) by {
            if s.last() == delim {
                assert(s[s.len() - 1] == delim);
            }
        }
        assert(front.push(s.last()) =~= s);
        assert(split(s, delim) =~= seq![s]);
    }
}

/// The fields of two strings with a delimiter between them are the fields
/// of the first, then those of the second.
pub proof fn lemma_split_concat(x: Seq<u8>, y: Seq<u8>, delim: u8)
    ensures
        split(x.push(delim) + y, delim) == split(x, delim) + split(y, delim),
    decreases y.len(),
{
    let whole = x.push(delim) + y;
    lemma_split_len(x, delim);
    if y.len() == 0 {
        assert(whole =~= x.push(delim));
        assert(whole.drop_last() =~= x);
        assert(split(whole, delim) =~= split(x, delim) + split(y, delim));
    } else {
        let front = y.drop_last();
        lemma_split_concat(x, front, delim);
        lemma_split_len(front, delim);
        assert(whole.drop_last() =~= x.push(delim) + front);
        assert(whole.last() == y.last());
        assert(split(whole, delim) =~= split(x, delim) + split(y, delim));
    }
}

/// Fields that hold no delimiter come back from splitting what they were
/// joined to.
pub proof fn lemma_split_of_join(fields: Seq<Seq<u8>>, delim: u8)
    requires
        fields.len() >= 1,
        forall|k: int| 0 <= k < fields.len() ==> !holds(#[trigger] fields[k], delim),
    ensures
        split(join(fields, delim), delim) == fields,
    decreases fields.len(),
{
    if fields.len() == 1 {
        lemma_split_plain(fields[0], delim);
        assert(seq![fields[0]] =~= fields);
    } else {
        let front = fields.drop_last();
        assert forall|k: int| 0 <= k < front.len() implies !holds(#[trigger] front[k], delim) by {
            assert(front[k] == fields[k]);
        }
        lemma_split_of_join(front, delim);
        lemma_split_concat(join(front, delim), fields.last(), delim);
        lemma_split_plain(fields.last(), delim);
        assert(front + seq![fields.last()] =~= fields);
    }
}

/// What holds of the delimiter and of every byte of every field holds of
/// every byte of the joined string.
pub proof fn lemma_join_keeps(fields: Seq<Seq<u8>>, delim: u8, allowed: spec_fn(u8) -> bool)
    requires
        allowed(delim),
        forall|k: int, i: int|
            0 <= k < fields.len() && 0 <= i < fields[k].len() ==> allowed(#[trigger] fields[k][i]),
    ensures
        forall|i: int| 0 <= i < join(fields, delim).len() ==> allowed(#[trigger] join(fields, delim)[i]),
    decreases fields.len(),
{
    if fields.len() >= 2 {
        let front = fields.drop_last();
        assert forall|k: int, i: int|
            0 <= k < front.len() && 0 <= i < front[k].len() implies allowed(
            #[trigger] front[k][i],
        ) by {
            assert(front[k][i] == fields[k][i]);
        }
        lemma_join_keeps(front, delim, allowed);
        let joined = join(fields, delim);
        let before = join(front, delim);
        assert forall|i: int| 0 <= i < joined.len() implies allowed(#[trigger] joined[i]) by {
            if i < before.len() {
                assert(joined[i] == before[i]);
            } else if i > before.len() {
                assert(joined[i] == fields[fields.len() - 1][i - before.len() - 1]);
            }
        }
    } else if fields.len() == 1 {
        assert forall|i: int| 0 <= i < fields[0].len() implies allowed(#[trigger] fields[0][i]) by {}
    }
}

/// What a vector of byte strings holds.
pub open spec fn views(fields: Seq<Vec<u8>>) -> Seq<Seq<u8>> {
    fields.map_values(|f: Vec<u8>| f@)
}

/// Cuts `s` into its fields between occurrences of `delim`.
pub fn split_fields(s: &[u8], delim: u8) -> (fields: Vec<Vec<u8>>)
    ensures
        views(fields@) == split(s@, delim),
{
    let mut done: Vec<Vec<u8>> = Vec::new();
    let mut current: Vec<u8> = Vec::new();
    let mut i: usize = 0;
    assert(s@.take(0) =~= Seq::<u8>::empty());
    assert(views(done@).push(current@) =~= split(s@.take(0), delim));
    while i < s.len()
        invariant
            i <= s.len(),
            views(done@).push(current@) == split(s@.take(i as int), delim),
        decreases s.len() - i,
    {
        let b = s[i];
        proof {
            assert(s@.take(i + 1).drop_last() =~= s@.take(i as int));
            assert(s@.take(i + 1).last() == b);
        }
        let ghost before = views(done@).push(current@);
        if b == delim {
            done.push(current);
            current = Vec::new();
            assert(views(done@) =~= before);
        } else {
            current.push(b);
            assert(views(done@).push(current@) =~= before.update(
                before.len() - 1,
                before.last().push(b),
            ));
        }
        i += 1;
    }
    assert(s@.take(s.len() as int) =~= s@);
    let ghost before = views(done@).push(current@);
    done.push(current);
    assert(views(done@) =~= before);
    done
}

/// How many bytes stand in front of the first `b` of `s`: all of them when
/// `s` holds none.
pub open spec fn before(s: Seq<u8>, b: u8) -> int
    decreases s.len(),
{
    if s.len() == 0 || s[0] == b {
        0
    } else {
        1 + before(s.drop_first(), b)
    }
}

/// Where no `b` stands in front of `k`, and one stands at `k` or the string
/// ends there, `k` bytes stand in front of the first `b`.
pub proof fn lemma_before_at(s: Seq<u8>, b: u8, k: int)
    requires
        0 <= k <= s.len(),
        forall|i: int| 0 <= i < k ==> #[trigger] s[i] != b,
        k < s.len() ==> s[k] == b,
    ensures
        before(s, b) == k,
    decreases s.len(),
{
    if k > 0 {
        let rest = s.drop_first();
        assert(s[0] != b);
        assert forall|i: int| 0 <= i < k - 1 implies #[trigger] rest[i] != b by {
            assert(rest[i] == s[i + 1]);
        }
        lemma_before_at(rest, b, k - 1);
    }
}

/// Finds the first `b` of `s` at or behind `from`; the length of `s` if
/// there is none.
pub fn find(s: &[u8], from: usize, b: u8) -> (at: usize)
    requires
        from <= s.len(),
    ensures
        at == from + before(s@.skip(from as int), b),
        from <= at <= s.len(),
{
    let mut at: usize = from;
    while at < s.len() && s[at] != b
        invariant
            from <= at <= s.len(),
            from + before(s@.skip(from as int), b) == at + before(s@.skip(at as int), b),
        decreases s.len() - at,
    {
        assert(s@.skip(at as int).drop_first() =~= s@.skip(at + 1));
        at += 1;
    }
    at
}

/// `s` without the end of a line at its end: without a last LF, and
/// without a CR that is then last.
pub open spec fn without_line_end(s: Seq<u8>) -> Seq<u8> {
    let cut = if s.len() > 0 && s.last() == 0x0au8 {
        s.drop_last()
    } else {
        s
    };
    if cut.len() > 0 && cut.last() == 0x0du8 {
        cut.drop_last()
    } else {
        cut
    }
}

/// Strips the end of a line from the end of `s`.
pub fn strip_line_end(s: &[u8]) -> (stripped: &[u8])
    ensures
        stripped@ == without_line_end(s@),
{
    let mut end: usize = s.len();
    if end > 0 && s[end - 1] == 0x0a {
        end -= 1;
    }
    assert(s@.subrange(0, end as int) =~= if s@.len() > 0 && s@.last() == 0x0au8 {
        s@.drop_last()
    } else {
        s@
    });
    if end > 0 && s[end - 1] == 0x0d {
        end -= 1;
    }
    let stripped = vstd::slice::slice_subrange(s, 0, end);
    assert(stripped@ =~= without_line_end(s@));
    stripped
}

} // verus!
