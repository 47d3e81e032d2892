//! The names in the data of a directory listing.

use vstd::prelude::*;
use crate::bytes::{split, split_fields, views};
use crate::command::LF;
use crate::text::{decode, text_of};

verus! {

/// `fields` without the empty fields at its end.
pub open spec fn without_empty_tail(fields: Seq<Seq<u8>>) -> Seq<Seq<u8>>
    decreases fields.len(),
{
    if fields.len() > 0 && fields.last().len() == 0 {
        without_empty_tail(fields.drop_last())
    } else {
        fields
    }
}

/// The entries of a listing: its lines in the order sent, without the empty
/// ones at the end.
pub open spec fn entries_of(data: Seq<u8>) -> Seq<Seq<u8>> {
    without_empty_tail(split(data, LF))
}

/// The names of a listing: its entries as text.
pub open spec fn names_of(data: Seq<u8>) -> Seq<Seq<char>> {
    entries_of(data).map_values(|entry: Seq<u8>| text_of(entry))
}

/// What a vector of strings holds.
pub open spec fn texts(names: Seq<String>) -> Seq<Seq<char>> {
    names.map_values(|name: String| name@)
}

/// A listing without data has no entries.
pub proof fn lemma_no_data_no_entries()
    ensures
        entries_of(Seq::<u8>::empty()) == Seq::<Seq<u8>>::empty(),
        names_of(Seq::<u8>::empty()) == Seq::<Seq<char>>::empty(),
{
    let fields = split(Seq::<u8>::empty(), LF);
    assert(fields.drop_last() =~= Seq::<Seq<u8>>::empty());
    assert(without_empty_tail(fields) == without_empty_tail(fields.drop_last()));
    assert(entries_of(Seq::<u8>::empty()) =~= Seq::<Seq<u8>>::empty());
    assert(names_of(Seq::<u8>::empty()) =~= Seq::<Seq<char>>::empty());
}

/// Reads the names out of the data of a listing.
pub fn list_names(data: &[u8]) -> (names: Vec<String>)
    ensures
        texts(names@) == names_of(data@),
{
    let fields = split_fields(data, LF);
    let ghost all = split(data@, LF);
    assert(fields@.len() == views(fields@).len());
    let mut keep: usize = fields.len();
    assert(all.take(keep as int) =~= all);
    while keep > 0 && fields[keep - 1].len() == 0
        invariant
            keep <= fields.len(),
            all == views(fields@),
            without_empty_tail(all) == without_empty_tail(all.take(keep as int)),
        decreases keep,
    {
        assert(all.take(keep as int).last() == fields@[keep - 1]@);
        assert(all.take(keep as int).drop_last() =~= all.take(keep - 1));
        keep -= 1;
    }
    proof {
        if keep > 0 {
            assert(all.take(keep as int).last() == fields@[keep - 1]@);
        }
    }
    let ghost entries = all.take(keep as int);
    assert(entries == entries_of(data@));
    let mut names: Vec<String> = Vec::new();
    let mut k: usize = 0;
    while k < keep
        invariant
            k <= keep <= fields.len(),
            all == views(fields@),
            entries == all.take(keep as int),
            names.len() == k,
            forall|j: int| 0 <= j < k ==> (#[trigger] names@[j])@ == text_of(entries[j]),
        decreases keep - k,
    {
        assert(entries[k as int] == fields@[k as int]@);
        names.push(decode(fields[k].as_slice()));
        k += 1;
    }
    assert(texts(names@) =~= names_of(data@));
    names
}

} // verus!
