//! What is read from the environment when the bot starts.

use crate::text::{parse_u64, parse_u64_spec, to_chars, trim, trimmed};
use vstd::prelude::*;

verus! {

/// Where the database lies unless the environment says otherwise.
pub const DEFAULT_DATABASE_URL: &'static str = "sqlite://fumo.db";

/// The prefix that commands are written with.
pub const PREFIX: &'static str = "?";

/// Why the list of owners could not be read.
#[derive(Clone, Copy, PartialEq, Eq, Structural, Debug)]
pub struct OwnerIdError {
    /// The place of the item, counted from zero, that is no id.
    pub item: usize,
}

/// The items of a list that is separated by commas. There is always one
/// more item than there are commas.
pub open spec fn items(text: Seq<char>) -> Seq<Seq<char>>
    decreases text.len(),
{
    if text.len() == 0 {
        seq![Seq::empty()]
    } else {
        let before = items(text.drop_last());
        if text.last() == ',' {
            before.push(Seq::empty())
        } else {
            before.drop_last().push(before.last().push(text.last()))
        }
    }
}

/// The items, each cut of the blanks around it.
pub open spec fn trimmed_items(pieces: Seq<Seq<char>>) -> Seq<Seq<char>> {
    Seq::new(pieces.len(), |i: int| trimmed(pieces[i]))
}

/// The ids among the first `count` items: empty items are passed over, and
/// each of the others has to be an id. The first that is none is named.
pub open spec fn owner_ids_among(pieces: Seq<Seq<char>>, count: nat) -> Result<Seq<u64>, OwnerIdError>
    decreases count,
{
    if count == 0 {
        Ok(Seq::empty())
    } else {
        match owner_ids_among(pieces, (count - 1) as nat) {
            Err(error) => Err(error),
            Ok(ids) => {
                let piece = pieces[count - 1];
                if piece.len() == 0 {
                    Ok(ids)
                } else {
                    match parse_u64_spec(piece) {
                        Some(id) => Ok(ids.push(id)),
                        None => Err(OwnerIdError { item: (count - 1) as usize }),
                    }
                }
            },
        }
    }
}

/// The prefixes that commands can be written with, the main one first.
pub fn literal_prefixes() -> (prefixes: Vec<String>)
    ensures
        prefixes@.len() == 4,
        prefixes@[0]@ == PREFIX@,
        prefixes@[1]@ == "-"@,
        prefixes@[2]@ == "f!"@,
        prefixes@[3]@ == "."@,
{
    let mut prefixes: Vec<String> = Vec::new();
    prefixes.push(String::from_str(PREFIX));
    prefixes.push(String::from_str("-"));
    prefixes.push(String::from_str("f!"));
    prefixes.push(String::from_str("."));
    prefixes
}

/// Splits a text at its commas.
pub fn split_commas(text: &str) -> (pieces: Vec<String>)
    ensures
        crate::text::texts(pieces@) == items(text@),
{
    let chars = to_chars(text);
    let mut pieces: Vec<String> = Vec::new();
    let mut piece = String::new();
    let mut i: usize = 0;
    proof {
        assert(chars@.take(0) =~= Seq::<char>::empty());
        assert(crate::text::texts(pieces@).push(piece@) =~= items(chars@.take(0)));
    }
    while i < chars.len()
        invariant
            i <= chars.len(),
            crate::text::texts(pieces@).push(piece@) == items(chars@.take(i as int)),
        decreases chars.len() - i,
    {
        let ghost before = items(chars@.take(i as int));
        let ghost done = crate::text::texts(pieces@);
        proof {
            assert(chars@.take(i + 1).drop_last() =~= chars@.take(i as int));
            assert(before.last() == piece@);
            assert(before.drop_last() =~= done);
        }
        if chars[i] == ',' {
            pieces.push(piece);
            piece = String::new();
            proof {
                assert(crate::text::texts(pieces@) =~= before);
            }
        } else {
            crate::text::push_char(&mut piece, chars[i]);
        }
        i += 1;
    }
    proof {
        assert(chars@.take(i as int) =~= chars@);
    }
    let ghost done = crate::text::texts(pieces@);
    let ghost last = piece@;
    pieces.push(piece);
    assert(crate::text::texts(pieces@) =~= done.push(last));
    pieces
}

/// Reads the list of the owners' ids: ids separated by commas, with blanks
/// allowed around each and empty items passed over.
pub fn parse_owner_ids(value: &str) -> (owners: Result<Vec<u64>, OwnerIdError>)
    ensures
        match owner_ids_among(trimmed_items(items(value@)), items(value@).len()) {
            Ok(ids) => owners is Ok && owners->Ok_0@ == ids,
            Err(error) => owners == Err::<Vec<u64>, OwnerIdError>(error),
        },
{
    let pieces = split_commas(value);
    let mut cut: Vec<String> = Vec::new();
    let mut i: usize = 0;
    while i < pieces.len()
        invariant
            i <= pieces.len(),
            cut@.len() == i,
            forall|j: int| 0 <= j < i ==> (#[trigger] cut@[j])@ == trimmed(pieces@[j]@),
        decreases pieces.len() - i,
    {
        cut.push(trim(pieces[i].as_str()));
        i += 1;
    }
    assert(crate::text::texts(cut@) =~= trimmed_items(items(value@)));
    read_owner_ids(&cut)
}

/// Reads the owners' ids from the items of a list, each taken as it stands:
/// empty items are passed over, and each of the others has to be an id.
pub fn read_owner_ids(pieces: &Vec<String>) -> (owners: Result<Vec<u64>, OwnerIdError>)
    ensures
        match owner_ids_among(crate::text::texts(pieces@), pieces@.len()) {
            Ok(ids) => owners is Ok && owners->Ok_0@ == ids,
            Err(error) => owners == Err::<Vec<u64>, OwnerIdError>(error),
        },
{
    let mut ids: Vec<u64> = Vec::new();
    let mut i: usize = 0;
    let ghost all = crate::text::texts(pieces@);
    while i < pieces.len()
        invariant
            i <= pieces.len(),
            all == crate::text::texts(pieces@),
            owner_ids_among(all, i as nat) == Ok::<Seq<u64>, OwnerIdError>(ids@),
        decreases pieces.len() - i,
    {
        let chars = to_chars(pieces[i].as_str());
        if chars.len() > 0 {
            match parse_u64(&chars) {
                Some(id) => {
                    ids.push(id);
                },
                None => {
                    proof {
                        assert(owner_ids_among(all, (i + 1) as nat) == Err::<
                            Seq<u64>,
                            OwnerIdError,
                        >(OwnerIdError { item: i }));
                        lemma_error_stays(all, (i + 1) as nat, all.len());
                    }
                    return Err(OwnerIdError { item: i });
                },
            }
        }
        i += 1;
    }
    Ok(ids)
}

/// Once an item is no id, the items after it change nothing.
pub proof fn lemma_error_stays(pieces: Seq<Seq<char>>, failed: nat, count: nat)
    requires
        failed <= count,
        owner_ids_among(pieces, failed) is Err,
    ensures
        owner_ids_among(pieces, count) == owner_ids_among(pieces, failed),
    decreases count,
{
    if failed < count {
        lemma_error_stays(pieces, failed, (count - 1) as nat);
    }
}

} // verus!
