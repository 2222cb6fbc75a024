//! Listings: the factors of one user, read record by record.

use crate::error::{Field, ParseError};
use crate::factor::{Factor, FactorView};
use crate::profile::view_outcome;
use crate::text::same_text;
use crate::value::{view_items, Value, ValueView};
use vstd::prelude::*;

verus! {

/// Whether an outcome is a factor with the identifier `id`.
pub open spec fn has_id(outcome: Result<FactorView, ParseError>, id: Seq<char>) -> bool {
    outcome matches Ok(factor) && factor.id() == id
}

/// Whether a record before position `before` reads as a factor with the
/// identifier `id`.
pub open spec fn id_taken(records: Seq<ValueView>, before: int, id: Seq<char>) -> bool {
    exists|j: int| 0 <= j < before && #[trigger] has_id(FactorView::parsed(records[j]), id)
}

/// What the record at position `i` of a listing gives: what reading it alone
/// gives, unless it reads as a factor whose identifier an earlier record of
/// the listing has taken. Then its `id` is the field at fault.
pub open spec fn listed(records: Seq<ValueView>, i: int) -> Result<FactorView, ParseError> {
    match FactorView::parsed(records[i]) {
        Ok(factor) => if id_taken(records, i, factor.id()) {
            Err(ParseError::MalformedProfile { field: Field::Id })
        } else {
            Ok(factor)
        },
        Err(e) => Err(e),
    }
}

/// An identifier that is taken belongs to a factor that the listing holds:
/// the first record that reads with it is accepted.
pub proof fn lemma_taken_id_is_listed(records: Seq<ValueView>, j: int, id: Seq<char>)
    requires
        0 <= j < records.len(),
        has_id(FactorView::parsed(records[j]), id),
    ensures
        exists|k: int| 0 <= k <= j && #[trigger] has_id(listed(records, k), id),
    decreases j,
{
    if id_taken(records, j, id) {
        let earlier = choose|e: int|
            0 <= e < j && #[trigger] has_id(FactorView::parsed(records[e]), id);
        lemma_taken_id_is_listed(records, earlier, id);
        let k = choose|k: int| 0 <= k <= earlier && #[trigger] has_id(listed(records, k), id);
        assert(0 <= k <= j && has_id(listed(records, k), id));
    } else {
        assert(has_id(listed(records, j), id));
    }
}

/// No identifier occurs twice among the factors of a listing.
pub proof fn lemma_listed_ids_distinct(records: Seq<ValueView>, i: int, k: int)
    requires
        0 <= i < k < records.len(),
        listed(records, i) is Ok,
        listed(records, k) is Ok,
    ensures
        listed(records, i)->Ok_0.id() != listed(records, k)->Ok_0.id(),
{
    let id = listed(records, k)->Ok_0.id();
    if listed(records, i)->Ok_0.id() == id {
        assert(has_id(FactorView::parsed(records[i]), id));
        assert(id_taken(records, k, id));
    }
}

/// Whether a factor of the listing so far has the identifier `id`.
fn id_in_use(listing: &Vec<Result<Factor, ParseError>>, id: &str) -> (used: bool)
    ensures
        used == exists|j: int|
            0 <= j < listing@.len() && #[trigger] has_id(view_outcome(listing@[j]), id@),
{
    let mut j: usize = 0;
    while j < listing.len()
        invariant
            j <= listing@.len(),
            forall|e: int| 0 <= e < j ==> !#[trigger] has_id(view_outcome(listing@[e]), id@),
        decreases listing@.len() - j,
    {
        match &listing[j] {
            Ok(factor) => {
                if same_text(factor.id(), id) {
                    assert(has_id(view_outcome(listing@[j as int]), id@));
                    return true;
                }
            },
            Err(_) => {},
        }
        j += 1;
    }
    false
}

/// Reads a listing, record by record.
///
/// The result has one entry for each record, in the same order: the factor,
/// or the reason for which the record was rejected. A rejected record does
/// not stop the others from being read. Within the listing no identifier is
/// used twice: a record that reads as a factor with an identifier that an
/// earlier one has taken is rejected, with `id` as the field at fault.
pub fn parse_listing(records: &Vec<Value>) -> (listing: Vec<Result<Factor, ParseError>>)
    ensures
        listing@.len() == records@.len(),
        forall|i: int|
            0 <= i < records@.len() ==> view_outcome(#[trigger] listing@[i]) == listed(
                view_items(*records),
                i,
            ),
        forall|i: int|
            0 <= i < listing@.len() && (#[trigger] listing@[i]) is Ok
                ==> listing@[i]->Ok_0@.well_formed(),
        forall|i: int, k: int|
            0 <= i < k < listing@.len() && (#[trigger] listing@[i]) is Ok
                && (#[trigger] listing@[k]) is Ok ==> listing@[i]->Ok_0@.id()
                != listing@[k]->Ok_0@.id(),
{
    let ghost all = view_items(*records);
    let mut listing: Vec<Result<Factor, ParseError>> = Vec::new();
    let mut i: usize = 0;
    while i < records.len()
        invariant
            i <= records@.len(),
            all == view_items(*records),
            listing@.len() == i,
            forall|e: int| 0 <= e < i ==> view_outcome(#[trigger] listing@[e]) == listed(all, e),
            forall|e: int|
                0 <= e < i && (#[trigger] listing@[e]) is Ok ==> listing@[e]->Ok_0@.well_formed(),
        decreases records@.len() - i,
    {
        assert(all[i as int] == records@[i as int]@);
        let entry = match Factor::parse(&records[i]) {
            Ok(factor) => {
                let used = id_in_use(&listing, factor.id());
                proof {
                    let id = factor@.id();
                    if used {
                        let j = choose|j: int|
                            0 <= j < listing@.len() && #[trigger] has_id(
                                view_outcome(listing@[j]),
                                id,
                            );
                        assert(has_id(FactorView::parsed(all[j]), id));
                    }
                    if id_taken(all, i as int, id) {
                        let j = choose|j: int|
                            0 <= j < i && #[trigger] has_id(FactorView::parsed(all[j]), id);
                        lemma_taken_id_is_listed(all, j, id);
                        let k = choose|k: int|
                            0 <= k <= j && #[trigger] has_id(listed(all, k), id);
                        assert(has_id(view_outcome(listing@[k]), id));
                    }
                    assert(used == id_taken(all, i as int, id));
                }
                if used {
                    Err(ParseError::MalformedProfile { field: Field::Id })
                } else {
                    Ok(factor)
                }
            },
            Err(e) => Err(e),
        };
        listing.push(entry);
        i += 1;
    }
    proof {
        assert forall|a: int, b: int|
            0 <= a < b < listing@.len() && (#[trigger] listing@[a]) is Ok
                && (#[trigger] listing@[b]) is Ok implies listing@[a]->Ok_0@.id()
            != listing@[b]->Ok_0@.id() by {
            assert(view_outcome(listing@[a]) == listed(all, a));
            assert(view_outcome(listing@[b]) == listed(all, b));
            lemma_listed_ids_distinct(all, a, b);
        }
    }
    listing
}

} // verus!
