//! Idempotent daily completion tracking. A task's completion dates are
//! persisted as a JSON array of `YYYY-MM-DD` strings but treated as a set:
//! marking a task done for a date it already carries is a no-op, so the same
//! calendar date is never recorded twice. Dates are compared as exact
//! strings; no clock or timezone normalization happens here.

use vstd::prelude::*;

verus! {

/// The list of dates that a stored JSON text denotes. Text that does not
/// parse as a JSON array of strings denotes the empty list.
pub uninterp spec fn dates_of_json(text: Seq<char>) -> Seq<Seq<char>>;

/// The JSON array text that serializes a list of date strings.
pub uninterp spec fn json_of_dates(dates: Seq<Seq<char>>) -> Seq<char>;

/// Relies on `serde_json::from_str::<Vec<String>>`: the result depends on
/// the text alone, and text that is not a JSON array of strings is mapped
/// to the empty list.
#[verifier::external_body]
pub fn decode_done_dates(text: &str) -> (r: Vec<String>)
    ensures
        r.deep_view() == dates_of_json(text@),
{
    match serde_json::from_str::<Vec<String>>(text) {
        Ok(v) => v,
        Err(_) => Vec::new(),
    }
}

/// Relies on `serde_json::to_string`: serializing a vector of strings cannot
/// fail, depends on the vector alone, and `serde_json::from_str` parses the
/// produced text back to the same vector (serialize and deserialize are
/// exact inverses on this type).
#[verifier::external_body]
pub fn encode_done_dates(dates: &Vec<String>) -> (r: String)
    ensures
        r@ == json_of_dates(dates.deep_view()),
        dates_of_json(r@) == dates.deep_view(),
{
    serde_json::to_string(dates).unwrap()
}

/// Inserting a date into the completion list: a no-op when the date is
/// already a member, an append otherwise.
pub open spec fn spec_insert_date(dates: Seq<Seq<char>>, date: Seq<char>) -> Seq<Seq<char>> {
    if dates.contains(date) {
        dates
    } else {
        dates.push(date)
    }
}

/// No date occurs twice in the list.
pub open spec fn distinct_dates(dates: Seq<Seq<char>>) -> bool {
    forall|i: int, j: int| 0 <= i < j < dates.len() ==> dates[i] != dates[j]
}

/// Inserts `date` into `dates` unless it is already a member; the net state
/// is unchanged in that case.
pub fn add_done_date(dates: &mut Vec<String>, date: &str)
    ensures
        final(dates).deep_view() == spec_insert_date(old(dates).deep_view(), date@),
{
    let key = String::from_str(date);
    let n = dates.len();
    let mut i: usize = 0;
    while i < n
        invariant
            i <= n,
            n == dates@.len(),
            *dates == *old(dates),
            key@ == date@,
            forall|j: int| 0 <= j < i ==> dates.deep_view()[j] != date@,
        decreases n - i,
    {
        if dates[i] == key {
            assert(dates.deep_view()[i as int] == date@);
            assert(dates.deep_view().contains(date@));
            return;
        }
        i = i + 1;
    }
    assert(forall|j: int| 0 <= j < n ==> dates.deep_view()[j] != date@);
    assert(!dates.deep_view().contains(date@));
    dates.push(key);
    assert(final(dates).deep_view() =~= old(dates).deep_view().push(date@));
}

/// Idempotence: inserting the same date a second time changes nothing, so
/// marking a task done N times for one date equals marking it once.
pub proof fn lemma_insert_date_idempotent(dates: Seq<Seq<char>>, date: Seq<char>)
    ensures
        spec_insert_date(spec_insert_date(dates, date), date) == spec_insert_date(dates, date),
{
    if !dates.contains(date) {
        assert(dates.push(date)[dates.len() as int] == date);
        assert(dates.push(date).contains(date));
    }
}

/// Membership after an insert: exactly the old members plus the new date.
pub proof fn lemma_insert_date_membership(dates: Seq<Seq<char>>, date: Seq<char>, d: Seq<char>)
    ensures
        spec_insert_date(dates, date).contains(d) <==> (dates.contains(d) || d == date),
{
    let p = dates.push(date);
    if !dates.contains(date) {
        assert(p[dates.len() as int] == date);
        if dates.contains(d) {
            let i = choose|i: int| 0 <= i < dates.len() && dates[i] == d;
            assert(p[i] == d);
        }
        if p.contains(d) && d != date {
            let i = choose|i: int| 0 <= i < p.len() && p[i] == d;
            assert(i < dates.len());
            assert(dates[i] == d);
        }
    }
}

/// The completion list is a true set: inserting into a duplicate-free list
/// keeps it duplicate-free, so every recorded date occurs exactly once.
pub proof fn lemma_insert_date_distinct(dates: Seq<Seq<char>>, date: Seq<char>)
    requires
        distinct_dates(dates),
    ensures
        distinct_dates(spec_insert_date(dates, date)),
{
    if !dates.contains(date) {
        let p = dates.push(date);
        assert forall|i: int, j: int| 0 <= i < j < p.len() implies p[i] != p[j] by {
            if j == dates.len() {
                assert(p[i] == dates[i]);
                if dates[i] == date {
                    assert(dates.contains(date));
                }
            } else {
                assert(p[i] == dates[i] && p[j] == dates[j]);
            }
        }
    }
}

} // verus!
