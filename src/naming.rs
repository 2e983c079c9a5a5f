//! Names of stored image files: `{random_id}_{timestamp}.png`.

use crate::outside::{is_url_safe_symbol, local_timestamp, random_id};
use vstd::prelude::*;

verus! {

/// Length of the random token that starts every image filename.
pub open spec fn id_len() -> nat {
    10
}

/// A random token as the store uses it: ten URL-safe symbols.
pub open spec fn is_image_id(id: Seq<char>) -> bool {
    &&& id.len() == id_len()
    &&& forall|i: int| 0 <= i < id.len() ==> is_url_safe_symbol(#[trigger] id[i])
}

pub open spec fn spec_image_filename(id: Seq<char>, timestamp: Seq<char>) -> Seq<char> {
    id + seq!['_'] + timestamp + seq!['.', 'p', 'n', 'g']
}

/// The filename `{id}_{timestamp}.png`.
pub fn image_filename(id: &str, timestamp: &str) -> (r: String)
    ensures
        r@ == spec_image_filename(id@, timestamp@),
{
    let mut name = String::from_str(id);
    name.append("_");
    name.append(timestamp);
    name.append(".png");
    proof {
        reveal_strlit("_");
        reveal_strlit(".png");
    }
    assert(name@ =~= spec_image_filename(id@, timestamp@));
    name
}

/// A fresh filename: a random token and the local time to the second.
pub fn new_image_filename() -> (r: String)
    ensures
        exists|id: Seq<char>, ts: Seq<char>| is_image_id(id) && r@ == spec_image_filename(id, ts),
{
    let id = random_id();
    let timestamp = local_timestamp();
    let name = image_filename(id.as_str(), timestamp.as_str());
    assert(is_image_id(id@));
    name
}

/// Two filenames made from tokens of the store's length are equal only when
/// both their tokens and their timestamps are: distinct tokens give distinct
/// names, whatever the timestamps.
pub proof fn lemma_image_filename_injective(
    id1: Seq<char>,
    ts1: Seq<char>,
    id2: Seq<char>,
    ts2: Seq<char>,
)
    requires
        id1.len() == id_len(),
        id2.len() == id_len(),
        spec_image_filename(id1, ts1) == spec_image_filename(id2, ts2),
    ensures
        id1 == id2,
        ts1 == ts2,
{
    let n1 = spec_image_filename(id1, ts1);
    let n2 = spec_image_filename(id2, ts2);
    assert(id1 =~= n1.subrange(0, 10));
    assert(id2 =~= n2.subrange(0, 10));
    assert(ts1 =~= n1.subrange(11, n1.len() - 4));
    assert(ts2 =~= n2.subrange(11, n2.len() - 4));
}

} // verus!
