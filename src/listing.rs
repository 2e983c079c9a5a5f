//! The image store's listing: which directory entries are images, and the
//! JSON array that the listing endpoint returns.

use crate::outside::{json_string, json_string_of};
use vstd::prelude::*;

verus! {

/// One entry found directly inside the images directory.
pub struct DirEntryInfo {
    /// The entry's filename, where it is valid UTF-8.
    pub name: Option<String>,
    /// Whether the entry is a regular file.
    pub is_file: bool,
}

pub open spec fn is_listed(e: DirEntryInfo) -> bool {
    e.is_file && e.name is Some
}

/// The names of the regular files among `entries`, in order.
pub open spec fn spec_image_names(entries: Seq<DirEntryInfo>) -> Seq<Seq<char>>
    decreases entries.len(),
{
    if entries.len() == 0 {
        seq![]
    } else {
        let last = entries.last();
        let rest = spec_image_names(entries.drop_last());
        if is_listed(last) {
            rest.push(last.name.unwrap()@)
        } else {
            rest
        }
    }
}

pub open spec fn names_view(names: Seq<String>) -> Seq<Seq<char>> {
    names.map_values(|s: String| s@)
}

/// The names of the regular files with UTF-8 names, in directory order.
pub fn image_names(entries: &Vec<DirEntryInfo>) -> (r: Vec<String>)
    ensures
        names_view(r@) == spec_image_names(entries@),
{
    let mut names: Vec<String> = Vec::new();
    let mut i: usize = 0;
    while i < entries.len()
        invariant
            i <= entries@.len(),
            names_view(names@) == spec_image_names(entries@.take(i as int)),
        decreases entries@.len() - i,
    {
        let entry = &entries[i];
        assert(entries@.take(i as int + 1).drop_last() =~= entries@.take(i as int));
        if entry.is_file {
            match &entry.name {
                Some(n) => {
                    names.push(n.clone());
                    assert(names_view(names@) =~= names_view(names@.drop_last()).push(n@));
                },
                None => {},
            }
        }
        i = i + 1;
    }
    assert(entries@.take(entries@.len() as int) =~= entries@);
    names
}

/// The comma-separated JSON strings of `names`.
pub open spec fn spec_json_items(names: Seq<Seq<char>>) -> Seq<char>
    decreases names.len(),
{
    if names.len() == 0 {
        seq![]
    } else if names.len() == 1 {
        json_string_of(names[0])
    } else {
        spec_json_items(names.drop_last()) + seq![','] + json_string_of(names.last())
    }
}

pub open spec fn spec_json_array(names: Seq<Seq<char>>) -> Seq<char> {
    seq!['['] + spec_json_items(names) + seq![']']
}

/// The listing as a JSON array of strings.
pub fn images_json(names: &Vec<String>) -> (r: String)
    ensures
        r@ == spec_json_array(names_view(names@)),
{
    let ghost view = names_view(names@);
    let mut items = String::new();
    let mut i: usize = 0;
    while i < names.len()
        invariant
            i <= names@.len(),
            view == names_view(names@),
            items@ == spec_json_items(view.take(i as int)),
        decreases names@.len() - i,
    {
        let quoted = json_string(names[i].as_str());
        assert(view.take(i as int + 1).drop_last() =~= view.take(i as int));
        if i > 0 {
            items.append(",");
            proof {
                reveal_strlit(",");
            }
        }
        match quoted {
            Some(q) => items.append(q.as_str()),
            None => {},
        }
        proof {
            if i == 0 {
                assert(items@ =~= spec_json_items(view.take(1)));
            } else {
                assert(items@ =~= spec_json_items(view.take(i as int + 1)));
            }
        }
        i = i + 1;
    }
    assert(view.take(view.len() as int) =~= view);
    let mut array = String::from_str("[");
    array.append(items.as_str());
    array.append("]");
    proof {
        reveal_strlit("[");
        reveal_strlit("]");
    }
    assert(array@ =~= spec_json_array(view));
    array
}

/// An empty store is listed as `[]`.
pub proof fn lemma_empty_listing()
    ensures
        spec_json_array(seq![]) == "[]"@,
{
    reveal_strlit("[]");
    assert(spec_json_array(seq![]) =~= "[]"@);
}

/// A store that holds one image is listed as the array of exactly that name.
pub proof fn lemma_single_listing(name: Seq<char>)
    ensures
        spec_json_array(seq![name]) == seq!['['] + json_string_of(name) + seq![']'],
{
}

/// A regular file with a UTF-8 name inside the images directory is listed.
pub proof fn lemma_written_file_is_listed(entries: Seq<DirEntryInfo>, k: int)
    requires
        0 <= k < entries.len(),
        is_listed(entries[k]),
    ensures
        spec_image_names(entries).contains(entries[k].name.unwrap()@),
    decreases entries.len(),
{
    if k == entries.len() - 1 {
        let rest = spec_image_names(entries.drop_last());
        assert(rest.push(entries[k].name.unwrap()@).last() == entries[k].name.unwrap()@);
    } else {
        lemma_written_file_is_listed(entries.drop_last(), k);
        let rest = spec_image_names(entries.drop_last());
        let x = entries[k].name.unwrap()@;
        let j = choose|j: int| 0 <= j < rest.len() && rest[j] == x;
        if is_listed(entries.last()) {
            assert(rest.push(entries.last().name.unwrap()@)[j] == x);
        }
    }
}

} // verus!
