use crate::error::{Error, ErrorInfo};
use askalono::{Store, TextData};
use vstd::prelude::*;

verus! {

#[verifier::external_type_specification]
#[verifier::external_body]
pub struct ExStore(Store);

/// The licenses that a license store holds: each name with the text that
/// its n-grams were built from.
pub uninterp spec fn store_license_texts(store: Store) -> Map<Seq<char>, Seq<char>>;

/// `name` is a license of `texts` whose text scores highest against `text`
/// among all of them, by the n-gram comparison of `Store::analyze` (the
/// score itself is a floating-point number and is not stated).
pub uninterp spec fn is_closest_license(texts: Map<Seq<char>, Seq<char>>, text: Seq<char>, name: Seq<char>) -> bool;

/// Every n-gram set of the store records the number of n-grams it was built
/// from, as those that `TextData::from` builds do (a store decoded from
/// arbitrary bytes need not).
pub uninterp spec fn store_counts_consistent(store: Store) -> bool;

/// Calls `askalono::Store::new`: a store that holds no license.
#[verifier::external_body]
fn new_store() -> (r: Store)
    ensures
        store_license_texts(r).dom() == Set::<Seq<char>>::empty(),
        store_counts_consistent(r),
{
    Store::new()
}

/// Calls `askalono::Store::add_license` with the n-grams that
/// `TextData::from` builds of `text`: the store then holds the license
/// `name` with the text `text` (in place of any license of that name
/// before), and its n-gram counts stay consistent.
#[verifier::external_body]
fn add_license(store: &mut Store, name: String, text: &str)
    ensures
        store_license_texts(*final(store)) == store_license_texts(*old(store)).insert(name@, text@),
        store_counts_consistent(*old(store)) ==> store_counts_consistent(*final(store)),
{
    store.add_license(name, TextData::from(text));
}

/// Calls `askalono::Store::analyze` on the n-grams that `TextData::from`
/// builds of `text` and keeps the name of the closest match: a license of
/// the store whose text scores highest against `text` (among several that
/// score alike, the one taken is not stated).
/// `analyze` indexes the first ranked entry, so the store must not be empty;
/// its scores are numbers (no division by zero) where the n-gram counts are
/// consistent.
#[verifier::external_body]
fn closest_license(store: &Store, text: &str) -> (r: String)
    requires
        store_license_texts(*store).dom() != Set::<Seq<char>>::empty(),
        store_counts_consistent(*store),
    ensures
        store_license_texts(*store).contains_key(r@),
        is_closest_license(store_license_texts(*store), text@, r@),
{
    store.analyze(&TextData::from(text)).name.to_string()
}

/// The message given when there is no license to compare with.
pub open spec fn empty_store_message() -> Seq<char> {
    "the license store is empty"@
}

/// The known licenses, each given as a `(name, text)` pair, as a map from
/// name to text; where a name occurs twice, the later text counts.
pub open spec fn license_map(licenses: Seq<(String, String)>) -> Map<Seq<char>, Seq<char>>
    decreases licenses.len(),
{
    if licenses.len() == 0 {
        Map::empty()
    } else {
        let last = licenses[licenses.len() - 1];
        license_map(licenses.subrange(0, licenses.len() - 1)).insert(last.0@, last.1@)
    }
}

/// The license that `license_text` is closest to, among the known licenses
/// `licenses` (name and text of each). Where there is no known license, a
/// fetch error about the project license that says so.
pub fn detect_license(licenses: &Vec<(String, String)>, license_text: &str) -> (r: Result<String, Error>)
    ensures
        licenses@.len() == 0 ==> (r matches Err(Error::Fetch(info)) && info.string@ == "project license"@
            && info.err@ == empty_store_message()),
        licenses@.len() > 0 ==> (r matches Ok(name) && license_map(licenses@).contains_key(name@)
            && is_closest_license(license_map(licenses@), license_text@, name@)),
{
    if licenses.len() == 0 {
        return Err(
            Error::Fetch(
                ErrorInfo {
                    string: String::from_str("project license"),
                    err: String::from_str("the license store is empty"),
                },
            ),
        );
    }
    let mut store = new_store();
    let mut i: usize = 0;
    assert(store_license_texts(store) =~= license_map(licenses@.subrange(0, 0)));
    while i < licenses.len()
        invariant
            i <= licenses@.len(),
            store_counts_consistent(store),
            store_license_texts(store) == license_map(licenses@.subrange(0, i as int)),
        decreases licenses.len() - i,
    {
        add_license(&mut store, licenses[i].0.clone(), licenses[i].1.as_str());
        proof {
            let done = licenses@.subrange(0, i + 1);
            assert(done.subrange(0, done.len() - 1) =~= licenses@.subrange(0, i as int));
        }
        i = i + 1;
    }
    proof {
        assert(licenses@.subrange(0, i as int) =~= licenses@);
        let last = licenses@[licenses@.len() - 1];
        assert(license_map(licenses@).contains_key(last.0@));
    }
    Ok(closest_license(&store, license_text))
}

} // verus!
