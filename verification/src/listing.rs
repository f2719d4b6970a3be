//! The release listing: how its records are read from a JSON document, and
//! which of them is the latest release.

use crate::error::ErrorKind;
use crate::http::{Exchange, STATUS_OK};
use crate::json::{
    json_tree, member, member_of, parse_document, parsed_document, text_of, trees_of, JsonTree,
};
use crate::release::{Asset, AssetModel, Release, ReleaseModel};
use crate::text::{
    chars_of, lemma_lex_asymmetric, lemma_lex_total, lemma_lex_transitive, lex_lt, precedes_chars,
};
use vstd::prelude::*;

verus! {

/// A tag takes part in the selection where it is a text and not empty.
pub open spec fn eligible(tag: Option<Seq<char>>) -> bool {
    tag matches Some(text) && text.len() > 0
}

/// Record `i` is the latest: its tag is eligible, no eligible tag comes after
/// it in the lexicographic order, and of the records that share the greatest
/// tag it is the last.
pub open spec fn is_latest(tags: Seq<Option<Seq<char>>>, i: int) -> bool {
    &&& 0 <= i < tags.len()
    &&& eligible(tags[i])
    &&& forall|j: int|
        0 <= j < tags.len() && eligible(#[trigger] tags[j]) ==> !lex_lt(tags[i]->0, tags[j]->0)
    &&& forall|j: int|
        i < j < tags.len() && eligible(#[trigger] tags[j]) ==> lex_lt(tags[j]->0, tags[i]->0)
}

/// No record of the listing has an eligible tag.
pub open spec fn none_eligible(tags: Seq<Option<Seq<char>>>) -> bool {
    forall|j: int| 0 <= j < tags.len() ==> !eligible(#[trigger] tags[j])
}

/// The member `key` of `tree` where it is a text.
pub open spec fn text_member(tree: JsonTree, key: Seq<char>) -> Option<Seq<char>> {
    match member_of(tree, key) {
        JsonTree::Text(text) => Some(text),
        _ => None,
    }
}

/// The tag of a release record.
pub open spec fn tag_of(record: JsonTree) -> Option<Seq<char>> {
    text_member(record, "tag_name"@)
}

/// The asset that an entry of a record's asset list describes.
pub open spec fn asset_of(entry: JsonTree) -> AssetModel {
    AssetModel {
        name: text_member(entry, "name"@),
        download_url: text_member(entry, "browser_download_url"@),
    }
}

/// The assets of a release record, in the order of the document; none where
/// the record has no asset list.
pub open spec fn assets_of(record: JsonTree) -> Seq<AssetModel> {
    match member_of(record, "assets"@) {
        JsonTree::List(entries) => entries.map_values(|entry: JsonTree| asset_of(entry)),
        _ => Seq::empty(),
    }
}

/// The release that a record with a text for a tag describes.
pub open spec fn release_of(record: JsonTree) -> ReleaseModel
    recommends
        tag_of(record) is Some,
{
    ReleaseModel {
        name: text_member(record, "name"@),
        tag: tag_of(record)->0,
        assets: assets_of(record),
    }
}

/// The records of a listing, in the order of the document; none where the
/// document is no array.
pub open spec fn records_of(document: JsonTree) -> Seq<JsonTree> {
    match document {
        JsonTree::List(records) => records,
        _ => Seq::empty(),
    }
}

/// The tags of the records of a listing.
pub open spec fn tags_of(records: Seq<JsonTree>) -> Seq<Option<Seq<char>>> {
    records.map_values(|record: JsonTree| tag_of(record))
}

/// `release` is the latest release of the listing `document`.
pub open spec fn is_latest_release(document: JsonTree, release: ReleaseModel) -> bool {
    exists|i: int|
        is_latest(tags_of(records_of(document)), i) && release == release_of(
            #[trigger] records_of(document)[i],
        )
}

/// What the answer to the listing request yields.
pub open spec fn outcome_of(reply: Exchange, outcome: Result<ReleaseModel, ErrorKind>) -> bool {
    match reply {
        Exchange::Failed => outcome == Err::<ReleaseModel, ErrorKind>(ErrorKind::Network),
        Exchange::Answered(response) => if response.status != STATUS_OK {
            outcome == Err::<ReleaseModel, ErrorKind>(ErrorKind::UnexpectedStatus)
        } else {
            match parsed_document(response.body@) {
                None => outcome == Err::<ReleaseModel, ErrorKind>(ErrorKind::Parse),
                Some(document) => match outcome {
                    Ok(release) => is_latest_release(document, release),
                    Err(kind) => kind == ErrorKind::NoReleaseFound && none_eligible(
                        tags_of(records_of(document)),
                    ),
                },
            }
        },
    }
}

/// The position of the latest release among the tags of a listing, by plain
/// string comparison of the tags. `None` where no tag is eligible.
pub fn latest_index(tags: &Vec<Option<String>>) -> (latest: Option<usize>)
    ensures
        match latest {
            Some(i) => is_latest(tags.deep_view(), i as int),
            None => none_eligible(tags.deep_view()),
        },
{
    let ghost models = tags.deep_view();
    let mut found = false;
    let mut best: usize = 0;
    let mut best_text: Vec<char> = Vec::new();
    let mut n: usize = 0;
    while n < tags.len()
        invariant
            n <= tags.len(),
            models == tags.deep_view(),
            models.len() == tags.len(),
            !found ==> forall|j: int| 0 <= j < n ==> !eligible(#[trigger] models[j]),
            found ==> {
                &&& best < n
                &&& eligible(models[best as int])
                &&& best_text@ == models[best as int]->0
                &&& forall|j: int|
                    0 <= j < n && eligible(#[trigger] models[j]) ==> !lex_lt(
                        best_text@,
                        models[j]->0,
                    )
                &&& forall|j: int|
                    best < j < n && eligible(#[trigger] models[j]) ==> lex_lt(
                        models[j]->0,
                        best_text@,
                    )
            },
        decreases tags.len() - n,
    {
        match &tags[n] {
            Some(tag) => {
                let candidate = chars_of(tag.as_str());
                if candidate.len() > 0 {
                    if found && precedes_chars(&candidate, &best_text) {
                        proof {
                            lemma_lex_asymmetric(candidate@, best_text@);
                        }
                    } else {
                        proof {
                            if found {
                                lemma_not_before_is_bound(
                                    models,
                                    n as int,
                                    best_text@,
                                    candidate@,
                                );
                            }
                        }
                        found = true;
                        best = n;
                        best_text = candidate;
                    }
                }
            },
            None => {},
        }
        n += 1;
    }
    if found {
        Some(best)
    } else {
        None
    }
}

/// The member `key` of a value, where it is a JSON string.
fn read_text(value: &serde_json::Value, key: &str) -> (text: Option<String>)
    ensures
        text.deep_view() == text_member(json_tree(*value), key@),
{
    text_of(member(value, key))
}

/// The asset that an entry of an asset list describes.
fn read_asset(entry: &serde_json::Value) -> (asset: Asset)
    ensures
        asset@ == asset_of(json_tree(*entry)),
{
    Asset { name: read_text(entry, "name"), download_url: read_text(entry, "browser_download_url") }
}

/// The assets of a release record.
fn read_assets(record: &serde_json::Value) -> (assets: Vec<Asset>)
    ensures
        assets.deep_view() == assets_of(json_tree(*record)),
{
    let mut assets: Vec<Asset> = Vec::new();
    match member(record, "assets").as_array() {
        Some(entries) => {
            let mut i: usize = 0;
            while i < entries.len()
                invariant
                    i <= entries.len(),
                    assets.len() == i,
                    forall|j: int|
                        0 <= j < i ==> (#[trigger] assets@[j])@ == asset_of(json_tree(entries@[j])),
                decreases entries.len() - i,
            {
                assets.push(read_asset(&entries[i]));
                i += 1;
            }
        },
        None => {
        },
    }
    assets
}

/// The tags of the records of a listing, each `None` where the record holds
/// no text under `tag_name`.
pub fn read_tags(records: &Vec<serde_json::Value>) -> (tags: Vec<Option<String>>)
    ensures
        tags.deep_view() == tags_of(trees_of(records@)),
{
    let mut tags: Vec<Option<String>> = Vec::new();
    let mut i: usize = 0;
    while i < records.len()
        invariant
            i <= records.len(),
            tags.len() == i,
            forall|j: int|
                0 <= j < i ==> (#[trigger] tags@[j]).deep_view() == tag_of(json_tree(records@[j])),
        decreases records.len() - i,
    {
        tags.push(read_text(&records[i], "tag_name"));
        i += 1;
    }
    tags
}

/// The release that a record describes; `None` where the record holds no
/// text under `tag_name`.
pub fn read_release(record: &serde_json::Value) -> (release: Option<Release>)
    ensures
        match release {
            Some(found) => tag_of(json_tree(*record)) is Some && found@ == release_of(
                json_tree(*record),
            ),
            None => tag_of(json_tree(*record)) is None,
        },
{
    match read_text(record, "tag_name") {
        Some(tag) => Some(
            Release { name: read_text(record, "name"), tag, assets: read_assets(record) },
        ),
        None => None,
    }
}

/// The latest release of a parsed listing. Fails with `NoReleaseFound` where
/// the document is no array or none of its records has an eligible tag.
pub fn latest_in_document(document: &serde_json::Value) -> (outcome: Result<Release, ErrorKind>)
    ensures
        match outcome {
            Ok(release) => is_latest_release(json_tree(*document), release@),
            Err(kind) => kind == ErrorKind::NoReleaseFound && none_eligible(
                tags_of(records_of(json_tree(*document))),
            ),
        },
{
    match document.as_array() {
        Some(records) => {
            let tags = read_tags(records);
            match latest_index(&tags) {
                Some(i) => match read_release(&records[i]) {
                    Some(release) => {
                        Ok(release)
                    },
                    None => {
                        Err(ErrorKind::NoReleaseFound)
                    },
                },
                None => Err(ErrorKind::NoReleaseFound),
            }
        },
        None => Err(ErrorKind::NoReleaseFound),
    }
}

/// The latest release that the answer to the listing request names.
///
/// Fails with `Network` where the request failed, with `UnexpectedStatus`
/// where the status is not 200, with `Parse` where the body is no JSON
/// document, and with `NoReleaseFound` where the document holds no record with
/// an eligible tag.
pub fn latest_release(reply: &Exchange) -> (outcome: Result<Release, ErrorKind>)
    ensures
        outcome_of(
            *reply,
            match outcome {
                Ok(release) => Ok(release@),
                Err(kind) => Err(kind),
            },
        ),
{
    match reply {
        Exchange::Failed => Err(ErrorKind::Network),
        Exchange::Answered(response) => {
            if response.status != STATUS_OK {
                return Err(ErrorKind::UnexpectedStatus);
            }
            match parse_document(response.body.as_slice()) {
                Ok(document) => latest_in_document(&document),
                Err(_) => Err(ErrorKind::Parse),
            }
        },
    }
}

/// Where `best` bounds the eligible tags before `n` and `candidate` does not
/// come before `best`, `candidate` bounds them too.
proof fn lemma_not_before_is_bound(
    tags: Seq<Option<Seq<char>>>,
    n: int,
    best: Seq<char>,
    candidate: Seq<char>,
)
    requires
        0 <= n <= tags.len(),
        !lex_lt(candidate, best),
        forall|j: int| 0 <= j < n && eligible(#[trigger] tags[j]) ==> !lex_lt(best, tags[j]->0),
    ensures
        forall|j: int|
            0 <= j < n && eligible(#[trigger] tags[j]) ==> !lex_lt(candidate, tags[j]->0),
{
    assert forall|j: int| 0 <= j < n && eligible(#[trigger] tags[j]) implies !lex_lt(
        candidate,
        tags[j]->0,
    ) by {
        let other = tags[j]->0;
        if lex_lt(candidate, other) {
            lemma_lex_total(other, best);
            if lex_lt(other, best) {
                lemma_lex_transitive(candidate, other, best);
            }
        }
    }
}

/// At most one record is the latest.
pub proof fn lemma_latest_is_unique(tags: Seq<Option<Seq<char>>>, i: int, j: int)
    requires
        is_latest(tags, i),
        is_latest(tags, j),
    ensures
        i == j,
{
}

/// The tag of the latest record is the greatest: every eligible tag of the
/// listing is the same text or comes before it.
pub proof fn lemma_latest_is_greatest(tags: Seq<Option<Seq<char>>>, i: int, j: int)
    requires
        is_latest(tags, i),
        0 <= j < tags.len(),
        eligible(tags[j]),
    ensures
        tags[j]->0 == tags[i]->0 || lex_lt(tags[j]->0, tags[i]->0),
{
    lemma_lex_total(tags[j]->0, tags[i]->0);
}

/// A record without a member `tag_name`, or with one that is no text or is
/// the empty text, is never the latest.
pub proof fn lemma_unusable_tag_never_selected(records: Seq<JsonTree>, i: int)
    requires
        0 <= i < records.len(),
        !(member_of(records[i], "tag_name"@) matches JsonTree::Text(text) && text.len() > 0),
    ensures
        !is_latest(tags_of(records), i),
{
}

} // verus!
