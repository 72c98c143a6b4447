//! Uploads to Arweave: the transaction of an upload, the search for a file by its
//! digest, and the check of a file that was fetched.

use vstd::prelude::*;

use crate::backup::providers::UploadMetadata;
use crate::digest;
use crate::digest::{base64_encode, sha256_digest};
use crate::json;
use crate::json::{get_member, parse_json, Json};
use crate::lists::{no_items, push_item, two_items};
use crate::text;
use crate::text::{cat2, cat3, hex_of, same_text};

verus! {

/// The tags of an upload: those that every upload has, and those of its own.
pub open spec fn tags_of(metadata: UploadMetadata) -> Seq<(Seq<char>, Seq<char>)> {
    seq![
        ("Content-Type"@, metadata.content_type@),
        ("File-Name"@, metadata.filename@),
        ("SHA-256"@, metadata.sha256@),
        ("App-Name"@, "Stellar-Archive-Backup"@),
    ] + metadata.tags.deep_view()
}

/// The tags of an upload.
pub fn upload_tags(metadata: &UploadMetadata) -> (r: Vec<(String, String)>)
    ensures
        r.deep_view() == tags_of(*metadata),
{
    let mut tags = two_items(
        ("Content-Type".to_owned(), metadata.content_type.clone()),
        ("File-Name".to_owned(), metadata.filename.clone()),
    );
    push_item(&mut tags, ("SHA-256".to_owned(), metadata.sha256.clone()));
    push_item(&mut tags, ("App-Name".to_owned(), "Stellar-Archive-Backup".to_owned()));
    let ghost base = tags.deep_view();
    let ghost own = metadata.tags.deep_view();
    assert(base + own.take(0) =~= base);
    for i in 0..metadata.tags.len()
        invariant
            own == metadata.tags.deep_view(),
            tags.deep_view() == base + own.take(i as int),
    {
        push_item(&mut tags, (metadata.tags[i].0.clone(), metadata.tags[i].1.clone()));
        assert(base + own.take(i + 1) =~= (base + own.take(i as int)).push(own[i as int]));
    }
    assert(own.take(own.len() as int) =~= own);
    tags
}

/// The base64 text of a text's UTF-8 bytes.
pub open spec fn encoded(text: Seq<char>) -> Seq<char> {
    digest::base64_text(vstd::utf8::encode_utf8(text))
}

/// The base64 text of a text's UTF-8 bytes.
fn encode_text(text: &str) -> (r: String)
    ensures
        r@ == encoded(text@),
{
    base64_encode(text.as_bytes())
}

/// A transaction that stores data with tags, all of them as base64 texts.
#[derive(Debug)]
pub struct ArweaveTransaction {
    pub data: String,
    /// Name and value of each tag
    pub tags: Vec<(String, String)>,
}

/// The tags as base64 texts, in order.
pub open spec fn encoded_tags(tags: Seq<(Seq<char>, Seq<char>)>) -> Seq<(Seq<char>, Seq<char>)> {
    Seq::new(tags.len(), |i: int| (encoded(tags[i].0), encoded(tags[i].1)))
}

/// The transaction of an upload.
pub fn upload(data: &Vec<u8>, metadata: &UploadMetadata) -> (r: ArweaveTransaction)
    ensures
        r.data@ == digest::base64_text(data@),
        r.tags.deep_view() == encoded_tags(tags_of(*metadata)),
{
    let tags = upload_tags(metadata);
    let ghost wanted = encoded_tags(tags_of(*metadata));
    let mut texts: Vec<(String, String)> = no_items();
    for i in 0..tags.len()
        invariant
            tags.deep_view() == tags_of(*metadata),
            wanted == encoded_tags(tags_of(*metadata)),
            texts.deep_view() == wanted.take(i as int),
    {
        assert(tags.deep_view()[i as int] == (tags@[i as int].0@, tags@[i as int].1@));
        push_item(&mut texts, (encode_text(tags[i].0.as_str()), encode_text(tags[i].1.as_str())));
        assert(wanted.take(i + 1) =~= wanted.take(i as int).push(wanted[i as int]));
    }
    assert(wanted.take(wanted.len() as int) =~= wanted);
    ArweaveTransaction { data: base64_encode(data.as_slice()), tags: texts }
}

/// The address that transactions are sent to.
pub fn transaction_url(gateway: &str) -> (r: String)
    ensures
        r@ == gateway@ + "/tx"@,
{
    cat2(gateway, "/tx")
}

/// The address that queries are sent to.
pub fn query_url(gateway: &str) -> (r: String)
    ensures
        r@ == gateway@ + "/graphql"@,
{
    cat2(gateway, "/graphql")
}

/// The address of a file.
pub fn content_url(gateway: &str, cid: &str) -> (r: String)
    ensures
        r@ == gateway@ + "/"@ + cid@,
{
    cat3(gateway, "/", cid)
}

/// The query for the transactions that are tagged with a digest.
pub fn exists_query(content_hash: &str) -> (r: String)
    ensures
        r@ == "{ transactions(tags: [{name: \"SHA-256\", values: [\""@ + content_hash@
            + "\"]}]) { edges { node { id } } } }"@,
{
    cat3(
        "{ transactions(tags: [{name: \"SHA-256\", values: [\"",
        content_hash,
        "\"]}]) { edges { node { id } } } }",
    )
}

/// Whether the reply to a query lists a transaction.
pub open spec fn lists_transactions(document: Json) -> bool {
    match document.member("data"@).member("transactions"@).member("edges"@) {
        Json::List(edges) => edges.len() > 0,
        _ => false,
    }
}

/// Whether the reply to a query lists a transaction.
pub fn has_transactions(document: &serde_json::Value) -> (r: bool)
    ensures
        r == lists_transactions(json::json_of(*document)),
{
    let data = match get_member(document, "data") {
        Some(data) => data,
        None => {
            return false;
        },
    };
    let transactions = match get_member(data, "transactions") {
        Some(transactions) => transactions,
        None => {
            return false;
        },
    };
    let edges = match get_member(transactions, "edges") {
        Some(edges) => edges,
        None => {
            return false;
        },
    };
    match edges.as_array() {
        Some(edges) => edges.len() > 0,
        None => false,
    }
}

/// Whether content with a digest is already stored, by the reply to the query; an
/// error where the reply is no document.
pub fn exists_in(reply: &str) -> (r: Result<bool, String>)
    ensures
        match json::parsed_json(reply@) {
            Ok(document) => r matches Ok(found) && found == lists_transactions(document),
            Err(error) => r matches Err(e) && e@ == "error decoding response body: "@ + error,
        },
{
    match parse_json(reply) {
        Ok(document) => Ok(has_transactions(&document)),
        Err(error) => Err(cat2("error decoding response body: ", error.as_str())),
    }
}

/// Whether a digest is the one that a lower-case hexadecimal text writes down.
pub fn digest_matches(digest: &Vec<u8>, expected_hash: &str) -> (r: bool)
    ensures
        r == (text::hex(digest@) == expected_hash@),
{
    let hash = hex_of(digest);
    same_text(hash.as_str(), expected_hash)
}

/// Whether data has the SHA-256 digest that is expected, written as lower-case
/// hexadecimal text.
pub fn verify(data: &Vec<u8>, expected_hash: &str) -> (r: bool)
    ensures
        r == (text::hex(digest::sha256(data@)) == expected_hash@),
{
    digest_matches(&sha256_digest(data), expected_hash)
}

/// Uploads are tagged with the digest that they are searched by, and keep all of
/// their own tags.
pub proof fn uploads_are_found_by_their_digest(metadata: UploadMetadata)
    ensures
        tags_of(metadata).contains(("SHA-256"@, metadata.sha256@)),
        forall|i: int|
            0 <= i < metadata.tags@.len() ==> tags_of(metadata).contains(
                #[trigger] metadata.tags.deep_view()[i],
            ),
{
    assert(tags_of(metadata)[2] == ("SHA-256"@, metadata.sha256@));
    assert forall|i: int| 0 <= i < metadata.tags@.len() implies tags_of(metadata).contains(
        #[trigger] metadata.tags.deep_view()[i],
    ) by {
        assert(tags_of(metadata)[4 + i] == metadata.tags.deep_view()[i]);
    }
}

/// The transaction of an upload tells the type and the name of the file and who made it,
/// and nothing besides that, the digest and the tags of the upload; each tag is encoded
/// in its place, its name and its value.
pub proof fn uploads_tell_what_they_are(metadata: UploadMetadata, i: int)
    requires
        0 <= i < tags_of(metadata).len(),
    ensures
        tags_of(metadata).len() == metadata.tags@.len() + 4,
        tags_of(metadata).contains(("Content-Type"@, metadata.content_type@)),
        tags_of(metadata).contains(("File-Name"@, metadata.filename@)),
        tags_of(metadata).contains(("App-Name"@, "Stellar-Archive-Backup"@)),
        encoded_tags(tags_of(metadata)).len() == tags_of(metadata).len(),
        encoded_tags(tags_of(metadata))[i].0 == digest::base64_text(
            vstd::utf8::encode_utf8(tags_of(metadata)[i].0),
        ),
        encoded_tags(tags_of(metadata))[i].1 == digest::base64_text(
            vstd::utf8::encode_utf8(tags_of(metadata)[i].1),
        ),
{
    assert(tags_of(metadata)[0] == ("Content-Type"@, metadata.content_type@));
    assert(tags_of(metadata)[1] == ("File-Name"@, metadata.filename@));
    assert(tags_of(metadata)[3] == ("App-Name"@, "Stellar-Archive-Backup"@));
}

/// Content counts as stored exactly where the reply to the query has a list of edges of
/// transactions in its data, and the list is not empty.
pub proof fn stored_content_is_listed(document: Json, edges: Seq<Json>)
    ensures
        document.member("data"@).member("transactions"@).member("edges"@) == Json::List(edges)
            ==> (lists_transactions(document) <==> edges.len() > 0),
        !(document.member("data"@).member("transactions"@).member("edges"@) is List)
            ==> !lists_transactions(document),
{
}

} // verus!
