//! Description catalog: long-form vulnerability write-ups keyed by an
//! identifier, loaded from JSON documents and consulted only to enrich
//! report text. The catalog never influences detection.
//!
//! A catalog is built from the text of an optional index document and the
//! texts of the detail documents of a directory; reading the directory
//! itself is the caller's concern. A missing directory simply yields an
//! empty catalog.

use vstd::prelude::*;
use crate::text::{contains_seq, lower_seq, lower_vec, chars_of, vec_contains, str_eq};

verus! {

/// One detail document: the file-name stem and the raw text.
pub struct Document {
    pub stem: String,
    pub text: String,
}

#[verifier::ext_equal]
pub struct DocumentV {
    pub stem: Seq<char>,
    pub text: Seq<char>,
}

impl View for Document {
    type V = DocumentV;

    open spec fn view(&self) -> DocumentV {
        DocumentV { stem: self.stem@, text: self.text@ }
    }
}

impl DeepView for Document {
    type V = DocumentV;

    open spec fn deep_view(&self) -> DocumentV {
        self.view()
    }
}

/// One catalog entry: the identifier it is filed under and the optional
/// long-form fields of its detail document.
pub struct CatalogEntry {
    pub key: String,
    pub description: Option<String>,
    pub example_scenario: Option<String>,
    pub secure_example: Option<String>,
}

#[verifier::ext_equal]
pub struct CatalogEntryV {
    pub key: Seq<char>,
    pub description: Option<Seq<char>>,
    pub example_scenario: Option<Seq<char>>,
    pub secure_example: Option<Seq<char>>,
}

impl View for CatalogEntry {
    type V = CatalogEntryV;

    open spec fn view(&self) -> CatalogEntryV {
        CatalogEntryV {
            key: self.key@,
            description: self.description.deep_view(),
            example_scenario: self.example_scenario.deep_view(),
            secure_example: self.secure_example.deep_view(),
        }
    }
}

impl DeepView for CatalogEntry {
    type V = CatalogEntryV;

    open spec fn deep_view(&self) -> CatalogEntryV {
        self.view()
    }
}

/// The description catalog, in insertion order. When several keys match a
/// looked-up keyword the earliest entry wins: the deliberate tie-break for
/// a lookup that is otherwise unordered.
pub struct Catalog {
    pub entries: Vec<CatalogEntry>,
}

impl View for Catalog {
    type V = Seq<CatalogEntryV>;

    open spec fn view(&self) -> Seq<CatalogEntryV> {
        self.entries.deep_view()
    }
}

impl Catalog {
    /// An empty catalog.
    pub fn empty() -> (r: Catalog)
        ensures
            r@ =~= Seq::<CatalogEntryV>::empty(),
    {
        Catalog { entries: Vec::new() }
    }

    /// The number of entries.
    pub fn len(&self) -> (r: usize)
        ensures
            r == self@.len(),
    {
        self.entries.len()
    }

    /// Whether the catalog holds no entry.
    pub fn is_empty(&self) -> (r: bool)
        ensures
            r == (self@.len() == 0),
    {
        self.entries.len() == 0
    }
}

/// The string value of field `key` of the JSON document `text`, if `text`
/// parses and holds such a string field; a function of the two texts alone.
pub uninterp spec fn json_string_field(text: Seq<char>, key: Seq<char>) -> Option<Seq<char>>;

/// The identifiers listed under `"vulnerabilities"` (each item's `"id"`
/// string field, items without one skipped) of the JSON index `text`;
/// `None` when `text` does not parse to a document with such an array.
pub uninterp spec fn json_index_ids(text: Seq<char>) -> Option<Seq<Seq<char>>>;

/// Relies on serde_json::from_str, Value::get and Value::as_str: extracts
/// the string field `key` from the JSON document `text`.
#[verifier::external_body]
fn parse_string_field(text: &str, key: &str) -> (r: Option<String>)
    ensures
        r.deep_view() == json_string_field(text@, key@),
{
    let v: serde_json::Value = match serde_json::from_str(text) {
        Ok(v) => v,
        Err(_) => return None,
    };
    v.get(key).and_then(|f| f.as_str()).map(|s| s.to_string())
}

/// Relies on serde_json::from_str, Value::get, Value::as_array and
/// Value::as_str: collects the `"id"` fields of the `"vulnerabilities"`
/// array of the JSON index `text`.
#[verifier::external_body]
fn parse_index_ids(text: &str) -> (r: Option<Vec<String>>)
    ensures
        r.deep_view() == json_index_ids(text@),
{
    let v: serde_json::Value = match serde_json::from_str(text) {
        Ok(v) => v,
        Err(_) => return None,
    };
    let items = v.get("vulnerabilities")?.as_array()?;
    Some(
        items.iter().filter_map(
            |x| x.get("id").and_then(|i| i.as_str()).map(|s| s.to_string()),
        ).collect(),
    )
}

/// The catalog entry a detail document with text `text`, filed under `key`,
/// gives rise to.
pub open spec fn entry_of(key: Seq<char>, text: Seq<char>) -> CatalogEntryV {
    CatalogEntryV {
        key: key,
        description: json_string_field(text, "description"@),
        example_scenario: json_string_field(text, "example_scenario"@),
        secure_example: json_string_field(text, "secure_example"@),
    }
}

/// The first index of a document with the given stem, if any.
pub open spec fn doc_index(docs: Seq<DocumentV>, stem: Seq<char>) -> Option<int>
    decreases docs.len(),
{
    if docs.len() == 0 {
        None
    } else if docs[0].stem == stem {
        Some(0int)
    } else {
        match doc_index(docs.drop_first(), stem) {
            Some(i) => Some(i + 1),
            None => None,
        }
    }
}

/// The entries an index with identifiers `ids` selects from `docs`:
/// one entry per listed identifier whose document is present, in index
/// order.
pub open spec fn catalog_from_ids(docs: Seq<DocumentV>, ids: Seq<Seq<char>>) -> Seq<
    CatalogEntryV,
>
    decreases ids.len(),
{
    if ids.len() == 0 {
        Seq::empty()
    } else {
        (match doc_index(docs, ids[0]) {
            Some(j) => seq![entry_of(ids[0], docs[j].text)],
            None => Seq::empty(),
        }) + catalog_from_ids(docs, ids.drop_first())
    }
}

/// The entries loaded without an index: every document but the index
/// itself, keyed by its stem, in document order.
pub open spec fn catalog_from_docs(docs: Seq<DocumentV>) -> Seq<CatalogEntryV>
    decreases docs.len(),
{
    if docs.len() == 0 {
        Seq::empty()
    } else {
        (if docs[0].stem == "index"@ {
            Seq::<CatalogEntryV>::empty()
        } else {
            seq![entry_of(docs[0].stem, docs[0].text)]
        }) + catalog_from_docs(docs.drop_first())
    }
}

/// What loading yields: with a well-formed index, the entries it selects
/// (an index that does not parse or lacks the identifier array yields no
/// entry); with no index, every detail document keyed by stem.
pub open spec fn spec_load(index: Option<Seq<char>>, docs: Seq<DocumentV>) -> Seq<
    CatalogEntryV,
> {
    match index {
        Some(t) => match json_index_ids(t) {
            Some(ids) => catalog_from_ids(docs, ids),
            None => Seq::empty(),
        },
        None => catalog_from_docs(docs),
    }
}

proof fn lemma_doc_index_found(docs: Seq<DocumentV>, stem: Seq<char>, j: int)
    requires
        0 <= j < docs.len(),
        docs[j].stem == stem,
        forall|k: int| 0 <= k < j ==> docs[k].stem != stem,
    ensures
        doc_index(docs, stem) == Some(j),
    decreases j,
{
    if j > 0 {
        assert(forall|k: int|
            0 <= k < j - 1 ==> docs.drop_first()[k] == docs[k + 1]);
        lemma_doc_index_found(docs.drop_first(), stem, j - 1);
    }
}

proof fn lemma_doc_index_none(docs: Seq<DocumentV>, stem: Seq<char>)
    requires
        forall|k: int| 0 <= k < docs.len() ==> docs[k].stem != stem,
    ensures
        doc_index(docs, stem) is None,
    decreases docs.len(),
{
    if docs.len() > 0 {
        assert(forall|k: int|
            0 <= k < docs.len() - 1 ==> docs.drop_first()[k] == docs[k + 1]);
        lemma_doc_index_none(docs.drop_first(), stem);
    }
}

/// Finds the first document with the given stem.
fn find_document<'a>(docs: &'a Vec<Document>, stem: &String) -> (r: Option<&'a Document>)
    ensures
        match r {
            Some(d) => ({
                &&& doc_index(docs.deep_view(), stem@) is Some
                &&& d@ == docs.deep_view()[doc_index(docs.deep_view(), stem@)->Some_0]
            }),
            None => doc_index(docs.deep_view(), stem@) is None,
        },
{
    let mut j: usize = 0;
    while j < docs.len()
        invariant
            j <= docs@.len(),
            forall|k: int| 0 <= k < j ==> docs.deep_view()[k].stem != stem@,
        decreases docs@.len() - j,
    {
        if str_eq(docs[j].stem.as_str(), stem.as_str()) {
            proof {
                lemma_doc_index_found(docs.deep_view(), stem@, j as int);
            }
            return Some(&docs[j]);
        }
        j += 1;
    }
    proof {
        lemma_doc_index_none(docs.deep_view(), stem@);
    }
    None
}

/// Builds the entry a detail document `text` gives rise to under `key`.
fn build_entry(key: &String, text: &String) -> (r: CatalogEntry)
    ensures
        r@ == entry_of(key@, text@),
{
    CatalogEntry {
        key: key.clone(),
        description: parse_string_field(text.as_str(), "description"),
        example_scenario: parse_string_field(text.as_str(), "example_scenario"),
        secure_example: parse_string_field(text.as_str(), "secure_example"),
    }
}

/// Loads the description catalog from the raw texts of a documents
/// directory: `index_text` is the text of the index document if one
/// exists, `documents` are all detail documents (the index among them,
/// under the stem `index`). A caller whose directory is missing or
/// unreadable passes nothing and receives an empty catalog.
pub fn load_vulnerability_descriptions(
    index_text: Option<&String>,
    documents: &Vec<Document>,
) -> (r: Catalog)
    ensures
        r@ == spec_load(
            match index_text {
                Some(t) => Some(t@),
                None => None,
            },
            documents.deep_view(),
        ),
{
    let ghost docs = documents.deep_view();
    match index_text {
        Some(text) => {
            match parse_index_ids(text.as_str()) {
                Some(ids) => {
                    let mut entries: Vec<CatalogEntry> = Vec::new();
                    let ghost idsv = ids.deep_view();
                    let mut k: usize = 0;
                    proof {
                        assert(idsv.subrange(0, idsv.len() as int) =~= idsv);
                        assert(entries.deep_view() + catalog_from_ids(docs, idsv)
                            =~= catalog_from_ids(docs, idsv));
                    }
                    while k < ids.len()
                        invariant
                            k <= ids@.len(),
                            idsv == ids.deep_view(),
                            docs == documents.deep_view(),
                            catalog_from_ids(docs, idsv) == entries.deep_view()
                                + catalog_from_ids(
                                docs,
                                idsv.subrange(k as int, idsv.len() as int),
                            ),
                        decreases ids@.len() - k,
                    {
                        let ghost rest = idsv.subrange(k as int, idsv.len() as int);
                        let ghost restp = idsv.subrange(k + 1, idsv.len() as int);
                        proof {
                            assert(rest[0] == idsv[k as int]);
                            assert(rest.drop_first() =~= restp);
                        }
                        let ghost old_entries = entries.deep_view();
                        match find_document(documents, &ids[k]) {
                            Some(doc) => {
                                let e = build_entry(&ids[k], &doc.text);
                                entries.push(e);
                                proof {
                                    assert(entries.deep_view() =~~= old_entries.push(
                                        entry_of(idsv[k as int], doc@.text),
                                    ));
                                    assert(old_entries + (seq![
                                        entry_of(idsv[k as int], doc@.text),
                                    ] + catalog_from_ids(docs, restp)) =~= old_entries.push(
                                        entry_of(idsv[k as int], doc@.text),
                                    ) + catalog_from_ids(docs, restp));
                                }
                            },
                            None => {
                                proof {
                                    assert(Seq::<CatalogEntryV>::empty() + catalog_from_ids(
                                        docs,
                                        restp,
                                    ) =~= catalog_from_ids(docs, restp));
                                }
                            },
                        }
                        k += 1;
                    }
                    proof {
                        assert(idsv.subrange(idsv.len() as int, idsv.len() as int)
                            =~= Seq::<Seq<char>>::empty());
                        assert(entries.deep_view() + Seq::<CatalogEntryV>::empty()
                            =~= entries.deep_view());
                    }
                    Catalog { entries }
                },
                None => {
                    Catalog { entries: Vec::new() }
                },
            }
        },
        None => {
            let mut entries: Vec<CatalogEntry> = Vec::new();
            let mut k: usize = 0;
            proof {
                assert(docs.subrange(0, docs.len() as int) =~= docs);
                assert(entries.deep_view() + catalog_from_docs(docs) =~= catalog_from_docs(
                    docs,
                ));
            }
            while k < documents.len()
                invariant
                    k <= documents@.len(),
                    docs == documents.deep_view(),
                    catalog_from_docs(docs) == entries.deep_view() + catalog_from_docs(
                        docs.subrange(k as int, docs.len() as int),
                    ),
                decreases documents@.len() - k,
            {
                let ghost rest = docs.subrange(k as int, docs.len() as int);
                let ghost restp = docs.subrange(k + 1, docs.len() as int);
                proof {
                    assert(rest[0] == docs[k as int]);
                    assert(rest.drop_first() =~= restp);
                }
                let ghost old_entries = entries.deep_view();
                let is_index = str_eq(documents[k].stem.as_str(), "index");
                if !is_index {
                    let e = build_entry(&documents[k].stem, &documents[k].text);
                    entries.push(e);
                    proof {
                        assert(entries.deep_view() =~~= old_entries.push(
                            entry_of(docs[k as int].stem, docs[k as int].text),
                        ));
                        assert(old_entries + (seq![
                            entry_of(docs[k as int].stem, docs[k as int].text),
                        ] + catalog_from_docs(restp)) =~= old_entries.push(
                            entry_of(docs[k as int].stem, docs[k as int].text),
                        ) + catalog_from_docs(restp));
                    }
                } else {
                    proof {
                        assert(Seq::<CatalogEntryV>::empty() + catalog_from_docs(restp)
                            =~= catalog_from_docs(restp));
                    }
                }
                k += 1;
            }
            proof {
                assert(docs.subrange(docs.len() as int, docs.len() as int)
                    =~= Seq::<DocumentV>::empty());
                assert(entries.deep_view() + Seq::<CatalogEntryV>::empty()
                    =~= entries.deep_view());
            }
            Catalog { entries }
        },
    }
}

/// A key matches a keyword when the ASCII-lower-cased key contains the
/// ASCII-lower-cased keyword.
pub open spec fn entry_matches(key: Seq<char>, keyword: Seq<char>) -> bool {
    contains_seq(lower_seq(key), lower_seq(keyword))
}

/// The first entry index whose key matches the keyword, if any.
pub open spec fn first_match(entries: Seq<CatalogEntryV>, keyword: Seq<char>) -> Option<int>
    decreases entries.len(),
{
    if entries.len() == 0 {
        None
    } else if entry_matches(entries[0].key, keyword) {
        Some(0int)
    } else {
        match first_match(entries.drop_first(), keyword) {
            Some(i) => Some(i + 1),
            None => None,
        }
    }
}

proof fn lemma_first_match_found(entries: Seq<CatalogEntryV>, keyword: Seq<char>, j: int)
    requires
        0 <= j < entries.len(),
        entry_matches(entries[j].key, keyword),
        forall|k: int| 0 <= k < j ==> !entry_matches(entries[k].key, keyword),
    ensures
        first_match(entries, keyword) == Some(j),
    decreases j,
{
    if j > 0 {
        assert(forall|k: int|
            0 <= k < j - 1 ==> entries.drop_first()[k] == entries[k + 1]);
        lemma_first_match_found(entries.drop_first(), keyword, j - 1);
    }
}

proof fn lemma_first_match_none(entries: Seq<CatalogEntryV>, keyword: Seq<char>)
    requires
        forall|k: int| 0 <= k < entries.len() ==> !entry_matches(entries[k].key, keyword),
    ensures
        first_match(entries, keyword) is None,
    decreases entries.len(),
{
    if entries.len() > 0 {
        assert(forall|k: int|
            0 <= k < entries.len() - 1 ==> entries.drop_first()[k] == entries[k + 1]);
        lemma_first_match_none(entries.drop_first(), keyword);
    }
}

/// Looks up the first catalog entry whose key contains `key`,
/// case-insensitively. Ties among several matching keys go to the entry
/// loaded first.
pub fn find_vulnerability_description<'a>(key: &str, descriptions: &'a Catalog) -> (r: Option<
    &'a CatalogEntry,
>)
    ensures
        match r {
            Some(e) => ({
                &&& first_match(descriptions@, key@) is Some
                &&& e@ == descriptions@[first_match(descriptions@, key@)->Some_0]
            }),
            None => first_match(descriptions@, key@) is None,
        },
{
    let kw = chars_of(key);
    let kw_lower = lower_vec(&kw);
    let mut j: usize = 0;
    while j < descriptions.entries.len()
        invariant
            j <= descriptions.entries@.len(),
            kw_lower@ == lower_seq(key@),
            forall|k: int| 0 <= k < j ==> !entry_matches(descriptions@[k].key, key@),
        decreases descriptions.entries@.len() - j,
    {
        let ks = chars_of(descriptions.entries[j].key.as_str());
        let ks_lower = lower_vec(&ks);
        if vec_contains(&ks_lower, &kw_lower) {
            proof {
                lemma_first_match_found(descriptions@, key@, j as int);
            }
            return Some(&descriptions.entries[j]);
        }
        j += 1;
    }
    proof {
        lemma_first_match_none(descriptions@, key@);
    }
    None
}

} // verus!
