//! The grounding retriever: the query sent to the search provider, the
//! documents read from its reply, and the context text handed to a backend.
//!
//! Grounding is best effort. Whatever goes wrong with the provider, the
//! result is an empty list of documents, never an error.

use vstd::prelude::*;
use vstd::string::StringExecFns;
use vstd::utf8::encode_utf8;
use crate::config::{Config, ConfigView};
use crate::json::{document, parse, Json, JsonView};
use crate::outcome::{is_success, success, Outcome, OutcomeView};

verus! {

/// The largest number of documents asked of the provider and kept from its
/// reply.
pub const MAX_RESULTS: usize = 5;

/// The seconds after which a search call is given up.
pub const SEARCH_TIMEOUT_SECS: u64 = 10;

/// The address of the search provider, up to the key.
pub const SEARCH_ENDPOINT: &'static str = "https://www.googleapis.com/customsearch/v1?key=";

/// One search result.
#[derive(Clone, Debug, PartialEq, Eq)]
pub struct GroundingDocument {
    pub title: String,
    pub url: String,
    pub snippet: String,
}

/// A search result as plain text.
pub struct DocumentView {
    pub title: Seq<char>,
    pub url: Seq<char>,
    pub snippet: Seq<char>,
}

impl View for GroundingDocument {
    type V = DocumentView;

    open spec fn view(&self) -> DocumentView {
        DocumentView { title: self.title@, url: self.url@, snippet: self.snippet@ }
    }
}

/// The documents of a list as plain text, in the same order.
pub open spec fn views(documents: Seq<GroundingDocument>) -> Seq<DocumentView> {
    Seq::new(documents.len(), |i: int| documents[i]@)
}

/// A GET request to the search provider.
#[derive(Clone, Debug, PartialEq, Eq)]
pub struct SearchCall {
    pub url: String,
    pub timeout_secs: u64,
}

/// A search call as plain text.
pub struct SearchCallView {
    pub url: Seq<char>,
    pub timeout_secs: u64,
}

impl View for SearchCall {
    type V = SearchCallView;

    open spec fn view(&self) -> SearchCallView {
        SearchCallView { url: self.url@, timeout_secs: self.timeout_secs }
    }
}

/// A byte that a URL component may hold as it is: an ASCII letter or digit,
/// or one of `-`, `.`, `_`, `~`.
pub open spec fn is_unreserved(byte: u8) -> bool {
    ||| 0x30 <= byte <= 0x39
    ||| 0x41 <= byte <= 0x5a
    ||| 0x61 <= byte <= 0x7a
    ||| byte == 0x2d
    ||| byte == 0x2e
    ||| byte == 0x5f
    ||| byte == 0x7e
}

/// The upper-case hexadecimal digit for a value below 16.
pub open spec fn hex_digit(nibble: u8) -> char {
    if nibble < 10 {
        (0x30 + nibble) as char
    } else {
        (0x41 + nibble - 10) as char
    }
}

/// One byte as it stands in a URL component: itself when unreserved,
/// otherwise `%` and its two hexadecimal digits.
pub open spec fn escaped_byte(byte: u8) -> Seq<char> {
    if is_unreserved(byte) {
        seq![byte as char]
    } else {
        seq!['%', hex_digit(byte / 16), hex_digit(byte % 16)]
    }
}

/// The bytes of a text, each escaped, one after the other.
pub open spec fn escaped(bytes: Seq<u8>) -> Seq<char>
    decreases bytes.len(),
{
    if bytes.len() == 0 {
        Seq::empty()
    } else {
        escaped_byte(bytes[0]) + escaped(bytes.drop_first())
    }
}

/// A text percent-encoded for use as a URL component: its UTF-8 bytes,
/// escaped.
pub open spec fn percent_encoded(text: Seq<char>) -> Seq<char> {
    escaped(encode_utf8(text))
}

/// Calls `urlencoding::encode`. Trusted: every byte of the UTF-8 form of
/// the text is kept when it is an ASCII letter, a digit or one of `-._~`,
/// and is otherwise replaced by `%` and two upper-case hexadecimal digits.
#[verifier::external_body]
fn percent_encode(text: &str) -> (encoded: String)
    ensures
        encoded@ == percent_encoded(text@),
{
    urlencoding::encode(text).into_owned()
}

/// The URL of a search for `query`.
pub open spec fn search_url_text(api_key: Seq<char>, scope: Seq<char>, query: Seq<char>) -> Seq<
    char,
> {
    SEARCH_ENDPOINT@ + api_key + "&cx="@ + scope + "&q="@ + percent_encoded(query) + "&num=5"@
}

/// Builds the URL of a search for `query`. The query is percent-encoded; key
/// and scope are taken as they are.
pub fn search_url(api_key: &str, scope: &str, query: &str) -> (url: String)
    ensures
        url@ == search_url_text(api_key@, scope@, query@),
{
    let encoded = percent_encode(query);
    let mut url = String::from_str(SEARCH_ENDPOINT);
    url.append(api_key);
    url.append("&cx=");
    url.append(scope);
    url.append("&q=");
    url.append(encoded.as_str());
    url.append("&num=5");
    url
}

/// The search call for `query`, where the provider is configured.
pub open spec fn search_call_for(config: ConfigView, query: Seq<char>) -> Option<SearchCallView> {
    match (config.search_api_key, config.search_scope) {
        (Some(api_key), Some(scope)) => Some(
            SearchCallView {
                url: search_url_text(api_key, scope, query),
                timeout_secs: SEARCH_TIMEOUT_SECS,
            },
        ),
        _ => None,
    }
}

/// The call that retrieves grounding for `query`, or `None` when the key or
/// the scope of the search provider is not configured.
pub fn search_call(config: &Config, query: &str) -> (call: Option<SearchCall>)
    ensures
        call matches Some(c) ==> search_call_for(config@, query@) == Some(c@),
        call is None ==> search_call_for(config@, query@) is None,
        call is Some <==> config.search_api_key is Some && config.search_scope is Some,
{
    match (&config.search_api_key, &config.search_scope) {
        (Some(api_key), Some(scope)) => Some(
            SearchCall {
                url: search_url(api_key.as_str(), scope.as_str(), query),
                timeout_secs: SEARCH_TIMEOUT_SECS,
            },
        ),
        _ => None,
    }
}

/// The document that one entry of the provider's list describes: its
/// `title`, its `link` as the URL, and its `snippet`, which may be absent or
/// null and is then empty. `None` where the entry is not of that shape.
pub open spec fn item_document(item: JsonView) -> Option<DocumentView> {
    match (item.member("title"@), item.member("link"@), item.member("snippet"@)) {
        (
            Some(JsonView::Text(title)),
            Some(JsonView::Text(link)),
            Some(JsonView::Text(snippet)),
        ) => Some(DocumentView { title, url: link, snippet }),
        (Some(JsonView::Text(title)), Some(JsonView::Text(link)), Some(JsonView::Null)) => Some(
            DocumentView { title, url: link, snippet: Seq::empty() },
        ),
        (Some(JsonView::Text(title)), Some(JsonView::Text(link)), None) => Some(
            DocumentView { title, url: link, snippet: Seq::empty() },
        ),
        _ => None,
    }
}

/// The documents that a list of entries describes, in the list's order, or
/// `None` where some entry is not a document.
pub open spec fn listed_documents(items: Seq<JsonView>) -> Option<Seq<DocumentView>> {
    if forall|i: int| 0 <= i < items.len() ==> (#[trigger] item_document(items[i])) is Some {
        Some(Seq::new(items.len(), |i: int| item_document(items[i])->0))
    } else {
        None
    }
}

/// The documents that a reply of the provider lists under `items`. A reply
/// without that member, or with null there, lists none. `None` where the
/// reply is not an object or `items` is not a list of documents.
pub open spec fn reply_documents(reply: JsonView) -> Option<Seq<DocumentView>> {
    match reply {
        JsonView::Object(_) => match reply.member("items"@) {
            None => Some(Seq::empty()),
            Some(JsonView::Null) => Some(Seq::empty()),
            Some(JsonView::Array(items)) => listed_documents(items),
            Some(_) => None,
        },
        _ => None,
    }
}

/// The leading documents of a list, at most [`MAX_RESULTS`] of them.
pub open spec fn leading(documents: Seq<DocumentView>) -> Seq<DocumentView> {
    if documents.len() <= MAX_RESULTS {
        documents
    } else {
        documents.take(MAX_RESULTS as int)
    }
}

/// The documents kept from a parsed reply: the leading ones of those it
/// lists, none where it is malformed.
pub open spec fn documents_read(reply: JsonView) -> Seq<DocumentView> {
    match reply_documents(reply) {
        Some(documents) => leading(documents),
        None => Seq::empty(),
    }
}

/// The documents that a search call yields. There are none when the call
/// got no reply, when the status is not a success, or when the body is not
/// JSON of the expected shape.
pub open spec fn retrieved(outcome: OutcomeView) -> Seq<DocumentView> {
    match outcome {
        OutcomeView::Unreachable => Seq::empty(),
        OutcomeView::Reply { status, body } => if success(status) {
            match document(body) {
                Some(reply) => documents_read(reply),
                None => Seq::empty(),
            }
        } else {
            Seq::empty()
        },
    }
}

/// Whatever a search call ends in, at most [`MAX_RESULTS`] documents are
/// retrieved, and none where no reply came or the status is no success.
pub proof fn lemma_retrieved_bounded(outcome: OutcomeView)
    ensures
        retrieved(outcome).len() <= MAX_RESULTS,
        outcome is Unreachable ==> retrieved(outcome).len() == 0,
        outcome matches OutcomeView::Reply { status, .. } && !success(status) ==> retrieved(
            outcome,
        ).len() == 0,
{
}

/// Reads one entry of the provider's list.
pub fn document_of(item: &Json) -> (read: Option<GroundingDocument>)
    ensures
        read matches Some(d) ==> item_document(item@) == Some(d@),
        read is None ==> item_document(item@) is None,
{
    let title = match item.get("title") {
        Some(value) => match value.as_text() {
            Some(text) => text,
            None => { return None; },
        },
        None => { return None; },
    };
    let link = match item.get("link") {
        Some(value) => match value.as_text() {
            Some(text) => text,
            None => { return None; },
        },
        None => { return None; },
    };
    let snippet = match item.get("snippet") {
        Some(value) => match value {
            Json::Text(text) => text.as_str(),
            Json::Null => "",
            _ => { return None; },
        },
        None => "",
    };
    proof {
        reveal_strlit("");
    }
    assert(""@ =~= Seq::<char>::empty());
    Some(
        GroundingDocument {
            title: title.to_owned(),
            url: link.to_owned(),
            snippet: snippet.to_owned(),
        },
    )
}

/// Reads the documents out of a parsed reply of the provider.
pub fn documents_in(reply: &Json) -> (documents: Vec<GroundingDocument>)
    ensures
        views(documents@) == documents_read(reply@),
        documents@.len() <= MAX_RESULTS,
{
    let mut documents: Vec<GroundingDocument> = Vec::new();
    assert(views(documents@) =~= Seq::empty());
    let items = match reply {
        Json::Object(_) => match reply.get("items") {
            Some(value) => match value {
                Json::Array(items) => items,
                _ => { return documents; },
            },
            None => { return documents; },
        },
        _ => { return documents; },
    };
    let ghost listed = reply@.member("items"@)->0->Array_0;
    let mut i: usize = 0;
    while i < items.len()
        invariant
            i <= items.len(),
            documents@.len() == i,
            listed.len() == items@.len(),
            forall|j: int| 0 <= j < listed.len() ==> #[trigger] listed[j] == items@[j]@,
            reply_documents(reply@) == listed_documents(listed),
            forall|j: int|
                0 <= j < i ==> (#[trigger] item_document(listed[j])) == Some(documents@[j]@),
        decreases items.len() - i,
    {
        match document_of(&items[i]) {
            Some(document) => {
                documents.push(document);
            },
            None => {
                assert(item_document(listed[i as int]) is None);
                assert(listed_documents(listed) is None);
                let nothing: Vec<GroundingDocument> = Vec::new();
                assert(views(nothing@) =~= Seq::empty());
                return nothing;
            },
        }
        i += 1;
    }
    assert(listed_documents(listed) is Some);
    assert(views(documents@) =~= listed_documents(listed)->0);
    if documents.len() > MAX_RESULTS {
        let ghost all = views(documents@);
        documents.truncate(MAX_RESULTS);
        assert(views(documents@) =~= all.take(MAX_RESULTS as int));
    }
    documents
}

/// Reads the documents out of the outcome of a search call. Nothing the
/// provider does makes this fail: where there is no usable reply, there are
/// no documents.
pub fn retrieve(outcome: &Outcome) -> (documents: Vec<GroundingDocument>)
    ensures
        views(documents@) == retrieved(outcome@),
        documents@.len() <= MAX_RESULTS,
        *outcome is Unreachable ==> documents@.len() == 0,
        *outcome matches Outcome::Reply { status, .. } && !success(status) ==> documents@.len()
            == 0,
{
    match outcome {
        Outcome::Unreachable => {
            let nothing: Vec<GroundingDocument> = Vec::new();
            assert(views(nothing@) =~= Seq::empty());
            nothing
        },
        Outcome::Reply { status, body } => {
            if !is_success(*status) {
                let nothing: Vec<GroundingDocument> = Vec::new();
                assert(views(nothing@) =~= Seq::empty());
                return nothing;
            }
            match parse(body.as_slice()) {
                Some(reply) => documents_in(&reply),
                None => {
                    let nothing: Vec<GroundingDocument> = Vec::new();
                    assert(views(nothing@) =~= Seq::empty());
                    nothing
                },
            }
        },
    }
}

/// The line that one document contributes to the context.
pub open spec fn context_line(document: DocumentView) -> Seq<char> {
    "- "@ + document.title + ": "@ + document.snippet
}

/// The context text of a list of documents: one line each, in order, with a
/// line feed between two lines and none at the end.
pub open spec fn context_text(documents: Seq<DocumentView>) -> Seq<char>
    decreases documents.len(),
{
    if documents.len() == 0 {
        Seq::empty()
    } else if documents.len() == 1 {
        context_line(documents[0])
    } else {
        context_text(documents.drop_last()) + "\n"@ + context_line(documents.last())
    }
}

/// Writes the context text for a list of documents.
pub fn context_of(documents: &Vec<GroundingDocument>) -> (context: String)
    ensures
        context@ == context_text(views(documents@)),
        context@.len() == 0 <==> documents@.len() == 0,
{
    let mut context = String::new();
    let mut i: usize = 0;
    assert(views(documents@).take(0) =~= Seq::empty());
    while i < documents.len()
        invariant
            i <= documents.len(),
            context@ == context_text(views(documents@).take(i as int)),
        decreases documents.len() - i,
    {
        let ghost before = views(documents@).take(i as int);
        let ghost after = views(documents@).take(i + 1);
        assert(after.drop_last() =~= before);
        assert(after.last() == documents@[i as int]@);
        if i > 0 {
            context.append("\n");
        }
        context.append("- ");
        context.append(documents[i].title.as_str());
        context.append(": ");
        context.append(documents[i].snippet.as_str());
        assert(context@ =~= context_text(after));
        i += 1;
    }
    assert(views(documents@).take(i as int) =~= views(documents@));
    proof {
        lemma_context_empty_iff_no_documents(views(documents@));
    }
    context
}

/// The context text is empty exactly when there are no documents.
pub proof fn lemma_context_empty_iff_no_documents(documents: Seq<DocumentView>)
    ensures
        context_text(documents).len() == 0 <==> documents.len() == 0,
    decreases documents.len(),
{
    reveal_strlit("- ");
    if documents.len() > 1 {
        lemma_context_empty_iff_no_documents(documents.drop_last());
    }
}

} // verus!
