//! The manifest decoder: from the text of a request body to its YAML
//! documents, in order.
//!
//! The YAML itself is read by `serde_yaml`. What this module adds is the
//! walk over the stream: it stops at the first document that fails and
//! reports that document's position, and it gives an empty body no document
//! at all.

use vstd::prelude::*;

verus! {

/// `serde_yaml::Value`, any YAML value. Opaque: it is carried, never read.
#[verifier::external_type_specification]
#[verifier::external_body]
pub struct ExYamlValue(serde_yaml::Value);

/// `serde_yaml::Deserializer`, which as an iterator walks the documents of a
/// YAML stream. Opaque: what is known of it is what [`stream_text`] and
/// [`stream_taken`] name.
#[verifier::external_type_specification]
#[verifier::external_body]
pub struct ExYamlStream<'de>(serde_yaml::Deserializer<'de>);

/// The documents at the head of the YAML stream `text` that deserialize
/// into a `serde_yaml::Value`: all of them where every document is well
/// formed, else those before the first that is not.
pub uninterp spec fn yaml_documents(text: Seq<char>) -> Seq<serde_yaml::Value>;

/// The error text of the first document of the YAML stream `text` that
/// does not deserialize, if there is one.
pub uninterp spec fn yaml_failure(text: Seq<char>) -> Option<Seq<char>>;

/// The text that a YAML stream reads.
pub uninterp spec fn stream_text(stream: serde_yaml::Deserializer<'_>) -> Seq<char>;

/// The number of documents already taken from a YAML stream.
pub uninterp spec fn stream_taken(stream: serde_yaml::Deserializer<'_>) -> nat;

/// One parsed YAML or JSON value of a manifest. The value is opaque here: the
/// engine hands it on and never looks inside.
#[derive(Debug, PartialEq)]
pub struct ManifestDocument {
    pub value: serde_yaml::Value,
}

/// The views of a sequence of documents: the values they hold.
pub open spec fn document_values(docs: Seq<ManifestDocument>) -> Seq<serde_yaml::Value> {
    Seq::new(docs.len(), |i: int| docs[i].value)
}

/// A manifest that could not be decoded.
#[derive(Clone, Debug, PartialEq, Eq)]
pub struct DecodeError {
    /// Position of the document that failed, counted from zero.
    pub index: usize,
    /// What the YAML reader said of it.
    pub message: String,
}

pub struct DecodeErrorView {
    pub index: nat,
    pub message: Seq<char>,
}

impl View for DecodeError {
    type V = DecodeErrorView;

    open spec fn view(&self) -> DecodeErrorView {
        DecodeErrorView { index: self.index as nat, message: self.message@ }
    }
}

/// What reading one document gave: the value, or the reader's error text.
pub open spec fn outcomes(v: Seq<Result<serde_yaml::Value, String>>) -> Seq<
    Result<serde_yaml::Value, Seq<char>>,
> {
    Seq::new(
        v.len(),
        |i: int|
            match v[i] {
                Ok(value) => Ok(value),
                Err(message) => Err(message@),
            },
    )
}

/// Position of the first failure at or after `from`.
pub open spec fn first_failure(read: Seq<Result<serde_yaml::Value, Seq<char>>>, from: int)
    -> Option<int>
    decreases read.len() - from,
{
    if from < 0 || from >= read.len() {
        None
    } else if read[from] is Err {
        Some(from)
    } else {
        first_failure(read, from + 1)
    }
}

/// The documents that a list of read outcomes amounts to: all of them
/// where none failed, else the position and the message of the first failure.
pub open spec fn collected(read: Seq<Result<serde_yaml::Value, Seq<char>>>) -> Result<
    Seq<serde_yaml::Value>,
    DecodeErrorView,
> {
    match first_failure(read, 0) {
        Some(i) => Err(DecodeErrorView { index: i as nat, message: read[i]->Err_0 }),
        None => Ok(Seq::new(read.len(), |i: int| read[i]->Ok_0)),
    }
}

/// What reading the YAML stream `text` gives, document by document, up to
/// and including the first failure.
pub open spec fn stream_outcomes(text: Seq<char>) -> Seq<Result<serde_yaml::Value, Seq<char>>> {
    let read = Seq::new(
        yaml_documents(text).len(),
        |i: int| Ok::<serde_yaml::Value, Seq<char>>(yaml_documents(text)[i]),
    );
    match yaml_failure(text) {
        Some(message) => read.push(Err(message)),
        None => read,
    }
}

/// What a manifest text decodes to: nothing for an empty text; otherwise
/// all documents of the stream, or the position and message of the first
/// that fails.
pub open spec fn decoded_manifest(text: Seq<char>) -> Result<
    Seq<serde_yaml::Value>,
    DecodeErrorView,
> {
    if text.len() == 0 {
        Ok(Seq::empty())
    } else {
        collected(stream_outcomes(text))
    }
}

/// The view of a decoding result.
pub open spec fn decoding(r: Result<Vec<ManifestDocument>, DecodeError>) -> Result<
    Seq<serde_yaml::Value>,
    DecodeErrorView,
> {
    match r {
        Ok(docs) => Ok(document_values(docs@)),
        Err(e) => Err(e@),
    }
}

/// What `first_failure` finds is a failure, and nothing before it is.
pub proof fn lemma_first_failure(read: Seq<Result<serde_yaml::Value, Seq<char>>>, from: int)
    requires
        0 <= from,
    ensures
        match first_failure(read, from) {
            Some(i) => from <= i < read.len() && read[i] is Err && forall|k: int|
                from <= k < i ==> #[trigger] read[k] is Ok,
            None => forall|k: int| from <= k < read.len() ==> #[trigger] read[k] is Ok,
        },
    decreases read.len() - from,
{
    if from < read.len() && read[from] is Ok {
        lemma_first_failure(read, from + 1);
    }
}

/// A manifest that is not empty decodes to the well-formed documents of
/// its stream where none fails, and fails at the position behind them, with
/// the reader's message, where one does.
pub proof fn lemma_decoded_manifest(text: Seq<char>)
    requires
        text.len() > 0,
    ensures
        decoded_manifest(text) == match yaml_failure(text) {
            Some(message) => Err::<Seq<serde_yaml::Value>, DecodeErrorView>(
                DecodeErrorView { index: yaml_documents(text).len(), message },
            ),
            None => Ok(yaml_documents(text)),
        },
{
    let read = stream_outcomes(text);
    lemma_first_failure(read, 0);
    match yaml_failure(text) {
        Some(message) => {
            assert(read[yaml_documents(text).len() as int] is Err);
        },
        None => {
            assert(Seq::new(read.len(), |i: int| read[i]->Ok_0) =~= yaml_documents(text));
        },
    }
}

/// Calls `serde_yaml::Deserializer::from_str`, which makes a stream over
/// `data` without reading anything yet.
#[verifier::external_body]
fn open_stream<'a>(data: &'a str) -> (stream: serde_yaml::Deserializer<'a>)
    ensures
        stream_text(stream) == data@,
        stream_taken(stream) == 0,
{
    serde_yaml::Deserializer::from_str(data)
}

/// Calls `next` on the stream, as an iterator of documents, and
/// `Deserialize::deserialize` for `serde_yaml::Value` on the document that
/// comes out.
///
/// Claimed: while no document has failed, the call yields the next
/// well-formed document of the text; behind the last of them it yields the
/// reader's error where a malformed document follows, and nothing where the
/// stream ends. Nothing is claimed of calls made after a failure.
#[verifier::external_body]
fn next_document(stream: &mut serde_yaml::Deserializer<'_>) -> (r: Option<
    Result<serde_yaml::Value, String>,
>)
    ensures
        stream_text(*final(stream)) == stream_text(*old(stream)),
        r is Some ==> stream_taken(*final(stream)) == stream_taken(*old(stream)) + 1,
        stream_taken(*old(stream)) < yaml_documents(stream_text(*old(stream))).len() ==> r == Some(
            Ok::<serde_yaml::Value, String>(
                yaml_documents(stream_text(*old(stream)))[stream_taken(*old(stream)) as int],
            ),
        ),
        stream_taken(*old(stream)) == yaml_documents(stream_text(*old(stream))).len()
            ==> match yaml_failure(stream_text(*old(stream))) {
            Some(message) => r matches Some(Err(e)) && e@ == message,
            None => r is None,
        },
{
    stream.next().map(|doc| serde::Deserialize::deserialize(doc).map_err(|e: serde_yaml::Error| e.to_string()))
}

/// Reads the YAML stream `data` document by document, up to and including
/// the first document that fails.
fn read_stream(data: &str) -> (read: Vec<Result<serde_yaml::Value, String>>)
    ensures
        outcomes(read@) == stream_outcomes(data@),
{
    let ghost documents = yaml_documents(data@);
    let mut read: Vec<Result<serde_yaml::Value, String>> = Vec::new();
    let mut stream = open_stream(data);
    loop
        invariant
            documents == yaml_documents(data@),
            stream_text(stream) == data@,
            stream_taken(stream) == read@.len(),
            read@.len() <= documents.len(),
            forall|i: int| 0 <= i < read@.len() ==> read@[i] == Ok::<serde_yaml::Value, String>(
                documents[i],
            ),
        decreases documents.len() - read@.len(),
    {
        match next_document(&mut stream) {
            None => {
                assert(outcomes(read@) =~= stream_outcomes(data@));
                return read;
            },
            Some(Err(message)) => {
                read.push(Err(message));
                assert(outcomes(read@) =~= stream_outcomes(data@));
                return read;
            },
            Some(Ok(value)) => {
                read.push(Ok(value));
            },
        }
    }
}

/// Gathers the documents of a manifest from what reading them gave, in
/// order: all of them where every read succeeded, else the position and the
/// message of the first that failed.
pub fn collect_documents(read: Vec<Result<serde_yaml::Value, String>>) -> (r: Result<
    Vec<ManifestDocument>,
    DecodeError,
>)
    ensures
        decoding(r) == collected(outcomes(read@)),
{
    let ghost all = outcomes(read@);
    let ghost given = read@;
    let mut docs: Vec<ManifestDocument> = Vec::new();
    for outcome in it: read
        invariant
            it.seq() == given,
            all == outcomes(given),
            docs@.len() == it.index(),
            first_failure(all, 0) == first_failure(all, it.index() as int),
            forall|i: int| 0 <= i < docs@.len() ==> all[i] == Ok::<serde_yaml::Value, Seq<char>>(
                docs@[i].value,
            ),
    {
        match outcome {
            Ok(value) => {
                docs.push(ManifestDocument { value });
            },
            Err(message) => {
                return Err(DecodeError { index: docs.len(), message });
            },
        }
    }
    assert(document_values(docs@) =~= Seq::new(all.len(), |i: int| all[i]->Ok_0));
    Ok(docs)
}

/// Decodes a manifest into its documents, in the order in which they stand
/// in the text.
///
/// An empty text holds no document. A malformed document fails the whole
/// decode, with its position: no part of such a manifest is handed on.
pub fn multidoc_deserialize(data: &str) -> (r: Result<Vec<ManifestDocument>, DecodeError>)
    ensures
        decoding(r) == decoded_manifest(data@),
{
    if data.is_empty() {
        let docs: Vec<ManifestDocument> = Vec::new();
        assert(document_values(docs@) =~= Seq::empty());
        return Ok(docs);
    }
    collect_documents(read_stream(data))
}

} // verus!
