use vstd::prelude::*;
use vstd::string::*;
use crate::json::{json_escaped, json_quoted, lemma_escaped_prefix_unique, quote_json};
use crate::path::{file_name_of, get_filename};

verus! {

/// A file's name and full text, as uploaded to the indexing service.
#[derive(Clone, Debug)]
pub struct LogFile {
    pub content: String,
    pub name: String,
}

/// The request body that registers a named analyzer.
#[derive(Clone, Debug)]
pub struct NewAnalyzer {
    pub analyzer: String,
}

/// Why a job did not end with an identifier.
#[derive(Clone, Debug)]
pub enum JobError {
    /// The file could not be read as text; holds the reader's description.
    FileRead(String),
    /// The path has no final component to name the file by; holds the path.
    MissingFileName(String),
    /// The request could not be sent or its answer not fully read.
    Transport(String),
    /// The answer is not JSON.
    ResponseParse,
    /// The answer is JSON without a string member `id`.
    ResponseSchema,
}

/// A POST to send: where to, and the JSON text to send.
#[derive(Clone, Debug)]
pub struct UploadRequest {
    pub url: String,
    pub body: String,
}

/// The compact JSON object for a file, members in key order.
pub open spec fn log_file_json(content: Seq<char>, name: Seq<char>) -> Seq<char> {
    "{\"content\":"@ + json_quoted(content) + ",\"name\":"@ + json_quoted(name) + "}"@
}

/// The compact JSON object that names an analyzer.
pub open spec fn analyzer_json(analyzer: Seq<char>) -> Seq<char> {
    "{\"analyzer\":"@ + json_quoted(analyzer) + "}"@
}

/// The endpoint that takes files.
pub open spec fn file_endpoint_of(base: Seq<char>) -> Seq<char> {
    base + "/file"@
}

/// The endpoint that takes analyzers.
pub open spec fn analyzer_endpoint_of(base: Seq<char>) -> Seq<char> {
    base + "/analyzer"@
}

/// A file's document is recovered from its JSON text: two documents with
/// the same text have the same content and the same name.
pub proof fn lemma_log_file_json_round_trip(c1: Seq<char>, n1: Seq<char>, c2: Seq<char>, n2: Seq<char>)
    requires
        log_file_json(c1, n1) == log_file_json(c2, n2),
    ensures
        c1 == c2,
        n1 == n2,
{
    reveal_strlit("{\"content\":");
    reveal_strlit(",\"name\":");
    let k1 = "{\"content\":"@;
    let k2 = ",\"name\":"@;
    let k3 = "}"@;
    let t = log_file_json(c1, n1);
    let rest1 = json_escaped(c1) + seq!['"'] + (k2 + json_quoted(n1) + k3);
    let rest2 = json_escaped(c2) + seq!['"'] + (k2 + json_quoted(n2) + k3);
    assert(t =~= k1 + seq!['"'] + rest1);
    assert(log_file_json(c2, n2) =~= k1 + seq!['"'] + rest2);
    assert(rest1 =~= t.subrange(k1.len() as int + 1, t.len() as int));
    assert(rest2 =~= t.subrange(k1.len() as int + 1, t.len() as int));
    lemma_escaped_prefix_unique(c1, c2, k2 + json_quoted(n1) + k3, k2 + json_quoted(n2) + k3);
    let u = k2 + json_quoted(n1) + k3;
    let m1 = json_escaped(n1) + seq!['"'] + k3;
    let m2 = json_escaped(n2) + seq!['"'] + k3;
    assert(u =~= k2 + seq!['"'] + m1);
    assert(k2 + json_quoted(n2) + k3 =~= k2 + seq!['"'] + m2);
    assert(m1 =~= u.subrange(k2.len() as int + 1, u.len() as int));
    assert(m2 =~= u.subrange(k2.len() as int + 1, u.len() as int));
    lemma_escaped_prefix_unique(n1, n2, k3, k3);
}

/// The JSON text of a file's document.
pub fn produce_json_payload(filename: String, contents: String) -> (r: String)
    ensures
        r@ == log_file_json(contents@, filename@),
{
    let mut out = String::from_str("{\"content\":");
    let c = quote_json(contents.as_str());
    out.append(c.as_str());
    out.append(",\"name\":");
    let n = quote_json(filename.as_str());
    out.append(n.as_str());
    out.append("}");
    out
}

impl LogFile {
    /// The JSON text of this document.
    pub fn to_json(&self) -> (r: String)
        ensures
            r@ == log_file_json(self.content@, self.name@),
    {
        produce_json_payload(self.name.clone(), self.content.clone())
    }
}

impl NewAnalyzer {
    pub fn new(analyzer: String) -> (r: NewAnalyzer)
        ensures
            r.analyzer@ == analyzer@,
    {
        NewAnalyzer { analyzer }
    }

    pub fn analyzer(&self) -> (r: &String)
        ensures
            r@ == self.analyzer@,
    {
        &self.analyzer
    }

    /// The JSON text of this registration.
    pub fn to_json(&self) -> (r: String)
        ensures
            r@ == analyzer_json(self.analyzer@),
    {
        let mut out = String::from_str("{\"analyzer\":");
        let a = quote_json(self.analyzer.as_str());
        out.append(a.as_str());
        out.append("}");
        out
    }
}

/// The endpoint that takes files, under the service's base URL.
pub fn file_endpoint(base_url: &str) -> (r: String)
    ensures
        r@ == file_endpoint_of(base_url@),
{
    let mut out = String::from_str(base_url);
    out.append("/file");
    out
}

/// The endpoint that takes analyzers, under the service's base URL.
pub fn analyzer_endpoint(base_url: &str) -> (r: String)
    ensures
        r@ == analyzer_endpoint_of(base_url@),
{
    let mut out = String::from_str(base_url);
    out.append("/analyzer");
    out
}

/// The document for the file at `path` whose text is `content`; a path with
/// no final component is refused.
pub fn build_log_file(path: &str, content: String) -> (r: Result<LogFile, JobError>)
    ensures
        r is Err <==> file_name_of(path@) is None,
        r matches Ok(d) ==> Some(d.name@) == file_name_of(path@) && d.content@ == content@,
        r matches Err(e) ==> e matches JobError::MissingFileName(p) && p@ == path@,
{
    match get_filename(path) {
        Some(name) => Ok(LogFile { content, name }),
        None => Err(JobError::MissingFileName(String::from_str(path))),
    }
}

/// The POST that ships the file at `path` whose text is `content`.
pub fn upload_request(path: &str, content: String, base_url: &str)
    -> (r: Result<UploadRequest, JobError>)
    ensures
        r is Err <==> file_name_of(path@) is None,
        r matches Ok(q) ==> q.url@ == file_endpoint_of(base_url@),
        r matches Ok(q) ==> q.body@ == log_file_json(content@, file_name_of(path@)->Some_0),
        r matches Err(e) ==> e matches JobError::MissingFileName(p) && p@ == path@,
{
    let doc = build_log_file(path, content)?;
    let body = doc.to_json();
    Ok(UploadRequest { url: file_endpoint(base_url), body })
}

/// The POST that registers `analyzer`.
pub fn analyzer_request(analyzer: &NewAnalyzer, base_url: &str) -> (r: UploadRequest)
    ensures
        r.url@ == analyzer_endpoint_of(base_url@),
        r.body@ == analyzer_json(analyzer.analyzer@),
{
    UploadRequest { url: analyzer_endpoint(base_url), body: analyzer.to_json() }
}

} // verus!
