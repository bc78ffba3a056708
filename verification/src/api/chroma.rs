//! Versions, addresses, requests and failures of the REST interface.
//!
//! Nothing here talks to a server. A [`ChromaClient`] describes how to reach
//! one: it computes the address of each endpoint and the authentication
//! header, and turns a failure status into a [`ChromaError`]. The host sends
//! the requests and reads the answers.

use reqwest::header::HeaderValue;
use reqwest::StatusCode;
use std::collections::HashMap;
use vstd::prelude::*;
use vstd::string::StrSliceExecFns;
use vstd::string::StringExecFns;
use vstd::utf8::encode_utf8;

verus! {

/// The version of the REST interface that a server speaks.
#[derive(Debug, Clone, Copy, PartialEq, Eq, Structural)]
pub enum ApiVersion {
    /// The first version, with tenant and database passed as query.
    V1,
    /// The second version, with tenant and database in the path.
    V2,
}

impl Default for ApiVersion {
    fn default() -> (version: Self)
        ensures
            version == ApiVersion::V2,
    {
        ApiVersion::V2
    }
}

impl ApiVersion {
    /// The version's name in an address, for contracts.
    pub open spec fn name(&self) -> Seq<char> {
        match self {
            ApiVersion::V1 => "v1"@,
            ApiVersion::V2 => "v2"@,
        }
    }

    /// The version's name in an address: `v1` or `v2`.
    pub fn as_str(&self) -> (name: &'static str)
        ensures
            name@ == self.name(),
    {
        match self {
            ApiVersion::V1 => "v1",
            ApiVersion::V2 => "v2",
        }
    }
}

/// The answer of the heartbeat endpoint.
#[derive(Debug, Clone)]
pub struct HeartbeatResponse {
    /// The server's clock, in nanoseconds.
    pub nanosecond_heartbeat: i64,
}

/// A server's version together with its heartbeat.
#[derive(Debug, Clone)]
pub struct ServerInfo {
    /// The server's version.
    pub version: String,
    /// The server's clock, in nanoseconds.
    pub heartbeat_ns: i64,
    /// The name of the interface version in use.
    pub api_version: String,
}

impl Default for ServerInfo {
    fn default() -> (info: Self)
        ensures
            info.version@ == Seq::<char>::empty(),
            info.heartbeat_ns == 0,
            info.api_version@ == Seq::<char>::empty(),
    {
        ServerInfo { version: String::new(), heartbeat_ns: 0, api_version: String::new() }
    }
}

impl ServerInfo {
    /// Puts a version answer and a heartbeat answer together.
    pub fn combine(version: String, heartbeat: &HeartbeatResponse, api_version: ApiVersion) -> (info:
        Self)
        ensures
            info.version == version,
            info.heartbeat_ns == heartbeat.nanosecond_heartbeat,
            info.api_version@ == api_version.name(),
    {
        ServerInfo {
            version,
            heartbeat_ns: heartbeat.nanosecond_heartbeat,
            api_version: api_version.as_str().to_owned(),
        }
    }
}

/// A tenant.
#[derive(Debug, Clone)]
pub struct Tenant {
    /// The tenant's name.
    pub name: String,
}

/// A database of a tenant.
#[derive(Debug, Clone)]
pub struct Database {
    /// The database's id; empty where the server has not told it.
    pub id: String,
    /// The database's name.
    pub name: String,
    /// The tenant that owns it.
    pub tenant: String,
}

impl Tenant {
    /// The tenant as known right after creating it.
    pub fn created(name: &str) -> (tenant: Self)
        ensures
            tenant.name@ == name@,
    {
        Tenant { name: name.to_owned() }
    }
}

impl Database {
    /// The database as known right after creating it: the server assigns
    /// the id, which is left empty.
    pub fn created(tenant: &str, name: &str) -> (database: Self)
        ensures
            database.id@ == Seq::<char>::empty(),
            database.name@ == name@,
            database.tenant@ == tenant@,
    {
        Database { id: String::new(), name: name.to_owned(), tenant: tenant.to_owned() }
    }
}

/// The most documents asked for where the caller names no limit.
pub const DEFAULT_DOCUMENT_LIMIT: usize = 100;

/// The body of a request for documents.
#[derive(Debug, Clone)]
pub struct GetDocumentsRequest {
    /// The ids wanted, or all.
    pub ids: Option<Vec<String>>,
    /// The most documents wanted.
    pub limit: Option<usize>,
    /// How many documents to skip.
    pub offset: Option<usize>,
    /// The parts of each document wanted.
    pub parts: Vec<String>,
}

impl GetDocumentsRequest {
    /// A request for a page of documents with their text and metadata, of any
    /// id. Without a limit the default limit applies.
    pub fn page(limit: Option<usize>, offset: Option<usize>) -> (request: Self)
        ensures
            request.ids is None,
            request.limit == Some(
                match limit {
                    Some(n) => n,
                    None => DEFAULT_DOCUMENT_LIMIT,
                },
            ),
            request.offset == offset,
            request.parts@.len() == 2,
            request.parts@[0]@ == "documents"@,
            request.parts@[1]@ == "metadatas"@,
    {
        let mut parts: Vec<String> = Vec::new();
        parts.push("documents".to_owned());
        parts.push("metadatas".to_owned());
        let limit = match limit {
            Some(n) => Some(n),
            None => Some(DEFAULT_DOCUMENT_LIMIT),
        };
        GetDocumentsRequest { ids: None, limit, offset, parts }
    }
}

/// Why a request failed.
#[derive(Debug, Clone)]
pub enum ChromaError {
    /// The server could not be reached, or the request could not be made.
    ConnectionFailed(String),
    /// The server answered with a failure status.
    RequestFailed(String),
    /// The server's answer could not be read.
    InvalidResponse(String),
}

impl ChromaError {
    /// The failure as text, for contracts.
    pub open spec fn text(&self) -> Seq<char> {
        match self {
            ChromaError::ConnectionFailed(msg) => "Connection failed: "@ + msg@,
            ChromaError::RequestFailed(msg) => "Request failed: "@ + msg@,
            ChromaError::InvalidResponse(msg) => "Invalid response: "@ + msg@,
        }
    }

    /// The failure as text: what failed, then the detail.
    pub fn message(&self) -> (text: String)
        ensures
            text@ == self.text(),
    {
        match self {
            ChromaError::ConnectionFailed(msg) => "Connection failed: ".to_owned().concat(
                msg.as_str(),
            ),
            ChromaError::RequestFailed(msg) => "Request failed: ".to_owned().concat(msg.as_str()),
            ChromaError::InvalidResponse(msg) => "Invalid response: ".to_owned().concat(
                msg.as_str(),
            ),
        }
    }
}

/// `url` without the slashes at its end.
pub open spec fn without_trailing_slashes(url: Seq<char>) -> Seq<char>
    decreases url.len(),
{
    if url.len() > 0 && url.last() == '/' {
        without_trailing_slashes(url.drop_last())
    } else {
        url
    }
}

/// A byte that may stand in a header's value: no control character but the tab.
pub open spec fn is_header_byte(b: u8) -> bool {
    (b >= 32 && b != 127) || b == 9
}

/// Every byte of the text's UTF-8 form may stand in a header's value.
pub open spec fn is_header_text(text: Seq<char>) -> bool {
    forall|i: int|
        0 <= i < encode_utf8(text).len() ==> is_header_byte(#[trigger] encode_utf8(text)[i])
}

/// Asks `reqwest::header::HeaderValue::from_str` whether `value` can be a header's value, and
/// hands back the failure's text if it cannot. That function goes through the
/// bytes of the string and fails if and only if one of them is a control
/// character other than the tab; its failure prints as a fixed sentence.
#[verifier::external_body]
fn header_value_error(value: &str) -> (error: Option<String>)
    ensures
        error is None <==> is_header_text(value@),
        error matches Some(text) ==> text@ == "failed to parse header value"@,
{
    match HeaderValue::from_str(value) {
        Ok(_) => None,
        Err(e) => Some(e.to_string()),
    }
}

/// The header that authenticates every request.
#[derive(Debug, Clone, PartialEq, Eq)]
pub struct AuthHeader {
    /// The header's name, in lower case.
    pub name: String,
    /// The header's value.
    pub value: String,
}

/// The name of the header that carries the token, given the configured
/// header type: `x-chroma-token` if that is asked for, `authorization` for
/// anything else.
pub open spec fn auth_header_name(auth_header_type: Seq<char>) -> Seq<char> {
    if auth_header_type == "x-chroma-token"@ {
        "x-chroma-token"@
    } else {
        "authorization"@
    }
}

/// The value that carries the token: the bare token in `x-chroma-token`, a
/// bearer token in `authorization`.
pub open spec fn auth_header_value(auth_token: Seq<char>, auth_header_type: Seq<char>) -> Seq<
    char,
> {
    if auth_header_type == "x-chroma-token"@ {
        auth_token
    } else {
        "Bearer "@ + auth_token
    }
}

/// The header that authenticates with `auth_token`: none for an empty token.
/// A token that cannot stand in a header is a connection failure.
pub fn auth_header(auth_token: &str, auth_header_type: &str) -> (header: Result<
    Option<AuthHeader>,
    ChromaError,
>)
    ensures
        auth_token@.len() == 0 ==> header == Ok::<Option<AuthHeader>, ChromaError>(None),
        auth_token@.len() > 0 && is_header_text(auth_header_value(auth_token@, auth_header_type@))
            ==> (header matches Ok(Some(h)) && h.name@ == auth_header_name(auth_header_type@)
            && h.value@ == auth_header_value(auth_token@, auth_header_type@)),
        auth_token@.len() > 0 && !is_header_text(auth_header_value(auth_token@, auth_header_type@))
            ==> (header matches Err(ChromaError::ConnectionFailed(text)) && text@
            == "failed to parse header value"@),
{
    if auth_token.is_empty() {
        return Ok(None);
    }
    let token_header = auth_header_type.to_owned() == "x-chroma-token".to_owned();
    let name = if token_header {
        "x-chroma-token".to_owned()
    } else {
        "authorization".to_owned()
    };
    let value = if token_header {
        auth_token.to_owned()
    } else {
        "Bearer ".to_owned().concat(auth_token)
    };
    match header_value_error(value.as_str()) {
        Some(text) => Err(ChromaError::ConnectionFailed(text)),
        None => Ok(Some(AuthHeader { name, value })),
    }
}

/// How to reach a server: where it is, which interface version it speaks,
/// and how requests authenticate.
#[derive(Debug, Clone)]
pub struct ChromaClient {
    /// The server's address, without a slash at its end.
    pub base_url: String,
    /// The interface version that the server speaks.
    pub api_version: ApiVersion,
    /// The header sent with every request, if any.
    pub auth_header: Option<AuthHeader>,
}

/// `url` without the slashes at its end, copied.
fn trim_trailing_slashes(url: &str) -> (trimmed: String)
    ensures
        trimmed@ == without_trailing_slashes(url@),
{
    let mut n: usize = url.unicode_len();
    assert(url@.take(n as int) =~= url@);
    while n > 0 && url.get_char(n - 1) == '/'
        invariant
            n <= url@.len(),
            without_trailing_slashes(url@) == without_trailing_slashes(url@.take(n as int)),
        decreases n,
    {
        assert(url@.take(n as int).drop_last() =~= url@.take(n - 1));
        n -= 1;
    }
    assert(url@.take(n as int) =~= url@.subrange(0, n as int));
    url.substring_char(0, n).to_owned()
}

impl ChromaClient {
    /// The description of a client for the server at `base_url`, whose
    /// trailing slashes are dropped. Fails, as a connection failure, exactly
    /// when the token is not empty and cannot stand in a header.
    pub fn new(base_url: &str, auth_token: &str, auth_header_type: &str, api_version: ApiVersion) -> (client:
        Result<Self, ChromaError>)
        ensures
            auth_token@.len() == 0 ==> (client matches Ok(c) && c.auth_header is None),
            auth_token@.len() > 0 && is_header_text(
                auth_header_value(auth_token@, auth_header_type@),
            ) ==> (client matches Ok(c) && c.auth_header matches Some(h) && h.name@
                == auth_header_name(auth_header_type@) && h.value@ == auth_header_value(
                auth_token@,
                auth_header_type@,
            )),
            auth_token@.len() > 0 && !is_header_text(
                auth_header_value(auth_token@, auth_header_type@),
            ) ==> (client matches Err(ChromaError::ConnectionFailed(text)) && text@
                == "failed to parse header value"@),
            client matches Ok(c) ==> c.base_url@ == without_trailing_slashes(base_url@)
                && c.api_version == api_version,
    {
        match auth_header(auth_token, auth_header_type) {
            Ok(header) => Ok(
                ChromaClient {
                    base_url: trim_trailing_slashes(base_url),
                    api_version,
                    auth_header: header,
                },
            ),
            Err(e) => Err(e),
        }
    }

    /// The common start of every endpoint's address, for contracts.
    pub open spec fn prefix(&self) -> Seq<char> {
        self.base_url@ + "/api/"@ + self.api_version.name()
    }

    /// The common start of every endpoint's address: the base address, then
    /// `/api/` and the version's name.
    pub fn api_prefix(&self) -> (url: String)
        ensures
            url@ == self.prefix(),
    {
        self.base_url.clone().concat("/api/").concat(self.api_version.as_str())
    }

    /// The address of the heartbeat endpoint.
    pub fn heartbeat_url(&self) -> (url: String)
        ensures
            url@ == self.prefix() + "/heartbeat"@,
    {
        self.api_prefix().concat("/heartbeat")
    }

    /// The address of the version endpoint.
    pub fn version_url(&self) -> (url: String)
        ensures
            url@ == self.prefix() + "/version"@,
    {
        self.api_prefix().concat("/version")
    }

    /// The address under which tenants are created.
    pub fn tenants_url(&self) -> (url: String)
        ensures
            url@ == self.prefix() + "/tenants"@,
    {
        self.api_prefix().concat("/tenants")
    }

    /// The address of one tenant.
    pub fn tenant_url(&self, tenant: &str) -> (url: String)
        ensures
            url@ == self.prefix() + "/tenants/"@ + tenant@,
    {
        self.api_prefix().concat("/tenants/").concat(tenant)
    }

    /// The address of a tenant's databases, for contracts: the first
    /// version names the tenant in the query, the second in the path.
    pub open spec fn databases(&self, tenant: Seq<char>) -> Seq<char> {
        match self.api_version {
            ApiVersion::V1 => self.prefix() + "/databases?tenant="@ + tenant,
            ApiVersion::V2 => self.prefix() + "/tenants/"@ + tenant + "/databases"@,
        }
    }

    /// The address of a tenant's databases, for listing them and for
    /// creating one.
    pub fn databases_url(&self, tenant: &str) -> (url: String)
        ensures
            url@ == self.databases(tenant@),
    {
        match self.api_version {
            ApiVersion::V1 => self.api_prefix().concat("/databases?tenant=").concat(tenant),
            ApiVersion::V2 => self.api_prefix().concat("/tenants/").concat(tenant).concat(
                "/databases",
            ),
        }
    }

    /// The address of one database, for contracts.
    pub open spec fn database(&self, tenant: Seq<char>, database: Seq<char>) -> Seq<char> {
        match self.api_version {
            ApiVersion::V1 => self.prefix() + "/databases/"@ + database + "?tenant="@ + tenant,
            ApiVersion::V2 => self.prefix() + "/tenants/"@ + tenant + "/databases/"@ + database,
        }
    }

    /// The address of one database.
    pub fn database_url(&self, tenant: &str, database: &str) -> (url: String)
        ensures
            url@ == self.database(tenant@, database@),
    {
        match self.api_version {
            ApiVersion::V1 => self.api_prefix().concat("/databases/").concat(database).concat(
                "?tenant=",
            ).concat(tenant),
            ApiVersion::V2 => self.api_prefix().concat("/tenants/").concat(tenant).concat(
                "/databases/",
            ).concat(database),
        }
    }

    /// The address of a database's collections, for contracts.
    pub open spec fn collections(&self, tenant: Seq<char>, database: Seq<char>) -> Seq<char> {
        match self.api_version {
            ApiVersion::V1 => self.prefix() + "/databases/"@ + database + "/collections?tenant="@
                + tenant,
            ApiVersion::V2 => self.prefix() + "/tenants/"@ + tenant + "/databases/"@ + database
                + "/collections"@,
        }
    }

    /// The address of a database's collections.
    pub fn collections_url(&self, tenant: &str, database: &str) -> (url: String)
        ensures
            url@ == self.collections(tenant@, database@),
    {
        match self.api_version {
            ApiVersion::V1 => self.api_prefix().concat("/databases/").concat(database).concat(
                "/collections?tenant=",
            ).concat(tenant),
            ApiVersion::V2 => self.api_prefix().concat("/tenants/").concat(tenant).concat(
                "/databases/",
            ).concat(database).concat("/collections"),
        }
    }

    /// The address for fetching a collection's documents, for contracts.
    pub open spec fn documents(
        &self,
        collection_id: Seq<char>,
        tenant: Seq<char>,
        database: Seq<char>,
    ) -> Seq<char> {
        match self.api_version {
            ApiVersion::V1 => self.prefix() + "/databases/"@ + database + "/collections/"@
                + collection_id + "/get?tenant="@ + tenant,
            ApiVersion::V2 => self.prefix() + "/tenants/"@ + tenant + "/databases/"@ + database
                + "/collections/"@ + collection_id + "/get"@,
        }
    }

    /// The address for fetching a collection's documents.
    pub fn documents_url(&self, collection_id: &str, tenant: &str, database: &str) -> (url: String)
        ensures
            url@ == self.documents(collection_id@, tenant@, database@),
    {
        match self.api_version {
            ApiVersion::V1 => self.api_prefix().concat("/databases/").concat(database).concat(
                "/collections/",
            ).concat(collection_id).concat("/get?tenant=").concat(tenant),
            ApiVersion::V2 => self.api_prefix().concat("/tenants/").concat(tenant).concat(
                "/databases/",
            ).concat(database).concat("/collections/").concat(collection_id).concat("/get"),
        }
    }
}

/// `serde_json::Value`: JSON values are carried along as they come; nothing
/// here looks into one.
#[verifier::external_type_specification]
#[verifier::external_body]
pub struct ExJsonValue(serde_json::Value);

/// A collection of documents.
#[derive(Debug, Clone)]
pub struct Collection {
    /// The collection's id.
    pub id: String,
    /// The collection's name.
    pub name: String,
    /// The collection's metadata, if it has any.
    pub metadata: Option<HashMap<String, serde_json::Value>>,
}

/// A document of a collection.
#[derive(Debug, Clone)]
pub struct Document {
    /// The document's id.
    pub id: String,
    /// The document's text, if it was asked for and is there.
    pub document: Option<String>,
    /// The document's metadata, if it was asked for and is there.
    pub metadata: Option<HashMap<String, serde_json::Value>>,
}

/// `copy` is `source`, cloned: absent if that is absent.
pub open spec fn is_metadata_copy(
    copy: Option<HashMap<String, serde_json::Value>>,
    source: Option<HashMap<String, serde_json::Value>>,
) -> bool {
    match source {
        Some(m) => copy is Some && cloned(m, copy->Some_0),
        None => copy is None,
    }
}

impl Collection {
    /// `self` is `source` with its metadata cloned.
    pub open spec fn is_copy_of(&self, source: &Collection) -> bool {
        &&& self.id@ == source.id@
        &&& self.name@ == source.name@
        &&& is_metadata_copy(self.metadata, source.metadata)
    }

    /// A copy of the collection.
    pub fn duplicate(&self) -> (copy: Self)
        ensures
            copy.is_copy_of(self),
    {
        Collection { id: self.id.clone(), name: self.name.clone(), metadata: self.metadata.clone() }
    }
}

impl Document {
    /// `self` is `source` with its metadata cloned.
    pub open spec fn is_copy_of(&self, source: &Document) -> bool {
        &&& self.id@ == source.id@
        &&& match source.document {
            Some(text) => self.document matches Some(t) && t@ == text@,
            None => self.document is None,
        }
        &&& is_metadata_copy(self.metadata, source.metadata)
    }

    /// A copy of the document.
    pub fn duplicate(&self) -> (copy: Self)
        ensures
            copy.is_copy_of(self),
    {
        let document = match &self.document {
            Some(text) => Some(text.clone()),
            None => None,
        };
        Document { id: self.id.clone(), document, metadata: self.metadata.clone() }
    }
}

impl Default for Document {
    fn default() -> (document: Self)
        ensures
            document.id@ == Seq::<char>::empty(),
            document.document is None,
            document.metadata is None,
    {
        Document { id: String::new(), document: None, metadata: None }
    }
}

/// The answer to a request for documents: the ids, and beside them the
/// texts and the metadata, each list in the order of the ids.
#[derive(Debug, Clone)]
pub struct GetDocumentsResponse {
    /// The documents' ids.
    pub ids: Vec<String>,
    /// The documents' texts, if asked for.
    pub documents: Option<Vec<Option<String>>>,
    /// The documents' metadata, if asked for.
    pub metadatas: Option<Vec<Option<HashMap<String, serde_json::Value>>>>,
}

/// The entry at position `i` of an optional list of optional entries:
/// nothing where the list is absent or too short.
pub open spec fn entry_at<T>(list: Option<Vec<Option<T>>>, i: int) -> Option<T> {
    match list {
        Some(entries) => if 0 <= i < entries@.len() {
            entries@[i]
        } else {
            None
        },
        None => None,
    }
}

/// Takes the entry at position `i` out of the list, leaving the others.
fn take_entry<T>(list: &mut Option<Vec<Option<T>>>, i: usize) -> (entry: Option<T>)
    ensures
        entry == entry_at(*old(list), i as int),
        forall|j: int| j != i ==> entry_at(*final(list), j) == entry_at(*old(list), j),
{
    match list {
        Some(entries) => {
            if i < entries.len() {
                let ghost before = entries@;
                let taken = entries[i].take();
                assert(entries@ =~= before.update(i as int, None));
                taken
            } else {
                None
            }
        },
        None => None,
    }
}

/// One document per id of the answer, in the answer's order, each with the
/// text and the metadata that stand at its position.
pub fn documents_from_response(response: GetDocumentsResponse) -> (documents: Vec<Document>)
    ensures
        documents@.len() == response.ids@.len(),
        forall|i: int|
            0 <= i < documents@.len() ==> {
                &&& (#[trigger] documents@[i]).id@ == response.ids@[i]@
                &&& documents@[i].document == entry_at(response.documents, i)
                &&& documents@[i].metadata == entry_at(response.metadatas, i)
            },
{
    let ids = response.ids;
    let mut texts = response.documents;
    let mut metadatas = response.metadatas;
    let mut documents: Vec<Document> = Vec::new();
    let mut i: usize = 0;
    while i < ids.len()
        invariant
            i <= ids@.len(),
            ids == response.ids,
            documents@.len() == i,
            forall|j: int| j >= i ==> entry_at(texts, j) == entry_at(response.documents, j),
            forall|j: int| j >= i ==> entry_at(metadatas, j) == entry_at(response.metadatas, j),
            forall|k: int|
                0 <= k < i ==> {
                    &&& (#[trigger] documents@[k]).id@ == response.ids@[k]@
                    &&& documents@[k].document == entry_at(response.documents, k)
                    &&& documents@[k].metadata == entry_at(response.metadatas, k)
                },
        decreases ids.len() - i,
    {
        let document = take_entry(&mut texts, i);
        let metadata = take_entry(&mut metadatas, i);
        documents.push(Document { id: ids[i].clone(), document, metadata });
        i += 1;
    }
    documents
}

/// The line that a status prints as: its number, then its standard reason.
pub uninterp spec fn status_line(code: u16) -> Seq<char>;

/// Makes a status of `code` with `reqwest::StatusCode::from_u16` and prints it
/// with its `Display`.
/// The first accepts exactly the numbers from 100 to 999; what the second
/// prints depends on the number alone.
#[verifier::external_body]
fn status_text(code: u16) -> (text: Option<String>)
    ensures
        text is Some <==> 100 <= code <= 999,
        text matches Some(line) ==> line@ == status_line(code),
{
    match StatusCode::from_u16(code) {
        Ok(status) => Some(status.to_string()),
        Err(_) => None,
    }
}

/// Whether a status reports success: the numbers from 200 to 299 do.
pub fn is_success(code: u16) -> (success: bool)
    ensures
        success == (200 <= code < 300),
{
    200 <= code && code < 300
}

/// What went wrong, before the status and the answer's body are added.
pub enum FailedRequest<'a> {
    /// A request whose failure needs no words of its own.
    Plain,
    /// Looking up a tenant.
    GetTenant { tenant: &'a str },
    /// Looking up a database.
    GetDatabase { tenant: &'a str, database: &'a str },
    /// Listing a tenant's databases.
    ListDatabases { tenant: &'a str },
    /// Creating a tenant.
    CreateTenant { tenant: &'a str },
    /// Creating a database.
    CreateDatabase { tenant: &'a str, database: &'a str },
}

impl<'a> FailedRequest<'a> {
    /// The words that say what failed.
    pub open spec fn words(&self) -> Seq<char> {
        match self {
            FailedRequest::Plain => "Server returned status"@,
            FailedRequest::GetTenant { tenant } => "Tenant '"@ + tenant@ + "' not found"@,
            FailedRequest::GetDatabase { tenant, database } => "Database '"@ + database@
                + "' not found in tenant '"@ + tenant@ + "'"@,
            FailedRequest::ListDatabases { tenant } => "Failed to list databases for tenant '"@
                + tenant@ + "'"@,
            FailedRequest::CreateTenant { tenant } => "Failed to create tenant '"@ + tenant@ + "'"@,
            FailedRequest::CreateDatabase { tenant, database } => "Failed to create database '"@
                + database@ + "' in tenant '"@ + tenant@ + "'"@,
        }
    }

    /// The words that say what failed, as text.
    fn describe(&self) -> (text: String)
        ensures
            text@ == self.words(),
    {
        match self {
            FailedRequest::Plain => "Server returned status".to_owned(),
            FailedRequest::GetTenant { tenant } => "Tenant '".to_owned().concat(tenant).concat(
                "' not found",
            ),
            FailedRequest::GetDatabase { tenant, database } => "Database '".to_owned().concat(
                database,
            ).concat("' not found in tenant '").concat(tenant).concat("'"),
            FailedRequest::ListDatabases { tenant } => "Failed to list databases for tenant '"
                .to_owned().concat(tenant).concat("'"),
            FailedRequest::CreateTenant { tenant } => "Failed to create tenant '".to_owned().concat(
                tenant,
            ).concat("'"),
            FailedRequest::CreateDatabase { tenant, database } => "Failed to create database '"
                .to_owned().concat(database).concat("' in tenant '").concat(tenant).concat("'"),
        }
    }

    /// The failure to report for an answer with the status `code`: what
    /// failed, then the status line.
    pub fn failure(&self, code: u16) -> (error: ChromaError)
        requires
            100 <= code <= 999,
        ensures
            error matches ChromaError::RequestFailed(text) && text@ == self.words() + ": "@
                + status_line(code),
    {
        match status_text(code) {
            Some(line) => ChromaError::RequestFailed(
                self.describe().concat(": ").concat(line.as_str()),
            ),
            None => ChromaError::RequestFailed(self.describe()),
        }
    }

    /// The failure to report for an answer with the status `code` and the
    /// body `body`: what failed, then the status line, then the body.
    pub fn failure_with_body(&self, code: u16, body: &str) -> (error: ChromaError)
        requires
            100 <= code <= 999,
        ensures
            error matches ChromaError::RequestFailed(text) && text@ == self.words() + ": "@
                + status_line(code) + " - "@ + body@,
    {
        match status_text(code) {
            Some(line) => ChromaError::RequestFailed(
                self.describe().concat(": ").concat(line.as_str()).concat(" - ").concat(body),
            ),
            None => ChromaError::RequestFailed(self.describe()),
        }
    }
}

} // verus!
