//! The browser page: servers, tenants, databases, collections and documents
//! as one tree, shown in Miller columns.
//!
//! The page builds the items of each level and records, in the columns' cache,
//! what the host has fetched. Every item's id spells out where it stands:
//! its kind, the server's index, and the names on the way down.

use crate::api::chroma::{Collection, Document};
use crate::config::ServerConfig;
use crate::widgets::miller_columns::item::{MillerItem, MillerItemType};
use crate::widgets::miller_columns::state::{padded, ColumnState, MillerState, SelectionPath};
use std::collections::HashMap;
use vstd::hash_map::StringHashMap;
use vstd::prelude::*;
use vstd::string::StringExecFns;
use vstd::utf8::{decode_utf8, encode_utf8, is_char_boundary};

verus! {

broadcast use {vstd::std_specs::hash::group_hash_axioms, vstd::utf8::encode_utf8_decode_utf8};

/// What an item of the browser stands for.
#[derive(Debug, Clone)]
pub enum BrowserData {
    /// A configured server.
    Server { index: usize, config: ServerConfig },
    /// The entry that adds a server.
    AddServer,
    /// A tenant of a server.
    Tenant { server_index: usize, name: String },
    /// The entry that adds a tenant.
    AddTenant { server_index: usize },
    /// A database of a tenant.
    Database { server_index: usize, tenant: String, name: String },
    /// The entry that adds a database.
    AddDatabase { server_index: usize, tenant: String },
    /// A collection of a database.
    Collection { server_index: usize, tenant: String, database: String, collection: Collection },
    /// The entry that adds a collection.
    AddCollection { server_index: usize, tenant: String, database: String },
    /// A document of a collection.
    Document {
        server_index: usize,
        tenant: String,
        database: String,
        collection_id: String,
        document: Document,
    },
    /// The preview of a document.
    DocumentPreview { document: Document },
}

/// The dialog that asks for the name of something to add.
#[derive(Debug, Clone)]
pub enum BrowserDialog {
    /// For a new server.
    AddServer { name: String },
    /// For a new tenant.
    AddTenant { server_index: usize, name: String },
    /// For a new database.
    AddDatabase { server_index: usize, tenant: String, name: String },
    /// For a new collection.
    AddCollection { server_index: usize, tenant: String, database: String, name: String },
}

impl BrowserDialog {
    /// The name typed so far.
    pub open spec fn typed(&self) -> String {
        match self {
            BrowserDialog::AddServer { name } => *name,
            BrowserDialog::AddTenant { name, .. } => *name,
            BrowserDialog::AddDatabase { name, .. } => *name,
            BrowserDialog::AddCollection { name, .. } => *name,
        }
    }

    /// The dialog with `name` as the name typed, and everything else as it is.
    pub open spec fn retyped(self, name: String) -> BrowserDialog {
        match self {
            BrowserDialog::AddServer { .. } => BrowserDialog::AddServer { name },
            BrowserDialog::AddTenant { server_index, .. } => BrowserDialog::AddTenant {
                server_index,
                name,
            },
            BrowserDialog::AddDatabase { server_index, tenant, .. } => BrowserDialog::AddDatabase {
                server_index,
                tenant,
                name,
            },
            BrowserDialog::AddCollection {
                server_index,
                tenant,
                database,
                ..
            } => BrowserDialog::AddCollection { server_index, tenant, database, name },
        }
    }

    /// The name typed so far.
    pub fn name(&self) -> (name: &String)
        ensures
            *name == self.typed(),
    {
        match self {
            BrowserDialog::AddServer { name } => name,
            BrowserDialog::AddTenant { name, .. } => name,
            BrowserDialog::AddDatabase { name, .. } => name,
            BrowserDialog::AddCollection { name, .. } => name,
        }
    }

    /// Replaces the name typed.
    pub fn with_name(self, name: String) -> (dialog: Self)
        ensures
            dialog == self.retyped(name),
    {
        match self {
            BrowserDialog::AddServer { .. } => BrowserDialog::AddServer { name },
            BrowserDialog::AddTenant { server_index, .. } => BrowserDialog::AddTenant {
                server_index,
                name,
            },
            BrowserDialog::AddDatabase { server_index, tenant, .. } => BrowserDialog::AddDatabase {
                server_index,
                tenant,
                name,
            },
            BrowserDialog::AddCollection {
                server_index,
                tenant,
                database,
                ..
            } => BrowserDialog::AddCollection { server_index, tenant, database, name },
        }
    }
}

/// One decimal digit.
pub open spec fn digit(d: nat) -> Seq<char> {
    if d == 0 {
        "0"@
    } else if d == 1 {
        "1"@
    } else if d == 2 {
        "2"@
    } else if d == 3 {
        "3"@
    } else if d == 4 {
        "4"@
    } else if d == 5 {
        "5"@
    } else if d == 6 {
        "6"@
    } else if d == 7 {
        "7"@
    } else if d == 8 {
        "8"@
    } else {
        "9"@
    }
}

/// A number in decimal, without leading zeros.
pub open spec fn decimal(n: nat) -> Seq<char>
    decreases n,
{
    if n < 10 {
        digit(n)
    } else {
        decimal(n / 10) + digit(n % 10)
    }
}

fn digit_text(d: usize) -> (text: &'static str)
    requires
        d < 10,
    ensures
        text@ == digit(d as nat),
{
    if d == 0 {
        "0"
    } else if d == 1 {
        "1"
    } else if d == 2 {
        "2"
    } else if d == 3 {
        "3"
    } else if d == 4 {
        "4"
    } else if d == 5 {
        "5"
    } else if d == 6 {
        "6"
    } else if d == 7 {
        "7"
    } else if d == 8 {
        "8"
    } else {
        "9"
    }
}

/// A number in decimal, as text.
pub fn decimal_text(n: usize) -> (text: String)
    ensures
        text@ == decimal(n as nat),
    decreases n,
{
    if n < 10 {
        digit_text(n).to_owned()
    } else {
        decimal_text(n / 10).concat(digit_text(n % 10))
    }
}

/// A server's index and one name below it, joined by a colon.
pub open spec fn key1(server_index: nat, a: Seq<char>) -> Seq<char> {
    decimal(server_index) + ":"@ + a
}

/// A server's index and two names below it, joined by colons.
pub open spec fn key2(server_index: nat, a: Seq<char>, b: Seq<char>) -> Seq<char> {
    key1(server_index, a) + ":"@ + b
}

/// A server's index and three names below it, joined by colons.
pub open spec fn key3(server_index: nat, a: Seq<char>, b: Seq<char>, c: Seq<char>) -> Seq<char> {
    key2(server_index, a, b) + ":"@ + c
}

/// A server's index and four names below it, joined by colons.
pub open spec fn key4(
    server_index: nat,
    a: Seq<char>,
    b: Seq<char>,
    c: Seq<char>,
    d: Seq<char>,
) -> Seq<char> {
    key3(server_index, a, b, c) + ":"@ + d
}

/// The id of a server's item.
pub open spec fn server_id(index: nat) -> Seq<char> {
    "server:"@ + decimal(index)
}

/// The id of a tenant's item.
pub open spec fn tenant_id(server_index: nat, tenant: Seq<char>) -> Seq<char> {
    "tenant:"@ + key1(server_index, tenant)
}

/// The id of a database's item.
pub open spec fn database_id(server_index: nat, tenant: Seq<char>, database: Seq<char>) -> Seq<
    char,
> {
    "database:"@ + key2(server_index, tenant, database)
}

/// The id of a collection's item.
pub open spec fn collection_id(
    server_index: nat,
    tenant: Seq<char>,
    database: Seq<char>,
    collection: Seq<char>,
) -> Seq<char> {
    "collection:"@ + key3(server_index, tenant, database, collection)
}

/// The id of a document's item.
pub open spec fn document_id(
    server_index: nat,
    tenant: Seq<char>,
    database: Seq<char>,
    collection: Seq<char>,
    document: Seq<char>,
) -> Seq<char> {
    "document:"@ + key4(server_index, tenant, database, collection, document)
}

fn key1_text(server_index: usize, a: &str) -> (key: String)
    ensures
        key@ == key1(server_index as nat, a@),
{
    decimal_text(server_index).concat(":").concat(a)
}

fn key2_text(server_index: usize, a: &str, b: &str) -> (key: String)
    ensures
        key@ == key2(server_index as nat, a@, b@),
{
    key1_text(server_index, a).concat(":").concat(b)
}

fn key3_text(server_index: usize, a: &str, b: &str, c: &str) -> (key: String)
    ensures
        key@ == key3(server_index as nat, a@, b@, c@),
{
    key2_text(server_index, a, b).concat(":").concat(c)
}

fn prefixed(prefix: &str, rest: String) -> (text: String)
    ensures
        text@ == prefix@ + rest@,
{
    prefix.to_owned().concat(rest.as_str())
}

/// The most bytes of a document's text that its label shows.
pub const PREVIEW_BYTES: usize = 40;

/// `text` can be cut to `limit` bytes: it is short enough to be shown
/// whole, or a character starts at the byte where the cut falls.
pub open spec fn can_cut(text: Seq<char>, limit: usize) -> bool {
    encode_utf8(text).len() <= limit || is_char_boundary(encode_utf8(text), limit as int)
}

/// `text` cut to `limit` bytes: the text itself if it has no more, else its
/// first `limit` bytes and three dots.
pub open spec fn cut(text: Seq<char>, limit: usize) -> Seq<char> {
    if encode_utf8(text).len() <= limit {
        text
    } else {
        decode_utf8(encode_utf8(text).subrange(0, limit as int)) + "..."@
    }
}

/// Whether `text` can be cut to `limit` bytes.
pub fn can_cut_text(text: &str, limit: usize) -> (can: bool)
    ensures
        can == can_cut(text@, limit),
{
    text.as_bytes().len() <= limit || text.is_char_boundary(limit)
}

/// `text` cut to `limit` bytes, for showing a long text in little room.
pub fn cut_text(text: &str, limit: usize) -> (shown: String)
    requires
        can_cut(text@, limit),
    ensures
        shown@ == cut(text@, limit),
{
    if text.as_bytes().len() > limit {
        let (head, _) = text.split_at(limit);
        assert(head@ == decode_utf8(encode_utf8(head@)));
        assert(encode_utf8(head@) == encode_utf8(text@).subrange(0, limit as int));
        head.to_owned().concat("...")
    } else {
        text.to_owned()
    }
}

/// The label can be cut from `text`.
pub open spec fn can_preview(text: Seq<char>) -> bool {
    can_cut(text, PREVIEW_BYTES)
}

/// The label of a document with the text `text`: the text itself if it has
/// at most 40 bytes, else its first 40 bytes and three dots.
pub open spec fn preview(text: Seq<char>) -> Seq<char> {
    cut(text, PREVIEW_BYTES)
}

/// The label of a document: the preview of its text, or its id if it has none.
pub open spec fn document_label(document: Document) -> Seq<char> {
    match document.document {
        Some(text) => preview(text@),
        None => document.id@,
    }
}

/// The documents whose labels can be cut.
pub open spec fn can_label(document: Document) -> bool {
    match document.document {
        Some(text) => can_preview(text@),
        None => true,
    }
}

/// Whether the document's label can be cut.
pub fn can_label_document(document: &Document) -> (can: bool)
    ensures
        can == can_label(*document),
{
    match &document.document {
        Some(text) => can_cut_text(text.as_str(), PREVIEW_BYTES),
        None => true,
    }
}

fn document_label_text(document: &Document) -> (label: String)
    requires
        can_label(*document),
    ensures
        label@ == document_label(*document),
{
    match &document.document {
        Some(text) => cut_text(text.as_str(), PREVIEW_BYTES),
        None => document.id.clone(),
    }
}

/// `items` are the root column for `servers`: a branch per server, in
/// order, then the entry that adds one.
pub open spec fn are_server_items(
    items: Seq<MillerItem<BrowserData>>,
    servers: Seq<ServerConfig>,
) -> bool {
    &&& items.len() == servers.len() + 1
    &&& forall|i: int|
        0 <= i < servers.len() ==> {
            &&& (#[trigger] items[i]).id@ == server_id(i as nat)
            &&& items[i].label@ == servers[i].name@
            &&& items[i].item_type == MillerItemType::Branch
            &&& items[i].data == (BrowserData::Server { index: i as usize, config: servers[i] })
        }
    &&& items[servers.len() as int].id@ == "add:server"@
    &&& items[servers.len() as int].label@ == "+ Add Server"@
    &&& items[servers.len() as int].item_type == MillerItemType::Leaf
    &&& items[servers.len() as int].data == BrowserData::AddServer
}

/// `items` are the column of a server's tenants: a branch per tenant, in
/// order, then the entry that adds one.
pub open spec fn are_tenant_items(
    items: Seq<MillerItem<BrowserData>>,
    server_index: usize,
    tenants: Seq<String>,
) -> bool {
    &&& items.len() == tenants.len() + 1
    &&& forall|i: int|
        0 <= i < tenants.len() ==> {
            &&& (#[trigger] items[i]).id@ == tenant_id(server_index as nat, tenants[i]@)
            &&& items[i].label@ == tenants[i]@
            &&& items[i].item_type == MillerItemType::Branch
            &&& items[i].data == (BrowserData::Tenant { server_index, name: tenants[i] })
        }
    &&& items[tenants.len() as int].id@ == "add:tenant:"@ + decimal(server_index as nat)
    &&& items[tenants.len() as int].label@ == "+ Add Tenant"@
    &&& items[tenants.len() as int].item_type == MillerItemType::Leaf
    &&& items[tenants.len() as int].data == (BrowserData::AddTenant { server_index })
}

/// `items` are the column of a tenant's databases: a branch per database,
/// in order, then the entry that adds one.
pub open spec fn are_database_items(
    items: Seq<MillerItem<BrowserData>>,
    server_index: usize,
    tenant: Seq<char>,
    databases: Seq<String>,
) -> bool {
    &&& items.len() == databases.len() + 1
    &&& forall|i: int|
        0 <= i < databases.len() ==> {
            &&& (#[trigger] items[i]).id@ == database_id(
                server_index as nat,
                tenant,
                databases[i]@,
            )
            &&& items[i].label@ == databases[i]@
            &&& items[i].item_type == MillerItemType::Branch
            &&& items[i].data matches BrowserData::Database { server_index: s, tenant: t, name }
            &&& s == server_index
            &&& t@ == tenant
            &&& name == databases[i]
        }
    &&& items[databases.len() as int].id@ == "add:database:"@ + key1(server_index as nat, tenant)
    &&& items[databases.len() as int].label@ == "+ Add Database"@
    &&& items[databases.len() as int].item_type == MillerItemType::Leaf
    &&& items[databases.len() as int].data matches BrowserData::AddDatabase {
        server_index: s,
        tenant: t,
    }
    &&& s == server_index
    &&& t@ == tenant
}

/// `items` are the column of a database's collections: a branch per
/// collection, in order, then the entry that adds one.
pub open spec fn are_collection_items(
    items: Seq<MillerItem<BrowserData>>,
    server_index: usize,
    tenant: Seq<char>,
    database: Seq<char>,
    collections: Seq<Collection>,
) -> bool {
    &&& items.len() == collections.len() + 1
    &&& forall|i: int|
        0 <= i < collections.len() ==> {
            &&& (#[trigger] items[i]).id@ == collection_id(
                server_index as nat,
                tenant,
                database,
                collections[i].id@,
            )
            &&& items[i].label@ == collections[i].name@
            &&& items[i].item_type == MillerItemType::Branch
            &&& items[i].data matches BrowserData::Collection {
                server_index: s,
                tenant: t,
                database: d,
                collection,
            }
            &&& s == server_index
            &&& t@ == tenant
            &&& d@ == database
            &&& collection.is_copy_of(&collections[i])
        }
    &&& items[collections.len() as int].id@ == "add:collection:"@ + key2(
        server_index as nat,
        tenant,
        database,
    )
    &&& items[collections.len() as int].label@ == "+ Add Collection"@
    &&& items[collections.len() as int].item_type == MillerItemType::Leaf
    &&& items[collections.len() as int].data matches BrowserData::AddCollection {
        server_index: s,
        tenant: t,
        database: d,
    }
    &&& s == server_index
    &&& t@ == tenant
    &&& d@ == database
}

/// `items` are the column of a collection's documents: a leaf per
/// document, in order, labelled with the preview of its text.
pub open spec fn are_document_items(
    items: Seq<MillerItem<BrowserData>>,
    server_index: usize,
    tenant: Seq<char>,
    database: Seq<char>,
    collection: Seq<char>,
    documents: Seq<Document>,
) -> bool {
    &&& items.len() == documents.len()
    &&& forall|i: int|
        0 <= i < documents.len() ==> {
            &&& (#[trigger] items[i]).id@ == document_id(
                server_index as nat,
                tenant,
                database,
                collection,
                documents[i].id@,
            )
            &&& items[i].label@ == document_label(documents[i])
            &&& items[i].item_type == MillerItemType::Leaf
            &&& items[i].data matches BrowserData::Document {
                server_index: s,
                tenant: t,
                database: d,
                collection_id: c,
                document,
            }
            &&& s == server_index
            &&& t@ == tenant
            &&& d@ == database
            &&& c@ == collection
            &&& document.is_copy_of(&documents[i])
        }
}

/// One of `names` reads `name`.
pub open spec fn holds_name(names: Seq<String>, name: Seq<char>) -> bool {
    exists|i: int| 0 <= i < names.len() && (#[trigger] names[i])@ == name
}

fn has_name(names: &Vec<String>, name: &String) -> (found: bool)
    ensures
        found == holds_name(names@, name@),
{
    let mut i: usize = 0;
    while i < names.len()
        invariant
            i <= names@.len(),
            forall|j: int| 0 <= j < i ==> (#[trigger] names@[j])@ != name@,
        decreases names.len() - i,
    {
        if names[i] == *name {
            return true;
        }
        i += 1;
    }
    false
}

fn copy_names(names: &Vec<String>) -> (copy: Vec<String>)
    ensures
        copy@ == names@,
{
    let mut copy: Vec<String> = Vec::new();
    let mut i: usize = 0;
    while i < names.len()
        invariant
            i <= names@.len(),
            copy@ == names@.take(i as int),
        decreases names.len() - i,
    {
        copy.push(names[i].clone());
        assert(copy@ =~= names@.take(i + 1));
        i += 1;
    }
    assert(names@.take(i as int) =~= names@);
    copy
}

/// Where and how to ask a server.
#[derive(Debug, Clone, PartialEq, Eq)]
pub struct ServerAccess {
    /// The server's URL.
    pub url: String,
    /// The authentication token.
    pub token: String,
    /// Which header carries the token.
    pub auth_header_type: String,
}

impl ServerAccess {
    /// The access that `config` describes.
    pub open spec fn is_of(&self, config: ServerConfig) -> bool {
        &&& self.url == config.server_url
        &&& self.token == config.auth_token
        &&& self.auth_header_type == config.auth_header_type
    }

    /// The access that `config` describes.
    pub fn of(config: &ServerConfig) -> (access: Self)
        ensures
            access.is_of(*config),
    {
        ServerAccess {
            url: config.server_url.clone(),
            token: config.auth_token.clone(),
            auth_header_type: config.auth_header_type.clone(),
        }
    }
}

/// How many documents are fetched for a collection's column.
pub const DOCUMENTS_PER_FETCH: usize = 100;

/// What the host is to fetch after a selection.
#[derive(Debug, Clone, PartialEq, Eq)]
pub enum BrowserFetch {
    /// Nothing.
    Nothing,
    /// The tenants of a server.
    Tenants { server_index: usize, access: ServerAccess },
    /// The databases of a tenant.
    Databases { server_index: usize, tenant: String, access: ServerAccess },
    /// The collections of a database.
    Collections { server_index: usize, tenant: String, database: String, access: ServerAccess },
    /// The first documents of a collection.
    Documents {
        server_index: usize,
        tenant: String,
        database: String,
        collection_id: String,
        access: ServerAccess,
        limit: usize,
        offset: usize,
    },
}

/// The index of the server whose configuration is needed to fetch the
/// children of an item with the data `data`, if any is.
pub open spec fn server_needed(data: BrowserData) -> Option<usize> {
    match data {
        BrowserData::Tenant { server_index, .. } => Some(server_index),
        BrowserData::Database { server_index, .. } => Some(server_index),
        BrowserData::Collection { server_index, .. } => Some(server_index),
        _ => None,
    }
}

/// The id of the item that stands for `data`, where selecting it fetches
/// its children.
pub open spec fn fetched_parent(data: BrowserData) -> Option<Seq<char>> {
    match data {
        BrowserData::Server { index, .. } => Some(server_id(index as nat)),
        BrowserData::Tenant { server_index, name } => Some(
            tenant_id(server_index as nat, name@),
        ),
        BrowserData::Database { server_index, tenant, name } => Some(
            database_id(server_index as nat, tenant@, name@),
        ),
        BrowserData::Collection { server_index, tenant, database, collection } => Some(
            collection_id(server_index as nat, tenant@, database@, collection.id@),
        ),
        _ => None,
    }
}

/// `fetch` is what selecting an item with the data `data` asks of the host.
pub open spec fn is_fetch_for(
    fetch: BrowserFetch,
    data: BrowserData,
    servers: Seq<ServerConfig>,
) -> bool
    recommends
        server_needed(data) matches Some(i) ==> i < servers.len(),
{
    match data {
        BrowserData::Server { index, config } => fetch matches BrowserFetch::Tenants {
            server_index,
            access,
        } && server_index == index && access.is_of(config),
        BrowserData::Tenant { server_index: si, name } => fetch matches BrowserFetch::Databases {
            server_index,
            tenant,
            access,
        } && server_index == si && tenant == name && access.is_of(servers[si as int]),
        BrowserData::Database {
            server_index: si,
            tenant: t,
            name,
        } => fetch matches BrowserFetch::Collections { server_index, tenant, database, access }
            && server_index == si && tenant == t && database == name && access.is_of(
            servers[si as int],
        ),
        BrowserData::Collection {
            server_index: si,
            tenant: t,
            database: d,
            collection,
        } => fetch matches BrowserFetch::Documents {
            server_index,
            tenant,
            database,
            collection_id,
            access,
            limit,
            offset,
        } && server_index == si && tenant == t && database == d && collection_id == collection.id
            && access.is_of(servers[si as int]) && limit == DOCUMENTS_PER_FETCH && offset == 0,
        _ => fetch is Nothing,
    }
}

/// The state of the browser page.
pub struct BrowserState {
    /// The columns' cache.
    pub miller: MillerState<BrowserData>,
    /// The tenants fetched for each server, by the server's index.
    pub tenants_cache: HashMap<usize, Vec<String>>,
    /// The databases fetched for each tenant, by server index and tenant.
    pub databases_cache: StringHashMap<Vec<String>>,
    /// The collections fetched for each database, by server index, tenant
    /// and database.
    pub collections_cache: StringHashMap<Vec<Collection>>,
    /// The documents fetched for each collection, by server index, tenant,
    /// database and collection id.
    pub documents_cache: StringHashMap<Vec<Document>>,
    /// The document shown in the preview, if any.
    pub selected_document: Option<Document>,
    /// The dialog that is open, if any.
    pub dialog: Option<BrowserDialog>,
}

impl Default for BrowserState {
    fn default() -> (state: Self)
        ensures
            state.is_fresh(),
            state.miller.roots@ == Seq::<MillerItem<BrowserData>>::empty(),
    {
        BrowserState {
            miller: MillerState::new(Vec::new()),
            tenants_cache: HashMap::new(),
            databases_cache: StringHashMap::new(),
            collections_cache: StringHashMap::new(),
            documents_cache: StringHashMap::new(),
            selected_document: None,
            dialog: None,
        }
    }
}

impl BrowserState {
    /// Nothing is selected, recorded, cached, previewed or asked.
    pub open spec fn is_fresh(&self) -> bool {
        &&& self.miller.selection@ == Seq::<String>::empty()
        &&& self.miller.children@ == Map::<Seq<char>, ColumnState<BrowserData>>::empty()
        &&& self.miller.scroll_offsets@ == Seq::<u32>::empty()
        &&& self.tenants_cache@ == Map::<usize, Vec<String>>::empty()
        &&& self.databases_cache@ == Map::<Seq<char>, Vec<String>>::empty()
        &&& self.collections_cache@ == Map::<Seq<char>, Vec<Collection>>::empty()
        &&& self.documents_cache@ == Map::<Seq<char>, Vec<Document>>::empty()
        &&& self.selected_document is None
        &&& self.dialog is None
    }

    /// Roots, selection, scroll offsets, preview and dialog are those of `before`.
    pub open spec fn keeps_page(&self, before: &BrowserState) -> bool {
        &&& self.miller.roots == before.miller.roots
        &&& self.miller.selection == before.miller.selection
        &&& self.miller.scroll_offsets == before.miller.scroll_offsets
        &&& self.selected_document == before.selected_document
        &&& self.dialog == before.dialog
    }

    /// The four caches of fetched names hold what they held in `before`.
    pub open spec fn keeps_caches(&self, before: &BrowserState) -> bool {
        &&& self.tenants_cache@ == before.tenants_cache@
        &&& self.databases_cache@ == before.databases_cache@
        &&& self.collections_cache@ == before.collections_cache@
        &&& self.documents_cache@ == before.documents_cache@
    }

    /// The columns record for every parent but `id` what they did in `before`.
    pub open spec fn keeps_columns_but(&self, before: &BrowserState, id: Seq<char>) -> bool {
        self.miller.children@.remove(id) == before.miller.children@.remove(id)
    }

    /// The columns record `state` for `id`, and for every other parent what
    /// they did in `before`.
    pub open spec fn records(
        &self,
        before: &BrowserState,
        id: Seq<char>,
        state: ColumnState<BrowserData>,
    ) -> bool {
        self.miller.children@ == before.miller.children@.insert(id, state)
    }

    /// The items loaded for `id`, if the columns hold any.
    pub open spec fn loaded(&self, id: Seq<char>) -> Option<Seq<MillerItem<BrowserData>>> {
        crate::widgets::miller_columns::state::loaded_children(self.miller.children@, id)
    }

    /// The page for the given servers, with nothing selected or fetched.
    pub fn new(servers: &[ServerConfig]) -> (state: Self)
        ensures
            state.is_fresh(),
            are_server_items(state.miller.roots@, servers@),
    {
        BrowserState {
            miller: MillerState::new(Self::build_server_items(servers)),
            tenants_cache: HashMap::new(),
            databases_cache: StringHashMap::new(),
            collections_cache: StringHashMap::new(),
            documents_cache: StringHashMap::new(),
            selected_document: None,
            dialog: None,
        }
    }

    /// Rebuilds the root column for the given servers. The selection and
    /// everything that the columns recorded are dropped with the old roots.
    pub fn refresh_servers(&mut self, servers: &[ServerConfig])
        ensures
            are_server_items(final(self).miller.roots@, servers@),
            final(self).miller.selection@ == Seq::<String>::empty(),
            final(self).miller.children@ == Map::<Seq<char>, ColumnState<BrowserData>>::empty(),
            final(self).miller.scroll_offsets@ == Seq::<u32>::empty(),
            final(self).keeps_caches(old(self)),
            final(self).selected_document == old(self).selected_document,
            final(self).dialog == old(self).dialog,
    {
        self.miller.set_roots(Self::build_server_items(servers));
    }

    /// The root column for the given servers.
    pub fn build_server_items(servers: &[ServerConfig]) -> (items: Vec<MillerItem<BrowserData>>)
        ensures
            are_server_items(items@, servers@),
    {
        let mut items: Vec<MillerItem<BrowserData>> = Vec::new();
        let mut index: usize = 0;
        while index < servers.len()
            invariant
                index <= servers@.len(),
                items@.len() == index,
                forall|i: int|
                    0 <= i < index ==> {
                        &&& (#[trigger] items@[i]).id@ == server_id(i as nat)
                        &&& items@[i].label@ == servers@[i].name@
                        &&& items@[i].item_type == MillerItemType::Branch
                        &&& items@[i].data == (BrowserData::Server {
                            index: i as usize,
                            config: servers@[i],
                        })
                    },
            decreases servers.len() - index,
        {
            let config = &servers[index];
            let id = prefixed("server:", decimal_text(index));
            items.push(
                MillerItem::branch(
                    id.as_str(),
                    config.name.as_str(),
                    BrowserData::Server { index, config: config.clone() },
                ),
            );
            index += 1;
        }
        items.push(MillerItem::leaf("add:server", "+ Add Server", BrowserData::AddServer));
        items
    }

    /// The column of a server's tenants.
    pub fn build_tenant_items(server_index: usize, tenants: &[String]) -> (items: Vec<
        MillerItem<BrowserData>,
    >)
        ensures
            are_tenant_items(items@, server_index, tenants@),
    {
        let mut items: Vec<MillerItem<BrowserData>> = Vec::new();
        let mut k: usize = 0;
        while k < tenants.len()
            invariant
                k <= tenants@.len(),
                items@.len() == k,
                forall|i: int|
                    0 <= i < k ==> {
                        &&& (#[trigger] items@[i]).id@ == tenant_id(
                            server_index as nat,
                            tenants@[i]@,
                        )
                        &&& items@[i].label@ == tenants@[i]@
                        &&& items@[i].item_type == MillerItemType::Branch
                        &&& items@[i].data == (BrowserData::Tenant {
                            server_index,
                            name: tenants@[i],
                        })
                    },
            decreases tenants.len() - k,
        {
            let name = &tenants[k];
            let id = prefixed("tenant:", key1_text(server_index, name.as_str()));
            items.push(
                MillerItem::branch(
                    id.as_str(),
                    name.as_str(),
                    BrowserData::Tenant { server_index, name: name.clone() },
                ),
            );
            k += 1;
        }
        let id = prefixed("add:tenant:", decimal_text(server_index));
        items.push(
            MillerItem::leaf(id.as_str(), "+ Add Tenant", BrowserData::AddTenant { server_index }),
        );
        items
    }

    /// The column of a tenant's databases.
    pub fn build_database_items(server_index: usize, tenant: &str, databases: &[String]) -> (items:
        Vec<MillerItem<BrowserData>>)
        ensures
            are_database_items(items@, server_index, tenant@, databases@),
    {
        let mut items: Vec<MillerItem<BrowserData>> = Vec::new();
        let mut k: usize = 0;
        while k < databases.len()
            invariant
                k <= databases@.len(),
                items@.len() == k,
                forall|i: int|
                    0 <= i < k ==> {
                        &&& (#[trigger] items@[i]).id@ == database_id(
                            server_index as nat,
                            tenant@,
                            databases@[i]@,
                        )
                        &&& items@[i].label@ == databases@[i]@
                        &&& items@[i].item_type == MillerItemType::Branch
                        &&& items@[i].data matches BrowserData::Database {
                            server_index: s,
                            tenant: t,
                            name,
                        }
                        &&& s == server_index
                        &&& t@ == tenant@
                        &&& name == databases@[i]
                    },
            decreases databases.len() - k,
        {
            let name = &databases[k];
            let id = prefixed("database:", key2_text(server_index, tenant, name.as_str()));
            items.push(
                MillerItem::branch(
                    id.as_str(),
                    name.as_str(),
                    BrowserData::Database {
                        server_index,
                        tenant: tenant.to_owned(),
                        name: name.clone(),
                    },
                ),
            );
            k += 1;
        }
        let id = prefixed("add:database:", key1_text(server_index, tenant));
        items.push(
            MillerItem::leaf(
                id.as_str(),
                "+ Add Database",
                BrowserData::AddDatabase { server_index, tenant: tenant.to_owned() },
            ),
        );
        items
    }

    /// The column of a database's collections.
    pub fn build_collection_items(
        server_index: usize,
        tenant: &str,
        database: &str,
        collections: &[Collection],
    ) -> (items: Vec<MillerItem<BrowserData>>)
        ensures
            are_collection_items(items@, server_index, tenant@, database@, collections@),
    {
        let mut items: Vec<MillerItem<BrowserData>> = Vec::new();
        let mut k: usize = 0;
        while k < collections.len()
            invariant
                k <= collections@.len(),
                items@.len() == k,
                forall|i: int|
                    0 <= i < k ==> {
                        &&& (#[trigger] items@[i]).id@ == collection_id(
                            server_index as nat,
                            tenant@,
                            database@,
                            collections@[i].id@,
                        )
                        &&& items@[i].label@ == collections@[i].name@
                        &&& items@[i].item_type == MillerItemType::Branch
                        &&& items@[i].data matches BrowserData::Collection {
                            server_index: s,
                            tenant: t,
                            database: d,
                            collection,
                        }
                        &&& s == server_index
                        &&& t@ == tenant@
                        &&& d@ == database@
                        &&& collection.is_copy_of(&collections@[i])
                    },
            decreases collections.len() - k,
        {
            let collection = &collections[k];
            let id = prefixed(
                "collection:",
                key3_text(server_index, tenant, database, collection.id.as_str()),
            );
            items.push(
                MillerItem::branch(
                    id.as_str(),
                    collection.name.as_str(),
                    BrowserData::Collection {
                        server_index,
                        tenant: tenant.to_owned(),
                        database: database.to_owned(),
                        collection: collection.duplicate(),
                    },
                ),
            );
            k += 1;
        }
        let id = prefixed("add:collection:", key2_text(server_index, tenant, database));
        items.push(
            MillerItem::leaf(
                id.as_str(),
                "+ Add Collection",
                BrowserData::AddCollection {
                    server_index,
                    tenant: tenant.to_owned(),
                    database: database.to_owned(),
                },
            ),
        );
        items
    }

    /// The column of a collection's documents.
    pub fn build_document_items(
        server_index: usize,
        tenant: &str,
        database: &str,
        collection_id: &str,
        documents: &[Document],
    ) -> (items: Vec<MillerItem<BrowserData>>)
        requires
            forall|i: int| 0 <= i < documents@.len() ==> can_label(#[trigger] documents@[i]),
        ensures
            are_document_items(
                items@,
                server_index,
                tenant@,
                database@,
                collection_id@,
                documents@,
            ),
    {
        let mut items: Vec<MillerItem<BrowserData>> = Vec::new();
        let mut k: usize = 0;
        while k < documents.len()
            invariant
                k <= documents@.len(),
                forall|i: int| 0 <= i < documents@.len() ==> can_label(#[trigger] documents@[i]),
                items@.len() == k,
                forall|i: int|
                    0 <= i < k ==> {
                        &&& (#[trigger] items@[i]).id@ == document_id(
                            server_index as nat,
                            tenant@,
                            database@,
                            collection_id@,
                            documents@[i].id@,
                        )
                        &&& items@[i].label@ == document_label(documents@[i])
                        &&& items@[i].item_type == MillerItemType::Leaf
                        &&& items@[i].data matches BrowserData::Document {
                            server_index: s,
                            tenant: t,
                            database: d,
                            collection_id: c,
                            document,
                        }
                        &&& s == server_index
                        &&& t@ == tenant@
                        &&& d@ == database@
                        &&& c@ == collection_id@
                        &&& document.is_copy_of(&documents@[i])
                    },
            decreases documents.len() - k,
        {
            let document = &documents[k];
            let label = document_label_text(document);
            let id = prefixed(
                "document:",
                key3_text(server_index, tenant, database, collection_id).concat(":").concat(
                    document.id.as_str(),
                ),
            );
            items.push(
                MillerItem::leaf(
                    id.as_str(),
                    label.as_str(),
                    BrowserData::Document {
                        server_index,
                        tenant: tenant.to_owned(),
                        database: database.to_owned(),
                        collection_id: collection_id.to_owned(),
                        document: document.duplicate(),
                    },
                ),
            );
            k += 1;
        }
        items
    }

    /// Records the tenants fetched for a server: in the cache of tenants,
    /// and as the loaded children of the server's item.
    pub fn set_tenants(&mut self, server_index: usize, tenants: Vec<String>)
        ensures
            final(self).keeps_page(old(self)),
            final(self).tenants_cache@ == old(self).tenants_cache@.insert(server_index, tenants),
            final(self).databases_cache@ == old(self).databases_cache@,
            final(self).collections_cache@ == old(self).collections_cache@,
            final(self).documents_cache@ == old(self).documents_cache@,
            final(self).keeps_columns_but(old(self), server_id(server_index as nat)),
            final(self).loaded(server_id(server_index as nat)) matches Some(items)
                && are_tenant_items(items, server_index, tenants@),
    {
        let items = Self::build_tenant_items(server_index, tenants.as_slice());
        self.tenants_cache.insert(server_index, tenants);
        let id = prefixed("server:", decimal_text(server_index));
        self.miller.set_children(id, items);
        assert(self.miller.children@.remove(server_id(server_index as nat)) =~= old(
            self,
        ).miller.children@.remove(server_id(server_index as nat)));
    }

    /// Records that a server's tenants are being fetched.
    pub fn set_tenants_loading(&mut self, server_index: usize)
        ensures
            final(self).keeps_page(old(self)),
            final(self).keeps_caches(old(self)),
            final(self).records(
                old(self),
                server_id(server_index as nat),
                ColumnState::Loading,
            ),
    {
        let id = prefixed("server:", decimal_text(server_index));
        self.miller.set_loading(&id);
    }

    /// Records that fetching a server's tenants failed.
    pub fn set_tenants_error(&mut self, server_index: usize, error: String)
        ensures
            final(self).keeps_page(old(self)),
            final(self).keeps_caches(old(self)),
            final(self).records(
                old(self),
                server_id(server_index as nat),
                ColumnState::Error(error),
            ),
    {
        let id = prefixed("server:", decimal_text(server_index));
        self.miller.set_error(id, error);
    }

    /// Records the databases fetched for a tenant: in the cache of
    /// databases, and as the loaded children of the tenant's item.
    pub fn set_databases(&mut self, server_index: usize, tenant: &str, databases: Vec<String>)
        ensures
            final(self).keeps_page(old(self)),
            final(self).tenants_cache@ == old(self).tenants_cache@,
            final(self).databases_cache@ == old(self).databases_cache@.insert(
                key1(server_index as nat, tenant@),
                databases,
            ),
            final(self).collections_cache@ == old(self).collections_cache@,
            final(self).documents_cache@ == old(self).documents_cache@,
            final(self).keeps_columns_but(old(self), tenant_id(server_index as nat, tenant@)),
            final(self).loaded(tenant_id(server_index as nat, tenant@)) matches Some(items)
                && are_database_items(items, server_index, tenant@, databases@),
    {
        let items = Self::build_database_items(server_index, tenant, databases.as_slice());
        self.databases_cache.insert(key1_text(server_index, tenant), databases);
        let id = prefixed("tenant:", key1_text(server_index, tenant));
        self.miller.set_children(id, items);
        assert(self.miller.children@.remove(tenant_id(server_index as nat, tenant@))
            =~= old(self).miller.children@.remove(tenant_id(server_index as nat, tenant@)));
    }

    /// Records that a tenant's databases are being fetched.
    pub fn set_databases_loading(&mut self, server_index: usize, tenant: &str)
        ensures
            final(self).keeps_page(old(self)),
            final(self).keeps_caches(old(self)),
            final(self).records(
                old(self),
                tenant_id(server_index as nat, tenant@),
                ColumnState::Loading,
            ),
    {
        let id = prefixed("tenant:", key1_text(server_index, tenant));
        self.miller.set_loading(&id);
    }

    /// Records that fetching a tenant's databases failed.
    pub fn set_databases_error(&mut self, server_index: usize, tenant: &str, error: String)
        ensures
            final(self).keeps_page(old(self)),
            final(self).keeps_caches(old(self)),
            final(self).records(
                old(self),
                tenant_id(server_index as nat, tenant@),
                ColumnState::Error(error),
            ),
    {
        let id = prefixed("tenant:", key1_text(server_index, tenant));
        self.miller.set_error(id, error);
    }

    /// Records the collections fetched for a database: in the cache of
    /// collections, and as the loaded children of the database's item.
    pub fn set_collections(
        &mut self,
        server_index: usize,
        tenant: &str,
        database: &str,
        collections: Vec<Collection>,
    )
        ensures
            final(self).keeps_page(old(self)),
            final(self).tenants_cache@ == old(self).tenants_cache@,
            final(self).databases_cache@ == old(self).databases_cache@,
            final(self).collections_cache@ == old(self).collections_cache@.insert(
                key2(server_index as nat, tenant@, database@),
                collections,
            ),
            final(self).documents_cache@ == old(self).documents_cache@,
            final(self).keeps_columns_but(
                old(self),
                database_id(server_index as nat, tenant@, database@),
            ),
            final(self).loaded(database_id(server_index as nat, tenant@, database@)) matches Some(
                items,
            ) && are_collection_items(items, server_index, tenant@, database@, collections@),
    {
        let items = Self::build_collection_items(
            server_index,
            tenant,
            database,
            collections.as_slice(),
        );
        self.collections_cache.insert(key2_text(server_index, tenant, database), collections);
        let id = prefixed("database:", key2_text(server_index, tenant, database));
        self.miller.set_children(id, items);
        assert(self.miller.children@.remove(
            database_id(server_index as nat, tenant@, database@),
        ) =~= old(self).miller.children@.remove(
            database_id(server_index as nat, tenant@, database@),
        ));
    }

    /// Records that a database's collections are being fetched.
    pub fn set_collections_loading(&mut self, server_index: usize, tenant: &str, database: &str)
        ensures
            final(self).keeps_page(old(self)),
            final(self).keeps_caches(old(self)),
            final(self).records(
                old(self),
                database_id(server_index as nat, tenant@, database@),
                ColumnState::Loading,
            ),
    {
        let id = prefixed("database:", key2_text(server_index, tenant, database));
        self.miller.set_loading(&id);
    }

    /// Records that fetching a database's collections failed.
    pub fn set_collections_error(
        &mut self,
        server_index: usize,
        tenant: &str,
        database: &str,
        error: String,
    )
        ensures
            final(self).keeps_page(old(self)),
            final(self).keeps_caches(old(self)),
            final(self).records(
                old(self),
                database_id(server_index as nat, tenant@, database@),
                ColumnState::Error(error),
            ),
    {
        let id = prefixed("database:", key2_text(server_index, tenant, database));
        self.miller.set_error(id, error);
    }

    /// Records the documents fetched for a collection: in the cache of
    /// documents, and as the loaded children of the collection's item.
    pub fn set_documents(
        &mut self,
        server_index: usize,
        tenant: &str,
        database: &str,
        collection_id: &str,
        documents: Vec<Document>,
    )
        requires
            forall|i: int| 0 <= i < documents@.len() ==> can_label(#[trigger] documents@[i]),
        ensures
            final(self).keeps_page(old(self)),
            final(self).tenants_cache@ == old(self).tenants_cache@,
            final(self).databases_cache@ == old(self).databases_cache@,
            final(self).collections_cache@ == old(self).collections_cache@,
            final(self).documents_cache@ == old(self).documents_cache@.insert(
                key3(server_index as nat, tenant@, database@, collection_id@),
                documents,
            ),
            final(self).keeps_columns_but(
                old(self),
                self::collection_id(server_index as nat, tenant@, database@, collection_id@),
            ),
            final(self).loaded(
                self::collection_id(server_index as nat, tenant@, database@, collection_id@),
            ) matches Some(items) && are_document_items(
                items,
                server_index,
                tenant@,
                database@,
                collection_id@,
                documents@,
            ),
    {
        let items = Self::build_document_items(
            server_index,
            tenant,
            database,
            collection_id,
            documents.as_slice(),
        );
        self.documents_cache.insert(
            key3_text(server_index, tenant, database, collection_id),
            documents,
        );
        let id = prefixed(
            "collection:",
            key3_text(server_index, tenant, database, collection_id),
        );
        self.miller.set_children(id, items);
        assert(self.miller.children@.remove(
            self::collection_id(server_index as nat, tenant@, database@, collection_id@),
        ) =~= old(self).miller.children@.remove(
            self::collection_id(server_index as nat, tenant@, database@, collection_id@),
        ));
    }

    /// Records that a collection's documents are being fetched.
    pub fn set_documents_loading(
        &mut self,
        server_index: usize,
        tenant: &str,
        database: &str,
        collection_id: &str,
    )
        ensures
            final(self).keeps_page(old(self)),
            final(self).keeps_caches(old(self)),
            final(self).records(
                old(self),
                self::collection_id(server_index as nat, tenant@, database@, collection_id@),
                ColumnState::Loading,
            ),
    {
        let id = prefixed(
            "collection:",
            key3_text(server_index, tenant, database, collection_id),
        );
        self.miller.set_loading(&id);
    }

    /// Records that fetching a collection's documents failed.
    pub fn set_documents_error(
        &mut self,
        server_index: usize,
        tenant: &str,
        database: &str,
        collection_id: &str,
        error: String,
    )
        ensures
            final(self).keeps_page(old(self)),
            final(self).keeps_caches(old(self)),
            final(self).records(
                old(self),
                self::collection_id(server_index as nat, tenant@, database@, collection_id@),
                ColumnState::Error(error),
            ),
    {
        let id = prefixed(
            "collection:",
            key3_text(server_index, tenant, database, collection_id),
        );
        self.miller.set_error(id, error);
    }

    /// Reacts to the selection of `item`, reached by `path`. The path
    /// becomes the selection. A document is put into the preview; anything
    /// else empties the preview. For a server, tenant, database or collection
    /// the item's children are marked as loading, and the result says what
    /// the host is to fetch for them, from the server that the item belongs to.
    pub fn on_select(
        &mut self,
        path: SelectionPath,
        item: &MillerItem<BrowserData>,
        servers: &[ServerConfig],
    ) -> (fetch: BrowserFetch)
        requires
            path.len() < usize::MAX,
            server_needed(item.data) matches Some(i) ==> i < servers@.len(),
        ensures
            final(self).miller.selection == path,
            final(self).miller.roots == old(self).miller.roots,
            final(self).miller.scroll_offsets@ == padded(
                old(self).miller.scroll_offsets@,
                (path.len() + 1) as nat,
            ),
            final(self).keeps_caches(old(self)),
            final(self).dialog == old(self).dialog,
            match item.data {
                BrowserData::Document { document, .. } => final(self).selected_document matches Some(
                    shown,
                ) && shown.is_copy_of(&document),
                _ => final(self).selected_document is None,
            },
            match fetched_parent(item.data) {
                Some(id) => final(self).records(old(self), id, ColumnState::Loading),
                None => final(self).miller.children@ == old(self).miller.children@,
            },
            is_fetch_for(fetch, item.data, servers@),
    {
        self.miller.select(path);
        self.selected_document = None;
        match &item.data {
            BrowserData::Server { index, config } => {
                self.set_tenants_loading(*index);
                BrowserFetch::Tenants { server_index: *index, access: ServerAccess::of(config) }
            },
            BrowserData::Tenant { server_index, name } => {
                self.set_databases_loading(*server_index, name.as_str());
                BrowserFetch::Databases {
                    server_index: *server_index,
                    tenant: name.clone(),
                    access: ServerAccess::of(&servers[*server_index]),
                }
            },
            BrowserData::Database { server_index, tenant, name } => {
                self.set_collections_loading(*server_index, tenant.as_str(), name.as_str());
                BrowserFetch::Collections {
                    server_index: *server_index,
                    tenant: tenant.clone(),
                    database: name.clone(),
                    access: ServerAccess::of(&servers[*server_index]),
                }
            },
            BrowserData::Collection { server_index, tenant, database, collection } => {
                self.set_documents_loading(
                    *server_index,
                    tenant.as_str(),
                    database.as_str(),
                    collection.id.as_str(),
                );
                BrowserFetch::Documents {
                    server_index: *server_index,
                    tenant: tenant.clone(),
                    database: database.clone(),
                    collection_id: collection.id.clone(),
                    access: ServerAccess::of(&servers[*server_index]),
                    limit: DOCUMENTS_PER_FETCH,
                    offset: 0,
                }
            },
            BrowserData::Document { document, .. } => {
                self.selected_document = Some(document.duplicate());
                BrowserFetch::Nothing
            },
            _ => BrowserFetch::Nothing,
        }
    }

    /// Reacts to the activation of `item`: an entry that adds something
    /// opens the dialog that asks for the new name, a document is put into
    /// the preview, and anything else changes nothing.
    pub fn on_activate(&mut self, item: &MillerItem<BrowserData>)
        ensures
            final(self).miller == old(self).miller,
            final(self).keeps_caches(old(self)),
            match item.data {
                BrowserData::AddServer => final(self).dialog matches Some(
                    BrowserDialog::AddServer { name },
                ) && name@.len() == 0,
                BrowserData::AddTenant { server_index } => final(self).dialog matches Some(
                    BrowserDialog::AddTenant { server_index: s, name },
                ) && s == server_index && name@.len() == 0,
                BrowserData::AddDatabase { server_index, tenant } => final(self).dialog matches Some(
                    BrowserDialog::AddDatabase { server_index: s, tenant: t, name },
                ) && s == server_index && t == tenant && name@.len() == 0,
                BrowserData::AddCollection {
                    server_index,
                    tenant,
                    database,
                } => final(self).dialog matches Some(
                    BrowserDialog::AddCollection { server_index: s, tenant: t, database: d, name },
                ) && s == server_index && t == tenant && d == database && name@.len() == 0,
                _ => final(self).dialog == old(self).dialog,
            },
            match item.data {
                BrowserData::Document { document, .. } => final(self).selected_document matches Some(
                    shown,
                ) && shown.is_copy_of(&document),
                _ => final(self).selected_document == old(self).selected_document,
            },
    {
        match &item.data {
            BrowserData::AddServer => {
                self.dialog = Some(BrowserDialog::AddServer { name: String::new() });
            },
            BrowserData::AddTenant { server_index } => {
                self.dialog = Some(
                    BrowserDialog::AddTenant { server_index: *server_index, name: String::new() },
                );
            },
            BrowserData::AddDatabase { server_index, tenant } => {
                self.dialog = Some(
                    BrowserDialog::AddDatabase {
                        server_index: *server_index,
                        tenant: tenant.clone(),
                        name: String::new(),
                    },
                );
            },
            BrowserData::AddCollection { server_index, tenant, database } => {
                self.dialog = Some(
                    BrowserDialog::AddCollection {
                        server_index: *server_index,
                        tenant: tenant.clone(),
                        database: database.clone(),
                        name: String::new(),
                    },
                );
            },
            BrowserData::Document { document, .. } => {
                self.selected_document = Some(document.duplicate());
            },
            _ => {},
        }
    }

    /// Takes what was typed into the open dialog; without a dialog nothing changes.
    pub fn on_dialog_input(&mut self, value: String)
        ensures
            final(self).dialog == match old(self).dialog {
                Some(dialog) => Some(dialog.retyped(value)),
                None => None,
            },
            final(self).miller == old(self).miller,
            final(self).keeps_caches(old(self)),
            final(self).selected_document == old(self).selected_document,
    {
        match self.dialog.take() {
            Some(dialog) => {
                self.dialog = Some(dialog.with_name(value));
            },
            None => {},
        }
    }

    /// Closes the dialog.
    pub fn on_dialog_cancel(&mut self)
        ensures
            final(self).dialog is None,
            final(self).miller == old(self).miller,
            final(self).keeps_caches(old(self)),
            final(self).selected_document == old(self).selected_document,
    {
        self.dialog = None;
    }

    /// The tenants cached for a server: none where nothing is cached.
    pub open spec fn cached_tenants(&self, server_index: usize) -> Seq<String> {
        if self.tenants_cache@.contains_key(server_index) {
            self.tenants_cache@[server_index]@
        } else {
            Seq::<String>::empty()
        }
    }

    /// The databases cached for a tenant: none where nothing is cached.
    pub open spec fn cached_databases(&self, server_index: usize, tenant: Seq<char>) -> Seq<
        String,
    > {
        if self.databases_cache@.contains_key(key1(server_index as nat, tenant)) {
            self.databases_cache@[key1(server_index as nat, tenant)]@
        } else {
            Seq::<String>::empty()
        }
    }

    /// Adds a tenant that the user named to those cached for the server, and
    /// shows the longer list as the server's children. A name that the list
    /// holds already changes nothing.
    pub fn add_tenant(&mut self, server_index: usize, name: String) -> (added: bool)
        ensures
            added == !holds_name(old(self).cached_tenants(server_index), name@),
            !added ==> *final(self) == *old(self),
            added ==> {
                &&& final(self).keeps_page(old(self))
                &&& final(self).cached_tenants(server_index) == old(self).cached_tenants(
                    server_index,
                ).push(name)
                &&& final(self).tenants_cache@.remove(server_index) == old(
                    self,
                ).tenants_cache@.remove(server_index)
                &&& final(self).databases_cache@ == old(self).databases_cache@
                &&& final(self).collections_cache@ == old(self).collections_cache@
                &&& final(self).documents_cache@ == old(self).documents_cache@
                &&& final(self).keeps_columns_but(old(self), server_id(server_index as nat))
                &&& final(self).loaded(server_id(server_index as nat)) matches Some(items)
                    && are_tenant_items(items, server_index, final(self).cached_tenants(server_index))
            },
    {
        let mut tenants = match self.tenants_cache.get(&server_index) {
            Some(cached) => copy_names(cached),
            None => Vec::new(),
        };
        if has_name(&tenants, &name) {
            return false;
        }
        tenants.push(name);
        self.set_tenants(server_index, tenants);
        assert(self.tenants_cache@.remove(server_index) =~= old(self).tenants_cache@.remove(
            server_index,
        ));
        true
    }

    /// Adds a database that was created to those cached for the tenant, and
    /// shows the longer list as the tenant's children. A name that the list
    /// holds already changes nothing.
    pub fn add_database(&mut self, server_index: usize, tenant: &str, name: String) -> (added: bool)
        ensures
            added == !holds_name(old(self).cached_databases(server_index, tenant@), name@),
            !added ==> *final(self) == *old(self),
            added ==> {
                &&& final(self).keeps_page(old(self))
                &&& final(self).cached_databases(server_index, tenant@) == old(
                    self,
                ).cached_databases(server_index, tenant@).push(name)
                &&& final(self).databases_cache@.remove(key1(server_index as nat, tenant@)) == old(
                    self,
                ).databases_cache@.remove(key1(server_index as nat, tenant@))
                &&& final(self).tenants_cache@ == old(self).tenants_cache@
                &&& final(self).collections_cache@ == old(self).collections_cache@
                &&& final(self).documents_cache@ == old(self).documents_cache@
                &&& final(self).keeps_columns_but(
                    old(self),
                    tenant_id(server_index as nat, tenant@),
                )
                &&& final(self).loaded(tenant_id(server_index as nat, tenant@)) matches Some(items)
                    && are_database_items(
                    items,
                    server_index,
                    tenant@,
                    final(self).cached_databases(server_index, tenant@),
                )
            },
    {
        let key = key1_text(server_index, tenant);
        let mut databases = match self.databases_cache.get(key.as_str()) {
            Some(cached) => copy_names(cached),
            None => Vec::new(),
        };
        if has_name(&databases, &name) {
            return false;
        }
        databases.push(name);
        self.set_databases(server_index, tenant, databases);
        assert(self.databases_cache@.remove(key1(server_index as nat, tenant@)) =~= old(
            self,
        ).databases_cache@.remove(key1(server_index as nat, tenant@)));
        true
    }
}

} // verus!
