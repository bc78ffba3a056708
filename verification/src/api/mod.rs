//! Plain data and addresses of the document database's REST interface.

pub mod chroma;

pub use chroma::{
    ApiVersion, ChromaError, Database, GetDocumentsRequest, HeartbeatResponse, ServerInfo, Tenant,
};
