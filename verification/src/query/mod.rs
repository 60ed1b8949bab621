//! The queries that the engine answers, and the parts they are made of.

pub mod any_query;
pub mod data_source;
pub mod definitions;
pub mod group_by;
pub mod response;
pub mod scan;
pub mod search;
pub mod segment_metadata;
pub mod time_boundary;
pub mod timeseries;
pub mod top_n;

pub use any_query::Query;
pub use data_source::{DataSource, DataSourceMetadata, DataSourceView, JoinBuilder, JoinType};

pub use crate::json::{Json as JsonAny, JsonNumber};
