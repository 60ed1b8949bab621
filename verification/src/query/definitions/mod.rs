//! The parts that queries are made of: each a closed family of shapes
//! with its wire form.

pub mod aggregators;
pub mod dimensions;
pub mod extraction_functions;
pub mod filters;
pub mod granularitys;
pub mod having;
pub mod hll_sketch;
pub mod intervals;
pub mod limit;
pub mod lookup;
pub mod ordering;
pub mod output_types;
pub mod postagregator;
pub mod virtual_columns;

pub use aggregators::Aggregation;
pub use dimensions::Dimension;
pub use extraction_functions::{ExtractFN, NullHandling};
pub use filters::{Filter, FilterQuerySpec};
pub use granularitys::{Granularity, GranularityBase, GranularityTyped};
pub use having::Having;
pub use hll_sketch::HllType;
pub use intervals::{Interval, Timestamp};
pub use limit::Limit;
pub use lookup::LookupMap;
pub use ordering::{OrderByColumn, SortDirection, SortingOrder};
pub use output_types::OutputType;
pub use postagregator::{PostAggregation, PostAggregator};
pub use virtual_columns::VirtualColumn;
