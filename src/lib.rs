//! A client library for the release history of an application hosted on a
//! platform-as-a-service API: range-header pagination, typed release records
//! and their flat projection for tabular export.
pub mod client;
pub mod error;
pub mod export;
pub mod fetch;
pub mod model;
pub mod page;
