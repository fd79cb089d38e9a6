//! The decisions of a query-serving runtime, verified.
//!
//! The core is the protocol layer of a columnar RPC service: the actions
//! that create and close prepared statements (`actions`, `statements`), the
//! tickets of the catalog listing (`get_catalogs`), and the subscriptions
//! that fan the updates of a dataset out to its clients (`do_exchange`,
//! `channel`, `encoding`, `dataupdate`). Commands travel in envelopes
//! (`envelope`), requests are described by `descriptor`, failures by `error`.
//!
//! Around the core stand the decisions of the connectors and tools of the
//! runtime: reading Postgres rows and decimals (`postgres`, `decimal`), SQL
//! scans of other databases (`sql`), Databricks tables (`databricks`), model
//! references (`model`, `modelsource`), the interactive prompt (`repl`), the
//! TPC-H extension (`tpch_extension`), pod headers (`spicepod`) and
//! measurements (`timing`). `text` and `params` are shared helpers.
//!
//! Nothing here reads a socket, a file or a clock. What is computed by
//! another crate is called through a small function that is marked as
//! trusted and says what is taken on trust.
pub mod actions;
pub mod channel;
pub mod databricks;
pub mod dataupdate;
pub mod decimal;
pub mod descriptor;
pub mod do_exchange;
pub mod encoding;
pub mod envelope;
pub mod error;
pub mod get_catalogs;
pub mod model;
pub mod modelsource;
pub mod params;
pub mod postgres;
pub mod repl;
pub mod spicepod;
pub mod sql;
pub mod statements;
pub mod text;
pub mod timing;
pub mod tpch_extension;
