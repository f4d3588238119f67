//! Log-to-OCSF transformation pipeline: a compiled transformation program
//! behind a reloadable handle, record conversion between the pipeline's
//! neutral value model and the script engine's value type, batch processing
//! with a skip-or-abort error policy, and streaming serialization of output
//! records into JSON-array, NDJSON, or YAML-stream framing.

pub mod config;
pub mod convert;
pub mod error;
pub mod metrics;
pub mod ocsf;
pub mod output;
pub mod render;
pub mod runtime;
pub mod text;
pub mod transformer;
pub mod types;
pub mod utils;
pub mod value;
pub mod watcher;

pub use error::TransformResult;
pub use ocsf::OcsfEvent;
pub use transformer::OcsfTransformer;
pub use types::LogEvent;
pub use utils::FileReader;
pub use value::JsonVal;
pub use value::NativeVal;
