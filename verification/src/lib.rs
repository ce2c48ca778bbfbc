//! Compiles a visual shader node graph into WGSL source text.
//!
//! The crate models a directed graph of typed operation nodes, a read-only
//! catalog of node descriptors, and the two analyses the code generator
//! consumes (data-flow sources and execution routing), and then generates one
//! shader function per entry node of the requested pipeline stage.

pub mod analysis;
pub mod codegen;
pub mod compiler;
pub mod error;
pub mod graph;
pub mod laws;
pub mod metadata;
pub mod nodes;
pub mod text;

pub use analysis::DataResolver;
pub use analysis::DataSource;
pub use analysis::ExecutionRouting;
pub use codegen::ShaderStage;
pub use codegen::WGSLCodeGenerator;
pub use compiler::compile_fragment_shader;
pub use compiler::compile_shader;
pub use compiler::compile_vertex_shader;
pub use error::CompileError;
pub use graph::Connection;
pub use graph::ConnectionType;
pub use graph::DataType;
pub use graph::GraphDescription;
pub use graph::GraphMetadata;
pub use graph::NodeInstance;
pub use graph::Pin;
pub use graph::PinInstance;
pub use graph::PinType;
pub use graph::Position;
pub use graph::PropertyValue;
pub use graph::TypeInfo;
pub use metadata::NodeKind;
pub use metadata::NodeMetadata;
pub use metadata::ParamInfo;
pub use metadata::ShaderMetadataProvider;
pub use metadata::get_shader_nodes;
