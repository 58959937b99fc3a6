//! A recorder for debug visualisation: named geometric annotations are
//! collected frame by frame and flattened into the attribute columns of a
//! point cloud.

pub mod document;
pub mod export;
pub mod host;
pub mod houdini_debug_logger;
pub mod loggable;
pub mod numbers;

pub use document::{Document, Value, ValueView};
pub use export::{
    Attribute, AttributeOwner, AttributeTypeInfo, ColumnData, PartType, PointCloud, StorageType,
};
pub use host::{advance, ExportStep, HostAction, HostEvent, HostFailure};
pub use houdini_debug_logger::{
    houlog, houlog_next_frame, init_houlog, init_houlog_live, save_houlog, session_source,
    ExportMethod, FrameData, HoudiniDebugLogger, IntoLoggable, LogEntry, LogError, LoggerCell,
    SessionSource,
};
pub use loggable::{Armature, Capsule, DebugLoggable, Line, Mesh, Polygon, Polyline, Sphere};
pub use numbers::{Mat4, Quat, Scalar, Vec3, Vec4};
