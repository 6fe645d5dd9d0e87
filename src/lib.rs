//! Dotfile link management: resolution of declared links, validation of
//! the install plan, the footprint of installed links and its
//! reconciliation with the filesystem.
//!
//! The filesystem is queried and changed by the caller; the library takes
//! what was found as plain values and decides.

pub mod links;
pub mod paths;
pub mod issues;
pub mod resolve;
pub mod plan;
pub mod footprint;
pub mod execute;
pub mod laws;
pub mod style;
pub mod report;
pub mod text;
pub mod dots;
pub mod fixtures;

pub use dots::{add, find, AddError, AddStep, Environment};
pub use fixtures::Fixture;
pub use execute::{install_step, valid_links, ExecutionError, InstallStep};
pub use footprint::{classify, CleanAction, Footprint, FootprintLink, LiveLink};
pub use issues::{FileKind, ResolveIssue, ResolveIssueKind, ResolveIssueLevel};
pub use links::{Anchor, AnchorKind, Link};
pub use paths::{destination_path, source_path};
pub use plan::{Dot, DotPackageMeta, Plan, PlanError};
pub use report::ReportLine;
pub use resolve::{
    resolve, resolve_dest, resolve_src, DestState, FsError, FsErrorKind, ResolvedAnchor,
    ResolvedLink,
};
pub use style::{path_style, Attribute, Color, Style};
pub use text::indent;
