//! Detects which version-control system governs a directory tree and
//! resolves its active branch, for consumption by shell prompts.

pub mod error;
pub mod git;
pub mod hg;
pub mod paths;
pub mod render;
pub mod text;
pub mod vcs;

pub use error::VcsError;
pub use git::Git;
pub use hg::Hg;
pub use render::branch_or_fallback;
pub use render::render;
pub use render::render_status;
pub use vcs::get_vcs;
pub use vcs::DirProbe;
pub use vcs::VcsKind;
pub use vcs::VCS;
