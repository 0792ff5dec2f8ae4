//! What can go wrong while a shader program is put together.

use crate::gl_shader_program::ProgramType;
use crate::gl_shader_program::UniformError;
use vstd::prelude::*;

verus! {

/// A failure on the way from a shader's name to a program that can be used.
#[derive(Debug, Clone, PartialEq, Eq)]
pub enum ShaderError {
    /// No source is known under this shader name.
    ShaderFileNotFound(String),
    /// This shader includes itself, directly or through others.
    IncludeCycle(String),
    /// More expansions were needed than
    /// [`crate::shader_source::INCLUDE_BUDGET`] allows.
    IncludeLimitExceeded,
    /// The driver rejected the text of one stage; `message` holds its log.
    ShaderCompileFailed { stage: ProgramType, message: String },
    /// The driver could not link the two stages; `message` holds its log.
    ShaderLinkFailed { message: String },
    /// The program was linked, but a uniform of the material cannot be sent.
    UniformRejected(UniformError),
}

/// What a [`ShaderError`] says.
pub ghost enum ShaderErrorView {
    ShaderFileNotFound(Seq<char>),
    IncludeCycle(Seq<char>),
    IncludeLimitExceeded,
    ShaderCompileFailed { stage: ProgramType, message: Seq<char> },
    ShaderLinkFailed { message: Seq<char> },
    UniformRejected(UniformError),
}

impl View for ShaderError {
    type V = ShaderErrorView;

    open spec fn view(&self) -> ShaderErrorView {
        match *self {
            ShaderError::ShaderFileNotFound(name) => ShaderErrorView::ShaderFileNotFound(name@),
            ShaderError::IncludeCycle(name) => ShaderErrorView::IncludeCycle(name@),
            ShaderError::IncludeLimitExceeded => ShaderErrorView::IncludeLimitExceeded,
            ShaderError::ShaderCompileFailed { stage, message } => {
                ShaderErrorView::ShaderCompileFailed { stage, message: message@ }
            },
            ShaderError::ShaderLinkFailed { message } => ShaderErrorView::ShaderLinkFailed {
                message: message@,
            },
            ShaderError::UniformRejected(e) => ShaderErrorView::UniformRejected(e),
        }
    }
}

} // verus!
