//! Why a shader's properties could not be had.

use vstd::prelude::*;

verus! {

/// The step of reflection that failed.
#[derive(Clone, Copy, Debug, PartialEq, Eq, Structural)]
pub enum ReflectionFault {
    /// The bytecode could not be read as a module.
    Module,
    /// The query for the push-constant range ended in an error.
    PushConstantRange,
    /// The module has no compute entry point that declares a workgroup size.
    ComputeGroupSize,
    /// The declared workgroup size is zero along some axis.
    EmptyWorkgroup,
    /// The binding names could not be read off the disassembly.
    BindingNames,
}

/// A failure to produce a shader's properties. None of them can be recovered
/// from where it happens: a broken shader cannot be rendered around. Whether
/// to stop the process is left to the caller.
#[derive(Debug, PartialEq, Eq)]
pub enum ShaderError {
    /// The shader's source file is missing or cannot be read.
    AssetNotFound { path: String },
    /// The compiler rejected the source; `diagnostic` is what it said.
    CompilationFailure { path: String, diagnostic: String },
    /// The bytecode is malformed or is not that of a compute shader.
    ReflectionFailure { path: String, fault: ReflectionFault },
    /// Kept for callers that combine several shaders; never returned here.
    UnsupportedShape,
}

/// A `ShaderError` with its texts as character sequences.
pub enum ShaderErrorView {
    AssetNotFound { path: Seq<char> },
    CompilationFailure { path: Seq<char>, diagnostic: Seq<char> },
    ReflectionFailure { path: Seq<char>, fault: ReflectionFault },
    UnsupportedShape,
}

impl View for ShaderError {
    type V = ShaderErrorView;

    open spec fn view(&self) -> ShaderErrorView {
        match *self {
            ShaderError::AssetNotFound { path } => ShaderErrorView::AssetNotFound { path: path@ },
            ShaderError::CompilationFailure { path, diagnostic } => {
                ShaderErrorView::CompilationFailure { path: path@, diagnostic: diagnostic@ }
            },
            ShaderError::ReflectionFailure { path, fault } => ShaderErrorView::ReflectionFailure {
                path: path@,
                fault,
            },
            ShaderError::UnsupportedShape => ShaderErrorView::UnsupportedShape,
        }
    }
}

/// The words that open the message of an error, before the shader's path.
pub open spec fn message_head(error: ShaderErrorView) -> Seq<char> {
    match error {
        ShaderErrorView::AssetNotFound { .. } => "Could not find "@,
        ShaderErrorView::CompilationFailure { .. } => "could not compile shader: "@,
        ShaderErrorView::ReflectionFailure { fault, .. } => match fault {
            ReflectionFault::Module => "could not reflect shader: "@,
            ReflectionFault::PushConstantRange => "could not get push constant range from shader: "@,
            ReflectionFault::ComputeGroupSize => "could not get compute group size from shader: "@,
            ReflectionFault::EmptyWorkgroup => "empty compute group size in shader: "@,
            ReflectionFault::BindingNames => "could not get binding names from shader: "@,
        },
        ShaderErrorView::UnsupportedShape => "unsupported shape"@,
    }
}

/// The path of the shader that an error is about; empty where it is about
/// none.
pub open spec fn error_path(error: ShaderErrorView) -> Seq<char> {
    match error {
        ShaderErrorView::AssetNotFound { path } => path,
        ShaderErrorView::CompilationFailure { path, .. } => path,
        ShaderErrorView::ReflectionFailure { path, .. } => path,
        ShaderErrorView::UnsupportedShape => Seq::empty(),
    }
}

impl ShaderError {
    /// One line that says what failed and for which shader: the opening words
    /// of the failure, then the shader's path. A compiler's diagnostic is not
    /// part of it.
    pub fn message(&self) -> (text: String)
        ensures
            text@ == message_head(self@) + error_path(self@),
    {
        match self {
            ShaderError::AssetNotFound { path } => String::from_str("Could not find ").concat(
                path.as_str(),
            ),
            ShaderError::CompilationFailure { path, .. } => String::from_str(
                "could not compile shader: ",
            ).concat(path.as_str()),
            ShaderError::ReflectionFailure { path, fault } => {
                let head = match fault {
                    ReflectionFault::Module => "could not reflect shader: ",
                    ReflectionFault::PushConstantRange => {
                        "could not get push constant range from shader: "
                    },
                    ReflectionFault::ComputeGroupSize => {
                        "could not get compute group size from shader: "
                    },
                    ReflectionFault::EmptyWorkgroup => "empty compute group size in shader: ",
                    ReflectionFault::BindingNames => "could not get binding names from shader: ",
                };
                String::from_str(head).concat(path.as_str())
            },
            ShaderError::UnsupportedShape => {
                let text = String::from_str("unsupported shape");
                assert(text@ + Seq::<char>::empty() =~= text@);
                text
            },
        }
    }
}

} // verus!
