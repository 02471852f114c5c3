//! What the shader toolchain is asked and what it answers.
//!
//! Reading a source file, compiling it and reflecting on the bytecode are
//! done by the caller, with whatever compiler and reflector it links. This
//! module fixes what the caller asks for (the file's path, the compiler's
//! configuration) and the plain record in which it hands the answers back.

use vstd::prelude::*;

verus! {

/// The extension of a compute shader's source file.
pub const SHADER_EXTENSION: &'static str = ".comp";

/// The shader stage to compile for. Only compute shaders are handled.
#[derive(Clone, Copy, Debug, PartialEq, Eq, Structural)]
pub enum ShaderKind {
    Compute,
}

/// The options a shader is compiled with.
#[derive(Clone, Copy, Debug, PartialEq, Eq, Structural)]
pub struct CompilationConfig {
    /// Emit debug information in the bytecode.
    pub debug: bool,
    /// The shader stage.
    pub kind: ShaderKind,
}

/// The one contiguous range of push constants that a shader declares, in
/// bytes. A size of zero stands for a shader that declares none.
#[derive(Clone, Copy, Debug, PartialEq, Eq, Structural)]
pub struct PushConstantInfo {
    pub offset: u32,
    pub size: u32,
}

/// The answer to the query for a module's push-constant range.
#[derive(Clone, Copy, Debug, PartialEq, Eq, Structural)]
pub enum PushConstantQuery {
    /// The module declares this range.
    Declared(PushConstantInfo),
    /// The module declares no push constants.
    NotDeclared,
    /// The query itself ended in an error.
    Failed,
}

/// What a reflector reports of one module.
#[derive(Debug, PartialEq, Eq)]
pub struct ReflectionReport {
    pub push_constant_range: PushConstantQuery,
    /// The local workgroup size of the compute entry point, if there is one.
    pub compute_group_size: Option<(u32, u32, u32)>,
    /// The module as text.
    pub disassembly: String,
}

/// How far the toolchain got with one shader, and what it produced.
#[derive(Debug, PartialEq, Eq)]
pub enum ToolchainOutcome {
    /// The source file could not be read.
    SourceUnreadable,
    /// The compiler rejected the source, with this diagnostic.
    CompilationFailed(String),
    /// The source compiled, but the bytecode could not be read as a module.
    ModuleUnreadable,
    /// The source compiled to this bytecode, and the reflector reports this
    /// of it.
    Reflected(Vec<u32>, ReflectionReport),
}

/// The path of a shader's source file: the folder, the shader's name and the
/// extension, put together with nothing in between.
pub open spec fn shader_path_of(shaders_folder: Seq<char>, shader_name: Seq<char>) -> Seq<char> {
    shaders_folder + shader_name + SHADER_EXTENSION@
}

/// The configuration every shader is compiled with: debug information on,
/// for the compute stage.
pub open spec fn compute_config_spec() -> CompilationConfig {
    CompilationConfig { debug: true, kind: ShaderKind::Compute }
}

/// The push-constant range to record for an answer to the query: the
/// declared range, the empty range at offset zero where none is declared,
/// and none at all where the query failed.
pub open spec fn push_constants_of(query: PushConstantQuery) -> Option<PushConstantInfo> {
    match query {
        PushConstantQuery::Declared(range) => Some(range),
        PushConstantQuery::NotDeclared => Some(PushConstantInfo { offset: 0, size: 0 }),
        PushConstantQuery::Failed => None,
    }
}

/// The path of the source file of the shader `shader_name` under
/// `shaders_folder`.
pub fn shader_path(shaders_folder: &str, shader_name: &str) -> (path: String)
    ensures
        path@ == shader_path_of(shaders_folder@, shader_name@),
{
    String::from_str(shaders_folder).concat(shader_name).concat(SHADER_EXTENSION)
}

/// The configuration to compile a shader with. Each compilation gets its own.
#[verifier::when_used_as_spec(compute_config_spec)]
pub fn compute_config() -> (config: CompilationConfig)
    ensures
        config == compute_config_spec(),
{
    CompilationConfig { debug: true, kind: ShaderKind::Compute }
}

/// The push-constant range to record for `query`. A shader without push
/// constants gets the empty range; a failed query gets nothing, so that the
/// two cannot be taken for each other.
pub fn resolve_push_constants(query: PushConstantQuery) -> (range: Option<PushConstantInfo>)
    ensures
        range == push_constants_of(query),
{
    match query {
        PushConstantQuery::Declared(range) => Some(range),
        PushConstantQuery::NotDeclared => Some(PushConstantInfo { offset: 0, size: 0 }),
        PushConstantQuery::Failed => None,
    }
}

} // verus!
