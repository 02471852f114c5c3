//! The properties of a compute shader, gathered once per shader.

use vstd::prelude::*;

use crate::bindings::{bindings_of, extract_bindings, texts};
use crate::dispatch::workgroup_ok;
use crate::error::{ReflectionFault, ShaderError, ShaderErrorView};
use crate::toolchain::{
    compute_config, push_constants_of, resolve_push_constants, shader_path, shader_path_of,
    CompilationConfig, PushConstantInfo, ReflectionReport, ShaderKind, ToolchainOutcome,
};

pub use crate::dispatch::{get_execution_dims, Execution};

verus! {

/// Everything a renderer keeps of one compute shader.
#[derive(Debug, PartialEq, Eq)]
pub struct Shader {
    /// The configuration the shader was compiled with.
    pub config: CompilationConfig,
    /// The bytecode, in 32-bit words.
    pub shader: Vec<u32>,
    /// The push-constant range; of size zero where the shader declares none.
    pub push_constant_info: PushConstantInfo,
    /// The workgroup size along the first axis.
    pub cg_x: u32,
    /// The workgroup size along the second axis.
    pub cg_y: u32,
    /// The workgroup size along the third axis.
    pub cg_z: u32,
    /// The names of the resource bindings, in the order of their
    /// declarations.
    pub bindings: Vec<String>,
}

/// A `Shader` with its bytecode and names as sequences.
pub struct ShaderView {
    pub config: CompilationConfig,
    pub shader: Seq<u32>,
    pub push_constant_info: PushConstantInfo,
    pub cg_x: u32,
    pub cg_y: u32,
    pub cg_z: u32,
    pub bindings: Seq<Seq<char>>,
}

impl View for Shader {
    type V = ShaderView;

    open spec fn view(&self) -> ShaderView {
        ShaderView {
            config: self.config,
            shader: self.shader@,
            push_constant_info: self.push_constant_info,
            cg_x: self.cg_x,
            cg_y: self.cg_y,
            cg_z: self.cg_z,
            bindings: texts(self.bindings@),
        }
    }
}

/// What a reflector's report makes of a shader at `path` with this
/// `bytecode`. The first of these that applies decides: a failed
/// push-constant query, a missing workgroup size, a workgroup size that is
/// zero along an axis, binding names that cannot be read. Where none
/// applies, the properties are those reported.
pub open spec fn reflected_properties(
    path: Seq<char>,
    bytecode: Seq<u32>,
    report: ReflectionReport,
) -> Result<ShaderView, ShaderErrorView> {
    if push_constants_of(report.push_constant_range) is None {
        Err(ShaderErrorView::ReflectionFailure { path, fault: ReflectionFault::PushConstantRange })
    } else if report.compute_group_size is None {
        Err(ShaderErrorView::ReflectionFailure { path, fault: ReflectionFault::ComputeGroupSize })
    } else if !workgroup_ok(report.compute_group_size.unwrap()) {
        Err(ShaderErrorView::ReflectionFailure { path, fault: ReflectionFault::EmptyWorkgroup })
    } else if bindings_of(report.disassembly@) is None {
        Err(ShaderErrorView::ReflectionFailure { path, fault: ReflectionFault::BindingNames })
    } else {
        Ok(
            ShaderView {
                config: compute_config(),
                shader: bytecode,
                push_constant_info: push_constants_of(report.push_constant_range).unwrap(),
                cg_x: report.compute_group_size.unwrap().0,
                cg_y: report.compute_group_size.unwrap().1,
                cg_z: report.compute_group_size.unwrap().2,
                bindings: bindings_of(report.disassembly@).unwrap(),
            },
        )
    }
}

/// The properties of the shader at `path`, or the failure, for each outcome
/// of the toolchain.
pub open spec fn shader_properties_of(path: Seq<char>, outcome: ToolchainOutcome) -> Result<
    ShaderView,
    ShaderErrorView,
> {
    match outcome {
        ToolchainOutcome::SourceUnreadable => Err(ShaderErrorView::AssetNotFound { path }),
        ToolchainOutcome::CompilationFailed(diagnostic) => Err(
            ShaderErrorView::CompilationFailure { path, diagnostic: diagnostic@ },
        ),
        ToolchainOutcome::ModuleUnreadable => Err(
            ShaderErrorView::ReflectionFailure { path, fault: ReflectionFault::Module },
        ),
        ToolchainOutcome::Reflected(bytecode, report) => reflected_properties(
            path,
            bytecode@,
            report,
        ),
    }
}

/// A failed push-constant query is a reflection failure, whatever else is
/// reported; a shader that declares no push constants, if it loads, carries
/// the empty range at offset zero. The two are never taken for each other.
pub proof fn lemma_push_constant_answers(
    path: Seq<char>,
    bytecode: Seq<u32>,
    report: ReflectionReport,
)
    ensures
        report.push_constant_range is Failed ==> reflected_properties(path, bytecode, report)
            == Err::<ShaderView, ShaderErrorView>(
            ShaderErrorView::ReflectionFailure { path, fault: ReflectionFault::PushConstantRange },
        ),
        report.push_constant_range is NotDeclared ==> (reflected_properties(
            path,
            bytecode,
            report,
        ) matches Ok(shader) ==> shader.push_constant_info == PushConstantInfo {
            offset: 0,
            size: 0,
        }),
{
}

/// Properties that load can be dispatched, keep the bytecode word for word,
/// and are compiled for compute with debug information.
pub proof fn lemma_loaded_properties(path: Seq<char>, bytecode: Seq<u32>, report: ReflectionReport)
    ensures
        reflected_properties(path, bytecode, report) matches Ok(shader) ==> {
            &&& workgroup_ok((shader.cg_x, shader.cg_y, shader.cg_z))
            &&& shader.shader == bytecode
            &&& shader.config == CompilationConfig { debug: true, kind: ShaderKind::Compute }
            &&& Some(shader.bindings) == bindings_of(report.disassembly@)
        },
{
}

impl Shader {
    /// A shader that can be dispatched: its workgroup is not empty along any
    /// axis.
    pub open spec fn wf(&self) -> bool {
        workgroup_ok((self.cg_x, self.cg_y, self.cg_z))
    }

    /// The workgroup size, as the dispatch calculation takes it.
    pub fn workgroup_size(&self) -> (size: (u32, u32, u32))
        ensures
            size == (self.cg_x, self.cg_y, self.cg_z),
            self.wf() ==> workgroup_ok(size),
    {
        (self.cg_x, self.cg_y, self.cg_z)
    }

    /// Builds the properties of a shader from its bytecode and what a
    /// reflector reports of it. `path` is only used to say which shader a
    /// failure is about.
    pub fn from_reflection(path: String, bytecode: Vec<u32>, report: ReflectionReport) -> (loaded:
        Result<Shader, ShaderError>)
        ensures
            match loaded {
                Ok(shader) => reflected_properties(path@, bytecode@, report) == Ok::<
                    ShaderView,
                    ShaderErrorView,
                >(shader@) && shader.wf(),
                Err(error) => reflected_properties(path@, bytecode@, report) == Err::<
                    ShaderView,
                    ShaderErrorView,
                >(error@),
            },
    {
        let push_constant_info = match resolve_push_constants(report.push_constant_range) {
            Some(range) => range,
            None => {
                return Err(
                    ShaderError::ReflectionFailure {
                        path,
                        fault: ReflectionFault::PushConstantRange,
                    },
                );
            },
        };
        let (cg_x, cg_y, cg_z) = match report.compute_group_size {
            Some(size) => size,
            None => {
                return Err(
                    ShaderError::ReflectionFailure {
                        path,
                        fault: ReflectionFault::ComputeGroupSize,
                    },
                );
            },
        };
        if cg_x == 0 || cg_y == 0 || cg_z == 0 {
            return Err(
                ShaderError::ReflectionFailure { path, fault: ReflectionFault::EmptyWorkgroup },
            );
        }
        let bindings = match extract_bindings(report.disassembly.as_str()) {
            Some(names) => names,
            None => {
                return Err(
                    ShaderError::ReflectionFailure { path, fault: ReflectionFault::BindingNames },
                );
            },
        };
        Ok(
            Shader {
                config: compute_config(),
                shader: bytecode,
                push_constant_info,
                cg_x,
                cg_y,
                cg_z,
                bindings,
            },
        )
    }

    /// The properties of the shader `shader_name` under `shaders_folder`,
    /// given what the toolchain made of its source file. Every failure names
    /// the path of that file.
    pub fn get_shader_properties(
        shader_name: &str,
        shaders_folder: &str,
        outcome: ToolchainOutcome,
    ) -> (loaded: Result<Shader, ShaderError>)
        ensures
            match loaded {
                Ok(shader) => shader_properties_of(
                    shader_path_of(shaders_folder@, shader_name@),
                    outcome,
                ) == Ok::<ShaderView, ShaderErrorView>(shader@) && shader.wf(),
                Err(error) => shader_properties_of(
                    shader_path_of(shaders_folder@, shader_name@),
                    outcome,
                ) == Err::<ShaderView, ShaderErrorView>(error@),
            },
    {
        let path = shader_path(shaders_folder, shader_name);
        match outcome {
            ToolchainOutcome::SourceUnreadable => Err(ShaderError::AssetNotFound { path }),
            ToolchainOutcome::CompilationFailed(diagnostic) => Err(
                ShaderError::CompilationFailure { path, diagnostic },
            ),
            ToolchainOutcome::ModuleUnreadable => Err(
                ShaderError::ReflectionFailure { path, fault: ReflectionFault::Module },
            ),
            ToolchainOutcome::Reflected(bytecode, report) => Shader::from_reflection(
                path,
                bytecode,
                report,
            ),
        }
    }
}

} // verus!
