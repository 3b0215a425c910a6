//! Building a shader program from a vertex and a fragment shader.
//!
//! A [`ShaderBuild`] asks whether the driver can compile shaders at all,
//! compiles the two shaders, links them into a program and, however the build
//! ends, deletes every shader object it created. Where compiling or linking
//! fails it fetches the driver's log first; where linking fails it deletes
//! the program too.

use vstd::prelude::*;
use crate::az_string::{str_to_bytes, AzString};
use crate::command::{
    answer, answers_from, single_boolean, single_integer, single_name, single_text,
    spec_single_boolean, spec_single_integer, spec_single_name, spec_single_text, GlCommand,
    GlReply, GlReplyError, GlStep, ShaderSourceRef, Transition,
};
use crate::ctypes::{GLint, GLuint};
use crate::draw::{DrawLayer, DrawPass, DrawStage};
use crate::glenum;
use crate::identity::{order_of_statuses, status_order};
use crate::resources::{ColorU, PhysicalSizeU32};
use crate::text::{push_decimal_i64, push_decimal_u64, spec_decimal, spec_decimal_nat};
use vstd::string::StringExecFns;

verus! {

/// The driver refused a vertex shader.
#[derive(Debug, Clone, Eq)]
pub struct VertexShaderCompileError {
    /// The compile status that the driver reported.
    pub error_id: i32,
    /// The driver's log for the shader.
    pub info_log: AzString,
}

impl PartialEq for VertexShaderCompileError {
    fn eq(&self, other: &VertexShaderCompileError) -> (r: bool) {
        self.error_id == other.error_id
    }
}

impl vstd::std_specs::cmp::PartialEqSpecImpl for VertexShaderCompileError {
    open spec fn obeys_eq_spec() -> bool {
        true
    }

    /// Two errors are equal when they carry the same status.
    open spec fn eq_spec(&self, other: &VertexShaderCompileError) -> bool {
        self.error_id == other.error_id
    }
}

impl core::hash::Hash for VertexShaderCompileError {
    fn hash<H: core::hash::Hasher>(&self, state: &mut H) {
        self.error_id.hash(state)
    }
}

impl PartialOrd for VertexShaderCompileError {
    fn partial_cmp(&self, other: &VertexShaderCompileError) -> (r: Option<core::cmp::Ordering>) {
        Some(order_of_statuses(self.error_id, other.error_id))
    }
}

impl vstd::std_specs::cmp::PartialOrdSpecImpl for VertexShaderCompileError {
    open spec fn obeys_partial_cmp_spec() -> bool {
        true
    }

    /// Errors are ordered by their status.
    open spec fn partial_cmp_spec(&self, other: &VertexShaderCompileError) -> Option<core::cmp::Ordering> {
        Some(status_order(self.error_id, other.error_id))
    }
}

/// The driver refused a fragment shader.
#[derive(Debug, Clone, Eq)]
pub struct FragmentShaderCompileError {
    /// The compile status that the driver reported.
    pub error_id: i32,
    /// The driver's log for the shader.
    pub info_log: AzString,
}

impl PartialEq for FragmentShaderCompileError {
    fn eq(&self, other: &FragmentShaderCompileError) -> (r: bool) {
        self.error_id == other.error_id
    }
}

impl vstd::std_specs::cmp::PartialEqSpecImpl for FragmentShaderCompileError {
    open spec fn obeys_eq_spec() -> bool {
        true
    }

    /// Two errors are equal when they carry the same status.
    open spec fn eq_spec(&self, other: &FragmentShaderCompileError) -> bool {
        self.error_id == other.error_id
    }
}

impl core::hash::Hash for FragmentShaderCompileError {
    fn hash<H: core::hash::Hasher>(&self, state: &mut H) {
        self.error_id.hash(state)
    }
}

impl PartialOrd for FragmentShaderCompileError {
    fn partial_cmp(&self, other: &FragmentShaderCompileError) -> (r: Option<core::cmp::Ordering>) {
        Some(order_of_statuses(self.error_id, other.error_id))
    }
}

impl vstd::std_specs::cmp::PartialOrdSpecImpl for FragmentShaderCompileError {
    open spec fn obeys_partial_cmp_spec() -> bool {
        true
    }

    /// Errors are ordered by their status.
    open spec fn partial_cmp_spec(&self, other: &FragmentShaderCompileError) -> Option<core::cmp::Ordering> {
        Some(status_order(self.error_id, other.error_id))
    }
}

/// The driver refused one of the two shaders.
#[derive(Debug, Clone, PartialEq, Eq, PartialOrd, Hash)]
pub enum GlShaderCompileError {
    Vertex(VertexShaderCompileError),
    Fragment(FragmentShaderCompileError),
}

/// The driver could not link the two shaders.
#[derive(Debug, Clone, Eq)]
pub struct GlShaderLinkError {
    /// The link status that the driver reported.
    pub error_id: i32,
    /// The driver's log for the program.
    pub info_log: AzString,
}

impl PartialEq for GlShaderLinkError {
    fn eq(&self, other: &GlShaderLinkError) -> (r: bool) {
        self.error_id == other.error_id
    }
}

impl vstd::std_specs::cmp::PartialEqSpecImpl for GlShaderLinkError {
    open spec fn obeys_eq_spec() -> bool {
        true
    }

    /// Two errors are equal when they carry the same status.
    open spec fn eq_spec(&self, other: &GlShaderLinkError) -> bool {
        self.error_id == other.error_id
    }
}

impl core::hash::Hash for GlShaderLinkError {
    fn hash<H: core::hash::Hasher>(&self, state: &mut H) {
        self.error_id.hash(state)
    }
}

impl PartialOrd for GlShaderLinkError {
    fn partial_cmp(&self, other: &GlShaderLinkError) -> (r: Option<core::cmp::Ordering>) {
        Some(order_of_statuses(self.error_id, other.error_id))
    }
}

impl vstd::std_specs::cmp::PartialOrdSpecImpl for GlShaderLinkError {
    open spec fn obeys_partial_cmp_spec() -> bool {
        true
    }

    /// Errors are ordered by their status.
    open spec fn partial_cmp_spec(&self, other: &GlShaderLinkError) -> Option<core::cmp::Ordering> {
        Some(status_order(self.error_id, other.error_id))
    }
}

/// Why no shader program came about.
#[derive(Debug, Clone, PartialEq, Eq, PartialOrd, Hash)]
pub enum GlShaderCreateError {
    Compile(GlShaderCompileError),
    Link(GlShaderLinkError),
    /// The driver takes binary shaders only.
    NoShaderCompiler,
}

/// A linked shader program.
///
/// Whoever holds the value owns the program object and deletes it, with
/// [`GlShader::delete_commands`], when the value goes away.
#[derive(Debug, PartialEq, Eq, Structural, PartialOrd, Ord, Hash)]
pub struct GlShader {
    pub program_id: GLuint,
}

/// The error that a compile or link status stands for: none for the driver's
/// `TRUE`, else the status itself.
pub open spec fn spec_status_error(status: GLint) -> Option<i32> {
    if status == glenum::TRUE as i32 {
        None
    } else {
        Some(status)
    }
}

/// The error that a compile or link status stands for.
pub fn status_error(status: GLint) -> (r: Option<i32>)
    ensures
        r == spec_status_error(status),
{
    if status == glenum::TRUE as i32 {
        None
    } else {
        Some(status)
    }
}

/// How far a build has come. Each stage but the first and the last waits for
/// the reply that its name says.
#[derive(Debug, Copy, Clone, PartialEq, Eq, Structural, Hash)]
pub enum ShaderStage {
    Start,
    AwaitCompiler,
    AwaitVertexShader,
    AwaitVertexStatus,
    AwaitVertexLog,
    AwaitFragmentShader,
    AwaitFragmentStatus,
    AwaitFragmentLog,
    AwaitProgram,
    AwaitLinkStatus,
    AwaitLinkLog,
    Done,
}

/// The state of a build as a mathematical value.
pub struct ShaderBuildView {
    pub stage: ShaderStage,
    /// The vertex shader's source as the driver gets it.
    pub vertex_source: Seq<u8>,
    /// The fragment shader's source as the driver gets it.
    pub fragment_source: Seq<u8>,
    /// The vertex shader object, once there is one.
    pub vertex_shader: GLuint,
    /// The fragment shader object, once there is one.
    pub fragment_shader: GLuint,
    /// The program object, once there is one.
    pub program: GLuint,
    /// The status that made the build fail, once it has.
    pub error_id: i32,
}

/// Uploads and compiles one shader, then asks how that went.
pub open spec fn compile_commands(shader: GLuint, source: ShaderSourceRef) -> Seq<GlCommand> {
    seq![
        GlCommand::ShaderSource { shader, source },
        GlCommand::CompileShader { shader },
        GlCommand::GetShaderIv { shader, pname: glenum::COMPILE_STATUS },
    ]
}

/// Attaches both shaders to the program and links it.
pub open spec fn link_commands(
    program: GLuint,
    vertex_shader: GLuint,
    fragment_shader: GLuint,
) -> Seq<GlCommand> {
    seq![
        GlCommand::AttachShader { program, shader: vertex_shader },
        GlCommand::AttachShader { program, shader: fragment_shader },
        GlCommand::LinkProgram { program },
    ]
}

/// Deletes both shader objects.
pub open spec fn delete_shaders_commands(vertex_shader: GLuint, fragment_shader: GLuint) -> Seq<
    GlCommand,
> {
    seq![
        GlCommand::DeleteShader { shader: vertex_shader },
        GlCommand::DeleteShader { shader: fragment_shader },
    ]
}

impl ShaderBuildView {
    /// The same build at another stage.
    pub open spec fn at(self, stage: ShaderStage) -> ShaderBuildView {
        ShaderBuildView { stage, ..self }
    }

    /// The same build after a status said that a step failed.
    pub open spec fn failed(self, stage: ShaderStage, error_id: i32) -> ShaderBuildView {
        ShaderBuildView { stage, error_id, ..self }
    }

    /// The move that `replies` cause, or `None` where they do not answer the
    /// batch issued last.
    pub open spec fn step(self, replies: Seq<GlReply>) -> Option<
        Transition<ShaderBuildView, Result<GlShader, GlShaderCreateError>>,
    > {
        match self.stage {
            ShaderStage::Start => if replies.len() == 0 {
                Transition::run(
                    self.at(ShaderStage::AwaitCompiler),
                    seq![GlCommand::GetBooleanV { name: glenum::SHADER_COMPILER }],
                )
            } else {
                None
            },
            ShaderStage::AwaitCompiler => match spec_single_boolean(replies) {
                Some(supported) => if supported == glenum::FALSE {
                    Transition::finish(
                        self.at(ShaderStage::Done),
                        Seq::empty(),
                        Err(GlShaderCreateError::NoShaderCompiler),
                    )
                } else {
                    Transition::run(
                        self.at(ShaderStage::AwaitVertexShader),
                        seq![GlCommand::CreateShader { shader_type: glenum::VERTEX_SHADER }],
                    )
                },
                None => None,
            },
            ShaderStage::AwaitVertexShader => match spec_single_name(replies) {
                Some(shader) => Transition::run(
                    ShaderBuildView {
                        stage: ShaderStage::AwaitVertexStatus,
                        vertex_shader: shader,
                        ..self
                    },
                    compile_commands(shader, ShaderSourceRef::Vertex),
                ),
                None => None,
            },
            ShaderStage::AwaitVertexStatus => match spec_single_integer(replies) {
                Some(status) => match spec_status_error(status) {
                    None => Transition::run(
                        self.at(ShaderStage::AwaitFragmentShader),
                        seq![GlCommand::CreateShader { shader_type: glenum::FRAGMENT_SHADER }],
                    ),
                    Some(error_id) => Transition::run(
                        self.failed(ShaderStage::AwaitVertexLog, error_id),
                        seq![GlCommand::GetShaderInfoLog { shader: self.vertex_shader }],
                    ),
                },
                None => None,
            },
            ShaderStage::AwaitVertexLog => match spec_single_text(replies) {
                Some(info_log) => Transition::finish(
                    self.at(ShaderStage::Done),
                    seq![GlCommand::DeleteShader { shader: self.vertex_shader }],
                    Err(
                        GlShaderCreateError::Compile(
                            GlShaderCompileError::Vertex(
                                VertexShaderCompileError { error_id: self.error_id, info_log },
                            ),
                        ),
                    ),
                ),
                None => None,
            },
            ShaderStage::AwaitFragmentShader => match spec_single_name(replies) {
                Some(shader) => Transition::run(
                    ShaderBuildView {
                        stage: ShaderStage::AwaitFragmentStatus,
                        fragment_shader: shader,
                        ..self
                    },
                    compile_commands(shader, ShaderSourceRef::Fragment),
                ),
                None => None,
            },
            ShaderStage::AwaitFragmentStatus => match spec_single_integer(replies) {
                Some(status) => match spec_status_error(status) {
                    None => Transition::run(
                        self.at(ShaderStage::AwaitProgram),
                        seq![GlCommand::CreateProgram],
                    ),
                    Some(error_id) => Transition::run(
                        self.failed(ShaderStage::AwaitFragmentLog, error_id),
                        seq![GlCommand::GetShaderInfoLog { shader: self.fragment_shader }],
                    ),
                },
                None => None,
            },
            ShaderStage::AwaitFragmentLog => match spec_single_text(replies) {
                Some(info_log) => Transition::finish(
                    self.at(ShaderStage::Done),
                    delete_shaders_commands(self.vertex_shader, self.fragment_shader),
                    Err(
                        GlShaderCreateError::Compile(
                            GlShaderCompileError::Fragment(
                                FragmentShaderCompileError { error_id: self.error_id, info_log },
                            ),
                        ),
                    ),
                ),
                None => None,
            },
            ShaderStage::AwaitProgram => match spec_single_name(replies) {
                Some(program) => Transition::run(
                    ShaderBuildView { stage: ShaderStage::AwaitLinkStatus, program, ..self },
                    link_commands(program, self.vertex_shader, self.fragment_shader).push(
                        GlCommand::GetProgramIv { program, pname: glenum::LINK_STATUS },
                    ),
                ),
                None => None,
            },
            ShaderStage::AwaitLinkStatus => match spec_single_integer(replies) {
                Some(status) => match spec_status_error(status) {
                    None => Transition::finish(
                        self.at(ShaderStage::Done),
                        delete_shaders_commands(self.vertex_shader, self.fragment_shader),
                        Ok(GlShader { program_id: self.program }),
                    ),
                    Some(error_id) => Transition::run(
                        self.failed(ShaderStage::AwaitLinkLog, error_id),
                        seq![GlCommand::GetProgramInfoLog { program: self.program }],
                    ),
                },
                None => None,
            },
            ShaderStage::AwaitLinkLog => match spec_single_text(replies) {
                Some(info_log) => Transition::finish(
                    self.at(ShaderStage::Done),
                    delete_shaders_commands(self.vertex_shader, self.fragment_shader).push(
                        GlCommand::DeleteProgram { program: self.program },
                    ),
                    Err(
                        GlShaderCreateError::Link(
                            GlShaderLinkError { error_id: self.error_id, info_log },
                        ),
                    ),
                ),
                None => None,
            },
            ShaderStage::Done => None,
        }
    }

    /// The shader objects that the build has created and not yet deleted.
    pub open spec fn live_shaders(self) -> Seq<GLuint> {
        match self.stage {
            ShaderStage::Start => Seq::empty(),
            ShaderStage::AwaitCompiler => Seq::empty(),
            ShaderStage::AwaitVertexShader => Seq::empty(),
            ShaderStage::AwaitVertexStatus => seq![self.vertex_shader],
            ShaderStage::AwaitVertexLog => seq![self.vertex_shader],
            ShaderStage::AwaitFragmentShader => seq![self.vertex_shader],
            ShaderStage::AwaitFragmentStatus => seq![self.vertex_shader, self.fragment_shader],
            ShaderStage::AwaitFragmentLog => seq![self.vertex_shader, self.fragment_shader],
            ShaderStage::AwaitProgram => seq![self.vertex_shader, self.fragment_shader],
            ShaderStage::AwaitLinkStatus => seq![self.vertex_shader, self.fragment_shader],
            ShaderStage::AwaitLinkLog => seq![self.vertex_shader, self.fragment_shader],
            ShaderStage::Done => Seq::empty(),
        }
    }

    /// The program object that the build has created, if it has.
    pub open spec fn live_program(self) -> Option<GLuint> {
        match self.stage {
            ShaderStage::AwaitLinkStatus => Some(self.program),
            ShaderStage::AwaitLinkLog => Some(self.program),
            _ => None,
        }
    }
}


fn make_compile_commands(shader: GLuint, source: ShaderSourceRef) -> (c: Vec<GlCommand>)
    ensures
        c@ == compile_commands(shader, source),
{
    vec![
        GlCommand::ShaderSource { shader, source },
        GlCommand::CompileShader { shader },
        GlCommand::GetShaderIv { shader, pname: glenum::COMPILE_STATUS },
    ]
}

fn make_delete_shaders_commands(vertex_shader: GLuint, fragment_shader: GLuint) -> (c: Vec<
    GlCommand,
>)
    ensures
        c@ == delete_shaders_commands(vertex_shader, fragment_shader),
{
    vec![
        GlCommand::DeleteShader { shader: vertex_shader },
        GlCommand::DeleteShader { shader: fragment_shader },
    ]
}

/// A build of a shader program.
///
/// Hand [`ShaderBuild::advance`] no replies to start, run the commands it
/// returns, and hand it the replies of the queries among them, until it
/// returns `GlStep::Finish` with the program or the error.
#[derive(Debug)]
pub struct ShaderBuild {
    stage: ShaderStage,
    vertex_source: Vec<u8>,
    fragment_source: Vec<u8>,
    vertex_shader: GLuint,
    fragment_shader: GLuint,
    program: GLuint,
    error_id: i32,
}

impl View for ShaderBuild {
    type V = ShaderBuildView;

    closed spec fn view(&self) -> ShaderBuildView {
        ShaderBuildView {
            stage: self.stage,
            vertex_source: self.vertex_source@,
            fragment_source: self.fragment_source@,
            vertex_shader: self.vertex_shader,
            fragment_shader: self.fragment_shader,
            program: self.program,
            error_id: self.error_id,
        }
    }
}

impl ShaderBuild {
    /// A build from the sources of a vertex and a fragment shader. The driver
    /// gets each source as its UTF-8 bytes with a zero byte at the end.
    pub fn new(vertex_shader: &str, fragment_shader: &str) -> (build: ShaderBuild)
        ensures
            build@.stage == ShaderStage::Start,
            build@.vertex_source == vstd::utf8::encode_utf8(vertex_shader@).push(0u8),
            build@.fragment_source == vstd::utf8::encode_utf8(fragment_shader@).push(0u8),
    {
        ShaderBuild {
            stage: ShaderStage::Start,
            vertex_source: str_to_bytes(vertex_shader),
            fragment_source: str_to_bytes(fragment_shader),
            vertex_shader: 0,
            fragment_shader: 0,
            program: 0,
            error_id: 0,
        }
    }

    /// How far the build has come.
    pub fn stage(&self) -> (stage: ShaderStage)
        ensures
            stage == self@.stage,
    {
        self.stage
    }

    /// The bytes that a `ShaderSource` command of this build uploads, or
    /// `None` for a source that is not the build's.
    pub fn source(&self, which: ShaderSourceRef) -> (bytes: Option<&Vec<u8>>)
        ensures
            match which {
                ShaderSourceRef::Vertex => bytes is Some && bytes->0@ == self@.vertex_source,
                ShaderSourceRef::Fragment => bytes is Some && bytes->0@ == self@.fragment_source,
                _ => bytes is None,
            },
    {
        match which {
            ShaderSourceRef::Vertex => Some(&self.vertex_source),
            ShaderSourceRef::Fragment => Some(&self.fragment_source),
            _ => None,
        }
    }

    /// Takes in the replies to the batch issued last and says what to do
    /// next. Replies that do not fit are refused and change nothing.
    pub fn advance(&mut self, replies: Vec<GlReply>) -> (r: Result<
        GlStep<Result<GlShader, GlShaderCreateError>>,
        GlReplyError,
    >)
        ensures
            match r {
                Ok(step) => {
                    &&& old(self)@.step(replies@) is Some
                    &&& final(self)@ == old(self)@.step(replies@)->0.next
                    &&& step.spec_commands() =~= old(self)@.step(replies@)->0.commands
                    &&& step.spec_outcome() == old(self)@.step(replies@)->0.outcome
                },
                Err(_) => old(self)@.step(replies@) is None && final(self)@ == old(self)@,
            },
    {
        match self.stage {
            ShaderStage::Start => {
                if replies.len() != 0 {
                    return Err(GlReplyError);
                }
                self.stage = ShaderStage::AwaitCompiler;
                Ok(GlStep::Run(vec![GlCommand::GetBooleanV { name: glenum::SHADER_COMPILER }]))
            },
            ShaderStage::AwaitCompiler => match single_boolean(&replies) {
                Some(supported) => {
                    if supported == glenum::FALSE {
                        self.stage = ShaderStage::Done;
                        Ok(
                            GlStep::Finish(
                                Vec::new(),
                                Err(GlShaderCreateError::NoShaderCompiler),
                            ),
                        )
                    } else {
                        self.stage = ShaderStage::AwaitVertexShader;
                        Ok(
                            GlStep::Run(
                                vec![GlCommand::CreateShader { shader_type: glenum::VERTEX_SHADER }],
                            ),
                        )
                    }
                },
                None => Err(GlReplyError),
            },
            ShaderStage::AwaitVertexShader => match single_name(&replies) {
                Some(shader) => {
                    self.vertex_shader = shader;
                    self.stage = ShaderStage::AwaitVertexStatus;
                    Ok(GlStep::Run(make_compile_commands(shader, ShaderSourceRef::Vertex)))
                },
                None => Err(GlReplyError),
            },
            ShaderStage::AwaitVertexStatus => match single_integer(&replies) {
                Some(status) => match status_error(status) {
                    None => {
                        self.stage = ShaderStage::AwaitFragmentShader;
                        Ok(
                            GlStep::Run(
                                vec![
                                    GlCommand::CreateShader {
                                        shader_type: glenum::FRAGMENT_SHADER,
                                    },
                                ],
                            ),
                        )
                    },
                    Some(error_id) => {
                        self.error_id = error_id;
                        self.stage = ShaderStage::AwaitVertexLog;
                        Ok(
                            GlStep::Run(
                                vec![GlCommand::GetShaderInfoLog { shader: self.vertex_shader }],
                            ),
                        )
                    },
                },
                None => Err(GlReplyError),
            },
            ShaderStage::AwaitVertexLog => match single_text(replies) {
                Some(info_log) => {
                    self.stage = ShaderStage::Done;
                    Ok(
                        GlStep::Finish(
                            vec![GlCommand::DeleteShader { shader: self.vertex_shader }],
                            Err(
                                GlShaderCreateError::Compile(
                                    GlShaderCompileError::Vertex(
                                        VertexShaderCompileError {
                                            error_id: self.error_id,
                                            info_log,
                                        },
                                    ),
                                ),
                            ),
                        ),
                    )
                },
                None => Err(GlReplyError),
            },
            ShaderStage::AwaitFragmentShader => match single_name(&replies) {
                Some(shader) => {
                    self.fragment_shader = shader;
                    self.stage = ShaderStage::AwaitFragmentStatus;
                    Ok(GlStep::Run(make_compile_commands(shader, ShaderSourceRef::Fragment)))
                },
                None => Err(GlReplyError),
            },
            ShaderStage::AwaitFragmentStatus => match single_integer(&replies) {
                Some(status) => match status_error(status) {
                    None => {
                        self.stage = ShaderStage::AwaitProgram;
                        Ok(GlStep::Run(vec![GlCommand::CreateProgram]))
                    },
                    Some(error_id) => {
                        self.error_id = error_id;
                        self.stage = ShaderStage::AwaitFragmentLog;
                        Ok(
                            GlStep::Run(
                                vec![GlCommand::GetShaderInfoLog { shader: self.fragment_shader }],
                            ),
                        )
                    },
                },
                None => Err(GlReplyError),
            },
            ShaderStage::AwaitFragmentLog => match single_text(replies) {
                Some(info_log) => {
                    self.stage = ShaderStage::Done;
                    Ok(
                        GlStep::Finish(
                            make_delete_shaders_commands(self.vertex_shader, self.fragment_shader),
                            Err(
                                GlShaderCreateError::Compile(
                                    GlShaderCompileError::Fragment(
                                        FragmentShaderCompileError {
                                            error_id: self.error_id,
                                            info_log,
                                        },
                                    ),
                                ),
                            ),
                        ),
                    )
                },
                None => Err(GlReplyError),
            },
            ShaderStage::AwaitProgram => match single_name(&replies) {
                Some(program) => {
                    self.program = program;
                    self.stage = ShaderStage::AwaitLinkStatus;
                    let commands = vec![
                        GlCommand::AttachShader { program, shader: self.vertex_shader },
                        GlCommand::AttachShader { program, shader: self.fragment_shader },
                        GlCommand::LinkProgram { program },
                        GlCommand::GetProgramIv { program, pname: glenum::LINK_STATUS },
                    ];
                    assert(commands@ =~= link_commands(
                        program,
                        self.vertex_shader,
                        self.fragment_shader,
                    ).push(GlCommand::GetProgramIv { program, pname: glenum::LINK_STATUS }));
                    Ok(GlStep::Run(commands))
                },
                None => Err(GlReplyError),
            },
            ShaderStage::AwaitLinkStatus => match single_integer(&replies) {
                Some(status) => match status_error(status) {
                    None => {
                        self.stage = ShaderStage::Done;
                        Ok(
                            GlStep::Finish(
                                make_delete_shaders_commands(
                                    self.vertex_shader,
                                    self.fragment_shader,
                                ),
                                Ok(GlShader { program_id: self.program }),
                            ),
                        )
                    },
                    Some(error_id) => {
                        self.error_id = error_id;
                        self.stage = ShaderStage::AwaitLinkLog;
                        Ok(
                            GlStep::Run(
                                vec![GlCommand::GetProgramInfoLog { program: self.program }],
                            ),
                        )
                    },
                },
                None => Err(GlReplyError),
            },
            ShaderStage::AwaitLinkLog => match single_text(replies) {
                Some(info_log) => {
                    self.stage = ShaderStage::Done;
                    let commands = vec![
                        GlCommand::DeleteShader { shader: self.vertex_shader },
                        GlCommand::DeleteShader { shader: self.fragment_shader },
                        GlCommand::DeleteProgram { program: self.program },
                    ];
                    assert(commands@ =~= delete_shaders_commands(
                        self.vertex_shader,
                        self.fragment_shader,
                    ).push(GlCommand::DeleteProgram { program: self.program }));
                    Ok(
                        GlStep::Finish(
                            commands,
                            Err(
                                GlShaderCreateError::Link(
                                    GlShaderLinkError { error_id: self.error_id, info_log },
                                ),
                            ),
                        ),
                    )
                },
                None => Err(GlReplyError),
            },
            ShaderStage::Done => Err(GlReplyError),
        }
    }
}

impl GlShader {
    /// Starts the build of a shader program from the sources of a vertex and
    /// a fragment shader.
    pub fn new(vertex_shader: &str, fragment_shader: &str) -> (build: ShaderBuild)
        ensures
            build@.stage == ShaderStage::Start,
            build@.vertex_source == vstd::utf8::encode_utf8(vertex_shader@).push(0u8),
            build@.fragment_source == vstd::utf8::encode_utf8(fragment_shader@).push(0u8),
    {
        ShaderBuild::new(vertex_shader, fragment_shader)
    }

    /// Starts a pass that draws `layers` with this program into a new
    /// texture of `texture_size`, cleared to `clear_color` if there is one.
    pub fn draw(
        &self,
        layers: Vec<DrawLayer>,
        clear_color: Option<ColorU>,
        texture_size: PhysicalSizeU32,
    ) -> (pass: DrawPass)
        ensures
            pass@.stage == DrawStage::Start,
            pass@.program_id == self.program_id,
            pass@.layers == layers@,
            pass@.clear_color == clear_color,
            pass@.texture_size == texture_size,
    {
        DrawPass::new(self.program_id, layers, clear_color, texture_size)
    }

    /// The commands that give the program object back to the driver.
    pub fn delete_commands(&self) -> (c: Vec<GlCommand>)
        ensures
            c@ == seq![GlCommand::DeleteProgram { program: self.program_id }],
    {
        vec![GlCommand::DeleteProgram { program: self.program_id }]
    }
}


/// While a build goes on it deletes nothing, and it keeps track of every
/// shader and program that the driver creates for it.
pub proof fn lemma_build_tracks_its_objects(build: ShaderBuildView, replies: Seq<GlReply>)
    requires
        build.step(replies) is Some,
        build.step(replies)->0.outcome is None,
    ensures
        ({
            let moved = build.step(replies)->0;
            &&& forall|i: int|
                0 <= i < moved.commands.len() ==> !(#[trigger] moved.commands[i]).spec_is_delete()
            &&& moved.next.live_shaders() == match build.stage {
                ShaderStage::AwaitVertexShader => build.live_shaders().push(replies[0].spec_name()->0),
                ShaderStage::AwaitFragmentShader => build.live_shaders().push(
                    replies[0].spec_name()->0,
                ),
                _ => build.live_shaders(),
            }
            &&& moved.next.live_program() == match build.stage {
                ShaderStage::AwaitProgram => Some(replies[0].spec_name()->0),
                _ => build.live_program(),
            }
        }),
{
    let moved = build.step(replies)->0;
    assert(moved.next.live_shaders() =~= match build.stage {
        ShaderStage::AwaitVertexShader => build.live_shaders().push(replies[0].spec_name()->0),
        ShaderStage::AwaitFragmentShader => build.live_shaders().push(replies[0].spec_name()->0),
        _ => build.live_shaders(),
    });
}

/// However a build ends, its last batch deletes every shader that the build
/// still holds. A program that was created is handed out where the build
/// succeeds, and deleted where it fails.
pub proof fn lemma_build_ends_clean(build: ShaderBuildView, replies: Seq<GlReply>)
    requires
        build.step(replies) is Some,
        build.step(replies)->0.outcome is Some,
    ensures
        ({
            let moved = build.step(replies)->0;
            let deleted_program = GlCommand::DeleteProgram { program: build.program };
            &&& forall|i: int|
                0 <= i < build.live_shaders().len() ==> moved.commands.contains(
                    GlCommand::DeleteShader { shader: #[trigger] build.live_shaders()[i] },
                )
            &&& moved.next.live_shaders().len() == 0
            &&& moved.next.live_program() is None
            &&& match moved.outcome->0 {
                Ok(shader) => build.live_program() == Some(shader.program_id)
                    && !moved.commands.contains(deleted_program),
                Err(_) => build.live_program() is Some ==> moved.commands.contains(
                    deleted_program,
                ),
            }
        }),
{
    let moved = build.step(replies)->0;
    let vertex = GlCommand::DeleteShader { shader: build.vertex_shader };
    let fragment = GlCommand::DeleteShader { shader: build.fragment_shader };
    let program = GlCommand::DeleteProgram { program: build.program };
    match build.stage {
        ShaderStage::AwaitVertexLog => {
            assert(moved.commands[0] == vertex);
        },
        ShaderStage::AwaitFragmentLog => {
            assert(moved.commands[0] == vertex);
            assert(moved.commands[1] == fragment);
        },
        ShaderStage::AwaitLinkStatus => {
            assert(moved.commands[0] == vertex);
            assert(moved.commands[1] == fragment);
        },
        ShaderStage::AwaitLinkLog => {
            assert(moved.commands[0] == vertex);
            assert(moved.commands[1] == fragment);
            assert(moved.commands[2] == program);
        },
        _ => {},
    }
}


/// A status and a log as text: the letter E, the status, a colon and the
/// log.
pub open spec fn spec_status_text(error_id: i32, info_log: AzString) -> Seq<char> {
    "E"@ + spec_decimal(error_id as int) + ": "@ + info_log@
}

/// Appends a status and a log to `text`.
fn push_status_text(text: &mut String, error_id: i32, info_log: &AzString)
    ensures
        final(text)@ == old(text)@ + spec_status_text(error_id, *info_log),
{
    text.append("E");
    push_decimal_i64(text, error_id as i64);
    text.append(": ");
    text.append(info_log.as_str());
    assert(text@ =~= old(text)@ + spec_status_text(error_id, *info_log));
}

impl VertexShaderCompileError {
    /// The error as text, such as `E0: unexpected token`.
    pub fn to_string(&self) -> (text: String)
        ensures
            text@ == spec_status_text(self.error_id, self.info_log),
    {
        let mut text = String::new();
        push_status_text(&mut text, self.error_id, &self.info_log);
        assert(text@ =~= spec_status_text(self.error_id, self.info_log));
        text
    }
}

impl FragmentShaderCompileError {
    /// The error as text, such as `E0: unexpected token`.
    pub fn to_string(&self) -> (text: String)
        ensures
            text@ == spec_status_text(self.error_id, self.info_log),
    {
        let mut text = String::new();
        push_status_text(&mut text, self.error_id, &self.info_log);
        assert(text@ =~= spec_status_text(self.error_id, self.info_log));
        text
    }
}

impl GlShaderLinkError {
    /// The error as text, such as `E0: undefined reference`.
    pub fn to_string(&self) -> (text: String)
        ensures
            text@ == spec_status_text(self.error_id, self.info_log),
    {
        let mut text = String::new();
        push_status_text(&mut text, self.error_id, &self.info_log);
        assert(text@ =~= spec_status_text(self.error_id, self.info_log));
        text
    }
}

impl GlShaderCompileError {
    /// Which shader failed to compile, and how.
    pub open spec fn spec_to_string(&self) -> Seq<char> {
        match self {
            GlShaderCompileError::Vertex(e) => "Failed to compile vertex shader: "@
                + spec_status_text(e.error_id, e.info_log),
            GlShaderCompileError::Fragment(e) => "Failed to compile fragment shader: "@
                + spec_status_text(e.error_id, e.info_log),
        }
    }

    fn push_to(&self, text: &mut String)
        ensures
            final(text)@ == old(text)@ + self.spec_to_string(),
    {
        match self {
            GlShaderCompileError::Vertex(e) => {
                text.append("Failed to compile vertex shader: ");
                push_status_text(text, e.error_id, &e.info_log);
            },
            GlShaderCompileError::Fragment(e) => {
                text.append("Failed to compile fragment shader: ");
                push_status_text(text, e.error_id, &e.info_log);
            },
        }
        assert(text@ =~= old(text)@ + self.spec_to_string());
    }

    /// Which shader failed to compile, and how, as text.
    pub fn to_string(&self) -> (text: String)
        ensures
            text@ == self.spec_to_string(),
    {
        let mut text = String::new();
        self.push_to(&mut text);
        assert(text@ =~= self.spec_to_string());
        text
    }
}

impl GlShaderCreateError {
    /// Why no shader program came about.
    pub open spec fn spec_to_string(&self) -> Seq<char> {
        match self {
            GlShaderCreateError::Compile(e) => "Shader compile error: "@ + e.spec_to_string(),
            GlShaderCreateError::Link(e) => "Shader linking error: "@ + spec_status_text(
                e.error_id,
                e.info_log,
            ),
            GlShaderCreateError::NoShaderCompiler =>
                "OpenGL implementation doesn't include a shader compiler"@,
        }
    }

    /// Why no shader program came about, as text.
    pub fn to_string(&self) -> (text: String)
        ensures
            text@ == self.spec_to_string(),
    {
        let mut text = String::new();
        match self {
            GlShaderCreateError::Compile(e) => {
                text.append("Shader compile error: ");
                e.push_to(&mut text);
            },
            GlShaderCreateError::Link(e) => {
                text.append("Shader linking error: ");
                push_status_text(&mut text, e.error_id, &e.info_log);
            },
            GlShaderCreateError::NoShaderCompiler => {
                text.append("OpenGL implementation doesn't include a shader compiler");
            },
        }
        assert(text@ =~= self.spec_to_string());
        text
    }
}

impl GlShader {
    /// The program's name as text.
    pub open spec fn spec_to_string(&self) -> Seq<char> {
        "GlShader { program_id: "@ + spec_decimal_nat(self.program_id as nat) + " }"@
    }

    /// The program's name as text, such as `GlShader { program_id: 4 }`.
    pub fn to_string(&self) -> (text: String)
        ensures
            text@ == self.spec_to_string(),
    {
        let mut text = String::new();
        text.append("GlShader { program_id: ");
        push_decimal_u64(&mut text, self.program_id as u64);
        text.append(" }");
        assert(text@ =~= self.spec_to_string());
        text
    }
}


/// A build takes exactly the replies that answer the batch it issued last.
pub proof fn lemma_build_takes_the_answers(
    build: ShaderBuildView,
    first: Seq<GlReply>,
    second: Seq<GlReply>,
)
    requires
        build.step(first) is Some,
        build.step(first)->0.outcome is None,
    ensures
        build.step(first)->0.next.step(second) is Some <==> answer(
            build.step(first)->0.commands,
            second,
        ),
{
    reveal_with_fuel(answers_from, 6);
}

} // verus!
