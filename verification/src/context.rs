//! Setting up a rendering context: the interface version, the two built-in
//! shader programs, and what the driver reports about programs.

use vstd::prelude::*;
use crate::az_string::{AzString, U8Vec};
use crate::command::{
    answer, answers_from, single_name, spec_single_name, GlCommand, GlReply, GlReplyError,
    GlStep, ShaderSourceRef, Transition,
};
use crate::ctypes::{GLenum, GLint, GLuint};
use crate::glenum;
use crate::shader::{delete_shaders_commands, link_commands};

verus! {

/// Vertex stage of the program that fills tessellated vector graphics.
pub const SVG_VERTEX_SHADER: &'static str = "
            #version 130

            precision mediump float;

            uniform vec2 vBboxSize;
            in vec2 vAttrXY;
            out vec4 vPosition;

            void main() {
                vPosition = vec4(vAttrXY / vBboxSize - vec2(1.0), 1.0, 1.0);
            }
        ";

/// Fragment stage of the program that fills tessellated vector graphics.
pub const SVG_FRAGMENT_SHADER: &'static str = "
            #version 130

            precision mediump float;

            in vec4 vPosition;
            out vec4 fOutColor;

            void main() {
                fOutColor = vec4(1.0, 1.0, 1.0, 1.0);
            }
        ";

/// Vertex stage of the anti-aliasing program.
pub const FXAA_VERTEX_SHADER: &'static str = "
            #version 130

            /*
                The MIT License (MIT)
                Copyright (c) 2014 Matt DesLauriers

                Permission is hereby granted, free of charge, to any person obtaining a copy
                of this software and associated documentation files (the \"Software\"), to deal
                in the Software without restriction, including without limitation the rights
                to use, copy, modify, merge, publish, distribute, sublicense, and/or sell
                copies of the Software, and to permit persons to whom the Software is
                furnished to do so, subject to the following conditions:

                The above copyright notice and this permission notice shall be included in all
                copies or substantial portions of the Software.

                THE SOFTWARE IS PROVIDED \"AS IS\", WITHOUT WARRANTY OF ANY KIND,
                EXPRESS OR IMPLIED, INCLUDING BUT NOT LIMITED TO THE WARRANTIES OF
                MERCHANTABILITY, FITNESS FOR A PARTICULAR PURPOSE AND NONINFRINGEMENT.
                IN NO EVENT SHALL THE AUTHORS OR COPYRIGHT HOLDERS BE LIABLE FOR ANY CLAIM,
                DAMAGES OR OTHER LIABILITY, WHETHER IN AN ACTION OF CONTRACT, TORT OR
                OTHERWISE, ARISING FROM, OUT OF OR IN CONNECTION WITH THE SOFTWARE OR THE USE
                OR OTHER DEALINGS IN THE SOFTWARE.
            */

            precision mediump float;

            uniform vec2 iResolution;
            in vec2 position;

            out vec2 v_rgbNW;
            out vec2 v_rgbNE;
            out vec2 v_rgbSW;
            out vec2 v_rgbSE;
            out vec2 v_rgbM;
            out vec4 vPosition;
            out vec2 vUv;

            void texcoords(vec2 fragCoord, vec2 resolution, out vec2 v_rgbNW, out vec2 v_rgbNE, out vec2 v_rgbSW, out vec2 v_rgbSE, out vec2 v_rgbM) {
                vec2 inverseVP = 1.0 / resolution.xy;
                v_rgbNW = (fragCoord + vec2(-1.0, -1.0)) * inverseVP;
                v_rgbNE = (fragCoord + vec2(1.0, -1.0)) * inverseVP;
                v_rgbSW = (fragCoord + vec2(-1.0, 1.0)) * inverseVP;
                v_rgbSE = (fragCoord + vec2(1.0, 1.0)) * inverseVP;
                v_rgbM = vec2(fragCoord * inverseVP);
            }

            void main(void) {
               vPosition = vec4(position, 1.0, 1.0);
               vUv = (position + 1.0) * 0.5;
               vUv.y = 1.0 - vUv.y;
               vec2 fragCoord = vUv * iResolution;
               texcoords(fragCoord, iResolution, v_rgbNW, v_rgbNE, v_rgbSW, v_rgbSE, v_rgbM);
            }
        ";

/// Fragment stage of the anti-aliasing program.
pub const FXAA_FRAGMENT_SHADER: &'static str = "
            #version 130

            /**
                Basic FXAA implementation based on the code on geeks3d.com with the
                modification that the texture2DLod stuff was removed since it's
                unsupported by WebGL.

                --

                From: https://github.com/mitsuhiko/webgl-meincraft
                Copyright (c) 2011 by Armin Ronacher.
                Some rights reserved.

                Redistribution and use in source and binary forms, with or without
                modification, are permitted provided that the following conditions are
                met:
                    * Redistributions of source code must retain the above copyright
                      notice, this list of conditions and the following disclaimer.
                    * Redistributions in binary form must reproduce the above
                      copyright notice, this list of conditions and the following
                      disclaimer in the documentation and/or other materials provided
                      with the distribution.
                    * The names of the contributors may not be used to endorse or
                      promote products derived from this software without specific
                      prior written permission.

                THIS SOFTWARE IS PROVIDED BY THE COPYRIGHT HOLDERS AND CONTRIBUTORS
                \"AS IS\" AND ANY EXPRESS OR IMPLIED WARRANTIES, INCLUDING, BUT NOT
                LIMITED TO, THE IMPLIED WARRANTIES OF MERCHANTABILITY AND FITNESS FOR
                A PARTICULAR PURPOSE ARE DISCLAIMED. IN NO EVENT SHALL THE COPYRIGHT
                OWNER OR CONTRIBUTORS BE LIABLE FOR ANY DIRECT, INDIRECT, INCIDENTAL,
                SPECIAL, EXEMPLARY, OR CONSEQUENTIAL DAMAGES (INCLUDING, BUT NOT
                LIMITED TO, PROCUREMENT OF SUBSTITUTE GOODS OR SERVICES; LOSS OF USE,
                DATA, OR PROFITS; OR BUSINESS INTERRUPTION) HOWEVER CAUSED AND ON ANY
                THEORY OF LIABILITY, WHETHER IN CONTRACT, STRICT LIABILITY, OR TORT
                (INCLUDING NEGLIGENCE OR OTHERWISE) ARISING IN ANY WAY OUT OF THE USE
                OF THIS SOFTWARE, EVEN IF ADVISED OF THE POSSIBILITY OF SUCH DAMAGE.
            */

            precision mediump float;

            in vec2 v_rgbNW;
            in vec2 v_rgbNE;
            in vec2 v_rgbSW;
            in vec2 v_rgbSE;
            in vec2 v_rgbM;
            in vec2 vUv;

            uniform vec2 iResolution;
            uniform sampler2D iChannel0;

            #ifndef FXAA_REDUCE_MIN
                #define FXAA_REDUCE_MIN   (1.0/ 128.0)
            #endif
            #ifndef FXAA_REDUCE_MUL
                #define FXAA_REDUCE_MUL   (1.0 / 8.0)
            #endif
            #ifndef FXAA_SPAN_MAX
                #define FXAA_SPAN_MAX     8.0
            #endif

            vec4 fxaa(sampler2D tex, vec2 fragCoord, vec2 resolution, vec2 v_rgbNW, vec2 v_rgbNE, vec2 v_rgbSW, vec2 v_rgbSE, vec2 v_rgbM) {
                vec4 color;
                mediump vec2 inverseVP = vec2(1.0 / resolution.x, 1.0 / resolution.y);
                vec3 rgbNW = texture2D(tex, v_rgbNW).xyz;
                vec3 rgbNE = texture2D(tex, v_rgbNE).xyz;
                vec3 rgbSW = texture2D(tex, v_rgbSW).xyz;
                vec3 rgbSE = texture2D(tex, v_rgbSE).xyz;
                vec4 texColor = texture2D(tex, v_rgbM);
                vec3 rgbM  = texColor.xyz;
                vec3 luma = vec3(0.299, 0.587, 0.114);
                float lumaNW = dot(rgbNW, luma);
                float lumaNE = dot(rgbNE, luma);
                float lumaSW = dot(rgbSW, luma);
                float lumaSE = dot(rgbSE, luma);
                float lumaM  = dot(rgbM,  luma);
                float lumaMin = min(lumaM, min(min(lumaNW, lumaNE), min(lumaSW, lumaSE)));
                float lumaMax = max(lumaM, max(max(lumaNW, lumaNE), max(lumaSW, lumaSE)));

                mediump vec2 dir;
                dir.x = -((lumaNW + lumaNE) - (lumaSW + lumaSE));
                dir.y =  ((lumaNW + lumaSW) - (lumaNE + lumaSE));

                float dirReduce = max((lumaNW + lumaNE + lumaSW + lumaSE) *
                                      (0.25 * FXAA_REDUCE_MUL), FXAA_REDUCE_MIN);

                float rcpDirMin = 1.0 / (min(abs(dir.x), abs(dir.y)) + dirReduce);
                dir = min(vec2(FXAA_SPAN_MAX, FXAA_SPAN_MAX),
                          max(vec2(-FXAA_SPAN_MAX, -FXAA_SPAN_MAX),
                          dir * rcpDirMin)) * inverseVP;

                vec3 rgbA = 0.5 * (
                    texture2D(tex, fragCoord * inverseVP + dir * (1.0 / 3.0 - 0.5)).xyz +
                    texture2D(tex, fragCoord * inverseVP + dir * (2.0 / 3.0 - 0.5)).xyz);
                vec3 rgbB = rgbA * 0.5 + 0.25 * (
                    texture2D(tex, fragCoord * inverseVP + dir * -0.5).xyz +
                    texture2D(tex, fragCoord * inverseVP + dir * 0.5).xyz);

                float lumaB = dot(rgbB, luma);
                if ((lumaB < lumaMin) || (lumaB > lumaMax))
                    color = vec4(rgbA, texColor.a);
                else
                    color = vec4(rgbB, texColor.a);
                return color;
            }

            void main() {
              mediump vec2 fragCoord = vUv * iResolution;
              vec4 color = fxaa(iChannel0, fragCoord, iResolution, v_rgbNW, v_rgbNE, v_rgbSW, v_rgbSE, v_rgbM);
              gl_FragColor = color;
            }
        ";

/// The text of a built-in shader, or `None` for a caller's shader.
pub fn builtin_shader_source(which: ShaderSourceRef) -> (source: Option<&'static str>)
    ensures
        source == match which {
            ShaderSourceRef::SvgVertex => Some(SVG_VERTEX_SHADER),
            ShaderSourceRef::SvgFragment => Some(SVG_FRAGMENT_SHADER),
            ShaderSourceRef::FxaaVertex => Some(FXAA_VERTEX_SHADER),
            ShaderSourceRef::FxaaFragment => Some(FXAA_FRAGMENT_SHADER),
            ShaderSourceRef::Vertex => None,
            ShaderSourceRef::Fragment => None,
        },
{
    match which {
        ShaderSourceRef::SvgVertex => Some(SVG_VERTEX_SHADER),
        ShaderSourceRef::SvgFragment => Some(SVG_FRAGMENT_SHADER),
        ShaderSourceRef::FxaaVertex => Some(FXAA_VERTEX_SHADER),
        ShaderSourceRef::FxaaFragment => Some(FXAA_FRAGMENT_SHADER),
        ShaderSourceRef::Vertex => None,
        ShaderSourceRef::Fragment => None,
    }
}

/// `GlType` of the `gleam` crate, by which a driver binding names the family
/// of the interface that it speaks. The verifier reads its two variants,
/// `Gl` and `Gles`, as the crate declares them; nothing else is claimed of
/// it.
#[verifier::external_type_specification]
pub struct ExGlType(gleam::gl::GlType);

/// Which family of the interface a context speaks.
#[derive(Debug, Copy, Clone, PartialEq, Eq, Structural, PartialOrd, Ord, Hash)]
pub enum AzGlType {
    Gl,
    Gles,
}

impl From<gleam::gl::GlType> for AzGlType {
    fn from(a: gleam::gl::GlType) -> (r: AzGlType) {
        match a {
            gleam::gl::GlType::Gl => AzGlType::Gl,
            gleam::gl::GlType::Gles => AzGlType::Gles,
        }
    }
}

impl vstd::std_specs::convert::FromSpecImpl<gleam::gl::GlType> for AzGlType {
    open spec fn obeys_from_spec() -> bool {
        true
    }

    open spec fn from_spec(a: gleam::gl::GlType) -> AzGlType {
        match a {
            gleam::gl::GlType::Gl => AzGlType::Gl,
            gleam::gl::GlType::Gles => AzGlType::Gles,
        }
    }
}

/// One message of the driver's debug log.
#[derive(Debug, Clone, PartialEq, Eq, PartialOrd, Ord, Hash)]
pub struct AzDebugMessage {
    pub message: AzString,
    pub source: GLenum,
    pub ty: GLenum,
    pub id: GLenum,
    pub severity: GLenum,
}

/// A program's binary and the format it is in.
#[derive(Debug, Clone, PartialEq, Eq, PartialOrd, Ord, Hash)]
pub struct GetProgramBinaryReturn {
    pub _0: U8Vec,
    pub _1: u32,
}

/// Size, type and name of an active attribute.
#[derive(Debug, Clone, PartialEq, Eq, PartialOrd, Ord, Hash)]
pub struct GetActiveAttribReturn {
    pub _0: i32,
    pub _1: u32,
    pub _2: AzString,
}

/// Size, type and name of an active uniform.
#[derive(Debug, Clone, PartialEq, Eq, PartialOrd, Ord, Hash)]
pub struct GetActiveUniformReturn {
    pub _0: i32,
    pub _1: u32,
    pub _2: AzString,
}

/// Range and precision of a shader number format.
#[derive(Debug, Copy, Clone, PartialEq, Eq, Structural, PartialOrd, Ord, Hash)]
pub struct GlShaderPrecisionFormatReturn {
    pub _0: GLint,
    pub _1: GLint,
    pub _2: GLint,
}

/// The version of the interface that a context speaks.
#[derive(Debug, Copy, Clone, PartialEq, Eq, Structural, PartialOrd, Ord, Hash)]
pub enum GlApiVersion {
    Gl { major: usize, minor: usize },
    GlEs { major: usize, minor: usize },
}

impl GlApiVersion {
    /// The queries for the major and the minor version number.
    pub open spec fn spec_get_commands() -> Seq<GlCommand> {
        seq![
            GlCommand::GetIntegerV { name: glenum::MAJOR_VERSION },
            GlCommand::GetIntegerV { name: glenum::MINOR_VERSION },
        ]
    }

    /// The version that the replies to the two queries stand for, or `None`
    /// where `replies` are not two integers. The family is always `Gl`.
    pub open spec fn spec_get(replies: Seq<GlReply>) -> Option<GlApiVersion> {
        if replies.len() == 2 && replies[0].spec_integer() is Some && replies[1].spec_integer()
            is Some {
            Some(
                GlApiVersion::Gl {
                    major: replies[0].spec_integer()->0 as usize,
                    minor: replies[1].spec_integer()->0 as usize,
                },
            )
        } else {
            None
        }
    }

    /// The queries whose replies [`GlApiVersion::get`] reads.
    pub fn get_commands() -> (c: Vec<GlCommand>)
        ensures
            c@ == GlApiVersion::spec_get_commands(),
    {
        vec![
            GlCommand::GetIntegerV { name: glenum::MAJOR_VERSION },
            GlCommand::GetIntegerV { name: glenum::MINOR_VERSION },
        ]
    }

    /// The version of the context, from the replies to
    /// [`GlApiVersion::get_commands`].
    pub fn get(replies: &Vec<GlReply>) -> (r: Result<GlApiVersion, GlReplyError>)
        ensures
            match r {
                Ok(version) => GlApiVersion::spec_get(replies@) == Some(version),
                Err(_) => GlApiVersion::spec_get(replies@) is None,
            },
    {
        if replies.len() != 2 {
            return Err(GlReplyError);
        }
        match (replies[0].as_integer(), replies[1].as_integer()) {
            (Some(major), Some(minor)) => Ok(
                GlApiVersion::Gl { major: version_number(major), minor: version_number(minor) },
            ),
            _ => Err(GlReplyError),
        }
    }
}

/// A version number as the driver reports it, taken as an unsigned word.
fn version_number(value: GLint) -> (r: usize)
    ensures
        r == value as usize,
{
    #[verifier::truncate]
    (value as usize)
}

/// The two shader programs that every context carries.
///
/// Whoever holds the value owns the two program objects and deletes them,
/// with [`BuiltinShaders::delete_commands`], when the context goes away.
#[derive(Debug, PartialEq, Eq, Structural, Hash)]
pub struct BuiltinShaders {
    /// Fills tessellated vector graphics.
    pub svg_shader: GLuint,
    /// Smooths edges after drawing.
    pub fxaa_shader: GLuint,
}

impl BuiltinShaders {
    /// The commands that give both program objects back to the driver.
    pub fn delete_commands(&self) -> (c: Vec<GlCommand>)
        ensures
            c@ == seq![
                GlCommand::DeleteProgram { program: self.svg_shader },
                GlCommand::DeleteProgram { program: self.fxaa_shader },
            ],
    {
        vec![
            GlCommand::DeleteProgram { program: self.svg_shader },
            GlCommand::DeleteProgram { program: self.fxaa_shader },
        ]
    }
}

/// How far the setup has come. Each stage but the first and the last waits
/// for the object that its name says.
#[derive(Debug, Copy, Clone, PartialEq, Eq, Structural, Hash)]
pub enum ContextStage {
    Start,
    AwaitSvgVertex,
    AwaitSvgFragment,
    AwaitSvgProgram,
    AwaitFxaaVertex,
    AwaitFxaaFragment,
    AwaitFxaaProgram,
    Done,
}

/// The state of a setup as a mathematical value.
#[derive(Debug, Copy, Clone, PartialEq, Eq, Structural, Hash)]
pub struct ContextSetupView {
    pub stage: ContextStage,
    /// The vertex shader object in work, once there is one.
    pub vertex_shader: GLuint,
    /// The fragment shader object in work, once there is one.
    pub fragment_shader: GLuint,
    /// The first program, once there is one.
    pub svg_program: GLuint,
}

/// Uploads and compiles one shader. Nobody asks how that went.
pub open spec fn upload_commands(shader: GLuint, source: ShaderSourceRef) -> Seq<GlCommand> {
    seq![GlCommand::ShaderSource { shader, source }, GlCommand::CompileShader { shader }]
}

impl ContextSetupView {
    /// The move that `replies` cause, or `None` where they do not answer the
    /// batch issued last.
    pub open spec fn step(self, replies: Seq<GlReply>) -> Option<
        Transition<ContextSetupView, BuiltinShaders>,
    > {
        match self.stage {
            ContextStage::Start => if replies.len() == 0 {
                Transition::run(
                    ContextSetupView { stage: ContextStage::AwaitSvgVertex, ..self },
                    seq![GlCommand::CreateShader { shader_type: glenum::VERTEX_SHADER }],
                )
            } else {
                None
            },
            ContextStage::AwaitSvgVertex => match spec_single_name(replies) {
                Some(shader) => Transition::run(
                    ContextSetupView {
                        stage: ContextStage::AwaitSvgFragment,
                        vertex_shader: shader,
                        ..self
                    },
                    upload_commands(shader, ShaderSourceRef::SvgVertex).push(
                        GlCommand::CreateShader { shader_type: glenum::FRAGMENT_SHADER },
                    ),
                ),
                None => None,
            },
            ContextStage::AwaitSvgFragment => match spec_single_name(replies) {
                Some(shader) => Transition::run(
                    ContextSetupView {
                        stage: ContextStage::AwaitSvgProgram,
                        fragment_shader: shader,
                        ..self
                    },
                    upload_commands(shader, ShaderSourceRef::SvgFragment).push(
                        GlCommand::CreateProgram,
                    ),
                ),
                None => None,
            },
            ContextStage::AwaitSvgProgram => match spec_single_name(replies) {
                Some(program) => Transition::run(
                    ContextSetupView {
                        stage: ContextStage::AwaitFxaaVertex,
                        svg_program: program,
                        ..self
                    },
                    (link_commands(program, self.vertex_shader, self.fragment_shader)
                        + delete_shaders_commands(self.vertex_shader, self.fragment_shader)).push(
                        GlCommand::CreateShader { shader_type: glenum::VERTEX_SHADER },
                    ),
                ),
                None => None,
            },
            ContextStage::AwaitFxaaVertex => match spec_single_name(replies) {
                Some(shader) => Transition::run(
                    ContextSetupView {
                        stage: ContextStage::AwaitFxaaFragment,
                        vertex_shader: shader,
                        ..self
                    },
                    upload_commands(shader, ShaderSourceRef::FxaaVertex).push(
                        GlCommand::CreateShader { shader_type: glenum::FRAGMENT_SHADER },
                    ),
                ),
                None => None,
            },
            ContextStage::AwaitFxaaFragment => match spec_single_name(replies) {
                Some(shader) => Transition::run(
                    ContextSetupView {
                        stage: ContextStage::AwaitFxaaProgram,
                        fragment_shader: shader,
                        ..self
                    },
                    upload_commands(shader, ShaderSourceRef::FxaaFragment).push(
                        GlCommand::CreateProgram,
                    ),
                ),
                None => None,
            },
            ContextStage::AwaitFxaaProgram => match spec_single_name(replies) {
                Some(program) => Transition::finish(
                    ContextSetupView { stage: ContextStage::Done, ..self },
                    link_commands(program, self.vertex_shader, self.fragment_shader)
                        + delete_shaders_commands(self.vertex_shader, self.fragment_shader),
                    BuiltinShaders { svg_shader: self.svg_program, fxaa_shader: program },
                ),
                None => None,
            },
            ContextStage::Done => None,
        }
    }
}

/// The setup of a context's two built-in shader programs.
///
/// Hand [`ContextSetup::advance`] no replies to start, run the commands it
/// returns, and hand it the replies of the queries among them, until it
/// returns `GlStep::Finish` with the two programs. The setup does not ask
/// whether compiling and linking went well.
#[derive(Debug)]
pub struct ContextSetup {
    state: ContextSetupView,
}

impl View for ContextSetup {
    type V = ContextSetupView;

    closed spec fn view(&self) -> ContextSetupView {
        self.state
    }
}

impl ContextSetup {
    /// A setup that has not issued anything.
    pub fn new() -> (setup: ContextSetup)
        ensures
            setup@.stage == ContextStage::Start,
    {
        ContextSetup {
            state: ContextSetupView {
                stage: ContextStage::Start,
                vertex_shader: 0,
                fragment_shader: 0,
                svg_program: 0,
            },
        }
    }

    /// How far the setup has come.
    pub fn stage(&self) -> (stage: ContextStage)
        ensures
            stage == self@.stage,
    {
        self.state.stage
    }

    /// Takes in the replies to the batch issued last and says what to do
    /// next. Replies that do not fit are refused and change nothing.
    pub fn advance(&mut self, replies: Vec<GlReply>) -> (r: Result<
        GlStep<BuiltinShaders>,
        GlReplyError,
    >)
        ensures
            match r {
                Ok(step) => {
                    &&& old(self)@.step(replies@) is Some
                    &&& final(self)@ == old(self)@.step(replies@)->0.next
                    &&& step.spec_commands() =~= old(self)@.step(replies@)->0.commands
                    &&& step.spec_outcome() == old(self)@.step(replies@)->0.outcome
                },
                Err(_) => old(self)@.step(replies@) is None && final(self)@ == old(self)@,
            },
    {
        let vertex_shader: GLuint = self.state.vertex_shader;
        let fragment_shader: GLuint = self.state.fragment_shader;
        match self.state.stage {
            ContextStage::Start => {
                if replies.len() != 0 {
                    return Err(GlReplyError);
                }
                self.state.stage = ContextStage::AwaitSvgVertex;
                Ok(GlStep::Run(vec![GlCommand::CreateShader { shader_type: glenum::VERTEX_SHADER }]))
            },
            ContextStage::AwaitSvgVertex => match single_name(&replies) {
                Some(shader) => {
                    self.state.vertex_shader = shader;
                    self.state.stage = ContextStage::AwaitSvgFragment;
                    Ok(
                        GlStep::Run(
                            vec![
                                GlCommand::ShaderSource {
                                    shader,
                                    source: ShaderSourceRef::SvgVertex,
                                },
                                GlCommand::CompileShader { shader },
                                GlCommand::CreateShader { shader_type: glenum::FRAGMENT_SHADER },
                            ],
                        ),
                    )
                },
                None => Err(GlReplyError),
            },
            ContextStage::AwaitSvgFragment => match single_name(&replies) {
                Some(shader) => {
                    self.state.fragment_shader = shader;
                    self.state.stage = ContextStage::AwaitSvgProgram;
                    Ok(
                        GlStep::Run(
                            vec![
                                GlCommand::ShaderSource {
                                    shader,
                                    source: ShaderSourceRef::SvgFragment,
                                },
                                GlCommand::CompileShader { shader },
                                GlCommand::CreateProgram,
                            ],
                        ),
                    )
                },
                None => Err(GlReplyError),
            },
            ContextStage::AwaitSvgProgram => match single_name(&replies) {
                Some(program) => {
                    self.state.svg_program = program;
                    self.state.stage = ContextStage::AwaitFxaaVertex;
                    Ok(
                        GlStep::Run(
                            vec![
                                GlCommand::AttachShader { program, shader: vertex_shader },
                                GlCommand::AttachShader { program, shader: fragment_shader },
                                GlCommand::LinkProgram { program },
                                GlCommand::DeleteShader { shader: vertex_shader },
                                GlCommand::DeleteShader { shader: fragment_shader },
                                GlCommand::CreateShader { shader_type: glenum::VERTEX_SHADER },
                            ],
                        ),
                    )
                },
                None => Err(GlReplyError),
            },
            ContextStage::AwaitFxaaVertex => match single_name(&replies) {
                Some(shader) => {
                    self.state.vertex_shader = shader;
                    self.state.stage = ContextStage::AwaitFxaaFragment;
                    Ok(
                        GlStep::Run(
                            vec![
                                GlCommand::ShaderSource {
                                    shader,
                                    source: ShaderSourceRef::FxaaVertex,
                                },
                                GlCommand::CompileShader { shader },
                                GlCommand::CreateShader { shader_type: glenum::FRAGMENT_SHADER },
                            ],
                        ),
                    )
                },
                None => Err(GlReplyError),
            },
            ContextStage::AwaitFxaaFragment => match single_name(&replies) {
                Some(shader) => {
                    self.state.fragment_shader = shader;
                    self.state.stage = ContextStage::AwaitFxaaProgram;
                    Ok(
                        GlStep::Run(
                            vec![
                                GlCommand::ShaderSource {
                                    shader,
                                    source: ShaderSourceRef::FxaaFragment,
                                },
                                GlCommand::CompileShader { shader },
                                GlCommand::CreateProgram,
                            ],
                        ),
                    )
                },
                None => Err(GlReplyError),
            },
            ContextStage::AwaitFxaaProgram => match single_name(&replies) {
                Some(program) => {
                    self.state.stage = ContextStage::Done;
                    Ok(
                        GlStep::Finish(
                            vec![
                                GlCommand::AttachShader { program, shader: vertex_shader },
                                GlCommand::AttachShader { program, shader: fragment_shader },
                                GlCommand::LinkProgram { program },
                                GlCommand::DeleteShader { shader: vertex_shader },
                                GlCommand::DeleteShader { shader: fragment_shader },
                            ],
                            BuiltinShaders {
                                svg_shader: self.state.svg_program,
                                fxaa_shader: program,
                            },
                        ),
                    )
                },
                None => Err(GlReplyError),
            },
            ContextStage::Done => Err(GlReplyError),
        }
    }
}


/// A setup takes exactly the replies that answer the batch it issued last.
pub proof fn lemma_setup_takes_the_answers(
    setup: ContextSetupView,
    first: Seq<GlReply>,
    second: Seq<GlReply>,
)
    requires
        setup.step(first) is Some,
        setup.step(first)->0.outcome is None,
    ensures
        setup.step(first)->0.next.step(second) is Some <==> answer(
            setup.step(first)->0.commands,
            second,
        ),
{
    reveal_with_fuel(answers_from, 8);
}

/// A setup deletes each shader right after the program it went into is
/// linked, so that the two programs are all that is left of it.
pub proof fn lemma_setup_deletes_its_shaders(setup: ContextSetupView, replies: Seq<GlReply>)
    requires
        setup.step(replies) is Some,
        setup.stage == ContextStage::AwaitSvgProgram || setup.stage
            == ContextStage::AwaitFxaaProgram,
    ensures
        ({
            let commands = setup.step(replies)->0.commands;
            let program = replies[0].spec_name()->0;
            &&& commands.subrange(0, 3) == link_commands(
                program,
                setup.vertex_shader,
                setup.fragment_shader,
            )
            &&& commands.subrange(3, 5) == delete_shaders_commands(
                setup.vertex_shader,
                setup.fragment_shader,
            )
        }),
{
    let commands = setup.step(replies)->0.commands;
    let program = replies[0].spec_name()->0;
    assert(commands.subrange(0, 3) =~= link_commands(
        program,
        setup.vertex_shader,
        setup.fragment_shader,
    ));
    assert(commands.subrange(3, 5) =~= delete_shaders_commands(
        setup.vertex_shader,
        setup.fragment_shader,
    ));
}

} // verus!
