//! The driver calls that a plan can ask for, and what a driver answers.
//!
//! A command holds plain numbers only. Where a call needs text or bulk data,
//! the command names it by a reference that the machine which issued the
//! command resolves.

use vstd::prelude::*;
use crate::az_string::AzString;
use crate::ctypes::{GLbitfield, GLboolean, GLenum, GLint, GLsizei, GLuint};
use crate::resources::ColorU;

verus! {

/// Which shader source a `ShaderSource` command uploads.
#[derive(Debug, Copy, Clone, PartialEq, Eq, Structural, Hash)]
pub enum ShaderSourceRef {
    /// Vertex stage of the built-in vector-graphics program.
    SvgVertex,
    /// Fragment stage of the built-in vector-graphics program.
    SvgFragment,
    /// Vertex stage of the built-in anti-aliasing program.
    FxaaVertex,
    /// Fragment stage of the built-in anti-aliasing program.
    FxaaFragment,
    /// The caller's vertex shader.
    Vertex,
    /// The caller's fragment shader.
    Fragment,
}

/// Which of the caller's arrays a `BufferData` command uploads.
#[derive(Debug, Copy, Clone, PartialEq, Eq, Structural, Hash)]
pub enum BufferSource {
    Vertices,
    Indices,
}

/// The elements of a matrix uniform, each as the bit pattern of a
/// single-precision number.
#[derive(Debug, Copy, Clone, PartialEq, Eq, Hash)]
pub enum MatrixValues {
    M2([u32; 4]),
    M3([u32; 9]),
    M4([u32; 16]),
}

/// One call into the driver.
///
/// Single-precision arguments are carried as their bit patterns.
#[derive(Debug, Copy, Clone, PartialEq, Eq, Hash)]
#[allow(inconsistent_fields)]
pub enum GlCommand {
    /// Answered with `GlReply::Name`.
    CreateShader { shader_type: GLenum },
    ShaderSource { shader: GLuint, source: ShaderSourceRef },
    CompileShader { shader: GLuint },
    /// Answered with `GlReply::Integer`.
    GetShaderIv { shader: GLuint, pname: GLenum },
    /// Answered with `GlReply::Text`.
    GetShaderInfoLog { shader: GLuint },
    DeleteShader { shader: GLuint },
    /// Answered with `GlReply::Name`.
    CreateProgram,
    AttachShader { program: GLuint, shader: GLuint },
    LinkProgram { program: GLuint },
    /// Answered with `GlReply::Integer`.
    GetProgramIv { program: GLuint, pname: GLenum },
    /// Answered with `GlReply::Text`.
    GetProgramInfoLog { program: GLuint },
    DeleteProgram { program: GLuint },
    UseProgram { program: GLuint },
    /// Answered with `GlReply::Boolean`.
    GetBooleanV { name: GLenum },
    /// Answered with `GlReply::Integer`.
    GetIntegerV { name: GLenum },
    /// Looks up the uniform whose name stands at index `name` of the issuing
    /// pass's name table. Answered with `GlReply::Integer`.
    GetUniformLocation { program: GLuint, name: usize },
    /// Looks up the attribute at index `attribute` of the issuing layout.
    /// Answered with `GlReply::Integer`.
    GetAttribLocation { program: GLuint, attribute: usize },
    /// Answered with `GlReply::Names`.
    GenTextures { n: GLsizei },
    /// Answered with `GlReply::Names`.
    GenFramebuffers { n: GLsizei },
    /// Answered with `GlReply::Names`.
    GenRenderbuffers { n: GLsizei },
    /// Answered with `GlReply::Names`.
    GenVertexArrays { n: GLsizei },
    /// Answered with `GlReply::Names`.
    GenBuffers { n: GLsizei },
    BindTexture { target: GLenum, texture: GLuint },
    BindFramebuffer { target: GLenum, framebuffer: GLuint },
    BindRenderbuffer { target: GLenum, renderbuffer: GLuint },
    BindBuffer { target: GLenum, buffer: GLuint },
    BindVertexArray { vao: GLuint },
    /// Deletes the one texture named.
    DeleteTextures { texture: GLuint },
    /// Deletes the one framebuffer named.
    DeleteFramebuffers { framebuffer: GLuint },
    /// Deletes the one renderbuffer named.
    DeleteRenderbuffers { renderbuffer: GLuint },
    /// Deletes the one vertex array named.
    DeleteVertexArrays { vertex_array: GLuint },
    /// Deletes the two buffers named, in one call.
    DeleteBuffers { first: GLuint, second: GLuint },
    /// Allocates texture storage without uploading pixels.
    TexImage2D {
        target: GLenum,
        level: GLint,
        internal_format: GLint,
        width: GLsizei,
        height: GLsizei,
        border: GLint,
        format: GLenum,
        ty: GLenum,
    },
    TexParameterI { target: GLenum, pname: GLenum, param: GLint },
    RenderbufferStorage { target: GLenum, internalformat: GLenum, width: GLsizei, height: GLsizei },
    FramebufferRenderbuffer {
        target: GLenum,
        attachment: GLenum,
        renderbuffertarget: GLenum,
        renderbuffer: GLuint,
    },
    FramebufferTexture2D {
        target: GLenum,
        attachment: GLenum,
        textarget: GLenum,
        texture: GLuint,
        level: GLint,
    },
    /// Directs drawing to the one attachment named.
    DrawBuffers { buffer: GLenum },
    Viewport { x: GLint, y: GLint, width: GLsizei, height: GLsizei },
    Enable { cap: GLenum },
    Disable { cap: GLenum },
    /// Sets the clear color to `color`, each channel scaled to the unit range.
    ClearColor { color: ColorU },
    /// Sets the clear depth; `depth` is the bit pattern of a double-precision
    /// number.
    ClearDepth { depth: u64 },
    Clear { buffer_mask: GLbitfield },
    /// Uploads all of one of the caller's arrays with the given usage hint.
    BufferData { target: GLenum, data: BufferSource, usage: GLenum },
    VertexAttribPointer {
        index: GLuint,
        size: GLint,
        type_: GLenum,
        normalized: bool,
        stride: GLsizei,
        offset: GLuint,
    },
    EnableVertexAttribArray { index: GLuint },
    DisableVertexAttribArray { index: GLuint },
    DrawElements { mode: GLenum, count: GLsizei, element_type: GLenum, indices_offset: GLuint },
    Uniform1f { location: GLint, v0: u32 },
    Uniform2f { location: GLint, v0: u32, v1: u32 },
    Uniform3f { location: GLint, v0: u32, v1: u32, v2: u32 },
    Uniform4f { location: GLint, x: u32, y: u32, z: u32, w: u32 },
    Uniform1i { location: GLint, v0: GLint },
    Uniform2i { location: GLint, v0: GLint, v1: GLint },
    Uniform3i { location: GLint, v0: GLint, v1: GLint, v2: GLint },
    Uniform4i { location: GLint, x: GLint, y: GLint, z: GLint, w: GLint },
    Uniform1ui { location: GLint, v0: GLuint },
    Uniform2ui { location: GLint, v0: GLuint, v1: GLuint },
    Uniform3ui { location: GLint, v0: GLuint, v1: GLuint, v2: GLuint },
    Uniform4ui { location: GLint, x: GLuint, y: GLuint, z: GLuint, w: GLuint },
    UniformMatrix2fv { location: GLint, transpose: bool, value: MatrixValues },
}

impl GlCommand {
    /// Whether the driver answers the command with a value.
    pub open spec fn spec_is_query(self) -> bool {
        match self {
            GlCommand::CreateShader { .. } => true,
            GlCommand::GetShaderIv { .. } => true,
            GlCommand::GetShaderInfoLog { .. } => true,
            GlCommand::CreateProgram => true,
            GlCommand::GetProgramIv { .. } => true,
            GlCommand::GetProgramInfoLog { .. } => true,
            GlCommand::GetBooleanV { .. } => true,
            GlCommand::GetIntegerV { .. } => true,
            GlCommand::GetUniformLocation { .. } => true,
            GlCommand::GetAttribLocation { .. } => true,
            GlCommand::GenTextures { .. } => true,
            GlCommand::GenFramebuffers { .. } => true,
            GlCommand::GenRenderbuffers { .. } => true,
            GlCommand::GenVertexArrays { .. } => true,
            GlCommand::GenBuffers { .. } => true,
            _ => false,
        }
    }

    /// Whether `reply` is what the driver answers to the command: a value of
    /// the kind that the command asks for, and for a request for names at
    /// least as many names as were asked for.
    pub open spec fn answered_by(self, reply: GlReply) -> bool {
        match self {
            GlCommand::CreateShader { .. } => reply is Name,
            GlCommand::CreateProgram => reply is Name,
            GlCommand::GetShaderIv { .. } => reply is Integer,
            GlCommand::GetProgramIv { .. } => reply is Integer,
            GlCommand::GetIntegerV { .. } => reply is Integer,
            GlCommand::GetUniformLocation { .. } => reply is Integer,
            GlCommand::GetAttribLocation { .. } => reply is Integer,
            GlCommand::GetBooleanV { .. } => reply is Boolean,
            GlCommand::GetShaderInfoLog { .. } => reply is Text,
            GlCommand::GetProgramInfoLog { .. } => reply is Text,
            GlCommand::GenTextures { n } => reply is Names && reply->Names_0@.len() >= n,
            GlCommand::GenFramebuffers { n } => reply is Names && reply->Names_0@.len() >= n,
            GlCommand::GenRenderbuffers { n } => reply is Names && reply->Names_0@.len() >= n,
            GlCommand::GenVertexArrays { n } => reply is Names && reply->Names_0@.len() >= n,
            GlCommand::GenBuffers { n } => reply is Names && reply->Names_0@.len() >= n,
            _ => false,
        }
    }

    /// Whether the command gives an object back to the driver.
    pub open spec fn spec_is_delete(self) -> bool {
        match self {
            GlCommand::DeleteShader { .. } => true,
            GlCommand::DeleteProgram { .. } => true,
            GlCommand::DeleteTextures { .. } => true,
            GlCommand::DeleteFramebuffers { .. } => true,
            GlCommand::DeleteRenderbuffers { .. } => true,
            GlCommand::DeleteVertexArrays { .. } => true,
            GlCommand::DeleteBuffers { .. } => true,
            _ => false,
        }
    }

    /// Whether the driver answers the command with a value. A caller collects
    /// the answers of a batch's queries, in order, to hand them back.
    pub fn is_query(&self) -> (r: bool)
        ensures
            r == self.spec_is_query(),
    {
        match self {
            GlCommand::CreateShader { .. } => true,
            GlCommand::GetShaderIv { .. } => true,
            GlCommand::GetShaderInfoLog { .. } => true,
            GlCommand::CreateProgram => true,
            GlCommand::GetProgramIv { .. } => true,
            GlCommand::GetProgramInfoLog { .. } => true,
            GlCommand::GetBooleanV { .. } => true,
            GlCommand::GetIntegerV { .. } => true,
            GlCommand::GetUniformLocation { .. } => true,
            GlCommand::GetAttribLocation { .. } => true,
            GlCommand::GenTextures { .. } => true,
            GlCommand::GenFramebuffers { .. } => true,
            GlCommand::GenRenderbuffers { .. } => true,
            GlCommand::GenVertexArrays { .. } => true,
            GlCommand::GenBuffers { .. } => true,
            _ => false,
        }
    }
}

/// What the driver answered to one query.
#[derive(Debug, Clone, PartialEq, Eq)]
pub enum GlReply {
    Boolean(GLboolean),
    Integer(GLint),
    /// A freshly created object.
    Name(GLuint),
    /// Freshly generated object names.
    Names(Vec<GLuint>),
    /// An information log.
    Text(AzString),
}

impl GlReply {
    /// The flag that the reply carries, if it is one.
    pub open spec fn spec_boolean(self) -> Option<GLboolean> {
        match self {
            GlReply::Boolean(b) => Some(b),
            _ => None,
        }
    }

    /// The integer that the reply carries, if it is one.
    pub open spec fn spec_integer(self) -> Option<GLint> {
        match self {
            GlReply::Integer(i) => Some(i),
            _ => None,
        }
    }

    /// The name of the created object, if the reply announces one.
    pub open spec fn spec_name(self) -> Option<GLuint> {
        match self {
            GlReply::Name(n) => Some(n),
            _ => None,
        }
    }

    /// The first of the generated names, if the reply carries any.
    pub open spec fn spec_first_name(self) -> Option<GLuint> {
        match self {
            GlReply::Names(v) => if v@.len() > 0 {
                Some(v@[0])
            } else {
                None
            },
            _ => None,
        }
    }

    /// The text that the reply carries, if it is one.
    pub open spec fn spec_text(self) -> Option<AzString> {
        match self {
            GlReply::Text(t) => Some(t),
            _ => None,
        }
    }

    /// The flag that the reply carries, if it is one.
    pub fn as_boolean(&self) -> (r: Option<GLboolean>)
        ensures
            r == self.spec_boolean(),
    {
        match self {
            GlReply::Boolean(b) => Some(*b),
            _ => None,
        }
    }

    /// The integer that the reply carries, if it is one.
    pub fn as_integer(&self) -> (r: Option<GLint>)
        ensures
            r == self.spec_integer(),
    {
        match self {
            GlReply::Integer(i) => Some(*i),
            _ => None,
        }
    }

    /// The name of the created object, if the reply announces one.
    pub fn as_name(&self) -> (r: Option<GLuint>)
        ensures
            r == self.spec_name(),
    {
        match self {
            GlReply::Name(n) => Some(*n),
            _ => None,
        }
    }

    /// The first of the generated names, if the reply carries any.
    pub fn first_name(&self) -> (r: Option<GLuint>)
        ensures
            r == self.spec_first_name(),
    {
        match self {
            GlReply::Names(v) => if v.len() > 0 {
                Some(v[0])
            } else {
                None
            },
            _ => None,
        }
    }

    /// The text that the reply carries, if it is one.
    pub fn into_text(self) -> (r: Option<AzString>)
        ensures
            r == self.spec_text(),
    {
        match self {
            GlReply::Text(t) => Some(t),
            _ => None,
        }
    }
}

/// The flag of the one reply, if `replies` is one reply that carries a flag.
pub open spec fn spec_single_boolean(replies: Seq<GlReply>) -> Option<GLboolean> {
    if replies.len() == 1 {
        replies[0].spec_boolean()
    } else {
        None
    }
}

/// The integer of the one reply, if `replies` is one reply that carries one.
pub open spec fn spec_single_integer(replies: Seq<GlReply>) -> Option<GLint> {
    if replies.len() == 1 {
        replies[0].spec_integer()
    } else {
        None
    }
}

/// The created object of the one reply, if `replies` is one reply that
/// announces one.
pub open spec fn spec_single_name(replies: Seq<GlReply>) -> Option<GLuint> {
    if replies.len() == 1 {
        replies[0].spec_name()
    } else {
        None
    }
}

/// The text of the one reply, if `replies` is one reply that carries text.
pub open spec fn spec_single_text(replies: Seq<GlReply>) -> Option<AzString> {
    if replies.len() == 1 {
        replies[0].spec_text()
    } else {
        None
    }
}

/// The flag of the one reply, if `replies` is one reply that carries a flag.
pub fn single_boolean(replies: &Vec<GlReply>) -> (r: Option<GLboolean>)
    ensures
        r == spec_single_boolean(replies@),
{
    if replies.len() == 1 {
        replies[0].as_boolean()
    } else {
        None
    }
}

/// The integer of the one reply, if `replies` is one reply that carries one.
pub fn single_integer(replies: &Vec<GlReply>) -> (r: Option<GLint>)
    ensures
        r == spec_single_integer(replies@),
{
    if replies.len() == 1 {
        replies[0].as_integer()
    } else {
        None
    }
}

/// The created object of the one reply, if `replies` is one reply that
/// announces one.
pub fn single_name(replies: &Vec<GlReply>) -> (r: Option<GLuint>)
    ensures
        r == spec_single_name(replies@),
{
    if replies.len() == 1 {
        replies[0].as_name()
    } else {
        None
    }
}

/// The text of the one reply, if `replies` is one reply that carries text.
pub fn single_text(replies: Vec<GlReply>) -> (r: Option<AzString>)
    ensures
        r == spec_single_text(replies@),
{
    let mut replies = replies;
    if replies.len() == 1 {
        match replies.pop() {
            Some(reply) => reply.into_text(),
            None => None,
        }
    } else {
        None
    }
}

/// The integers that `replies` carry, if every one of them carries one.
pub open spec fn reply_integers(replies: Seq<GlReply>) -> Option<Seq<GLint>> {
    if forall|i: int| 0 <= i < replies.len() ==> (#[trigger] replies[i]).spec_integer() is Some {
        Some(Seq::new(replies.len(), |i: int| replies[i].spec_integer()->0))
    } else {
        None
    }
}

/// The integers that `replies` carry, if every one of them carries one.
pub fn collect_integers(replies: &Vec<GlReply>) -> (r: Option<Vec<GLint>>)
    ensures
        match r {
            Some(integers) => reply_integers(replies@) == Some(integers@),
            None => reply_integers(replies@) is None,
        },
{
    let mut integers: Vec<GLint> = Vec::new();
    let mut i: usize = 0;
    while i < replies.len()
        invariant
            i <= replies@.len(),
            integers@.len() == i,
            forall|k: int|
                0 <= k < i ==> (#[trigger] replies@[k]).spec_integer() == Some(integers@[k]),
        decreases replies@.len() - i,
    {
        match replies[i].as_integer() {
            Some(integer) => {
                integers.push(integer);
            },
            None => {
                assert(replies@[i as int].spec_integer() is None);
                return None;
            },
        }
        i += 1;
    }
    assert(integers@ =~= reply_integers(replies@)->0);
    Some(integers)
}

/// The replies handed to a machine are not those its last batch asks for. The
/// machine is left as it was.
#[derive(Debug, Copy, Clone, PartialEq, Eq, Structural, Hash)]
pub struct GlReplyError;

/// One move of a machine as a mathematical value: the state it reaches, the
/// commands it issues, and the outcome if the move completes the operation.
pub struct Transition<V, T> {
    pub next: V,
    pub commands: Seq<GlCommand>,
    pub outcome: Option<T>,
}

impl<V, T> Transition<V, T> {
    /// A move that issues `commands` and waits for their replies.
    pub open spec fn run(next: V, commands: Seq<GlCommand>) -> Option<Transition<V, T>> {
        Some(Transition { next, commands, outcome: None })
    }

    /// A move that issues `commands` and completes the operation.
    pub open spec fn finish(next: V, commands: Seq<GlCommand>, outcome: T) -> Option<
        Transition<V, T>,
    > {
        Some(Transition { next, commands, outcome: Some(outcome) })
    }
}

/// What a machine wants done next.
#[derive(Debug)]
pub enum GlStep<T> {
    /// Run the commands in order and come back with the replies of the
    /// queries among them.
    Run(Vec<GlCommand>),
    /// Run the commands in order; the operation is then complete with the
    /// given outcome.
    Finish(Vec<GlCommand>, T),
}

impl<T> GlStep<T> {
    /// The commands to run.
    pub open spec fn spec_commands(self) -> Seq<GlCommand> {
        match self {
            GlStep::Run(c) => c@,
            GlStep::Finish(c, _) => c@,
        }
    }

    /// The outcome, if the operation is complete.
    pub open spec fn spec_outcome(self) -> Option<T> {
        match self {
            GlStep::Run(_) => None,
            GlStep::Finish(_, t) => Some(t),
        }
    }

    /// The commands to run.
    pub fn commands(&self) -> (r: &Vec<GlCommand>)
        ensures
            r@ == self.spec_commands(),
    {
        match self {
            GlStep::Run(c) => c,
            GlStep::Finish(c, _) => c,
        }
    }

    /// Whether the operation is complete once the commands have run.
    pub fn is_finished(&self) -> (r: bool)
        ensures
            r == self.spec_outcome() is Some,
    {
        match self {
            GlStep::Run(_) => false,
            GlStep::Finish(_, _) => true,
        }
    }

    /// The outcome, if the operation is complete.
    pub fn into_outcome(self) -> (r: Option<T>)
        ensures
            r == self.spec_outcome(),
    {
        match self {
            GlStep::Run(_) => None,
            GlStep::Finish(_, t) => Some(t),
        }
    }
}


/// Whether the replies from index `j` on answer the queries among the
/// commands from index `i` on, one reply for each query, in order.
pub open spec fn answers_from(
    commands: Seq<GlCommand>,
    i: int,
    replies: Seq<GlReply>,
    j: int,
) -> bool
    decreases commands.len() - i,
{
    if i >= commands.len() {
        j == replies.len()
    } else if commands[i].spec_is_query() {
        j < replies.len() && commands[i].answered_by(replies[j]) && answers_from(
            commands,
            i + 1,
            replies,
            j + 1,
        )
    } else {
        answers_from(commands, i + 1, replies, j)
    }
}

/// Whether `replies` are what a driver hands back for `commands`: one answer
/// for each query among them, in order.
pub open spec fn answer(commands: Seq<GlCommand>, replies: Seq<GlReply>) -> bool {
    answers_from(commands, 0, replies, 0)
}

/// Commands that are no queries take no replies.
pub proof fn lemma_answers_skip(
    commands: Seq<GlCommand>,
    from: int,
    to: int,
    replies: Seq<GlReply>,
    j: int,
)
    requires
        0 <= from <= to <= commands.len(),
        forall|k: int| from <= k < to ==> !(#[trigger] commands[k]).spec_is_query(),
    ensures
        answers_from(commands, from, replies, j) == answers_from(commands, to, replies, j),
    decreases to - from,
{
    if from < to {
        lemma_answers_skip(commands, from + 1, to, replies, j);
    }
}

/// A run of uniform lookups takes as many replies, all of them integers.
pub proof fn lemma_answers_lookups(
    commands: Seq<GlCommand>,
    from: int,
    replies: Seq<GlReply>,
    j: int,
)
    requires
        0 <= from <= commands.len(),
        0 <= j,
        forall|k: int|
            from <= k < commands.len() ==> (#[trigger] commands[k]) is GetUniformLocation,
    ensures
        answers_from(commands, from, replies, j) <==> {
            &&& replies.len() - j == commands.len() - from
            &&& forall|t: int| j <= t < replies.len() ==> (#[trigger] replies[t]) is Integer
        },
    decreases commands.len() - from,
{
    if from < commands.len() {
        lemma_answers_lookups(commands, from + 1, replies, j + 1);
        assert(commands[from] is GetUniformLocation);
        if answers_from(commands, from, replies, j) {
            assert forall|t: int| j <= t < replies.len() implies (#[trigger] replies[t])
                is Integer by {
                if t == j {
                } else {
                    assert(j + 1 <= t);
                }
            }
        }
    }
}


/// Whether none of `commands` is a query.
pub open spec fn no_queries(commands: Seq<GlCommand>) -> bool {
    forall|i: int| 0 <= i < commands.len() ==> !(#[trigger] commands[i]).spec_is_query()
}

/// Batches without queries make a batch without queries.
pub proof fn lemma_no_queries_in_both(first: Seq<GlCommand>, second: Seq<GlCommand>)
    requires
        no_queries(first),
        no_queries(second),
    ensures
        no_queries(first + second),
{
    assert forall|i: int| 0 <= i < (first + second).len() implies !(#[trigger] (first
        + second)[i]).spec_is_query() by {
        if i < first.len() {
            assert((first + second)[i] == first[i]);
        } else {
            assert((first + second)[i] == second[i - first.len()]);
        }
    }
}

/// A batch that ends in its only query takes one reply, the answer to that
/// query.
pub proof fn lemma_answers_one_query_at_the_end(
    before: Seq<GlCommand>,
    query: GlCommand,
    replies: Seq<GlReply>,
)
    requires
        no_queries(before),
        query.spec_is_query(),
    ensures
        answer(before.push(query), replies) <==> replies.len() == 1 && query.answered_by(
            replies[0],
        ),
{
    let commands = before.push(query);
    assert forall|k: int| 0 <= k < before.len() implies !(#[trigger] commands[k]).spec_is_query() by {
        assert(commands[k] == before[k]);
    }
    lemma_answers_skip(commands, 0, before.len() as int, replies, 0);
    reveal_with_fuel(answers_from, 3);
    assert(commands[before.len() as int] == query);
}

} // verus!
