//! Creating a vertex buffer with its index buffer and vertex array object.
//!
//! A [`VertexBufferBuild`] notes the three bindings it is about to disturb,
//! asks for a vertex array object and two buffers, uploads vertices and
//! indices, describes the vertex layout to the driver and puts the three
//! bindings back.

use vstd::prelude::*;
use crate::binding::{
    attribute_commands, fixed_commands, lemma_fixed_commands_hold_no_query, scan_end,
    word_offset, word_stride, BindingMode, BindingStage, BindingState, LayoutBindingView,
};
use crate::bindings::{lemma_after_both, GlBindings};
use crate::command::{
    answer, answers_from, lemma_answers_one_query_at_the_end, lemma_no_queries_in_both,
    spec_single_integer, BufferSource, GlCommand, GlReply, GlReplyError, GlStep, Transition,
};
use crate::ctypes::{GLint, GLuint};
use crate::glenum;
use crate::shader::GlShader;
use crate::vertex::{
    IndexBufferFormat, VertexArrayObject, VertexAttribute, VertexBuffer, VertexLayout,
    VertexLayoutDescription,
};

verus! {

/// How far a build has come.
#[derive(Debug, Copy, Clone, PartialEq, Eq, Structural, Hash)]
pub enum VertexBufferStage {
    /// Nothing was issued yet.
    Start,
    /// The binding queries and the object requests are out.
    AwaitObjects,
    /// The data is uploaded and the layout is on its way.
    Binding,
    /// The build is complete.
    Done,
}

/// The bindings that a build disturbs, as the driver reported them.
#[derive(Debug, Copy, Clone, PartialEq, Eq, Structural, Hash)]
pub struct SavedBufferBindings {
    pub vertex_array: GLint,
    pub vertex_buffer: GLint,
    pub index_buffer: GLint,
}

/// The state of a build as a mathematical value.
pub struct VertexBufferBuildView {
    pub stage: VertexBufferStage,
    pub program_id: GLuint,
    /// The layout of a vertex, until the finished buffer takes it along.
    pub layout: Option<VertexLayout>,
    pub binding_stage: BindingStage,
    pub cursor: int,
    pub vertex_buffer_len: usize,
    pub index_buffer_len: usize,
    pub index_buffer_format: IndexBufferFormat,
    pub saved: SavedBufferBindings,
    pub vao_id: GLuint,
    pub vertex_buffer_id: GLuint,
    pub index_buffer_id: GLuint,
}

/// The queries that open a build: three bindings, then a vertex array object
/// and two buffers.
pub open spec fn begin_commands() -> Seq<GlCommand> {
    seq![
        GlCommand::GetIntegerV { name: glenum::VERTEX_ARRAY_BINDING },
        GlCommand::GetIntegerV { name: glenum::ARRAY_BUFFER_BINDING },
        GlCommand::GetIntegerV { name: glenum::ELEMENT_ARRAY_BUFFER_BINDING },
        GlCommand::GenVertexArrays { n: 1 },
        GlCommand::GenBuffers { n: 1 },
        GlCommand::GenBuffers { n: 1 },
    ]
}

/// Binds the new objects and uploads the vertices, then the indices.
pub open spec fn upload_commands(
    vao_id: GLuint,
    vertex_buffer_id: GLuint,
    index_buffer_id: GLuint,
) -> Seq<GlCommand> {
    seq![
        GlCommand::BindVertexArray { vao: vao_id },
        GlCommand::BindBuffer { target: glenum::ARRAY_BUFFER, buffer: vertex_buffer_id },
        GlCommand::BufferData {
            target: glenum::ARRAY_BUFFER,
            data: BufferSource::Vertices,
            usage: glenum::STATIC_DRAW,
        },
        GlCommand::BindBuffer { target: glenum::ELEMENT_ARRAY_BUFFER, buffer: index_buffer_id },
        GlCommand::BufferData {
            target: glenum::ELEMENT_ARRAY_BUFFER,
            data: BufferSource::Indices,
            usage: glenum::STATIC_DRAW,
        },
    ]
}

/// Puts the three bindings back, each to the saved number taken as an object
/// name.
pub open spec fn rebind_commands(saved: SavedBufferBindings) -> Seq<GlCommand> {
    seq![
        GlCommand::BindBuffer {
            target: glenum::ARRAY_BUFFER,
            buffer: saved.vertex_buffer as u32,
        },
        GlCommand::BindBuffer {
            target: glenum::ELEMENT_ARRAY_BUFFER,
            buffer: saved.index_buffer as u32,
        },
        GlCommand::BindVertexArray { vao: saved.vertex_array as u32 },
    ]
}

impl VertexBufferBuildView {
    /// The binding of the layout that runs inside the build.
    pub open spec fn binding(self) -> LayoutBindingView {
        LayoutBindingView {
            mode: BindingMode::Bind,
            program_id: self.program_id,
            fields: self.layout->0.fields@,
            stage: self.binding_stage,
            cursor: self.cursor,
        }
    }

    /// What every reachable state meets.
    pub open spec fn wf(self) -> bool {
        &&& self.stage == VertexBufferStage::Done <==> self.layout is None
        &&& self.layout is Some ==> self.binding().wf()
        &&& self.stage == VertexBufferStage::Start || self.stage
            == VertexBufferStage::AwaitObjects ==> self.binding_stage == BindingStage::Start
        &&& self.stage == VertexBufferStage::Binding ==> self.binding_stage
            == BindingStage::AwaitLocation
    }

    /// The finished buffer.
    pub open spec fn vertex_buffer(self) -> VertexBuffer {
        VertexBuffer {
            vertex_buffer_id: self.vertex_buffer_id,
            vertex_buffer_len: self.vertex_buffer_len,
            vao: VertexArrayObject { vertex_layout: self.layout->0, vao_id: self.vao_id },
            index_buffer_id: self.index_buffer_id,
            index_buffer_len: self.index_buffer_len,
            index_buffer_format: self.index_buffer_format,
        }
    }

    /// Moves the binding on by `replies`, after `done` was issued in the same
    /// batch. Where that completes the binding, the build puts the saved
    /// bindings back and is complete as well.
    pub open spec fn bind_on(self, replies: Seq<GlReply>, done: Seq<GlCommand>) -> Option<
        Transition<VertexBufferBuildView, VertexBuffer>,
    > {
        match self.binding().step(replies) {
            Some(moved) => if moved.outcome is Some {
                Transition::finish(
                    VertexBufferBuildView {
                        stage: VertexBufferStage::Done,
                        layout: None,
                        binding_stage: moved.next.stage,
                        cursor: moved.next.cursor,
                        ..self
                    },
                    done + moved.commands + rebind_commands(self.saved),
                    self.vertex_buffer(),
                )
            } else {
                Transition::run(
                    VertexBufferBuildView {
                        stage: VertexBufferStage::Binding,
                        binding_stage: moved.next.stage,
                        cursor: moved.next.cursor,
                        ..self
                    },
                    done + moved.commands,
                )
            },
            None => None,
        }
    }

    /// Whether `replies` answer the opening queries.
    pub open spec fn objects_arrived(replies: Seq<GlReply>) -> bool {
        &&& replies.len() == 6
        &&& replies[0].spec_integer() is Some
        &&& replies[1].spec_integer() is Some
        &&& replies[2].spec_integer() is Some
        &&& replies[3].spec_first_name() is Some
        &&& replies[4].spec_first_name() is Some
        &&& replies[5].spec_first_name() is Some
    }

    /// The move that `replies` cause, or `None` where they do not answer the
    /// batch issued last.
    pub open spec fn step(self, replies: Seq<GlReply>) -> Option<
        Transition<VertexBufferBuildView, VertexBuffer>,
    > {
        match self.stage {
            VertexBufferStage::Start => if replies.len() == 0 {
                Transition::run(
                    VertexBufferBuildView { stage: VertexBufferStage::AwaitObjects, ..self },
                    begin_commands(),
                )
            } else {
                None
            },
            VertexBufferStage::AwaitObjects => if Self::objects_arrived(replies) {
                let vao_id = replies[3].spec_first_name()->0;
                let vertex_buffer_id = replies[4].spec_first_name()->0;
                let index_buffer_id = replies[5].spec_first_name()->0;
                (VertexBufferBuildView {
                    saved: SavedBufferBindings {
                        vertex_array: replies[0].spec_integer()->0,
                        vertex_buffer: replies[1].spec_integer()->0,
                        index_buffer: replies[2].spec_integer()->0,
                    },
                    vao_id,
                    vertex_buffer_id,
                    index_buffer_id,
                    ..self
                }).bind_on(Seq::empty(), upload_commands(vao_id, vertex_buffer_id, index_buffer_id))
            } else {
                None
            },
            VertexBufferStage::Binding => self.bind_on(replies, Seq::empty()),
            VertexBufferStage::Done => None,
        }
    }
}

fn make_begin_commands() -> (c: Vec<GlCommand>)
    ensures
        c@ == begin_commands(),
{
    vec![
        GlCommand::GetIntegerV { name: glenum::VERTEX_ARRAY_BINDING },
        GlCommand::GetIntegerV { name: glenum::ARRAY_BUFFER_BINDING },
        GlCommand::GetIntegerV { name: glenum::ELEMENT_ARRAY_BUFFER_BINDING },
        GlCommand::GenVertexArrays { n: 1 },
        GlCommand::GenBuffers { n: 1 },
        GlCommand::GenBuffers { n: 1 },
    ]
}

fn make_upload_commands(vao_id: GLuint, vertex_buffer_id: GLuint, index_buffer_id: GLuint) -> (c:
    Vec<GlCommand>)
    ensures
        c@ == upload_commands(vao_id, vertex_buffer_id, index_buffer_id),
{
    vec![
        GlCommand::BindVertexArray { vao: vao_id },
        GlCommand::BindBuffer { target: glenum::ARRAY_BUFFER, buffer: vertex_buffer_id },
        GlCommand::BufferData {
            target: glenum::ARRAY_BUFFER,
            data: BufferSource::Vertices,
            usage: glenum::STATIC_DRAW,
        },
        GlCommand::BindBuffer { target: glenum::ELEMENT_ARRAY_BUFFER, buffer: index_buffer_id },
        GlCommand::BufferData {
            target: glenum::ELEMENT_ARRAY_BUFFER,
            data: BufferSource::Indices,
            usage: glenum::STATIC_DRAW,
        },
    ]
}

/// A saved binding as the object name that it stands for.
fn saved_name(value: GLint) -> (r: GLuint)
    ensures
        r == value as u32,
{
    #[verifier::truncate]
    (value as u32)
}

fn push_rebind_commands(commands: &mut Vec<GlCommand>, saved: &SavedBufferBindings)
    ensures
        final(commands)@ == old(commands)@ + rebind_commands(*saved),
{
    commands.push(
        GlCommand::BindBuffer {
            target: glenum::ARRAY_BUFFER,
            buffer: saved_name(saved.vertex_buffer),
        },
    );
    commands.push(
        GlCommand::BindBuffer {
            target: glenum::ELEMENT_ARRAY_BUFFER,
            buffer: saved_name(saved.index_buffer),
        },
    );
    commands.push(GlCommand::BindVertexArray { vao: saved_name(saved.vertex_array) });
    assert(commands@ =~= old(commands)@ + rebind_commands(*saved));
}

/// A build of a vertex buffer.
///
/// Hand [`VertexBufferBuild::advance`] no replies to start, run the commands
/// it returns, and hand it the replies of the queries among them, until it
/// returns `GlStep::Finish` with the buffer.
#[derive(Debug)]
pub struct VertexBufferBuild {
    stage: VertexBufferStage,
    layout: Option<VertexLayout>,
    state: BindingState,
    vertex_buffer_len: usize,
    index_buffer_len: usize,
    index_buffer_format: IndexBufferFormat,
    saved: SavedBufferBindings,
    vao_id: GLuint,
    vertex_buffer_id: GLuint,
    index_buffer_id: GLuint,
}

impl View for VertexBufferBuild {
    type V = VertexBufferBuildView;

    closed spec fn view(&self) -> VertexBufferBuildView {
        VertexBufferBuildView {
            stage: self.stage,
            program_id: self.state.program_id,
            layout: self.layout,
            binding_stage: self.state.stage,
            cursor: self.state.cursor as int,
            vertex_buffer_len: self.vertex_buffer_len,
            index_buffer_len: self.index_buffer_len,
            index_buffer_format: self.index_buffer_format,
            saved: self.saved,
            vao_id: self.vao_id,
            vertex_buffer_id: self.vertex_buffer_id,
            index_buffer_id: self.index_buffer_id,
        }
    }
}

impl VertexBufferBuild {
    /// The build's bookkeeping agrees with its layout. Every build that
    /// [`VertexBufferBuild::new`] made and [`VertexBufferBuild::advance`]
    /// moved on meets this.
    pub closed spec fn inv(&self) -> bool {
        &&& self@.wf()
        &&& self.state.mode == BindingMode::Bind
        &&& self.layout is Some ==> self.state.inv(self.layout->0.fields@)
    }

    /// A build in order is well formed as a mathematical value.
    pub proof fn lemma_inv_wf(&self)
        requires
            self.inv(),
        ensures
            self@.wf(),
    {
    }

    /// A build of a buffer of `vertex_buffer_len` vertices laid out as
    /// `layout` says, with `index_buffer_len` indices that form primitives as
    /// `index_buffer_format` says, for the program `program_id`. There is
    /// nothing to build where the size of a vertex does not fit the machine's
    /// word.
    pub fn new(
        program_id: GLuint,
        layout: VertexLayout,
        vertex_buffer_len: usize,
        index_buffer_len: usize,
        index_buffer_format: IndexBufferFormat,
    ) -> (build: Option<VertexBufferBuild>)
        ensures
            build is Some <==> layout.spec_total_stride() <= usize::MAX,
            build is Some ==> {
                let build = build->0;
                &&& build.inv()
                &&& build@.stage == VertexBufferStage::Start
                &&& build@.program_id == program_id
                &&& build@.layout == Some(layout)
                &&& build@.binding_stage == BindingStage::Start
                &&& build@.cursor == 0
                &&& build@.vertex_buffer_len == vertex_buffer_len
                &&& build@.index_buffer_len == index_buffer_len
                &&& build@.index_buffer_format == index_buffer_format
            },
    {
        match layout.checked_total_stride() {
            Some(stride) => Some(
                VertexBufferBuild {
                    stage: VertexBufferStage::Start,
                    layout: Some(layout),
                    state: BindingState::start(BindingMode::Bind, program_id, stride),
                    vertex_buffer_len,
                    index_buffer_len,
                    index_buffer_format,
                    saved: SavedBufferBindings {
                        vertex_array: 0,
                        vertex_buffer: 0,
                        index_buffer: 0,
                    },
                    vao_id: 0,
                    vertex_buffer_id: 0,
                    index_buffer_id: 0,
                },
            ),
            None => None,
        }
    }

    /// How far the build has come.
    pub fn stage(&self) -> (stage: VertexBufferStage)
        ensures
            stage == self@.stage,
    {
        self.stage
    }

    /// The attributes of the layout, while the build has it; a
    /// `GetAttribLocation` command of this build refers to one of them by
    /// index.
    pub fn fields(&self) -> (fields: Option<&Vec<VertexAttribute>>)
        ensures
            fields is Some == self@.layout is Some,
            fields is Some ==> *fields->0 == self@.layout->0.fields,
    {
        match &self.layout {
            Some(layout) => Some(&layout.fields),
            None => None,
        }
    }

    /// Moves the layout's binding on and wraps up the build where the
    /// binding completes.
    fn bind_on(&mut self, replies: &Vec<GlReply>, commands: Vec<GlCommand>) -> (r: Result<
        GlStep<VertexBuffer>,
        GlReplyError,
    >)
        requires
            old(self).inv(),
            old(self).stage != VertexBufferStage::Done,
        ensures
            final(self).inv(),
            match r {
                Ok(step) => {
                    let moved = old(self)@.bind_on(replies@, commands@);
                    &&& moved is Some
                    &&& final(self)@ == moved->0.next
                    &&& step.spec_commands() =~= moved->0.commands
                    &&& step.spec_outcome() == moved->0.outcome
                },
                Err(_) => old(self)@.bind_on(replies@, commands@) is None && final(self)@ == old(
                    self,
                )@,
            },
    {
        let mut commands = commands;
        let mut state = self.state;
        let advanced = match &self.layout {
            Some(layout) => state.advance(&layout.fields, replies, &mut commands),
            None => Err(GlReplyError),
        };
        match advanced {
            Ok(finished) => {
                if finished {
                    push_rebind_commands(&mut commands, &self.saved);
                    let layout = match self.layout.take() {
                        Some(layout) => layout,
                        None => VertexLayout { fields: Vec::new() },
                    };
                    let buffer = VertexBuffer {
                        vertex_buffer_id: self.vertex_buffer_id,
                        vertex_buffer_len: self.vertex_buffer_len,
                        vao: VertexArrayObject { vertex_layout: layout, vao_id: self.vao_id },
                        index_buffer_id: self.index_buffer_id,
                        index_buffer_len: self.index_buffer_len,
                        index_buffer_format: self.index_buffer_format,
                    };
                    self.state = state;
                    self.stage = VertexBufferStage::Done;
                    Ok(GlStep::Finish(commands, buffer))
                } else {
                    self.state = state;
                    self.stage = VertexBufferStage::Binding;
                    Ok(GlStep::Run(commands))
                }
            },
            Err(e) => Err(e),
        }
    }

    /// Takes in the replies to the batch issued last and says what to do
    /// next. Replies that do not fit are refused and change nothing.
    pub fn advance(&mut self, replies: Vec<GlReply>) -> (r: Result<
        GlStep<VertexBuffer>,
        GlReplyError,
    >)
        requires
            old(self).inv(),
        ensures
            final(self).inv(),
            match r {
                Ok(step) => {
                    &&& old(self)@.step(replies@) is Some
                    &&& final(self)@ == old(self)@.step(replies@)->0.next
                    &&& step.spec_commands() =~= old(self)@.step(replies@)->0.commands
                    &&& step.spec_outcome() == old(self)@.step(replies@)->0.outcome
                },
                Err(_) => old(self)@.step(replies@) is None && final(self)@ == old(self)@,
            },
    {
        match self.stage {
            VertexBufferStage::Start => {
                if replies.len() != 0 {
                    return Err(GlReplyError);
                }
                self.stage = VertexBufferStage::AwaitObjects;
                Ok(GlStep::Run(make_begin_commands()))
            },
            VertexBufferStage::AwaitObjects => {
                if replies.len() != 6 {
                    return Err(GlReplyError);
                }
                match (
                    replies[0].as_integer(),
                    replies[1].as_integer(),
                    replies[2].as_integer(),
                    replies[3].first_name(),
                    replies[4].first_name(),
                    replies[5].first_name(),
                ) {
                    (
                        Some(vertex_array),
                        Some(vertex_buffer),
                        Some(index_buffer),
                        Some(vao_id),
                        Some(vertex_buffer_id),
                        Some(index_buffer_id),
                    ) => {
                        self.saved = SavedBufferBindings {
                            vertex_array,
                            vertex_buffer,
                            index_buffer,
                        };
                        self.vao_id = vao_id;
                        self.vertex_buffer_id = vertex_buffer_id;
                        self.index_buffer_id = index_buffer_id;
                        let commands = make_upload_commands(
                            vao_id,
                            vertex_buffer_id,
                            index_buffer_id,
                        );
                        let none: Vec<GlReply> = Vec::new();
                        match self.bind_on(&none, commands) {
                            Ok(step) => Ok(step),
                            Err(e) => {
                                proof {
                                    lemma_binding_starts(self@.binding());
                                }
                                Err(e)
                            },
                        }
                    },
                    _ => Err(GlReplyError),
                }
            },
            VertexBufferStage::Binding => self.bind_on(&replies, Vec::new()),
            VertexBufferStage::Done => Err(GlReplyError),
        }
    }
}

/// A binding that has not issued anything accepts the empty list of replies.
proof fn lemma_binding_starts(binding: LayoutBindingView)
    requires
        binding.stage == BindingStage::Start,
    ensures
        binding.step(Seq::empty()) is Some,
{
}

impl VertexBuffer {
    /// Starts the build of a buffer of `vertex_buffer_len` vertices of type
    /// `T` and `index_buffer_len` indices for the program `shader`. The
    /// layout of a vertex is what `T` describes; there is nothing to start
    /// where the size of such a vertex does not fit the machine's word.
    pub fn new<T: VertexLayoutDescription>(
        shader: &GlShader,
        vertex_buffer_len: usize,
        index_buffer_len: usize,
        index_buffer_format: IndexBufferFormat,
    ) -> (build: Option<VertexBufferBuild>)
        ensures
            build is Some ==> {
                let build = build->0;
                &&& build.inv()
                &&& build@.stage == VertexBufferStage::Start
                &&& build@.program_id == shader.program_id
                &&& build@.layout is Some
                &&& build@.layout->0.spec_total_stride() <= usize::MAX
                &&& build@.binding_stage == BindingStage::Start
                &&& build@.cursor == 0
                &&& build@.vertex_buffer_len == vertex_buffer_len
                &&& build@.index_buffer_len == index_buffer_len
                &&& build@.index_buffer_format == index_buffer_format
            },
    {
        VertexBufferBuild::new(
            shader.program_id,
            T::get_description(),
            vertex_buffer_len,
            index_buffer_len,
            index_buffer_format,
        )
    }
}

/// A build takes exactly the replies that answer the batch it issued last.
pub proof fn lemma_buffer_build_takes_the_answers(
    build: VertexBufferBuildView,
    first: Seq<GlReply>,
    second: Seq<GlReply>,
)
    requires
        build.wf(),
        build.step(first) is Some,
        build.step(first)->0.outcome is None,
    ensures
        build.step(first)->0.next.step(second) is Some <==> answer(
            build.step(first)->0.commands,
            second,
        ),
{
    let moved = build.step(first)->0;
    match build.stage {
        VertexBufferStage::Start => {
            reveal_with_fuel(answers_from, 8);
            let next = moved.next;
            if VertexBufferBuildView::objects_arrived(second) {
                assert(next.step(second) is Some);
            }
        },
        _ => {
            let upload = if build.stage == VertexBufferStage::AwaitObjects {
                upload_commands(
                    moved.next.vao_id,
                    moved.next.vertex_buffer_id,
                    moved.next.index_buffer_id,
                )
            } else {
                Seq::empty()
            };
            let before = build.binding();
            let from = if build.stage == VertexBufferStage::AwaitObjects {
                0
            } else {
                before.cursor + 1
            };
            let done = if build.stage == VertexBufferStage::AwaitObjects {
                Seq::empty()
            } else {
                attribute_commands(
                    before.mode,
                    before.fields[before.cursor],
                    spec_single_integer(first)->0,
                    word_stride(before.mode, before.fields),
                    word_offset(before.mode, before.fields, before.cursor),
                )
            };
            let to = scan_end(before.fields, from);
            let fixed = fixed_commands(before.mode, before.fields, from, to);
            let lookup = GlCommand::GetAttribLocation {
                program: build.program_id,
                attribute: to as usize,
            };
            lemma_fixed_commands_hold_no_query(before.mode, before.fields, from, to);
            lemma_no_queries_in_both(done, fixed);
            lemma_no_queries_in_both(upload, done + fixed);
            assert(moved.commands =~= (upload + (done + fixed)).push(lookup));
            lemma_answers_one_query_at_the_end(upload + (done + fixed), lookup, second);
        },
    }
}

/// The last batch of a build ends by putting the three saved bindings back.
pub proof fn lemma_buffer_build_ends_with_the_saved_bindings(
    build: VertexBufferBuildView,
    replies: Seq<GlReply>,
)
    requires
        build.step(replies) is Some,
        build.step(replies)->0.outcome is Some,
    ensures
        ({
            let moved = build.step(replies)->0;
            let rebind = rebind_commands(moved.next.saved);
            &&& moved.commands.len() >= rebind.len()
            &&& moved.commands.subrange(
                moved.commands.len() - rebind.len(),
                moved.commands.len() as int,
            ) == rebind
            &&& moved.outcome->0.vertex_buffer_id == moved.next.vertex_buffer_id
            &&& moved.outcome->0.index_buffer_id == moved.next.index_buffer_id
            &&& moved.outcome->0.vao.vao_id == moved.next.vao_id
        }),
{
    let moved = build.step(replies)->0;
    let rebind = rebind_commands(moved.next.saved);
    assert(moved.commands.subrange(
        moved.commands.len() - rebind.len(),
        moved.commands.len() as int,
    ) =~= rebind);
}


/// Whether `saved` says which vertex array and which buffers are bound in
/// `bindings`: each number, taken as an object name, is the object bound.
pub open spec fn reports_buffers(saved: SavedBufferBindings, bindings: GlBindings) -> bool {
    &&& saved.vertex_array as u32 == bindings.vertex_array
    &&& saved.vertex_buffer as u32 == bindings.array_buffer
    &&& saved.index_buffer as u32 == bindings.element_array_buffer
}

/// A build leaves bound the vertex array and the buffers that it found
/// bound. Where the driver's answers to the opening queries say what was
/// bound before the build, then, whatever the build has bound on the way, the
/// same vertex array, array buffer and index buffer are bound again after its
/// last batch.
pub proof fn lemma_buffer_build_puts_the_bindings_back(
    build: VertexBufferBuildView,
    replies: Seq<GlReply>,
    before: GlBindings,
    on_the_way: GlBindings,
)
    requires
        build.step(replies) is Some,
        build.step(replies)->0.outcome is Some,
        reports_buffers(build.step(replies)->0.next.saved, before),
    ensures
        ({
            let end = on_the_way.after_all(build.step(replies)->0.commands);
            &&& end.vertex_array == before.vertex_array
            &&& end.array_buffer == before.array_buffer
            &&& end.element_array_buffer == before.element_array_buffer
        }),
{
    let moved = build.step(replies)->0;
    let rebind = rebind_commands(moved.next.saved);
    lemma_buffer_build_ends_with_the_saved_bindings(build, replies);
    let body = moved.commands.subrange(0, moved.commands.len() - rebind.len());
    assert(moved.commands =~= body + rebind);
    lemma_after_both(on_the_way, body, rebind);
    reveal_with_fuel(GlBindings::after_first, 4);
}

} // verus!
