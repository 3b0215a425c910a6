//! Drawing tessellated layers into a fresh texture.
//!
//! A [`DrawPass`] saves the bindings it is about to disturb, creates a
//! texture with a framebuffer and a depth buffer around it, looks up each
//! uniform name once, draws the layers while skipping uniforms that already
//! hold the wanted value, puts the saved bindings back and deletes the
//! framebuffer and the depth buffer. The texture is the outcome.

use vstd::prelude::*;
use crate::az_string::AzString;
use crate::command::{
    answer, answers_from, collect_integers, lemma_answers_lookups, lemma_answers_skip,
    reply_integers, GlCommand, GlReply, GlReplyError, GlStep, Transition,
};
use crate::ctypes::{GLboolean, GLint, GLuint};
use crate::bindings::{
    binds_nothing, lemma_after_both, lemma_binds_nothing, lemma_switches_nothing,
    switches_nothing, GlBindings,
};
use crate::glenum;
use crate::resources::{ColorU, PhysicalSizeU32, RawImageFormat};
use crate::texture::{Texture, TextureFlags};
use crate::uniform::{Uniform, UniformType};
use crate::vertex::{IndexBufferFormat, TesselatedGPUSvgNode};

verus! {

/// One layer to draw: the buffers of a shape and the uniforms to draw it
/// with.
#[derive(Debug)]
pub struct DrawLayer {
    pub vertex_buffer_id: GLuint,
    pub index_buffer_id: GLuint,
    pub index_buffer_len: usize,
    pub index_buffer_format: IndexBufferFormat,
    pub uniforms: Vec<Uniform>,
}

impl DrawLayer {
    /// A layer that draws the buffers of `node` with `uniforms`.
    pub fn new(node: &TesselatedGPUSvgNode, uniforms: Vec<Uniform>) -> (layer: DrawLayer)
        ensures
            layer.vertex_buffer_id == node.vertex_index_buffer.vertex_buffer_id,
            layer.index_buffer_id == node.vertex_index_buffer.index_buffer_id,
            layer.index_buffer_len == node.vertex_index_buffer.index_buffer_len,
            layer.index_buffer_format == node.vertex_index_buffer.index_buffer_format,
            layer.uniforms == uniforms,
    {
        DrawLayer {
            vertex_buffer_id: node.vertex_index_buffer.vertex_buffer_id,
            index_buffer_id: node.vertex_index_buffer.index_buffer_id,
            index_buffer_len: node.vertex_index_buffer.index_buffer_len,
            index_buffer_format: node.vertex_index_buffer.index_buffer_format,
            uniforms,
        }
    }
}

/// What the driver answered to the queries that open a pass.
#[derive(Debug, Copy, Clone, PartialEq, Eq, Structural, Hash)]
pub struct SavedGlState {
    pub multisample: GLboolean,
    pub vertex_buffer: GLint,
    pub index_buffer: GLint,
    pub program: GLint,
    pub vertex_array_object: GLint,
    pub renderbuffer: GLint,
    pub framebuffer: GLint,
    pub texture_2d: GLint,
}

/// How far a pass has come.
#[derive(Debug, Copy, Clone, PartialEq, Eq, Structural, Hash)]
pub enum DrawStage {
    /// Nothing was issued yet.
    Start,
    /// The state queries and two object requests are out.
    AwaitState,
    /// The request for a depth buffer is out.
    AwaitDepthBuffer,
    /// The target is set up and the uniform lookups are out.
    AwaitLocations,
    /// The pass is complete.
    Done,
}

/// The state of a pass as a mathematical value.
pub struct DrawPassView {
    pub stage: DrawStage,
    pub program_id: GLuint,
    pub layers: Seq<DrawLayer>,
    pub clear_color: Option<ColorU>,
    pub texture_size: PhysicalSizeU32,
    pub saved: SavedGlState,
    pub texture_id: GLuint,
    pub framebuffer_id: GLuint,
    pub depthbuffer_id: GLuint,
}

/// `names`, extended by the names of the first `n` of `uniforms` that it does
/// not hold yet, in their order.
pub open spec fn names_in_layer(uniforms: Seq<Uniform>, n: int, names: Seq<Seq<char>>) -> Seq<
    Seq<char>,
>
    decreases n,
{
    if n <= 0 {
        names
    } else {
        let before = names_in_layer(uniforms, n - 1, names);
        let name = uniforms[n - 1].name@;
        if before.contains(name) {
            before
        } else {
            before.push(name)
        }
    }
}

/// The distinct uniform names of the first `n` of `layers`, in the order in
/// which they first occur.
pub open spec fn names_in_layers(layers: Seq<DrawLayer>, n: int) -> Seq<Seq<char>>
    decreases n,
{
    if n <= 0 {
        Seq::empty()
    } else {
        names_in_layer(
            layers[n - 1].uniforms@,
            layers[n - 1].uniforms@.len() as int,
            names_in_layers(layers, n - 1),
        )
    }
}

/// The distinct uniform names of `layers`, in the order in which they first
/// occur. A pass looks up each of them once.
pub open spec fn uniform_names(layers: Seq<DrawLayer>) -> Seq<Seq<char>> {
    names_in_layers(layers, layers.len() as int)
}

/// The first index at or after `start` at which `names` holds `name`, or the
/// length of `names` if there is none.
pub open spec fn name_position_from(names: Seq<Seq<char>>, name: Seq<char>, start: int) -> int
    decreases names.len() - start,
{
    if start >= names.len() {
        start
    } else if names[start] == name {
        start
    } else {
        name_position_from(names, name, start + 1)
    }
}

/// The first index at which `names` holds `name`.
pub open spec fn name_position(names: Seq<Seq<char>>, name: Seq<char>) -> int {
    name_position_from(names, name, 0)
}

/// The largest number of uniforms that one of the first `n` of `layers` has.
pub open spec fn max_uniforms(layers: Seq<DrawLayer>, n: int) -> nat
    decreases n,
{
    if n <= 0 {
        0
    } else {
        let before = max_uniforms(layers, n - 1);
        let here = layers[n - 1].uniforms@.len();
        if here > before {
            here
        } else {
            before
        }
    }
}

/// The uniform calls for the first `n` of `uniforms`, and the values that the
/// uniform slots then hold. `current` says what each slot held before; a
/// uniform whose slot already holds its value is passed over.
pub open spec fn uniform_updates(
    uniforms: Seq<Uniform>,
    n: int,
    current: Seq<Option<UniformType>>,
    names: Seq<Seq<char>>,
    locations: Seq<GLint>,
) -> (Seq<GlCommand>, Seq<Option<UniformType>>)
    decreases n,
{
    if n <= 0 {
        (Seq::empty(), current)
    } else {
        let (commands, held) = uniform_updates(uniforms, n - 1, current, names, locations);
        let uniform = uniforms[n - 1];
        if held[n - 1] == Some(uniform.uniform_type) {
            (commands, held)
        } else {
            (
                commands.push(
                    uniform.uniform_type.spec_set(locations[name_position(names, uniform.name@)]),
                ),
                held.update(n - 1, Some(uniform.uniform_type)),
            )
        }
    }
}

/// The commands that draw one layer, and the values that the uniform slots
/// then hold.
pub open spec fn layer_commands(
    layer: DrawLayer,
    current: Seq<Option<UniformType>>,
    names: Seq<Seq<char>>,
    locations: Seq<GLint>,
) -> (Seq<GlCommand>, Seq<Option<UniformType>>) {
    let (updates, held) = uniform_updates(
        layer.uniforms@,
        layer.uniforms@.len() as int,
        current,
        names,
        locations,
    );
    (
        seq![
            GlCommand::BindVertexArray { vao: layer.vertex_buffer_id },
            GlCommand::BindBuffer {
                target: glenum::ELEMENT_ARRAY_BUFFER,
                buffer: layer.index_buffer_id,
            },
        ] + updates + seq![
            GlCommand::DrawElements {
                mode: layer.index_buffer_format.spec_gl_id(),
                count: layer.index_buffer_len as i32,
                element_type: glenum::UNSIGNED_INT,
                indices_offset: 0,
            },
        ],
        held,
    )
}

/// The commands that draw the first `n` of `layers`, and the values that the
/// uniform slots then hold. No slot holds a value at the start.
pub open spec fn layers_commands(
    layers: Seq<DrawLayer>,
    n: int,
    names: Seq<Seq<char>>,
    locations: Seq<GLint>,
) -> (Seq<GlCommand>, Seq<Option<UniformType>>)
    decreases n,
{
    if n <= 0 {
        (
            Seq::empty(),
            Seq::new(max_uniforms(layers, layers.len() as int), |i: int| None::<UniformType>),
        )
    } else {
        let (commands, held) = layers_commands(layers, n - 1, names, locations);
        let (here, held_after) = layer_commands(layers[n - 1], held, names, locations);
        (commands + here, held_after)
    }
}

/// The queries that open a pass: whether multisampling is on and what is
/// bound where the pass will bind its own objects, then a texture and a
/// framebuffer.
pub open spec fn save_state_commands() -> Seq<GlCommand> {
    seq![
        GlCommand::GetBooleanV { name: glenum::MULTISAMPLE },
        GlCommand::GetIntegerV { name: glenum::ARRAY_BUFFER_BINDING },
        GlCommand::GetIntegerV { name: glenum::ELEMENT_ARRAY_BUFFER_BINDING },
        GlCommand::GetIntegerV { name: glenum::CURRENT_PROGRAM },
        GlCommand::GetIntegerV { name: glenum::VERTEX_ARRAY_BINDING },
        GlCommand::GetIntegerV { name: glenum::RENDERBUFFER_BINDING },
        GlCommand::GetIntegerV { name: glenum::FRAMEBUFFER_BINDING },
        GlCommand::GetIntegerV { name: glenum::TEXTURE_BINDING_2D },
        GlCommand::GenTextures { n: 1 },
        GlCommand::GenFramebuffers { n: 1 },
    ]
}

/// Binds the new framebuffer and asks for a depth buffer.
pub open spec fn depth_buffer_commands(framebuffer_id: GLuint) -> Seq<GlCommand> {
    seq![
        GlCommand::BindFramebuffer { target: glenum::FRAMEBUFFER, framebuffer: framebuffer_id },
        GlCommand::GenRenderbuffers { n: 1 },
    ]
}

/// Gives the texture its storage, attaches it and the depth buffer to the
/// framebuffer, selects the program and switches multisampling off. The pass
/// does not ask the driver whether the framebuffer is complete.
pub open spec fn target_commands(
    program_id: GLuint,
    texture_size: PhysicalSizeU32,
    texture_id: GLuint,
    depthbuffer_id: GLuint,
) -> Seq<GlCommand> {
    seq![
        GlCommand::BindTexture { target: glenum::TEXTURE_2D, texture: texture_id },
        GlCommand::TexImage2D {
            target: glenum::TEXTURE_2D,
            level: 0,
            internal_format: glenum::RGBA8 as i32,
            width: texture_size.width as i32,
            height: texture_size.height as i32,
            border: 0,
            format: glenum::RGBA8,
            ty: glenum::UNSIGNED_BYTE,
        },
        GlCommand::TexParameterI {
            target: glenum::TEXTURE_2D,
            pname: glenum::TEXTURE_MAG_FILTER,
            param: glenum::NEAREST as i32,
        },
        GlCommand::TexParameterI {
            target: glenum::TEXTURE_2D,
            pname: glenum::TEXTURE_MIN_FILTER,
            param: glenum::NEAREST as i32,
        },
        GlCommand::TexParameterI {
            target: glenum::TEXTURE_2D,
            pname: glenum::TEXTURE_WRAP_S,
            param: glenum::CLAMP_TO_EDGE as i32,
        },
        GlCommand::TexParameterI {
            target: glenum::TEXTURE_2D,
            pname: glenum::TEXTURE_WRAP_T,
            param: glenum::CLAMP_TO_EDGE as i32,
        },
        GlCommand::BindRenderbuffer { target: glenum::RENDERBUFFER, renderbuffer: depthbuffer_id },
        GlCommand::RenderbufferStorage {
            target: glenum::RENDERBUFFER,
            internalformat: glenum::DEPTH_COMPONENT,
            width: texture_size.width as i32,
            height: texture_size.height as i32,
        },
        GlCommand::FramebufferRenderbuffer {
            target: glenum::FRAMEBUFFER,
            attachment: glenum::DEPTH_ATTACHMENT,
            renderbuffertarget: glenum::RENDERBUFFER,
            renderbuffer: depthbuffer_id,
        },
        GlCommand::FramebufferTexture2D {
            target: glenum::FRAMEBUFFER,
            attachment: glenum::COLOR_ATTACHMENT0,
            textarget: glenum::TEXTURE_2D,
            texture: texture_id,
            level: 0,
        },
        GlCommand::DrawBuffers { buffer: glenum::COLOR_ATTACHMENT0 },
        GlCommand::Viewport {
            x: 0,
            y: 0,
            width: texture_size.width as i32,
            height: texture_size.height as i32,
        },
        GlCommand::UseProgram { program: program_id },
        GlCommand::Disable { cap: glenum::MULTISAMPLE },
    ]
}

/// One lookup for each of the first `count` entries of the name table.
pub open spec fn lookup_commands(program_id: GLuint, count: int) -> Seq<GlCommand> {
    Seq::new(
        count as nat,
        |i: int| GlCommand::GetUniformLocation { program: program_id, name: i as usize },
    )
}

/// Sets the clear color if there is one, then clears color and depth.
pub open spec fn clear_commands(clear_color: Option<ColorU>) -> Seq<GlCommand> {
    let color = match clear_color {
        Some(color) => seq![GlCommand::ClearColor { color }],
        None => Seq::empty(),
    };
    color + seq![
        GlCommand::ClearDepth { depth: 0 },
        GlCommand::Clear { buffer_mask: glenum::COLOR_BUFFER_BIT | glenum::DEPTH_BUFFER_BIT },
    ]
}

/// Puts back what the opening queries answered. Multisampling is switched on
/// again only if it was on; each binding is set to the saved number, taken as
/// an object name.
pub open spec fn restore_commands(saved: SavedGlState) -> Seq<GlCommand> {
    let multisample = if saved.multisample == glenum::TRUE {
        seq![GlCommand::Enable { cap: glenum::MULTISAMPLE }]
    } else {
        Seq::empty()
    };
    multisample + seq![
        GlCommand::BindVertexArray { vao: saved.vertex_array_object as u32 },
        GlCommand::BindFramebuffer {
            target: glenum::FRAMEBUFFER,
            framebuffer: saved.framebuffer as u32,
        },
        GlCommand::BindTexture { target: glenum::TEXTURE_2D, texture: saved.texture_2d as u32 },
        GlCommand::BindRenderbuffer {
            target: glenum::RENDERBUFFER,
            renderbuffer: saved.renderbuffer as u32,
        },
        GlCommand::BindBuffer {
            target: glenum::ELEMENT_ARRAY_BUFFER,
            buffer: saved.index_buffer as u32,
        },
        GlCommand::BindBuffer { target: glenum::ARRAY_BUFFER, buffer: saved.vertex_buffer as u32 },
        GlCommand::UseProgram { program: saved.program as u32 },
    ]
}

/// Deletes the framebuffer and the depth buffer of a pass. The texture stays.
pub open spec fn cleanup_commands(framebuffer_id: GLuint, depthbuffer_id: GLuint) -> Seq<
    GlCommand,
> {
    seq![
        GlCommand::DeleteFramebuffers { framebuffer: framebuffer_id },
        GlCommand::DeleteRenderbuffers { renderbuffer: depthbuffer_id },
    ]
}

impl DrawPassView {
    /// The texture that the pass produces.
    pub open spec fn texture(self) -> Texture {
        Texture {
            texture_id: self.texture_id,
            format: RawImageFormat::RGBA8,
            flags: TextureFlags { is_opaque: true, is_video_texture: false },
            size: self.texture_size,
        }
    }

    /// The last batch of a pass: clear, draw every layer, put the saved state
    /// back, delete the framebuffer and the depth buffer.
    pub open spec fn render_commands(self, locations: Seq<GLint>) -> Seq<GlCommand> {
        clear_commands(self.clear_color) + layers_commands(
            self.layers,
            self.layers.len() as int,
            uniform_names(self.layers),
            locations,
        ).0 + restore_commands(self.saved) + cleanup_commands(
            self.framebuffer_id,
            self.depthbuffer_id,
        )
    }

    /// Whether `replies` answer the queries of the batch that was issued
    /// last.
    pub open spec fn accepts(self, replies: Seq<GlReply>) -> bool {
        match self.stage {
            DrawStage::Start => replies.len() == 0,
            DrawStage::AwaitState => {
                &&& replies.len() == 10
                &&& replies[0].spec_boolean() is Some
                &&& replies[1].spec_integer() is Some
                &&& replies[2].spec_integer() is Some
                &&& replies[3].spec_integer() is Some
                &&& replies[4].spec_integer() is Some
                &&& replies[5].spec_integer() is Some
                &&& replies[6].spec_integer() is Some
                &&& replies[7].spec_integer() is Some
                &&& replies[8].spec_first_name() is Some
                &&& replies[9].spec_first_name() is Some
            },
            DrawStage::AwaitDepthBuffer => replies.len() == 1 && replies[0].spec_first_name() is Some,
            DrawStage::AwaitLocations => {
                &&& replies.len() == uniform_names(self.layers).len()
                &&& reply_integers(replies) is Some
            },
            DrawStage::Done => false,
        }
    }

    /// The state after `replies` were taken in.
    pub open spec fn next(self, replies: Seq<GlReply>) -> DrawPassView {
        match self.stage {
            DrawStage::Start => DrawPassView { stage: DrawStage::AwaitState, ..self },
            DrawStage::AwaitState => DrawPassView {
                stage: DrawStage::AwaitDepthBuffer,
                saved: SavedGlState {
                    multisample: replies[0].spec_boolean()->0,
                    vertex_buffer: replies[1].spec_integer()->0,
                    index_buffer: replies[2].spec_integer()->0,
                    program: replies[3].spec_integer()->0,
                    vertex_array_object: replies[4].spec_integer()->0,
                    renderbuffer: replies[5].spec_integer()->0,
                    framebuffer: replies[6].spec_integer()->0,
                    texture_2d: replies[7].spec_integer()->0,
                },
                texture_id: replies[8].spec_first_name()->0,
                framebuffer_id: replies[9].spec_first_name()->0,
                ..self
            },
            DrawStage::AwaitDepthBuffer => DrawPassView {
                stage: DrawStage::AwaitLocations,
                depthbuffer_id: replies[0].spec_first_name()->0,
                ..self
            },
            DrawStage::AwaitLocations => DrawPassView { stage: DrawStage::Done, ..self },
            DrawStage::Done => self,
        }
    }

    /// The commands that answer `replies`.
    pub open spec fn response(self, replies: Seq<GlReply>) -> Seq<GlCommand> {
        let next = self.next(replies);
        match self.stage {
            DrawStage::Start => save_state_commands(),
            DrawStage::AwaitState => depth_buffer_commands(next.framebuffer_id),
            DrawStage::AwaitDepthBuffer => target_commands(
                next.program_id,
                next.texture_size,
                next.texture_id,
                next.depthbuffer_id,
            ) + lookup_commands(next.program_id, uniform_names(next.layers).len() as int),
            DrawStage::AwaitLocations => self.render_commands(reply_integers(replies)->0),
            DrawStage::Done => Seq::empty(),
        }
    }

    /// The texture that the pass ends with, once `replies` complete it.
    pub open spec fn outcome(self, replies: Seq<GlReply>) -> Option<Texture> {
        match self.stage {
            DrawStage::AwaitLocations => Some(self.texture()),
            _ => None,
        }
    }

    /// The move that `replies` cause, or `None` where they do not answer the
    /// batch issued last.
    pub open spec fn step(self, replies: Seq<GlReply>) -> Option<
        Transition<DrawPassView, Texture>,
    > {
        if self.accepts(replies) {
            Some(
                Transition {
                    next: self.next(replies),
                    commands: self.response(replies),
                    outcome: self.outcome(replies),
                },
            )
        } else {
            None
        }
    }
}


/// The characters of each of `names`.
pub open spec fn name_views(names: Seq<AzString>) -> Seq<Seq<char>> {
    Seq::new(names.len(), |i: int| names[i]@)
}

/// Taking in more uniforms keeps the names that were there, where they were,
/// and adds the name of each uniform taken in.
proof fn lemma_names_in_layer(uniforms: Seq<Uniform>, n: int, names: Seq<Seq<char>>)
    requires
        0 <= n <= uniforms.len(),
    ensures
        names.len() <= names_in_layer(uniforms, n, names).len(),
        forall|k: int|
            0 <= k < names.len() ==> names_in_layer(uniforms, n, names)[k] == names[k],
        forall|j: int|
            0 <= j < n ==> names_in_layer(uniforms, n, names).contains(
                #[trigger] uniforms[j].name@,
            ),
    decreases n,
{
    if n > 0 {
        lemma_names_in_layer(uniforms, n - 1, names);
        let before = names_in_layer(uniforms, n - 1, names);
        let after = names_in_layer(uniforms, n, names);
        let name = uniforms[n - 1].name@;
        if !before.contains(name) {
            assert(after[before.len() as int] == name);
        }
        assert forall|j: int| 0 <= j < n implies after.contains(#[trigger] uniforms[j].name@) by {
            if j < n - 1 {
                let k = choose|k: int| 0 <= k < before.len() && before[k] == uniforms[j].name@;
                assert(after[k] == uniforms[j].name@);
            }
        }
    }
}

/// The name table of `n` layers holds the name of every uniform of every one
/// of these layers.
proof fn lemma_names_in_layers(layers: Seq<DrawLayer>, n: int)
    requires
        0 <= n <= layers.len(),
    ensures
        forall|i: int, j: int|
            0 <= i < n && 0 <= j < layers[i].uniforms@.len() ==> names_in_layers(
                layers,
                n,
            ).contains(#[trigger] layers[i].uniforms@[j].name@),
    decreases n,
{
    if n > 0 {
        lemma_names_in_layers(layers, n - 1);
        let before = names_in_layers(layers, n - 1);
        let uniforms = layers[n - 1].uniforms@;
        let after = names_in_layers(layers, n);
        lemma_names_in_layer(uniforms, uniforms.len() as int, before);
        assert forall|i: int, j: int|
            0 <= i < n && 0 <= j < layers[i].uniforms@.len() implies after.contains(
            #[trigger] layers[i].uniforms@[j].name@,
        ) by {
            if i < n - 1 {
                let name = layers[i].uniforms@[j].name@;
                let k = choose|k: int| 0 <= k < before.len() && before[k] == name;
                assert(after[k] == name);
            }
        }
    }
}

/// Where `names` holds `name` at `at` and nowhere between `start` and `at`,
/// the search from `start` ends at `at`.
proof fn lemma_name_position(names: Seq<Seq<char>>, name: Seq<char>, start: int, at: int)
    requires
        0 <= start <= at < names.len(),
        names[at] == name,
        forall|k: int| start <= k < at ==> names[k] != name,
    ensures
        name_position_from(names, name, start) == at,
    decreases at - start,
{
    if start < at {
        lemma_name_position(names, name, start + 1, at);
    }
}

/// No layer among the first `n` has more uniforms than `max_uniforms` says.
proof fn lemma_max_uniforms(layers: Seq<DrawLayer>, n: int, i: int)
    requires
        0 <= i < n <= layers.len(),
    ensures
        layers[i].uniforms@.len() <= max_uniforms(layers, n),
    decreases n,
{
    if i < n - 1 {
        lemma_max_uniforms(layers, n - 1, i);
    }
}

/// The index of the first of `names` that equals `name`.
fn find_name(names: &Vec<AzString>, name: &AzString) -> (r: Option<usize>)
    ensures
        match r {
            Some(at) => {
                &&& at < names@.len()
                &&& names@[at as int]@ == name@
                &&& name_position(name_views(names@), name@) == at
            },
            None => !name_views(names@).contains(name@),
        },
{
    let mut i: usize = 0;
    while i < names.len()
        invariant
            i <= names@.len(),
            forall|k: int| 0 <= k < i ==> name_views(names@)[k] != name@,
        decreases names@.len() - i,
    {
        if names[i] == *name {
            proof {
                lemma_name_position(name_views(names@), name@, 0, i as int);
            }
            return Some(i);
        }
        i += 1;
    }
    None
}

/// The distinct uniform names of `layers`, in the order in which they first
/// occur.
fn collect_uniform_names(layers: &Vec<DrawLayer>) -> (names: Vec<AzString>)
    ensures
        name_views(names@) == uniform_names(layers@),
{
    let mut names: Vec<AzString> = Vec::new();
    let mut i: usize = 0;
    assert(name_views(names@) =~= names_in_layers(layers@, 0));
    while i < layers.len()
        invariant
            i <= layers@.len(),
            name_views(names@) == names_in_layers(layers@, i as int),
        decreases layers@.len() - i,
    {
        let uniforms = &layers[i].uniforms;
        let ghost before = name_views(names@);
        let mut j: usize = 0;
        while j < uniforms.len()
            invariant
                j <= uniforms@.len(),
                name_views(names@) == names_in_layer(uniforms@, j as int, before),
            decreases uniforms@.len() - j,
        {
            let found = find_name(&names, &uniforms[j].name);
            if let Some(at) = found {
                assert(name_views(names@)[at as int] == uniforms@[j as int].name@);
            }
            if found.is_none() {
                let ghost old_views = name_views(names@);
                names.push(uniforms[j].name.clone());
                assert(name_views(names@) =~= old_views.push(uniforms@[j as int].name@));
            }
            j += 1;
        }
        i += 1;
    }
    names
}

/// The largest number of uniforms that one layer has.
fn max_uniform_len(layers: &Vec<DrawLayer>) -> (max: usize)
    ensures
        max == max_uniforms(layers@, layers@.len() as int),
{
    let mut max: usize = 0;
    let mut i: usize = 0;
    while i < layers.len()
        invariant
            i <= layers@.len(),
            max == max_uniforms(layers@, i as int),
        decreases layers@.len() - i,
    {
        let here = layers[i].uniforms.len();
        if here > max {
            max = here;
        }
        i += 1;
    }
    max
}

/// Appends `more` to `commands`.
fn append_commands(commands: &mut Vec<GlCommand>, more: Vec<GlCommand>)
    ensures
        final(commands)@ == old(commands)@ + more@,
{
    let mut i: usize = 0;
    while i < more.len()
        invariant
            i <= more@.len(),
            commands@ == old(commands)@ + more@.subrange(0, i as int),
        decreases more@.len() - i,
    {
        commands.push(more[i]);
        i += 1;
        assert(commands@ =~= old(commands)@ + more@.subrange(0, i as int));
    }
    assert(more@.subrange(0, i as int) =~= more@);
}

fn make_save_state_commands() -> (c: Vec<GlCommand>)
    ensures
        c@ == save_state_commands(),
{
    vec![
        GlCommand::GetBooleanV { name: glenum::MULTISAMPLE },
        GlCommand::GetIntegerV { name: glenum::ARRAY_BUFFER_BINDING },
        GlCommand::GetIntegerV { name: glenum::ELEMENT_ARRAY_BUFFER_BINDING },
        GlCommand::GetIntegerV { name: glenum::CURRENT_PROGRAM },
        GlCommand::GetIntegerV { name: glenum::VERTEX_ARRAY_BINDING },
        GlCommand::GetIntegerV { name: glenum::RENDERBUFFER_BINDING },
        GlCommand::GetIntegerV { name: glenum::FRAMEBUFFER_BINDING },
        GlCommand::GetIntegerV { name: glenum::TEXTURE_BINDING_2D },
        GlCommand::GenTextures { n: 1 },
        GlCommand::GenFramebuffers { n: 1 },
    ]
}

fn make_depth_buffer_commands(framebuffer_id: GLuint) -> (c: Vec<GlCommand>)
    ensures
        c@ == depth_buffer_commands(framebuffer_id),
{
    vec![
        GlCommand::BindFramebuffer { target: glenum::FRAMEBUFFER, framebuffer: framebuffer_id },
        GlCommand::GenRenderbuffers { n: 1 },
    ]
}

/// A size in pixels as the signed integer that the driver takes.
fn signed_size(size: u32) -> (r: i32)
    ensures
        r == size as i32,
{
    #[verifier::truncate]
    (size as i32)
}

/// A saved binding as the object name that it stands for.
fn saved_name(value: GLint) -> (r: GLuint)
    ensures
        r == value as u32,
{
    #[verifier::truncate]
    (value as u32)
}

fn make_target_commands(
    program_id: GLuint,
    texture_size: PhysicalSizeU32,
    texture_id: GLuint,
    depthbuffer_id: GLuint,
) -> (c: Vec<GlCommand>)
    ensures
        c@ == target_commands(program_id, texture_size, texture_id, depthbuffer_id),
{
    let width: i32 = signed_size(texture_size.width);
    let height: i32 = signed_size(texture_size.height);
    vec![
        GlCommand::BindTexture { target: glenum::TEXTURE_2D, texture: texture_id },
        GlCommand::TexImage2D {
            target: glenum::TEXTURE_2D,
            level: 0,
            internal_format: signed_size(glenum::RGBA8),
            width,
            height,
            border: 0,
            format: glenum::RGBA8,
            ty: glenum::UNSIGNED_BYTE,
        },
        GlCommand::TexParameterI {
            target: glenum::TEXTURE_2D,
            pname: glenum::TEXTURE_MAG_FILTER,
            param: signed_size(glenum::NEAREST),
        },
        GlCommand::TexParameterI {
            target: glenum::TEXTURE_2D,
            pname: glenum::TEXTURE_MIN_FILTER,
            param: signed_size(glenum::NEAREST),
        },
        GlCommand::TexParameterI {
            target: glenum::TEXTURE_2D,
            pname: glenum::TEXTURE_WRAP_S,
            param: signed_size(glenum::CLAMP_TO_EDGE),
        },
        GlCommand::TexParameterI {
            target: glenum::TEXTURE_2D,
            pname: glenum::TEXTURE_WRAP_T,
            param: signed_size(glenum::CLAMP_TO_EDGE),
        },
        GlCommand::BindRenderbuffer { target: glenum::RENDERBUFFER, renderbuffer: depthbuffer_id },
        GlCommand::RenderbufferStorage {
            target: glenum::RENDERBUFFER,
            internalformat: glenum::DEPTH_COMPONENT,
            width,
            height,
        },
        GlCommand::FramebufferRenderbuffer {
            target: glenum::FRAMEBUFFER,
            attachment: glenum::DEPTH_ATTACHMENT,
            renderbuffertarget: glenum::RENDERBUFFER,
            renderbuffer: depthbuffer_id,
        },
        GlCommand::FramebufferTexture2D {
            target: glenum::FRAMEBUFFER,
            attachment: glenum::COLOR_ATTACHMENT0,
            textarget: glenum::TEXTURE_2D,
            texture: texture_id,
            level: 0,
        },
        GlCommand::DrawBuffers { buffer: glenum::COLOR_ATTACHMENT0 },
        GlCommand::Viewport { x: 0, y: 0, width, height },
        GlCommand::UseProgram { program: program_id },
        GlCommand::Disable { cap: glenum::MULTISAMPLE },
    ]
}

fn push_lookup_commands(commands: &mut Vec<GlCommand>, program_id: GLuint, count: usize)
    ensures
        final(commands)@ == old(commands)@ + lookup_commands(program_id, count as int),
{
    let mut i: usize = 0;
    assert(commands@ =~= old(commands)@ + lookup_commands(program_id, 0));
    while i < count
        invariant
            i <= count,
            commands@ == old(commands)@ + lookup_commands(program_id, i as int),
        decreases count - i,
    {
        commands.push(GlCommand::GetUniformLocation { program: program_id, name: i });
        i += 1;
        assert(commands@ =~= old(commands)@ + lookup_commands(program_id, i as int));
    }
}

fn make_clear_commands(clear_color: Option<ColorU>) -> (c: Vec<GlCommand>)
    ensures
        c@ == clear_commands(clear_color),
{
    let mut c: Vec<GlCommand> = Vec::new();
    if let Some(color) = clear_color {
        c.push(GlCommand::ClearColor { color });
    }
    c.push(GlCommand::ClearDepth { depth: 0 });
    c.push(
        GlCommand::Clear { buffer_mask: glenum::COLOR_BUFFER_BIT | glenum::DEPTH_BUFFER_BIT },
    );
    assert(c@ =~= clear_commands(clear_color));
    c
}

fn make_restore_commands(saved: &SavedGlState) -> (c: Vec<GlCommand>)
    ensures
        c@ == restore_commands(*saved),
{
    let mut c: Vec<GlCommand> = Vec::new();
    if saved.multisample == glenum::TRUE {
        c.push(GlCommand::Enable { cap: glenum::MULTISAMPLE });
    }
    c.push(GlCommand::BindVertexArray { vao: saved_name(saved.vertex_array_object) });
    c.push(
        GlCommand::BindFramebuffer {
            target: glenum::FRAMEBUFFER,
            framebuffer: saved_name(saved.framebuffer),
        },
    );
    c.push(
        GlCommand::BindTexture {
            target: glenum::TEXTURE_2D,
            texture: saved_name(saved.texture_2d),
        },
    );
    c.push(
        GlCommand::BindRenderbuffer {
            target: glenum::RENDERBUFFER,
            renderbuffer: saved_name(saved.renderbuffer),
        },
    );
    c.push(
        GlCommand::BindBuffer {
            target: glenum::ELEMENT_ARRAY_BUFFER,
            buffer: saved_name(saved.index_buffer),
        },
    );
    c.push(
        GlCommand::BindBuffer {
            target: glenum::ARRAY_BUFFER,
            buffer: saved_name(saved.vertex_buffer),
        },
    );
    c.push(GlCommand::UseProgram { program: saved_name(saved.program) });
    assert(c@ =~= restore_commands(*saved));
    c
}

/// The number of indices as the signed count that the driver takes.
fn index_count(len: usize) -> (r: i32)
    ensures
        r == len as i32,
{
    #[verifier::truncate]
    (len as i32)
}

/// Appends the commands that draw every layer.
fn push_layers_commands(
    commands: &mut Vec<GlCommand>,
    layers: &Vec<DrawLayer>,
    names: &Vec<AzString>,
    locations: &Vec<GLint>,
)
    requires
        name_views(names@) == uniform_names(layers@),
        locations@.len() == names@.len(),
    ensures
        final(commands)@ == old(commands)@ + layers_commands(
            layers@,
            layers@.len() as int,
            uniform_names(layers@),
            locations@,
        ).0,
{
    let ghost table = uniform_names(layers@);
    let slots: usize = max_uniform_len(layers);
    let mut held: Vec<Option<UniformType>> = Vec::new();
    let mut k: usize = 0;
    while k < slots
        invariant
            k <= slots,
            held@ == Seq::new(k as nat, |i: int| None::<UniformType>),
        decreases slots - k,
    {
        held.push(None);
        k += 1;
        assert(held@ =~= Seq::new(k as nat, |i: int| None::<UniformType>));
    }
    let mut i: usize = 0;
    assert(commands@ =~= old(commands)@ + layers_commands(layers@, 0, table, locations@).0);
    while i < layers.len()
        invariant
            i <= layers@.len(),
            table == uniform_names(layers@),
            name_views(names@) == table,
            locations@.len() == names@.len(),
            slots == max_uniforms(layers@, layers@.len() as int),
            held@.len() == slots,
            held@ == layers_commands(layers@, i as int, table, locations@).1,
            commands@ == old(commands)@ + layers_commands(layers@, i as int, table, locations@).0,
        decreases layers@.len() - i,
    {
        let layer = &layers[i];
        let ghost held_before = held@;
        proof {
            lemma_max_uniforms(layers@, layers@.len() as int, i as int);
            lemma_names_in_layers(layers@, layers@.len() as int);
        }
        commands.push(GlCommand::BindVertexArray { vao: layer.vertex_buffer_id });
        commands.push(
            GlCommand::BindBuffer {
                target: glenum::ELEMENT_ARRAY_BUFFER,
                buffer: layer.index_buffer_id,
            },
        );
        let ghost bound = commands@;
        let mut j: usize = 0;
        assert(commands@ =~= bound + uniform_updates(
            layer.uniforms@,
            0,
            held_before,
            table,
            locations@,
        ).0);
        while j < layer.uniforms.len()
            invariant
                j <= layer.uniforms@.len(),
                layer.uniforms@.len() <= slots,
                held@.len() == slots,
                name_views(names@) == table,
                locations@.len() == names@.len(),
                forall|u: int|
                    0 <= u < layer.uniforms@.len() ==> table.contains(
                        #[trigger] layer.uniforms@[u].name@,
                    ),
                held@ == uniform_updates(
                    layer.uniforms@,
                    j as int,
                    held_before,
                    table,
                    locations@,
                ).1,
                commands@ == bound + uniform_updates(
                    layer.uniforms@,
                    j as int,
                    held_before,
                    table,
                    locations@,
                ).0,
            decreases layer.uniforms@.len() - j,
        {
            let uniform = &layer.uniforms[j];
            let same = match &held[j] {
                Some(value) => value.same_as(&uniform.uniform_type),
                None => false,
            };
            if !same {
                let found = find_name(names, &uniform.name);
                assert(table.contains(layer.uniforms@[j as int].name@));
                let at: usize = match found {
                    Some(at) => at,
                    None => 0,
                };
                let location: GLint = locations[at];
                commands.push(uniform.uniform_type.set(location));
                held.set(j, Some(uniform.uniform_type));
            }
            j += 1;
        }
        commands.push(
            GlCommand::DrawElements {
                mode: layer.index_buffer_format.get_gl_id(),
                count: index_count(layer.index_buffer_len),
                element_type: glenum::UNSIGNED_INT,
                indices_offset: 0,
            },
        );
        i += 1;
        assert(commands@ =~= old(commands)@ + layers_commands(
            layers@,
            i as int,
            table,
            locations@,
        ).0);
    }
}

/// A pass that draws layers into a fresh texture.
///
/// Hand [`DrawPass::advance`] no replies to start, run the commands it
/// returns, and hand it the replies of the queries among them, until it
/// returns `GlStep::Finish`.
#[derive(Debug)]
pub struct DrawPass {
    stage: DrawStage,
    program_id: GLuint,
    layers: Vec<DrawLayer>,
    clear_color: Option<ColorU>,
    texture_size: PhysicalSizeU32,
    saved: SavedGlState,
    texture_id: GLuint,
    framebuffer_id: GLuint,
    depthbuffer_id: GLuint,
    names: Vec<AzString>,
}

impl View for DrawPass {
    type V = DrawPassView;

    closed spec fn view(&self) -> DrawPassView {
        DrawPassView {
            stage: self.stage,
            program_id: self.program_id,
            layers: self.layers@,
            clear_color: self.clear_color,
            texture_size: self.texture_size,
            saved: self.saved,
            texture_id: self.texture_id,
            framebuffer_id: self.framebuffer_id,
            depthbuffer_id: self.depthbuffer_id,
        }
    }
}

impl DrawPass {
    #[verifier::type_invariant]
    spec fn names_are_the_table(&self) -> bool {
        name_views(self.names@) == uniform_names(self.layers@)
    }

    /// A pass that draws `layers`, in order, with the program `program_id`
    /// into a new texture of `texture_size`, cleared to `clear_color` if
    /// there is one.
    pub fn new(
        program_id: GLuint,
        layers: Vec<DrawLayer>,
        clear_color: Option<ColorU>,
        texture_size: PhysicalSizeU32,
    ) -> (pass: DrawPass)
        ensures
            pass@.stage == DrawStage::Start,
            pass@.program_id == program_id,
            pass@.layers == layers@,
            pass@.clear_color == clear_color,
            pass@.texture_size == texture_size,
    {
        let names = collect_uniform_names(&layers);
        DrawPass {
            stage: DrawStage::Start,
            program_id,
            layers,
            clear_color,
            texture_size,
            saved: SavedGlState {
                multisample: 0,
                vertex_buffer: 0,
                index_buffer: 0,
                program: 0,
                vertex_array_object: 0,
                renderbuffer: 0,
                framebuffer: 0,
                texture_2d: 0,
            },
            texture_id: 0,
            framebuffer_id: 0,
            depthbuffer_id: 0,
            names,
        }
    }

    /// The name table: the uniform names that `GetUniformLocation` commands
    /// of this pass refer to by index.
    pub fn uniform_names(&self) -> (names: &Vec<AzString>)
        ensures
            name_views(names@) == uniform_names(self@.layers),
    {
        proof {
            use_type_invariant(self);
        }
        &self.names
    }

    /// How far the pass has come.
    pub fn stage(&self) -> (stage: DrawStage)
        ensures
            stage == self@.stage,
    {
        self.stage
    }

    /// Takes in the replies to the batch issued last and says what to do
    /// next. Replies that do not fit are refused and change nothing.
    pub fn advance(&mut self, replies: Vec<GlReply>) -> (r: Result<GlStep<Texture>, GlReplyError>)
        ensures
            match r {
                Ok(step) => {
                    &&& old(self)@.step(replies@) is Some
                    &&& final(self)@ == old(self)@.step(replies@)->0.next
                    &&& step.spec_commands() =~= old(self)@.step(replies@)->0.commands
                    &&& step.spec_outcome() == old(self)@.step(replies@)->0.outcome
                },
                Err(_) => old(self)@.step(replies@) is None && final(self)@ == old(self)@,
            },
    {
        proof {
            use_type_invariant(&*self);
        }
        match self.stage {
            DrawStage::Start => {
                if replies.len() != 0 {
                    return Err(GlReplyError);
                }
                self.stage = DrawStage::AwaitState;
                Ok(GlStep::Run(make_save_state_commands()))
            },
            DrawStage::AwaitState => {
                if replies.len() != 10 {
                    return Err(GlReplyError);
                }
                let multisample = replies[0].as_boolean();
                let vertex_buffer = replies[1].as_integer();
                let index_buffer = replies[2].as_integer();
                let program = replies[3].as_integer();
                let vertex_array_object = replies[4].as_integer();
                let renderbuffer = replies[5].as_integer();
                let framebuffer = replies[6].as_integer();
                let texture_2d = replies[7].as_integer();
                let texture_id = replies[8].first_name();
                let framebuffer_id = replies[9].first_name();
                match (
                    multisample,
                    vertex_buffer,
                    index_buffer,
                    program,
                    vertex_array_object,
                    renderbuffer,
                    framebuffer,
                    texture_2d,
                    texture_id,
                    framebuffer_id,
                ) {
                    (
                        Some(multisample),
                        Some(vertex_buffer),
                        Some(index_buffer),
                        Some(program),
                        Some(vertex_array_object),
                        Some(renderbuffer),
                        Some(framebuffer),
                        Some(texture_2d),
                        Some(texture_id),
                        Some(framebuffer_id),
                    ) => {
                        self.saved = SavedGlState {
                            multisample,
                            vertex_buffer,
                            index_buffer,
                            program,
                            vertex_array_object,
                            renderbuffer,
                            framebuffer,
                            texture_2d,
                        };
                        self.texture_id = texture_id;
                        self.framebuffer_id = framebuffer_id;
                        self.stage = DrawStage::AwaitDepthBuffer;
                        Ok(GlStep::Run(make_depth_buffer_commands(framebuffer_id)))
                    },
                    _ => Err(GlReplyError),
                }
            },
            DrawStage::AwaitDepthBuffer => {
                if replies.len() != 1 {
                    return Err(GlReplyError);
                }
                match replies[0].first_name() {
                    Some(depthbuffer_id) => {
                        self.depthbuffer_id = depthbuffer_id;
                        self.stage = DrawStage::AwaitLocations;
                        let mut commands = make_target_commands(
                            self.program_id,
                            self.texture_size,
                            self.texture_id,
                            depthbuffer_id,
                        );
                        push_lookup_commands(&mut commands, self.program_id, self.names.len());
                        Ok(GlStep::Run(commands))
                    },
                    None => Err(GlReplyError),
                }
            },
            DrawStage::AwaitLocations => {
                if replies.len() != self.names.len() {
                    return Err(GlReplyError);
                }
                let locations = match collect_integers(&replies) {
                    Some(locations) => locations,
                    None => {
                        return Err(GlReplyError);
                    },
                };
                let mut commands = make_clear_commands(self.clear_color);
                push_layers_commands(&mut commands, &self.layers, &self.names, &locations);
                let restore = make_restore_commands(&self.saved);
                append_commands(&mut commands, restore);
                commands.push(GlCommand::DeleteFramebuffers { framebuffer: self.framebuffer_id });
                commands.push(
                    GlCommand::DeleteRenderbuffers { renderbuffer: self.depthbuffer_id },
                );
                assert(commands@ =~= old(self)@.render_commands(locations@));
                let texture = Texture {
                    texture_id: self.texture_id,
                    format: RawImageFormat::RGBA8,
                    flags: TextureFlags { is_opaque: true, is_video_texture: false },
                    size: self.texture_size,
                };
                self.stage = DrawStage::Done;
                Ok(GlStep::Finish(commands, texture))
            },
            DrawStage::Done => Err(GlReplyError),
        }
    }
}


/// Whether the command neither deletes an object nor switches a capability,
/// as befits a command that draws.
pub open spec fn draws_only(command: GlCommand) -> bool {
    !command.spec_is_delete() && switches_nothing(command)
}

/// Setting a uniform neither deletes nor switches anything.
proof fn lemma_set_draws_only(value: UniformType, location: GLint)
    ensures
        draws_only(value.spec_set(location)),
{
}

/// Updating uniforms neither deletes nor switches anything.
proof fn lemma_uniform_updates_draw_only(
    uniforms: Seq<Uniform>,
    n: int,
    current: Seq<Option<UniformType>>,
    names: Seq<Seq<char>>,
    locations: Seq<GLint>,
)
    ensures
        forall|i: int|
            0 <= i < uniform_updates(uniforms, n, current, names, locations).0.len()
                ==> draws_only(
                #[trigger] uniform_updates(uniforms, n, current, names, locations).0[i],
            ),
    decreases n,
{
    if n > 0 {
        lemma_uniform_updates_draw_only(uniforms, n - 1, current, names, locations);
        lemma_set_draws_only(
            uniforms[n - 1].uniform_type,
            locations[name_position(names, uniforms[n - 1].name@)],
        );
        let before = uniform_updates(uniforms, n - 1, current, names, locations).0;
        let after = uniform_updates(uniforms, n, current, names, locations).0;
        assert forall|i: int| 0 <= i < after.len() implies draws_only(#[trigger] after[i]) by {
            if i < before.len() {
                assert(after[i] == before[i]);
            }
        }
    }
}

/// Drawing layers neither deletes nor switches anything.
proof fn lemma_layers_draw_only(
    layers: Seq<DrawLayer>,
    n: int,
    names: Seq<Seq<char>>,
    locations: Seq<GLint>,
)
    ensures
        forall|i: int|
            0 <= i < layers_commands(layers, n, names, locations).0.len() ==> draws_only(
                #[trigger] layers_commands(layers, n, names, locations).0[i],
            ),
    decreases n,
{
    if n > 0 {
        lemma_layers_draw_only(layers, n - 1, names, locations);
        let (before, held) = layers_commands(layers, n - 1, names, locations);
        let after = layers_commands(layers, n, names, locations).0;
        let updates = uniform_updates(
            layers[n - 1].uniforms@,
            layers[n - 1].uniforms@.len() as int,
            held,
            names,
            locations,
        ).0;
        lemma_uniform_updates_draw_only(
            layers[n - 1].uniforms@,
            layers[n - 1].uniforms@.len() as int,
            held,
            names,
            locations,
        );
        assert forall|i: int| 0 <= i < after.len() implies draws_only(#[trigger] after[i]) by {
            if i < before.len() {
                assert(after[i] == before[i]);
            } else if 2 <= i - before.len() < 2 + updates.len() {
                assert(after[i] == updates[i - before.len() - 2]);
            }
        }
    }
}

/// Before its last batch a pass deletes nothing.
pub proof fn lemma_pass_deletes_nothing_on_the_way(pass: DrawPassView, replies: Seq<GlReply>)
    requires
        pass.step(replies) is Some,
        pass.step(replies)->0.outcome is None,
    ensures
        forall|i: int|
            0 <= i < pass.step(replies)->0.commands.len() ==> !(#[trigger] pass.step(
                replies,
            )->0.commands[i]).spec_is_delete(),
{
}

/// The last batch of a pass ends by putting the saved state back and then
/// deleting the framebuffer and the depth buffer that the pass created.
/// These two are all it deletes: the texture that the pass created is its
/// outcome.
pub proof fn lemma_pass_ends_clean(pass: DrawPassView, replies: Seq<GlReply>)
    requires
        pass.step(replies) is Some,
        pass.step(replies)->0.outcome is Some,
    ensures
        ({
            let moved = pass.step(replies)->0;
            let restore = restore_commands(pass.saved);
            let cleanup = cleanup_commands(pass.framebuffer_id, pass.depthbuffer_id);
            let body = moved.commands.len() - restore.len() - cleanup.len();
            &&& moved.outcome->0.texture_id == pass.texture_id
            &&& body >= 0
            &&& moved.commands.subrange(body, body + restore.len()) == restore
            &&& moved.commands.subrange(body + restore.len(), moved.commands.len() as int)
                == cleanup
            &&& forall|i: int|
                0 <= i < body + restore.len() ==> !(#[trigger] moved.commands[i]).spec_is_delete()
        }),
{
    let moved = pass.step(replies)->0;
    let locations = reply_integers(replies)->0;
    let names = uniform_names(pass.layers);
    let clear = clear_commands(pass.clear_color);
    let layers = layers_commands(pass.layers, pass.layers.len() as int, names, locations).0;
    let restore = restore_commands(pass.saved);
    let cleanup = cleanup_commands(pass.framebuffer_id, pass.depthbuffer_id);
    let body = (clear.len() + layers.len()) as int;
    lemma_layers_draw_only(pass.layers, pass.layers.len() as int, names, locations);
    assert(moved.commands == clear + layers + restore + cleanup);
    assert(moved.commands.subrange(body, body + restore.len()) =~= restore);
    assert(moved.commands.subrange(body + restore.len(), moved.commands.len() as int)
        =~= cleanup);
    assert forall|i: int| 0 <= i < body + restore.len() implies !(
    #[trigger] moved.commands[i]).spec_is_delete() by {
        if i < clear.len() {
            assert(moved.commands[i] == clear[i]);
        } else if i < body {
            assert(moved.commands[i] == layers[i - clear.len()]);
        } else {
            assert(moved.commands[i] == restore[i - body]);
        }
    }
}


/// A pass takes exactly the replies that answer the batch it issued last.
pub proof fn lemma_pass_takes_the_answers(
    pass: DrawPassView,
    first: Seq<GlReply>,
    second: Seq<GlReply>,
)
    requires
        pass.step(first) is Some,
        pass.step(first)->0.outcome is None,
    ensures
        pass.step(first)->0.next.step(second) is Some <==> answer(
            pass.step(first)->0.commands,
            second,
        ),
{
    let moved = pass.step(first)->0;
    match pass.stage {
        DrawStage::AwaitDepthBuffer => {
            let target = target_commands(
                moved.next.program_id,
                moved.next.texture_size,
                moved.next.texture_id,
                moved.next.depthbuffer_id,
            );
            let count = uniform_names(moved.next.layers).len() as int;
            let lookups = lookup_commands(moved.next.program_id, count);
            assert(moved.commands == target + lookups);
            assert forall|k: int| 0 <= k < target.len() implies !(
            #[trigger] moved.commands[k]).spec_is_query() by {
                assert(moved.commands[k] == target[k]);
            }
            assert forall|k: int| target.len() <= k < moved.commands.len() implies (
            #[trigger] moved.commands[k]) is GetUniformLocation by {
                assert(moved.commands[k] == lookups[k - target.len()]);
            }
            lemma_answers_skip(moved.commands, 0, target.len() as int, second, 0);
            lemma_answers_lookups(moved.commands, target.len() as int, second, 0);
            if moved.next.step(second) is Some {
                assert forall|t: int| 0 <= t < second.len() implies (#[trigger] second[t])
                    is Integer by {
                    assert(second[t].spec_integer() is Some);
                }
            }
            if answer(moved.commands, second) {
                assert forall|t: int| 0 <= t < second.len() implies (
                #[trigger] second[t]).spec_integer() is Some by {
                    assert(second[t] is Integer);
                }
            }
        },
        _ => {
            reveal_with_fuel(answers_from, 12);
        },
    }
}


/// Whether `saved` says what is bound in `bindings`: multisampling counts as
/// on for the driver's `TRUE`, and each number, taken as an object name, is
/// the object bound.
pub open spec fn reports(saved: SavedGlState, bindings: GlBindings) -> bool {
    &&& (saved.multisample == glenum::TRUE) == bindings.multisample
    &&& saved.vertex_buffer as u32 == bindings.array_buffer
    &&& saved.index_buffer as u32 == bindings.element_array_buffer
    &&& saved.program as u32 == bindings.program
    &&& saved.vertex_array_object as u32 == bindings.vertex_array
    &&& saved.renderbuffer as u32 == bindings.renderbuffer
    &&& saved.framebuffer as u32 == bindings.framebuffer
    &&& saved.texture_2d as u32 == bindings.texture_2d
}

/// Whatever was bound before, the commands that end a pass leave bound what
/// `saved` says. They switch multisampling on if `saved` says that it was
/// on, and else leave it as it is.
pub proof fn lemma_restore_binds_the_saved(
    any: GlBindings,
    saved: SavedGlState,
    framebuffer_id: GLuint,
    depthbuffer_id: GLuint,
)
    ensures
        ({
            let end = any.after_all(
                restore_commands(saved) + cleanup_commands(framebuffer_id, depthbuffer_id),
            );
            &&& end.multisample == (saved.multisample == glenum::TRUE || any.multisample)
            &&& end.array_buffer == saved.vertex_buffer as u32
            &&& end.element_array_buffer == saved.index_buffer as u32
            &&& end.program == saved.program as u32
            &&& end.vertex_array == saved.vertex_array_object as u32
            &&& end.renderbuffer == saved.renderbuffer as u32
            &&& end.framebuffer == saved.framebuffer as u32
            &&& end.texture_2d == saved.texture_2d as u32
        }),
{
    let on = if saved.multisample == glenum::TRUE {
        seq![GlCommand::Enable { cap: glenum::MULTISAMPLE }]
    } else {
        Seq::empty()
    };
    let rest = seq![
        GlCommand::BindVertexArray { vao: saved.vertex_array_object as u32 },
        GlCommand::BindFramebuffer {
            target: glenum::FRAMEBUFFER,
            framebuffer: saved.framebuffer as u32,
        },
        GlCommand::BindTexture { target: glenum::TEXTURE_2D, texture: saved.texture_2d as u32 },
        GlCommand::BindRenderbuffer {
            target: glenum::RENDERBUFFER,
            renderbuffer: saved.renderbuffer as u32,
        },
        GlCommand::BindBuffer {
            target: glenum::ELEMENT_ARRAY_BUFFER,
            buffer: saved.index_buffer as u32,
        },
        GlCommand::BindBuffer { target: glenum::ARRAY_BUFFER, buffer: saved.vertex_buffer as u32 },
        GlCommand::UseProgram { program: saved.program as u32 },
        GlCommand::DeleteFramebuffers { framebuffer: framebuffer_id },
        GlCommand::DeleteRenderbuffers { renderbuffer: depthbuffer_id },
    ];
    assert(restore_commands(saved) + cleanup_commands(framebuffer_id, depthbuffer_id) =~= on
        + rest);
    lemma_after_both(any, on, rest);
    reveal_with_fuel(GlBindings::after_first, 10);
}

/// A pass leaves bound what it found bound. Where the driver's answers to the
/// opening queries say what is bound, then after the four batches of the pass
/// the same vertex array, buffers, program, framebuffer, renderbuffer and
/// texture are bound again, and multisampling is on exactly if it was.
pub proof fn lemma_pass_puts_the_state_back(
    pass: DrawPassView,
    state: Seq<GlReply>,
    depth: Seq<GlReply>,
    locations: Seq<GlReply>,
    before: GlBindings,
)
    requires
        pass.stage == DrawStage::Start,
        pass.step(Seq::empty())->0.next.step(state) is Some,
        pass.step(Seq::empty())->0.next.step(state)->0.next.step(depth) is Some,
        pass.step(Seq::empty())->0.next.step(state)->0.next.step(depth)->0.next.step(locations)
            is Some,
        reports(pass.step(Seq::empty())->0.next.step(state)->0.next.saved, before),
    ensures
        ({
            let opened = pass.step(Seq::empty())->0;
            let created = opened.next.step(state)->0;
            let set_up = created.next.step(depth)->0;
            let drawn = set_up.next.step(locations)->0;
            before.after_all(
                opened.commands + created.commands + set_up.commands + drawn.commands,
            ) == before
        }),
{
    let opened = pass.step(Seq::empty())->0;
    let created = opened.next.step(state)->0;
    let set_up = created.next.step(depth)->0;
    let drawn = set_up.next.step(locations)->0;
    let view = set_up.next;
    let saved = view.saved;
    assert(forall|i: int|
        0 <= i < opened.commands.len() ==> binds_nothing(#[trigger] opened.commands[i]));
    lemma_binds_nothing(before, opened.commands, opened.commands.len() as int);
    let after_opening = before.after_all(opened.commands);
    let after_created = after_opening.after_all(created.commands);
    let target = target_commands(
        view.program_id,
        view.texture_size,
        view.texture_id,
        view.depthbuffer_id,
    );
    let lookups = lookup_commands(view.program_id, uniform_names(view.layers).len() as int);
    assert(set_up.commands == target + lookups);
    lemma_after_both(after_created, target, lookups);
    let after_target = after_created.after_all(target);
    assert(!after_target.multisample) by {
        reveal_with_fuel(GlBindings::after_first, 15);
    }
    assert(forall|i: int| 0 <= i < lookups.len() ==> binds_nothing(#[trigger] lookups[i]));
    lemma_binds_nothing(after_target, lookups, lookups.len() as int);
    let after_set_up = after_created.after_all(set_up.commands);
    let names = uniform_names(view.layers);
    let clear = clear_commands(view.clear_color);
    let layers = layers_commands(
        view.layers,
        view.layers.len() as int,
        names,
        reply_integers(locations)->0,
    ).0;
    let ending = restore_commands(saved) + cleanup_commands(
        view.framebuffer_id,
        view.depthbuffer_id,
    );
    lemma_layers_draw_only(view.layers, view.layers.len() as int, names, reply_integers(
        locations,
    )->0);
    assert forall|i: int| 0 <= i < (clear + layers).len() implies switches_nothing(
        #[trigger] (clear + layers)[i],
    ) by {
        if i < clear.len() {
            assert((clear + layers)[i] == clear[i]);
        } else {
            assert((clear + layers)[i] == layers[i - clear.len()]);
            assert(draws_only(layers[i - clear.len()]));
        }
    }
    lemma_switches_nothing(after_set_up, clear + layers, (clear + layers).len() as int);
    assert(drawn.commands =~= (clear + layers) + ending);
    lemma_after_both(after_set_up, clear + layers, ending);
    lemma_restore_binds_the_saved(
        after_set_up.after_all(clear + layers),
        saved,
        view.framebuffer_id,
        view.depthbuffer_id,
    );
    lemma_after_both(before, opened.commands, created.commands);
    lemma_after_both(before, opened.commands + created.commands, set_up.commands);
    lemma_after_both(
        before,
        opened.commands + created.commands + set_up.commands,
        drawn.commands,
    );
}

} // verus!
