//! What a run of commands leaves bound.
//!
//! The driver keeps, for each binding point, the object that was bound there
//! last, and for each capability whether it was switched on or off last. This
//! module follows a run of commands through the binding points and the one
//! capability that the plans of this crate touch, so that a plan can be shown
//! to leave them as it found them.

use vstd::prelude::*;
use crate::command::GlCommand;
use crate::ctypes::GLuint;
use crate::glenum;

verus! {

/// What was bound last at each binding point that a plan touches, and
/// whether multisampling was switched on last.
pub struct GlBindings {
    pub multisample: bool,
    pub array_buffer: GLuint,
    pub element_array_buffer: GLuint,
    pub program: GLuint,
    pub vertex_array: GLuint,
    pub renderbuffer: GLuint,
    pub framebuffer: GLuint,
    pub texture_2d: GLuint,
}

/// Whether the command leaves every binding point and multisampling alone.
pub open spec fn binds_nothing(command: GlCommand) -> bool {
    match command {
        GlCommand::BindBuffer { .. } => false,
        GlCommand::BindVertexArray { .. } => false,
        GlCommand::BindRenderbuffer { .. } => false,
        GlCommand::BindFramebuffer { .. } => false,
        GlCommand::BindTexture { .. } => false,
        GlCommand::UseProgram { .. } => false,
        GlCommand::Enable { .. } => false,
        GlCommand::Disable { .. } => false,
        _ => true,
    }
}

/// Whether the command switches no capability.
pub open spec fn switches_nothing(command: GlCommand) -> bool {
    match command {
        GlCommand::Enable { .. } => false,
        GlCommand::Disable { .. } => false,
        _ => true,
    }
}

impl GlBindings {
    /// What is bound after one more command.
    pub open spec fn after(self, command: GlCommand) -> GlBindings {
        match command {
            GlCommand::BindBuffer { target, buffer } => if target == glenum::ARRAY_BUFFER {
                GlBindings { array_buffer: buffer, ..self }
            } else if target == glenum::ELEMENT_ARRAY_BUFFER {
                GlBindings { element_array_buffer: buffer, ..self }
            } else {
                self
            },
            GlCommand::BindVertexArray { vao } => GlBindings { vertex_array: vao, ..self },
            GlCommand::BindRenderbuffer { target, renderbuffer } => if target
                == glenum::RENDERBUFFER {
                GlBindings { renderbuffer, ..self }
            } else {
                self
            },
            GlCommand::BindFramebuffer { target, framebuffer } => if target
                == glenum::FRAMEBUFFER {
                GlBindings { framebuffer, ..self }
            } else {
                self
            },
            GlCommand::BindTexture { target, texture } => if target == glenum::TEXTURE_2D {
                GlBindings { texture_2d: texture, ..self }
            } else {
                self
            },
            GlCommand::UseProgram { program } => GlBindings { program, ..self },
            GlCommand::Enable { cap } => if cap == glenum::MULTISAMPLE {
                GlBindings { multisample: true, ..self }
            } else {
                self
            },
            GlCommand::Disable { cap } => if cap == glenum::MULTISAMPLE {
                GlBindings { multisample: false, ..self }
            } else {
                self
            },
            _ => self,
        }
    }

    /// What is bound after the first `n` of `commands`.
    pub open spec fn after_first(self, commands: Seq<GlCommand>, n: int) -> GlBindings
        decreases n,
    {
        if n <= 0 {
            self
        } else {
            self.after_first(commands, n - 1).after(commands[n - 1])
        }
    }

    /// What is bound after all of `commands`.
    pub open spec fn after_all(self, commands: Seq<GlCommand>) -> GlBindings {
        self.after_first(commands, commands.len() as int)
    }
}

/// What is bound after two batches is what the second leaves of what the
/// first left.
pub proof fn lemma_after_both(start: GlBindings, first: Seq<GlCommand>, second: Seq<GlCommand>)
    ensures
        start.after_all(first + second) == start.after_all(first).after_all(second),
{
    lemma_after_both_first(start, first, second, second.len() as int);
}

proof fn lemma_after_both_first(
    start: GlBindings,
    first: Seq<GlCommand>,
    second: Seq<GlCommand>,
    n: int,
)
    requires
        0 <= n <= second.len(),
    ensures
        start.after_first(first + second, first.len() + n) == start.after_all(first).after_first(
            second,
            n,
        ),
    decreases n,
{
    if n > 0 {
        lemma_after_both_first(start, first, second, n - 1);
        assert((first + second)[first.len() + n - 1] == second[n - 1]);
    } else {
        lemma_after_prefix(start, first, second, first.len() as int);
    }
}

proof fn lemma_after_prefix(
    start: GlBindings,
    first: Seq<GlCommand>,
    second: Seq<GlCommand>,
    n: int,
)
    requires
        0 <= n <= first.len(),
    ensures
        start.after_first(first + second, n) == start.after_first(first, n),
    decreases n,
{
    if n > 0 {
        lemma_after_prefix(start, first, second, n - 1);
        assert((first + second)[n - 1] == first[n - 1]);
    }
}

/// Commands that bind nothing leave everything as it was.
pub proof fn lemma_binds_nothing(start: GlBindings, commands: Seq<GlCommand>, n: int)
    requires
        0 <= n <= commands.len(),
        forall|i: int| 0 <= i < commands.len() ==> binds_nothing(#[trigger] commands[i]),
    ensures
        start.after_first(commands, n) == start,
    decreases n,
{
    if n > 0 {
        lemma_binds_nothing(start, commands, n - 1);
        assert(binds_nothing(commands[n - 1]));
    }
}

/// Commands that switch nothing leave multisampling as it was.
pub proof fn lemma_switches_nothing(start: GlBindings, commands: Seq<GlCommand>, n: int)
    requires
        0 <= n <= commands.len(),
        forall|i: int| 0 <= i < commands.len() ==> switches_nothing(#[trigger] commands[i]),
    ensures
        start.after_first(commands, n).multisample == start.multisample,
    decreases n,
{
    if n > 0 {
        lemma_switches_nothing(start, commands, n - 1);
        assert(switches_nothing(commands[n - 1]));
    }
}

} // verus!
