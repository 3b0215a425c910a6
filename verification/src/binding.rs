//! Describing a vertex layout to the driver, attribute by attribute.
//!
//! Each attribute goes to the location that its layout fixes, or else to the
//! location that the driver reports for its name. The lookups are the only
//! queries, so a batch runs up to the next attribute that needs one.

use vstd::prelude::*;
use crate::command::{
    answer, lemma_answers_one_query_at_the_end, lemma_no_queries_in_both, no_queries,
    single_integer, spec_single_integer, GlCommand, GlReply, GlReplyError, GlStep, Transition,
};
use crate::ctypes::{GLint, GLuint};
use crate::shader::GlShader;
use crate::vertex::{VertexAttribute, VertexLayout};

verus! {

/// Whether a layout is switched on or off.
#[derive(Debug, Copy, Clone, PartialEq, Eq, Structural, Hash)]
pub enum BindingMode {
    /// Point each attribute at its place in the vertex and enable it.
    Bind,
    /// Disable each attribute.
    Unbind,
}

/// How far a binding has come.
#[derive(Debug, Copy, Clone, PartialEq, Eq, Structural, Hash)]
pub enum BindingStage {
    /// Nothing was issued yet.
    Start,
    /// The lookup for the attribute at the cursor is out.
    AwaitLocation,
    /// Every attribute is dealt with.
    Done,
}

/// The offset in bytes of attribute `n` within a vertex: the sizes of the
/// attributes before it, added up.
pub open spec fn offset_at(fields: Seq<VertexAttribute>, n: int) -> int
    decreases n,
{
    if n <= 0 {
        0
    } else {
        offset_at(fields, n - 1) + fields[n - 1].spec_stride()
    }
}

/// The first attribute at or after `from` whose location must be looked up,
/// or the number of attributes if there is none.
pub open spec fn scan_end(fields: Seq<VertexAttribute>, from: int) -> int
    decreases fields.len() - from,
{
    if from >= fields.len() {
        fields.len() as int
    } else if fields[from].layout_location is None {
        from
    } else {
        scan_end(fields, from + 1)
    }
}

/// The commands for one attribute at a known location. `stride` is the size
/// of a whole vertex and `offset` the attribute's place in it. Components are
/// never normalized.
pub open spec fn attribute_commands(
    mode: BindingMode,
    field: VertexAttribute,
    location: GLint,
    stride: usize,
    offset: usize,
) -> Seq<GlCommand> {
    match mode {
        BindingMode::Bind => seq![
            GlCommand::VertexAttribPointer {
                index: location as u32,
                size: field.item_count as i32,
                type_: field.attribute_type.spec_gl_id(),
                normalized: false,
                stride: stride as i32,
                offset: offset as u32,
            },
            GlCommand::EnableVertexAttribArray { index: location as u32 },
        ],
        BindingMode::Unbind => seq![
            GlCommand::DisableVertexAttribArray { index: location as u32 },
        ],
    }
}

/// The place of attribute `n` in a vertex as the machine word that a `Bind`
/// carries; an `Unbind` carries no offsets.
pub open spec fn word_offset(mode: BindingMode, fields: Seq<VertexAttribute>, n: int) -> usize {
    match mode {
        BindingMode::Bind => offset_at(fields, n) as usize,
        BindingMode::Unbind => 0,
    }
}

/// The size of a vertex as the machine word that a `Bind` carries; an
/// `Unbind` carries no sizes.
pub open spec fn word_stride(mode: BindingMode, fields: Seq<VertexAttribute>) -> usize {
    word_offset(mode, fields, fields.len() as int)
}

/// The commands for the attributes from `from` up to `to`, each of which
/// fixes its location.
pub open spec fn fixed_commands(
    mode: BindingMode,
    fields: Seq<VertexAttribute>,
    from: int,
    to: int,
) -> Seq<GlCommand>
    decreases to - from,
{
    if to <= from {
        Seq::empty()
    } else {
        fixed_commands(mode, fields, from, to - 1) + attribute_commands(
            mode,
            fields[to - 1],
            fields[to - 1].layout_location->0 as i32,
            word_stride(mode, fields),
            word_offset(mode, fields, to - 1),
        )
    }
}

/// The state of a binding as a mathematical value.
pub struct LayoutBindingView {
    pub mode: BindingMode,
    pub program_id: GLuint,
    pub fields: Seq<VertexAttribute>,
    pub stage: BindingStage,
    /// The number of attributes dealt with.
    pub cursor: int,
}

impl LayoutBindingView {
    /// What every reachable state meets: the cursor is within the layout, a
    /// lookup is out only for an attribute that needs one, and a `Bind` has a
    /// vertex size that fits the machine's word.
    pub open spec fn wf(self) -> bool {
        &&& 0 <= self.cursor <= self.fields.len()
        &&& self.stage == BindingStage::Start ==> self.cursor == 0
        &&& self.stage == BindingStage::AwaitLocation ==> self.cursor < self.fields.len()
            && self.fields[self.cursor].layout_location is None
        &&& self.stage == BindingStage::Done ==> self.cursor == self.fields.len()
        &&& self.mode == BindingMode::Bind ==> offset_at(self.fields, self.fields.len() as int)
            <= usize::MAX
    }

    /// Deals with the attributes from `from` on, after `done` was issued in
    /// the same batch: up to the next lookup, or to the end.
    pub open spec fn proceed(self, from: int, done: Seq<GlCommand>) -> Option<
        Transition<LayoutBindingView, ()>,
    > {
        let to = scan_end(self.fields, from);
        let commands = done + fixed_commands(self.mode, self.fields, from, to);
        if to < self.fields.len() {
            Transition::run(
                LayoutBindingView { stage: BindingStage::AwaitLocation, cursor: to, ..self },
                commands.push(
                    GlCommand::GetAttribLocation {
                        program: self.program_id,
                        attribute: to as usize,
                    },
                ),
            )
        } else {
            Transition::finish(
                LayoutBindingView { stage: BindingStage::Done, cursor: to, ..self },
                commands,
                (),
            )
        }
    }

    /// The move that `replies` cause, or `None` where they do not answer the
    /// batch issued last.
    pub open spec fn step(self, replies: Seq<GlReply>) -> Option<
        Transition<LayoutBindingView, ()>,
    > {
        match self.stage {
            BindingStage::Start => if replies.len() == 0 {
                self.proceed(0, Seq::empty())
            } else {
                None
            },
            BindingStage::AwaitLocation => match spec_single_integer(replies) {
                Some(location) => self.proceed(
                    self.cursor + 1,
                    attribute_commands(
                        self.mode,
                        self.fields[self.cursor],
                        location,
                        word_stride(self.mode, self.fields),
                        word_offset(self.mode, self.fields, self.cursor),
                    ),
                ),
                None => None,
            },
            BindingStage::Done => None,
        }
    }
}

/// Offsets grow with the attribute index, and no attribute is larger than
/// what is left of the vertex.
pub proof fn lemma_offset_at_monotone(fields: Seq<VertexAttribute>, i: int, j: int)
    requires
        0 <= i <= j <= fields.len(),
    ensures
        0 <= offset_at(fields, i) <= offset_at(fields, j),
        i < j ==> offset_at(fields, i) + fields[i].spec_stride() <= offset_at(fields, j),
    decreases j,
{
    if i < j {
        lemma_offset_at_monotone(fields, i, j - 1);
        assert(fields[j - 1].spec_stride() >= 0) by (nonlinear_arith)
            requires
                fields[j - 1].attribute_type.spec_mem_size() >= 0,
                fields[j - 1].item_count >= 0,
                fields[j - 1].spec_stride() == fields[j - 1].attribute_type.spec_mem_size()
                    * fields[j - 1].item_count,
        ;
    } else {
        lemma_offset_at_nonnegative(fields, i);
    }
}

proof fn lemma_offset_at_nonnegative(fields: Seq<VertexAttribute>, n: int)
    requires
        0 <= n <= fields.len(),
    ensures
        0 <= offset_at(fields, n),
    decreases n,
{
    if n > 0 {
        lemma_offset_at_nonnegative(fields, n - 1);
        assert(fields[n - 1].spec_stride() >= 0) by (nonlinear_arith)
            requires
                fields[n - 1].attribute_type.spec_mem_size() >= 0,
                fields[n - 1].item_count >= 0,
                fields[n - 1].spec_stride() == fields[n - 1].attribute_type.spec_mem_size()
                    * fields[n - 1].item_count,
        ;
    }
}

/// Where every attribute between `from` and `k` fixes its location, a scan
/// from `from` ends where a scan from `k` ends.
proof fn lemma_scan_end_skips(fields: Seq<VertexAttribute>, from: int, k: int)
    requires
        0 <= from <= k <= fields.len(),
        forall|i: int| from <= i < k ==> fields[i].layout_location is Some,
    ensures
        scan_end(fields, from) == scan_end(fields, k),
    decreases k - from,
{
    if from < k {
        lemma_scan_end_skips(fields, from + 1, k);
    }
}

impl VertexLayout {
    /// The size of one vertex in bytes, as a mathematical integer.
    pub open spec fn spec_total_stride(&self) -> int {
        offset_at(self.fields@, self.fields@.len() as int)
    }

    /// The size of one vertex in bytes, or `None` where it does not fit the
    /// machine's word.
    pub fn checked_total_stride(&self) -> (total: Option<usize>)
        ensures
            total is Some <==> self.spec_total_stride() <= usize::MAX,
            total is Some ==> total->0 == self.spec_total_stride(),
    {
        let mut total: usize = 0;
        let mut i: usize = 0;
        while i < self.fields.len()
            invariant
                i <= self.fields@.len(),
                total == offset_at(self.fields@, i as int),
            decreases self.fields@.len() - i,
        {
            proof {
                lemma_offset_at_monotone(self.fields@, i as int + 1, self.fields@.len() as int);
                lemma_offset_at_monotone(self.fields@, i as int, i as int + 1);
            }
            let stride = match self.fields[i].checked_stride() {
                Some(stride) => stride,
                None => {
                    return None;
                },
            };
            total = match total.checked_add(stride) {
                Some(total) => total,
                None => {
                    return None;
                },
            };
            i += 1;
        }
        Some(total)
    }

    /// Starts describing the layout to the driver for the program `shader`.
    /// There is nothing to start where the size of a vertex does not fit the
    /// machine's word.
    pub fn bind<'a>(&'a self, shader: &GlShader) -> (binding: Option<LayoutBinding<'a>>)
        ensures
            binding is Some <==> self.spec_total_stride() <= usize::MAX,
            binding is Some ==> binding->0@ == (LayoutBindingView {
                mode: BindingMode::Bind,
                program_id: shader.program_id,
                fields: self.fields@,
                stage: BindingStage::Start,
                cursor: 0,
            }),
    {
        match self.checked_total_stride() {
            Some(stride) => Some(
                LayoutBinding {
                    fields: &self.fields,
                    state: BindingState {
                        mode: BindingMode::Bind,
                        program_id: shader.program_id,
                        stage: BindingStage::Start,
                        cursor: 0,
                        offset: 0,
                        stride,
                    },
                },
            ),
            None => None,
        }
    }

    /// Starts switching the layout off for the program `shader`.
    pub fn unbind<'a>(&'a self, shader: &GlShader) -> (binding: LayoutBinding<'a>)
        ensures
            binding@ == (LayoutBindingView {
                mode: BindingMode::Unbind,
                program_id: shader.program_id,
                fields: self.fields@,
                stage: BindingStage::Start,
                cursor: 0,
            }),
    {
        LayoutBinding {
            fields: &self.fields,
            state: BindingState {
                mode: BindingMode::Unbind,
                program_id: shader.program_id,
                stage: BindingStage::Start,
                cursor: 0,
                offset: 0,
                stride: 0,
            },
        }
    }
}

/// The part of a binding that changes as it goes.
#[derive(Debug, Copy, Clone)]
pub(crate) struct BindingState {
    pub mode: BindingMode,
    pub program_id: GLuint,
    pub stage: BindingStage,
    pub cursor: usize,
    pub offset: usize,
    pub stride: usize,
}

impl BindingState {
    pub(crate) open spec fn view_with(self, fields: Seq<VertexAttribute>) -> LayoutBindingView {
        LayoutBindingView {
            mode: self.mode,
            program_id: self.program_id,
            fields,
            stage: self.stage,
            cursor: self.cursor as int,
        }
    }

    /// The state agrees with the layout it runs over.
    pub(crate) open spec fn inv(self, fields: Seq<VertexAttribute>) -> bool {
        &&& self.view_with(fields).wf()
        &&& self.offset == word_offset(self.mode, fields, self.cursor as int)
        &&& self.stride == word_stride(self.mode, fields)
    }

    /// A binding of `fields` that has not issued anything.
    pub(crate) fn start(mode: BindingMode, program_id: GLuint, stride: usize) -> (state:
        BindingState)
        ensures
            state.mode == mode,
            state.program_id == program_id,
            state.stage == BindingStage::Start,
            state.cursor == 0,
            state.offset == 0,
            state.stride == stride,
    {
        BindingState {
            mode,
            program_id,
            stage: BindingStage::Start,
            cursor: 0,
            offset: 0,
            stride,
        }
    }

    /// Takes in `replies`, appends the commands of the move to `commands` and
    /// says whether the binding is complete; or refuses and changes nothing.
    pub(crate) fn advance(
        &mut self,
        fields: &Vec<VertexAttribute>,
        replies: &Vec<GlReply>,
        commands: &mut Vec<GlCommand>,
    ) -> (r: Result<bool, GlReplyError>)
        requires
            old(self).inv(fields@),
        ensures
            final(self).inv(fields@),
            match r {
                Ok(finished) => {
                    let step = old(self).view_with(fields@).step(replies@);
                    &&& step is Some
                    &&& final(self).view_with(fields@) == step->0.next
                    &&& final(commands)@ =~= old(commands)@ + step->0.commands
                    &&& finished == step->0.outcome is Some
                },
                Err(_) => {
                    &&& old(self).view_with(fields@).step(replies@) is None
                    &&& *final(self) == *old(self)
                    &&& final(commands)@ == old(commands)@
                },
            },
    {
        let ghost before = commands@;
        let ghost done: Seq<GlCommand>;
        let from: usize;
        match self.stage {
            BindingStage::Start => {
                if replies.len() != 0 {
                    return Err(GlReplyError);
                }
                from = 0;
                proof {
                    done = Seq::empty();
                }
            },
            BindingStage::AwaitLocation => {
                match single_integer(replies) {
                    Some(location) => {
                        proof {
                            lemma_offset_at_monotone(
                                fields@,
                                self.cursor as int,
                                fields@.len() as int,
                            );
                            done = attribute_commands(
                                self.mode,
                                fields@[self.cursor as int],
                                location,
                                self.stride,
                                self.offset,
                            );
                        }
                        push_attribute_commands(
                            commands,
                            self.mode,
                            &fields[self.cursor],
                            location,
                            self.stride,
                            self.offset,
                        );
                        if self.mode == BindingMode::Bind {
                            self.offset = self.offset + fields[self.cursor].get_stride();
                        }
                        assert(self.cursor < fields.len());
                        from = self.cursor + 1;
                    },
                    None => {
                        return Err(GlReplyError);
                    },
                }
            },
            BindingStage::Done => {
                return Err(GlReplyError);
            },
        }
        let mode = self.mode;
        let stride = self.stride;
        let mut offset = self.offset;
        let mut k: usize = from;
        assert(commands@ =~= before + done + fixed_commands(mode, fields@, from as int, k as int));
        while k < fields.len() && fields[k].layout_location.is_some()
            invariant
                from <= k <= fields@.len(),
                mode == BindingMode::Bind ==> offset_at(fields@, fields@.len() as int)
                    <= usize::MAX,
                stride == word_stride(mode, fields@),
                offset == word_offset(mode, fields@, k as int),
                forall|i: int| 0 <= from <= i < k ==> fields@[i].layout_location is Some,
                commands@ == before + done + fixed_commands(mode, fields@, from as int, k as int),
            decreases fields@.len() - k,
        {
            let field = &fields[k];
            let location: GLint = match field.layout_location {
                Some(fixed) => fixed_location(fixed),
                None => 0,
            };
            proof {
                lemma_offset_at_monotone(fields@, k as int, fields@.len() as int);
            }
            push_attribute_commands(commands, mode, field, location, stride, offset);
            if mode == BindingMode::Bind {
                offset = offset + field.get_stride();
            }
            k += 1;
            assert(commands@ =~= before + done + fixed_commands(
                mode,
                fields@,
                from as int,
                k as int,
            ));
        }
        proof {
            lemma_scan_end_skips(fields@, from as int, k as int);
        }
        self.offset = offset;
        self.cursor = k;
        if k < fields.len() {
            self.stage = BindingStage::AwaitLocation;
            commands.push(GlCommand::GetAttribLocation { program: self.program_id, attribute: k });
            Ok(false)
        } else {
            self.stage = BindingStage::Done;
            Ok(true)
        }
    }
}

/// A location that a layout fixes, as the signed integer that the driver
/// reports locations in.
fn fixed_location(location: usize) -> (r: GLint)
    ensures
        r == location as i32,
{
    #[verifier::truncate]
    (location as i32)
}

fn push_attribute_commands(
    commands: &mut Vec<GlCommand>,
    mode: BindingMode,
    field: &VertexAttribute,
    location: GLint,
    stride: usize,
    offset: usize,
)
    ensures
        final(commands)@ == old(commands)@ + attribute_commands(
            mode,
            *field,
            location,
            stride,
            offset,
        ),
{
    let index: GLuint = #[verifier::truncate]
    (location as u32);
    match mode {
        BindingMode::Bind => {
            let size: i32 = #[verifier::truncate]
            (field.item_count as i32);
            let stride: i32 = #[verifier::truncate]
            (stride as i32);
            let offset: u32 = #[verifier::truncate]
            (offset as u32);
            commands.push(
                GlCommand::VertexAttribPointer {
                    index,
                    size,
                    type_: field.attribute_type.get_gl_id(),
                    normalized: false,
                    stride,
                    offset,
                },
            );
            commands.push(GlCommand::EnableVertexAttribArray { index });
        },
        BindingMode::Unbind => {
            commands.push(GlCommand::DisableVertexAttribArray { index });
        },
    }
    assert(commands@ =~= old(commands)@ + attribute_commands(
        mode,
        *field,
        location,
        stride,
        offset,
    ));
}

/// A vertex layout on its way to the driver.
///
/// Hand [`LayoutBinding::advance`] no replies to start, run the commands it
/// returns, and hand it the replies of the queries among them, until it
/// returns `GlStep::Finish`.
#[derive(Debug)]
pub struct LayoutBinding<'a> {
    fields: &'a Vec<VertexAttribute>,
    state: BindingState,
}

impl<'a> View for LayoutBinding<'a> {
    type V = LayoutBindingView;

    closed spec fn view(&self) -> LayoutBindingView {
        self.state.view_with(self.fields@)
    }
}

impl<'a> LayoutBinding<'a> {
    #[verifier::type_invariant]
    spec fn state_fits_layout(&self) -> bool {
        self.state.inv(self.fields@)
    }

    /// How far the binding has come.
    pub fn stage(&self) -> (stage: BindingStage)
        ensures
            stage == self@.stage,
    {
        self.state.stage
    }

    /// The attributes of the layout; a `GetAttribLocation` command of this
    /// binding refers to one of them by index.
    pub fn fields(&self) -> (fields: &'a Vec<VertexAttribute>)
        ensures
            fields@ == self@.fields,
    {
        self.fields
    }

    /// Takes in the replies to the batch issued last and says what to do
    /// next. Replies that do not fit are refused and change nothing.
    pub fn advance(&mut self, replies: Vec<GlReply>) -> (r: Result<GlStep<()>, GlReplyError>)
        ensures
            old(self)@.wf(),
            final(self)@.wf(),
            match r {
                Ok(step) => {
                    &&& old(self)@.step(replies@) is Some
                    &&& final(self)@ == old(self)@.step(replies@)->0.next
                    &&& step.spec_commands() =~= old(self)@.step(replies@)->0.commands
                    &&& step.spec_outcome() == old(self)@.step(replies@)->0.outcome
                },
                Err(_) => old(self)@.step(replies@) is None && final(self)@ == old(self)@,
            },
    {
        proof {
            use_type_invariant(&*self);
        }
        let mut commands: Vec<GlCommand> = Vec::new();
        let mut state = self.state;
        match state.advance(self.fields, &replies, &mut commands) {
            Ok(finished) => {
                self.state = state;
                if finished {
                    Ok(GlStep::Finish(commands, ()))
                } else {
                    Ok(GlStep::Run(commands))
                }
            },
            Err(e) => Err(e),
        }
    }
}


/// The commands for attributes with fixed locations hold no query.
pub proof fn lemma_fixed_commands_hold_no_query(
    mode: BindingMode,
    fields: Seq<VertexAttribute>,
    from: int,
    to: int,
)
    ensures
        no_queries(fixed_commands(mode, fields, from, to)),
    decreases to - from,
{
    if to > from {
        lemma_fixed_commands_hold_no_query(mode, fields, from, to - 1);
        lemma_no_queries_in_both(
            fixed_commands(mode, fields, from, to - 1),
            attribute_commands(
                mode,
                fields[to - 1],
                fields[to - 1].layout_location->0 as i32,
                word_stride(mode, fields),
                word_offset(mode, fields, to - 1),
            ),
        );
    }
}

/// A binding takes exactly the replies that answer the batch it issued last.
pub proof fn lemma_binding_takes_the_answers(
    binding: LayoutBindingView,
    first: Seq<GlReply>,
    second: Seq<GlReply>,
)
    requires
        binding.wf(),
        binding.step(first) is Some,
        binding.step(first)->0.outcome is None,
    ensures
        binding.step(first)->0.next.step(second) is Some <==> answer(
            binding.step(first)->0.commands,
            second,
        ),
{
    let moved = binding.step(first)->0;
    let from = if binding.stage == BindingStage::Start {
        0
    } else {
        binding.cursor + 1
    };
    let done = if binding.stage == BindingStage::Start {
        Seq::empty()
    } else {
        attribute_commands(
            binding.mode,
            binding.fields[binding.cursor],
            spec_single_integer(first)->0,
            word_stride(binding.mode, binding.fields),
            word_offset(binding.mode, binding.fields, binding.cursor),
        )
    };
    let to = scan_end(binding.fields, from);
    let fixed = fixed_commands(binding.mode, binding.fields, from, to);
    let lookup = GlCommand::GetAttribLocation {
        program: binding.program_id,
        attribute: to as usize,
    };
    lemma_fixed_commands_hold_no_query(binding.mode, binding.fields, from, to);
    lemma_no_queries_in_both(done, fixed);
    assert(moved.commands == (done + fixed).push(lookup));
    lemma_answers_one_query_at_the_end(done + fixed, lookup, second);
}

} // verus!
