//! Separable program pipelines: one independently linked program per
//! attached stage, and the resolution of named resources within them.
use vstd::prelude::*;
use crate::glenum;
use crate::math::Mat4;
use crate::shader::{Shader, ShaderType, STAGE_COUNT};
use crate::texture::{Sampler, Texture};

verus! {

/// What the driver reported of linking one stage: the program object it
/// created, the link status it returned, and, where linking failed, the
/// diagnostic log it kept.
#[derive(Clone, Debug, PartialEq, Eq)]
pub struct LinkOutcome {
    pub program: u32,
    pub link_status: i32,
    pub info_log: String,
}

/// A stage that failed to link, with the driver's raw diagnostic text.
#[derive(Clone, Debug, PartialEq, Eq)]
pub struct LinkError {
    pub stage: ShaderType,
    pub log: String,
}

/// Why a named resource could not be resolved.
#[derive(Clone, Debug, PartialEq, Eq)]
pub enum ResourceError {
    /// No linked program exists for the stage.
    StageMissing { stage: ShaderType },
    /// The name is not an active resource of the stage's program.
    Inactive { name: String, stage: ShaderType, program: u32 },
}

/// A step of linking one stage into its own program, after the program
/// object has been created.
#[derive(Clone, Copy, Debug, PartialEq, Eq, Structural)]
pub enum LinkCommand {
    /// Set an integer parameter of a program.
    ProgramParameter { program: u32, name: u32, value: i32 },
    /// Attach a compiled unit to a program.
    AttachShader { program: u32, shader: u32 },
    /// Link a program.
    LinkProgram { program: u32 },
}

/// An upload of a uniform value into a linked program.
#[derive(Clone, Copy, Debug, PartialEq, Eq)]
pub enum UniformCommand {
    Matrix4f { program: u32, location: i32, count: i32, transpose: bool, matrix: Mat4 },
    Integer { program: u32, location: i32, value: i32 },
}

/// The binding of a texture and of a sampler to one texture unit.
#[derive(Clone, Copy, Debug, PartialEq, Eq, Structural)]
pub struct TextureBinding {
    pub unit: u32,
    pub texture: u32,
    pub sampler: u32,
}

/// Whether a link status reports success.
pub open spec fn spec_link_succeeded(link_status: i32) -> bool {
    link_status == glenum::TRUE
}

/// Number of occupied slots before `slot`.
pub open spec fn spec_occupied_before(shaders: Seq<Option<Shader>>, slot: int) -> int
    decreases slot,
{
    if slot <= 0 {
        0
    } else {
        spec_occupied_before(shaders, slot - 1) + if shaders[slot - 1] is Some {
            1int
        } else {
            0int
        }
    }
}

/// Attaching `shader` fills the slot of its stage, replacing what was there.
pub open spec fn spec_add_shader(shaders: Seq<Option<Shader>>, shader: Shader) -> Seq<
    Option<Shader>,
> {
    shaders.update(shader.stage.spec_slot(), Some(shader))
}

/// The state of a build after the first `n` slots have been gone through, in
/// slot order: the linked programs, and the slot at which linking failed, if
/// it has. The outcomes in `links` belong to the occupied slots in slot
/// order; nothing is linked after a failure.
pub open spec fn spec_build(
    shaders: Seq<Option<Shader>>,
    programs: Seq<Option<u32>>,
    links: Seq<LinkOutcome>,
    n: int,
) -> (Seq<Option<u32>>, Option<int>)
    decreases n,
{
    if n <= 0 {
        (programs, None)
    } else {
        let before = spec_build(shaders, programs, links, n - 1);
        if before.1 is Some || shaders[n - 1] is None {
            before
        } else {
            let outcome = links[spec_occupied_before(shaders, n - 1)];
            if spec_link_succeeded(outcome.link_status) {
                (before.0.update(n - 1, Some(outcome.program)), None)
            } else {
                (before.0, Some(n - 1))
            }
        }
    }
}

/// Whether `links` holds an outcome for every stage that a build attempts:
/// each occupied slot that no failure precedes.
pub open spec fn spec_links_cover(
    shaders: Seq<Option<Shader>>,
    programs: Seq<Option<u32>>,
    links: Seq<LinkOutcome>,
) -> bool {
    forall|slot: int|
        0 <= slot < STAGE_COUNT && (#[trigger] shaders[slot]) is Some && spec_build(
            shaders,
            programs,
            links,
            slot,
        ).1 is None ==> spec_occupied_before(shaders, slot) < links.len()
}

/// A pipeline as contracts see it.
pub struct ProgramPipelineView {
    pub id: u32,
    pub shaders: Seq<Option<Shader>>,
    pub programs: Seq<Option<u32>>,
}

impl ProgramPipelineView {
    /// Each of the six slots holds at most the unit of its own stage kind,
    /// and a program only where a unit is attached.
    pub open spec fn wf(self) -> bool {
        &&& self.shaders.len() == STAGE_COUNT
        &&& self.programs.len() == STAGE_COUNT
        &&& forall|slot: int|
            0 <= slot < STAGE_COUNT && (#[trigger] self.shaders[slot]) is Some
                ==> self.shaders[slot]->Some_0.stage.spec_slot() == slot
        &&& forall|slot: int|
            0 <= slot < STAGE_COUNT && (#[trigger] self.programs[slot]) is Some
                ==> self.shaders[slot] is Some
    }
}

/// A pipeline object with six stage slots. It borrows the compiled units
/// attached to it and owns the programs linked from them.
#[derive(Debug)]
pub struct ProgramPipeline<'a> {
    id: u32,
    shaders: [Option<&'a Shader>; 6],
    shader_programs: [Option<u32>; 6],
}

/// The unit behind a borrowed slot entry.
pub open spec fn spec_deref(shader: Option<&Shader>) -> Option<Shader> {
    match shader {
        Some(s) => Some(*s),
        None => None,
    }
}

impl<'a> View for ProgramPipeline<'a> {
    type V = ProgramPipelineView;

    closed spec fn view(&self) -> ProgramPipelineView {
        ProgramPipelineView {
            id: self.id,
            shaders: Seq::new(6, |i: int| spec_deref(self.shaders@[i])),
            programs: self.shader_programs@,
        }
    }
}

/// The commands that link `shader` into the freshly created `program`, in
/// the order in which they must be issued: the program is marked separable
/// before anything else, since the mark has no effect once it is linked.
pub fn link_commands(program: u32, shader: &Shader) -> (commands: [LinkCommand; 3])
    ensures
        commands@ == seq![
            LinkCommand::ProgramParameter {
                program,
                name: glenum::PROGRAM_SEPARABLE,
                value: glenum::TRUE,
            },
            LinkCommand::AttachShader { program, shader: shader.id },
            LinkCommand::LinkProgram { program },
        ],
{
    let commands = [
        LinkCommand::ProgramParameter {
            program,
            name: glenum::PROGRAM_SEPARABLE,
            value: glenum::TRUE,
        },
        LinkCommand::AttachShader { program, shader: shader.get_id() },
        LinkCommand::LinkProgram { program },
    ];
    assert(commands@ =~= seq![
        LinkCommand::ProgramParameter {
            program,
            name: glenum::PROGRAM_SEPARABLE,
            value: glenum::TRUE,
        },
        LinkCommand::AttachShader { program, shader: shader.id },
        LinkCommand::LinkProgram { program },
    ]);
    commands
}

/// Whether the driver's link status reports success.
pub fn link_succeeded(link_status: i32) -> (ok: bool)
    ensures
        ok == spec_link_succeeded(link_status),
{
    link_status == glenum::TRUE
}

/// Length of the buffer that receives a diagnostic log of `message_size`
/// characters: one more, for the terminator. A negative size counts as none.
pub fn info_log_buffer_len(message_size: i32) -> (len: usize)
    ensures
        len == (if message_size > 0 {
            message_size as int
        } else {
            0
        }) + 1,
{
    if message_size > 0 {
        message_size as usize + 1
    } else {
        1
    }
}

impl<'a> ProgramPipeline<'a> {
    /// An empty pipeline on the pipeline object `id`: no slot holds a unit
    /// and none a program.
    pub fn new(id: u32) -> (pipeline: ProgramPipeline<'a>)
        ensures
            pipeline@.id == id,
            pipeline@.wf(),
            forall|slot: int|
                0 <= slot < STAGE_COUNT ==> (#[trigger] pipeline@.shaders[slot]) is None,
            forall|slot: int|
                0 <= slot < STAGE_COUNT ==> (#[trigger] pipeline@.programs[slot]) is None,
    {
        let shaders: [Option<&'a Shader>; 6] = [None, None, None, None, None, None];
        let shader_programs: [Option<u32>; 6] = [None, None, None, None, None, None];
        ProgramPipeline { id, shaders, shader_programs }
    }

    /// Attaches `shader` at the slot of its stage kind. A unit already there
    /// is replaced; the result tells whether one was.
    pub fn add_shader(&mut self, shader: &'a Shader) -> (replaced: bool)
        requires
            old(self)@.wf(),
        ensures
            final(self)@.wf(),
            final(self)@.id == old(self)@.id,
            final(self)@.programs == old(self)@.programs,
            final(self)@.shaders == spec_add_shader(old(self)@.shaders, *shader),
            replaced == old(self)@.shaders[shader.stage.spec_slot()] is Some,
    {
        let idx = Self::shader_type_to_array_index(shader.get_type());
        let replaced = self.shaders[idx].is_some();
        self.shaders[idx] = Some(shader);
        assert(self@.shaders =~= spec_add_shader(old(self)@.shaders, *shader));
        replaced
    }

    /// Slot of a stage kind in the per-stage arrays.
    pub fn shader_type_to_array_index(shader_type: ShaderType) -> (slot: usize)
        ensures
            slot == shader_type.spec_slot(),
            slot < STAGE_COUNT,
    {
        shader_type.to_array_index()
    }

    pub fn get_id(&self) -> (id: u32)
        ensures
            id == self@.id,
    {
        self.id
    }

    /// The unit attached for `stage`, if any.
    pub fn shader(&self, stage: ShaderType) -> (unit: Option<Shader>)
        requires
            self@.wf(),
        ensures
            unit == self@.shaders[stage.spec_slot()],
    {
        match self.shaders[stage.to_array_index()] {
            Some(s) => Some(*s),
            None => None,
        }
    }

    /// The program linked for `stage`, if any.
    pub fn program(&self, stage: ShaderType) -> (program: Option<u32>)
        requires
            self@.wf(),
        ensures
            program == self@.programs[stage.spec_slot()],
    {
        self.shader_programs[stage.to_array_index()]
    }

    /// The first occupied slot at or after `from`, with the unit in it: the
    /// next stage that a build links.
    pub fn next_stage(&self, from: usize) -> (next: Option<(usize, Shader)>)
        requires
            self@.wf(),
        ensures
            match next {
                Some((slot, unit)) => {
                    &&& from <= slot < STAGE_COUNT
                    &&& self@.shaders[slot as int] == Some(unit)
                    &&& forall|s: int| from <= s < slot ==> (#[trigger] self@.shaders[s]) is None
                },
                None => forall|s: int|
                    from <= s < STAGE_COUNT ==> (#[trigger] self@.shaders[s]) is None,
            },
    {
        let mut slot: usize = from;
        while slot < STAGE_COUNT
            invariant
                from <= slot,
                self@.wf(),
                forall|s: int| from <= s < slot ==> (#[trigger] self@.shaders[s]) is None,
            decreases STAGE_COUNT - slot,
        {
            match self.shaders[slot] {
                Some(unit) => {
                    return Some((slot, *unit));
                },
                None => {},
            }
            slot += 1;
        }
        None
    }

    /// Takes in the driver's outcome of linking the unit attached for
    /// `stage`. A successful link stores the program at the stage's slot; a
    /// failed one leaves the pipeline as it was and yields the error that
    /// names the stage and carries the driver's log.
    pub fn complete_link(&mut self, stage: ShaderType, outcome: &LinkOutcome) -> (r: Result<
        (),
        LinkError,
    >)
        requires
            old(self)@.wf(),
            old(self)@.shaders[stage.spec_slot()] is Some,
        ensures
            final(self)@.wf(),
            final(self)@.id == old(self)@.id,
            final(self)@.shaders == old(self)@.shaders,
            r is Ok <==> spec_link_succeeded(outcome.link_status),
            r is Ok ==> final(self)@.programs == old(self)@.programs.update(
                stage.spec_slot(),
                Some(outcome.program),
            ),
            r is Err ==> {
                &&& final(self)@.programs == old(self)@.programs
                &&& r->Err_0.stage == stage
                &&& r->Err_0.log@ == outcome.info_log@
            },
    {
        if link_succeeded(outcome.link_status) {
            let idx = Self::shader_type_to_array_index(stage);
            self.shader_programs[idx] = Some(outcome.program);
            assert(self@.shaders =~= old(self)@.shaders);
            Ok(())
        } else {
            Err(LinkError { stage, log: outcome.info_log.clone() })
        }
    }

    /// Links every attached stage, in slot order, from the outcomes that the
    /// driver gave for them in that order. The build stops at the first
    /// stage that failed to link, with the error that names it; the stages
    /// before it keep their programs and the ones after it are not linked.
    pub fn build(&mut self, links: &Vec<LinkOutcome>) -> (r: Result<(), LinkError>)
        requires
            old(self)@.wf(),
            spec_links_cover(old(self)@.shaders, old(self)@.programs, links@),
        ensures
            final(self)@.wf(),
            final(self)@.id == old(self)@.id,
            final(self)@.shaders == old(self)@.shaders,
            final(self)@.programs == spec_build(
                old(self)@.shaders,
                old(self)@.programs,
                links@,
                STAGE_COUNT as int,
            ).0,
            r is Err <==> spec_build(
                old(self)@.shaders,
                old(self)@.programs,
                links@,
                STAGE_COUNT as int,
            ).1 is Some,
            r is Err ==> {
                let slot = spec_build(
                    old(self)@.shaders,
                    old(self)@.programs,
                    links@,
                    STAGE_COUNT as int,
                ).1->Some_0;
                &&& r->Err_0.stage == ShaderType::spec_from_slot(slot)
                &&& r->Err_0.log@ == links@[spec_occupied_before(
                    old(self)@.shaders,
                    slot,
                )].info_log@
            },
    {
        let ghost shaders = self@.shaders;
        let ghost programs = self@.programs;
        let mut slot: usize = 0;
        let mut used: usize = 0;
        while slot < STAGE_COUNT
            invariant
                slot <= STAGE_COUNT,
                self@.wf(),
                self@.id == old(self)@.id,
                self@.shaders == shaders,
                shaders == old(self)@.shaders,
                programs == old(self)@.programs,
                spec_links_cover(shaders, programs, links@),
                used == spec_occupied_before(shaders, slot as int),
                used <= slot,
                spec_build(shaders, programs, links@, slot as int) == (self@.programs, None::<int>),
            decreases STAGE_COUNT - slot,
        {
            match self.shaders[slot] {
                Some(unit) => {
                    assert(shaders[slot as int] is Some);
                    let stage = ShaderType::from_array_index(slot);
                    match self.complete_link(stage, &links[used]) {
                        Ok(()) => {},
                        Err(e) => {
                            proof {
                                lemma_build_stops(
                                    shaders,
                                    programs,
                                    links@,
                                    slot + 1,
                                    STAGE_COUNT as int,
                                );
                            }
                            return Err(e);
                        },
                    }
                    used += 1;
                },
                None => {},
            }
            slot += 1;
        }
        Ok(())
    }

    /// Resolves the named resource `name` of `stage` to the program linked
    /// for that stage and the resource's location, given the location that
    /// the driver answered for `name` in that program. It fails when no
    /// program is linked for the stage, whatever `location` holds, and when
    /// the driver's answer is negative: the name is then inactive or unknown.
    pub fn get_shader_stage_id_and_resource_location(
        &self,
        stage: ShaderType,
        name: &str,
        location: i32,
    ) -> (r: Result<(u32, i32), ResourceError>)
        requires
            self@.wf(),
        ensures
            r is Ok <==> self@.programs[stage.spec_slot()] is Some && location >= 0,
            r is Ok ==> r->Ok_0 == (self@.programs[stage.spec_slot()]->Some_0, location),
            self@.programs[stage.spec_slot()] is None ==> r == Err::<(u32, i32), ResourceError>(
                ResourceError::StageMissing { stage },
            ),
            self@.programs[stage.spec_slot()] is Some && location < 0 ==> {
                &&& r is Err
                &&& r->Err_0 is Inactive
                &&& r->Err_0->Inactive_name@ == name@
                &&& r->Err_0->Inactive_stage == stage
                &&& r->Err_0->Inactive_program == self@.programs[stage.spec_slot()]->Some_0
            },
    {
        let program_index = Self::shader_type_to_array_index(stage);
        let program_id = match self.shader_programs[program_index] {
            Some(id) => id,
            None => {
                return Err(ResourceError::StageMissing { stage });
            },
        };
        if location < 0 {
            return Err(ResourceError::Inactive { name: name.to_owned(), stage, program: program_id });
        }
        Ok((program_id, location))
    }

    /// The upload of a matrix to the uniform at `location` of the program
    /// linked for `stage`: one matrix, not transposed.
    pub fn set_matrix4f(&self, location: i32, value: &Mat4, stage: ShaderType) -> (command:
        UniformCommand)
        requires
            self@.wf(),
            self@.programs[stage.spec_slot()] is Some,
            location >= 0,
        ensures
            command == (UniformCommand::Matrix4f {
                program: self@.programs[stage.spec_slot()]->Some_0,
                location,
                count: 1,
                transpose: false,
                matrix: *value,
            }),
    {
        let program = self.linked_program(stage);
        UniformCommand::Matrix4f { program, location, count: 1, transpose: false, matrix: *value }
    }

    /// The binding of `texture` and of `sampler` to the texture unit whose
    /// index is the location of the texture's uniform in `stage`.
    pub fn set_texture(&self, location: i32, texture: Texture, sampler: Sampler, stage: ShaderType)
        -> (binding: TextureBinding)
        requires
            self@.wf(),
            self@.programs[stage.spec_slot()] is Some,
            location >= 0,
        ensures
            binding == (TextureBinding {
                unit: location as u32,
                texture: texture.id,
                sampler: sampler.id,
            }),
    {
        TextureBinding { unit: location as u32, texture: texture.get_id(), sampler: sampler.id }
    }

    /// The upload of an integer to the uniform at `location` of the program
    /// linked for `stage`.
    pub fn set_integer(&self, location: i32, value: i32, stage: ShaderType) -> (command:
        UniformCommand)
        requires
            self@.wf(),
            self@.programs[stage.spec_slot()] is Some,
            location >= 0,
        ensures
            command == (UniformCommand::Integer {
                program: self@.programs[stage.spec_slot()]->Some_0,
                location,
                value,
            }),
    {
        let program = self.linked_program(stage);
        UniformCommand::Integer { program, location, value }
    }

    fn linked_program(&self, stage: ShaderType) -> (program: u32)
        requires
            self@.wf(),
            self@.programs[stage.spec_slot()] is Some,
        ensures
            program == self@.programs[stage.spec_slot()]->Some_0,
    {
        match self.shader_programs[stage.to_array_index()] {
            Some(program) => program,
            None => 0,
        }
    }

    /// Ends the pipeline's life: the one handle to release is the pipeline
    /// object's own.
    pub fn release(self) -> (id: u32)
        ensures
            id == self@.id,
    {
        self.id
    }
}

/// Once a build has failed it goes no further.
pub proof fn lemma_build_stops(
    shaders: Seq<Option<Shader>>,
    programs: Seq<Option<u32>>,
    links: Seq<LinkOutcome>,
    m: int,
    n: int,
)
    requires
        m <= n,
        spec_build(shaders, programs, links, m).1 is Some,
    ensures
        spec_build(shaders, programs, links, n) == spec_build(shaders, programs, links, m),
    decreases n - m,
{
    if m < n {
        lemma_build_stops(shaders, programs, links, m, n - 1);
    }
}


/// The slots after attaching `units` one after another to an empty pipeline.
pub open spec fn spec_attach_all(units: Seq<Shader>) -> Seq<Option<Shader>>
    decreases units.len(),
{
    if units.len() == 0 {
        Seq::new(STAGE_COUNT as nat, |slot: int| None::<Shader>)
    } else {
        spec_add_shader(spec_attach_all(units.drop_last()), units.last())
    }
}

/// What a slot holds once a build has linked it: the program of the slot's
/// own outcome if a unit is attached there, and what it held before if not.
pub open spec fn spec_linked_slot(
    shaders: Seq<Option<Shader>>,
    programs: Seq<Option<u32>>,
    links: Seq<LinkOutcome>,
    slot: int,
) -> Option<u32> {
    if shaders[slot] is Some {
        Some(links[spec_occupied_before(shaders, slot)].program)
    } else {
        programs[slot]
    }
}

/// What a build amounts to. If it succeeds, every occupied slot has linked
/// and holds the program of its own outcome, and every other slot holds what
/// it held before. If it fails, it fails at an occupied slot whose link
/// failed; every occupied slot before that one has linked and holds its
/// program, and the failing slot and all after it hold what they held before.
pub proof fn lemma_build_outcome(
    shaders: Seq<Option<Shader>>,
    programs: Seq<Option<u32>>,
    links: Seq<LinkOutcome>,
    n: int,
)
    requires
        0 <= n <= shaders.len(),
        programs.len() == shaders.len(),
    ensures
        ({
            let built = spec_build(shaders, programs, links, n);
            let stop = if built.1 is Some {
                built.1->Some_0
            } else {
                n
            };
            &&& built.0.len() == programs.len()
            &&& 0 <= stop <= n
            &&& built.1 is Some ==> stop < n && shaders[stop] is Some && !spec_link_succeeded(
                links[spec_occupied_before(shaders, stop)].link_status,
            )
            &&& forall|s: int|
                0 <= s < stop && (#[trigger] shaders[s]) is Some ==> spec_link_succeeded(
                    links[spec_occupied_before(shaders, s)].link_status,
                )
            &&& forall|s: int|
                0 <= s < stop ==> #[trigger] built.0[s] == spec_linked_slot(
                    shaders,
                    programs,
                    links,
                    s,
                )
            &&& forall|s: int| stop <= s < programs.len() ==> #[trigger] built.0[s] == programs[s]
        }),
    decreases n,
{
    if n > 0 {
        lemma_build_outcome(shaders, programs, links, n - 1);
    }
}

/// Attaching units one after another leaves, at the slot of each stage kind,
/// the last unit of that kind: `units[i]` is in its slot if no later unit
/// has its stage kind.
pub proof fn lemma_attach_last_wins(units: Seq<Shader>, i: int)
    requires
        0 <= i < units.len(),
        forall|j: int| i < j < units.len() ==> units[j].stage != units[i].stage,
    ensures
        spec_attach_all(units).len() == STAGE_COUNT,
        spec_attach_all(units)[units[i].stage.spec_slot()] == Some(units[i]),
    decreases units.len(),
{
    lemma_attach_all_len(units);
    lemma_attach_all_len(units.drop_last());
    if i < units.len() - 1 {
        lemma_attach_last_wins(units.drop_last(), i);
        assert(units[units.len() - 1].stage != units[i].stage);
    }
}

/// Attaching units fills no slot but those of their stage kinds.
pub proof fn lemma_attach_leaves_others_empty(units: Seq<Shader>, slot: int)
    requires
        0 <= slot < STAGE_COUNT,
        forall|j: int| 0 <= j < units.len() ==> units[j].stage.spec_slot() != slot,
    ensures
        spec_attach_all(units)[slot] is None,
    decreases units.len(),
{
    lemma_attach_all_len(units);
    if units.len() > 0 {
        lemma_attach_all_len(units.drop_last());
        lemma_attach_leaves_others_empty(units.drop_last(), slot);
    }
}

/// A pipeline always has six slots, each holding at most a unit of its own
/// stage kind.
pub proof fn lemma_attach_all_len(units: Seq<Shader>)
    ensures
        spec_attach_all(units).len() == STAGE_COUNT,
        forall|slot: int|
            0 <= slot < STAGE_COUNT && (#[trigger] spec_attach_all(units)[slot]) is Some
                ==> spec_attach_all(units)[slot]->Some_0.stage.spec_slot() == slot,
    decreases units.len(),
{
    if units.len() > 0 {
        lemma_attach_all_len(units.drop_last());
    }
}

/// Attaching a second unit of a stage kind replaces the first: the slots are
/// as if the first had never been attached.
pub proof fn lemma_reattach_replaces(shaders: Seq<Option<Shader>>, first: Shader, second: Shader)
    requires
        shaders.len() == STAGE_COUNT,
        first.stage == second.stage,
    ensures
        spec_add_shader(spec_add_shader(shaders, first), second) == spec_add_shader(
            shaders,
            second,
        ),
        spec_add_shader(spec_add_shader(shaders, first), second)[second.stage.spec_slot()] == Some(
            second,
        ),
{
    assert(spec_add_shader(spec_add_shader(shaders, first), second) =~= spec_add_shader(
        shaders,
        second,
    ));
}

/// After units of pairwise distinct stage kinds have been attached to an
/// empty pipeline and the build has succeeded, a slot holds a linked program
/// exactly if one of the units is of its stage kind, and then it holds the
/// program that was linked for that unit.
pub proof fn lemma_build_links_exactly_attached(
    units: Seq<Shader>,
    links: Seq<LinkOutcome>,
    slot: int,
)
    requires
        forall|i: int, j: int|
            0 <= i < j < units.len() ==> units[i].stage != units[j].stage,
        spec_build(
            spec_attach_all(units),
            Seq::new(STAGE_COUNT as nat, |s: int| None::<u32>),
            links,
            STAGE_COUNT as int,
        ).1 is None,
        0 <= slot < STAGE_COUNT,
    ensures
        ({
            let shaders = spec_attach_all(units);
            let programs = spec_build(
                shaders,
                Seq::new(STAGE_COUNT as nat, |s: int| None::<u32>),
                links,
                STAGE_COUNT as int,
            ).0;
            &&& programs[slot] is Some <==> exists|i: int|
                0 <= i < units.len() && (#[trigger] units[i]).stage.spec_slot() == slot
            &&& forall|i: int|
                0 <= i < units.len() && (#[trigger] units[i]).stage.spec_slot() == slot ==> {
                    &&& shaders[slot] == Some(units[i])
                    &&& programs[slot] == Some(
                        links[spec_occupied_before(shaders, slot)].program,
                    )
                }
        }),
{
    let shaders = spec_attach_all(units);
    let empty = Seq::new(STAGE_COUNT as nat, |s: int| None::<u32>);
    lemma_attach_all_len(units);
    lemma_build_outcome(shaders, empty, links, STAGE_COUNT as int);
    let programs = spec_build(shaders, empty, links, STAGE_COUNT as int).0;
    assert(programs[slot] == spec_linked_slot(shaders, empty, links, slot));
    if exists|i: int| 0 <= i < units.len() && (#[trigger] units[i]).stage.spec_slot() == slot {
        assert forall|i: int|
            0 <= i < units.len() && (#[trigger] units[i]).stage.spec_slot()
                == slot implies shaders[slot] == Some(units[i]) by {
            lemma_attach_last_wins(units, i);
        }
    } else {
        lemma_attach_leaves_others_empty(units, slot);
    }
}

} // verus!
