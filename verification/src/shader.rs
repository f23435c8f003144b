//! Shader programs: staged build outcomes and the uniform-location cache.
//!
//! Compiling and linking happen in the graphics driver; the shell reports
//! each stage's outcome (a handle, or a raw diagnostic log capture) and this
//! module decides what follows: which sibling stage to release on a compile
//! failure, which stage objects to delete after the link attempt, and what
//! error to surface, with the log truncated at its first null terminator.
//!
//! Uniform locations are resolved lazily. The cache only ever grows, and a
//! location the driver reports as absent leaves the program completely
//! unchanged: a missing uniform is an authoring mistake to report, never a
//! failure.

use crate::gpu::GpuCommand;
use vstd::prelude::*;

verus! {

/// The two shader stages a program is compiled from.
#[derive(Clone, Copy, Debug, PartialEq, Eq, Structural)]
pub enum ShaderStage {
    Vertex,
    Fragment,
}

/// Why a program could not be built. Logs are already truncated at the
/// first null terminator of the driver's capture.
#[derive(Clone, Debug, PartialEq, Eq)]
pub enum ShaderProgramError {
    /// One stage failed to compile; its sibling, if any, was released.
    StageCompilation { stage: ShaderStage, log: Vec<u8> },
    /// Both stages compiled but the program failed to link.
    Linking { log: Vec<u8> },
}

/// What the driver reported for one stage's compilation.
#[derive(Clone, Debug, PartialEq, Eq)]
pub enum StageOutcome {
    /// The stage compiled to this shader object.
    Compiled(u32),
    /// Compilation failed with this raw log capture.
    Failed(Vec<u8>),
}

/// What the driver reported for the link step.
#[derive(Clone, Debug, PartialEq, Eq)]
pub enum LinkOutcome {
    Linked,
    /// Linking failed with this raw log capture.
    Failed(Vec<u8>),
}

/// A log capture up to, and without, its first null terminator.
pub open spec fn truncated_log(log: Seq<u8>) -> Seq<u8>
    decreases log.len(),
{
    if log.len() == 0 {
        Seq::empty()
    } else if log[0] == 0 {
        Seq::empty()
    } else {
        seq![log[0]] + truncated_log(log.skip(1))
    }
}

/// Cuts a raw log capture at its first null terminator.
pub fn truncate_at_nul(log: &[u8]) -> (r: Vec<u8>)
    ensures
        r@ == truncated_log(log@),
{
    let mut r: Vec<u8> = Vec::new();
    let mut i: usize = 0;
    proof {
        assert(log@.skip(0) =~= log@);
        assert(r@ + truncated_log(log@) =~= truncated_log(log@));
    }
    while i < log.len()
        invariant
            0 <= i <= log@.len(),
            r@ == log@.take(i as int),
            forall|k: int| 0 <= k < i ==> log@[k] != 0,
            truncated_log(log@) == r@ + truncated_log(log@.skip(i as int)),
        decreases log@.len() - i,
    {
        let b = log[i];
        if b == 0 {
            proof {
                assert(truncated_log(log@.skip(i as int)) =~= Seq::<u8>::empty());
                assert(r@ =~= r@ + truncated_log(log@.skip(i as int)));
            }
            return r;
        }
        r.push(b);
        proof {
            assert(log@.skip(i as int)[0] == log@[i as int]);
            assert(log@.skip(i as int).skip(1) =~= log@.skip(i as int + 1));
            assert(truncated_log(log@.skip(i as int)) == seq![log@[i as int]] + truncated_log(
                log@.skip(i as int + 1),
            ));
            assert(r@ =~= log@.take(i as int) + seq![log@[i as int]]);
            assert(log@.take(i as int) + (seq![log@[i as int]] + truncated_log(
                log@.skip(i as int + 1),
            )) =~= r@ + truncated_log(log@.skip(i as int + 1)));
        }
        i += 1;
    }
    proof {
        assert(log@.skip(log@.len() as int) =~= Seq::<u8>::empty());
        assert(truncated_log(log@.skip(i as int)) =~= Seq::<u8>::empty());
        assert(r@ =~= r@ + truncated_log(log@.skip(i as int)));
    }
    r
}

/// One resolved uniform: its name and the location the driver reported.
#[derive(Clone, Debug, PartialEq, Eq)]
pub struct UniformBinding {
    pub name: String,
    pub location: i32,
}

/// The first cached location for a name, if any.
pub open spec fn lookup(entries: Seq<UniformBinding>, name: Seq<char>) -> Option<i32>
    decreases entries.len(),
{
    if entries.len() == 0 {
        None
    } else if entries[0].name@ == name {
        Some(entries[0].location)
    } else {
        lookup(entries.skip(1), name)
    }
}

proof fn lemma_lookup_push_found(entries: Seq<UniformBinding>, e: UniformBinding, name: Seq<char>)
    requires
        lookup(entries, name) is None,
        e.name@ == name,
    ensures
        lookup(entries.push(e), name) == Some(e.location),
    decreases entries.len(),
{
    if entries.len() == 0 {
        assert(entries.push(e)[0] == e);
    } else {
        assert(entries.push(e).skip(1) =~= entries.skip(1).push(e));
        lemma_lookup_push_found(entries.skip(1), e, name);
    }
}

proof fn lemma_lookup_push_keeps(entries: Seq<UniformBinding>, e: UniformBinding, name: Seq<char>)
    requires
        lookup(entries, name) is Some,
    ensures
        lookup(entries.push(e), name) == lookup(entries, name),
    decreases entries.len(),
{
    if entries.len() > 0 {
        if entries[0].name@ == name {
            assert(entries.push(e)[0] == entries[0]);
        } else {
            assert(entries.push(e).skip(1) =~= entries.skip(1).push(e));
            lemma_lookup_push_keeps(entries.skip(1), e, name);
        }
    }
}

/// Owns one compiled and linked GPU program handle, with its cache of
/// resolved uniform locations.
#[derive(Debug)]
pub struct ShaderProgram {
    /// Diagnostic name, used when reporting missing uniforms.
    pub name: String,
    pub id: u32,
    /// Lazily resolved uniform locations; grows, never changes an entry.
    pub uniform_locations: Vec<UniformBinding>,
    pub alive: bool,
}

impl ShaderProgram {
    /// The first cached location for a name, if any.
    pub open spec fn cached_location(self, name: Seq<char>) -> Option<i32> {
        lookup(self.uniform_locations@, name)
    }

    /// The program after its handle has been released.
    pub open spec fn released(self) -> ShaderProgram {
        ShaderProgram { alive: false, ..self }
    }

    /// What releasing the program deletes.
    pub open spec fn release_command(self) -> Option<GpuCommand> {
        if self.alive {
            Some(GpuCommand::DeleteProgram(self.id))
        } else {
            None
        }
    }

    /// Accepts the driver's verdict on the vertex stage. Nothing exists yet
    /// to clean up on failure.
    pub fn vertex_stage_compiled(outcome: StageOutcome) -> (r: Result<u32, ShaderProgramError>)
        ensures
            outcome matches StageOutcome::Compiled(id) ==> r == Ok::<u32, ShaderProgramError>(id),
            outcome matches StageOutcome::Failed(log) ==> (r matches Err(e) && e matches
                ShaderProgramError::StageCompilation { stage, log: t } && stage
                == ShaderStage::Vertex && t@ == truncated_log(log@)),
    {
        match outcome {
            StageOutcome::Compiled(id) => Ok(id),
            StageOutcome::Failed(log) => Err(
                ShaderProgramError::StageCompilation {
                    stage: ShaderStage::Vertex,
                    log: truncate_at_nul(log.as_slice()),
                },
            ),
        }
    }

    /// Accepts the driver's verdict on the fragment stage. On failure the
    /// already compiled vertex stage is released before the error surfaces.
    pub fn fragment_stage_compiled(vertex_id: u32, outcome: StageOutcome) -> (r: (
        Result<u32, ShaderProgramError>,
        Vec<GpuCommand>,
    ))
        ensures
            outcome matches StageOutcome::Compiled(id) ==> r.0 == Ok::<u32, ShaderProgramError>(id)
                && r.1@ == Seq::<GpuCommand>::empty(),
            outcome matches StageOutcome::Failed(log) ==> (r.0 matches Err(e) && e matches
                ShaderProgramError::StageCompilation { stage, log: t } && stage
                == ShaderStage::Fragment && t@ == truncated_log(log@) && r.1@ == seq![
                GpuCommand::DeleteShader(vertex_id),
            ]),
    {
        match outcome {
            StageOutcome::Compiled(id) => (Ok(id), Vec::new()),
            StageOutcome::Failed(log) => {
                let mut cleanup: Vec<GpuCommand> = Vec::new();
                cleanup.push(GpuCommand::DeleteShader(vertex_id));
                (
                    Err(
                        ShaderProgramError::StageCompilation {
                            stage: ShaderStage::Fragment,
                            log: truncate_at_nul(log.as_slice()),
                        },
                    ),
                    cleanup,
                )
            },
        }
    }

    /// Accepts the driver's verdict on the link step. The two stage objects
    /// are deleted either way, fragment first; on success the program starts
    /// live with an empty uniform cache.
    pub fn program_linked(
        name: &str,
        program_id: u32,
        vertex_id: u32,
        fragment_id: u32,
        outcome: LinkOutcome,
    ) -> (r: (Result<ShaderProgram, ShaderProgramError>, Vec<GpuCommand>))
        ensures
            r.1@ == seq![GpuCommand::DeleteShader(fragment_id), GpuCommand::DeleteShader(vertex_id)],
            outcome is Linked ==> (r.0 matches Ok(p) && p.name@ == name@ && p.id == program_id
                && p.uniform_locations@ == Seq::<UniformBinding>::empty() && p.alive),
            outcome matches LinkOutcome::Failed(log) ==> (r.0 matches Err(e) && e matches
                ShaderProgramError::Linking { log: t } && t@ == truncated_log(log@)),
    {
        let mut cleanup: Vec<GpuCommand> = Vec::new();
        cleanup.push(GpuCommand::DeleteShader(fragment_id));
        cleanup.push(GpuCommand::DeleteShader(vertex_id));
        assert(cleanup@ =~= seq![
            GpuCommand::DeleteShader(fragment_id),
            GpuCommand::DeleteShader(vertex_id),
        ]);
        match outcome {
            LinkOutcome::Linked => {
                let program = ShaderProgram {
                    name: String::from_str(name),
                    id: program_id,
                    uniform_locations: Vec::new(),
                    alive: true,
                };
                assert(program.uniform_locations@ =~= Seq::<UniformBinding>::empty());
                (Ok(program), cleanup)
            },
            LinkOutcome::Failed(log) => (
                Err(ShaderProgramError::Linking { log: truncate_at_nul(log.as_slice()) }),
                cleanup,
            ),
        }
    }

    /// Makes this program current.
    pub fn activate(&self) -> (cmd: GpuCommand)
        requires
            self.alive,
        ensures
            cmd == GpuCommand::UseProgram(self.id),
    {
        GpuCommand::UseProgram(self.id)
    }

    /// The location already resolved for a uniform name, if any.
    pub fn cached_uniform_location(&self, name: &str) -> (r: Option<i32>)
        ensures
            r == self.cached_location(name@),
    {
        let key = String::from_str(name);
        let n = self.uniform_locations.len();
        let mut i: usize = 0;
        proof {
            assert(self.uniform_locations@.skip(0) =~= self.uniform_locations@);
        }
        while i < n
            invariant
                0 <= i <= n,
                n == self.uniform_locations@.len(),
                key@ == name@,
                lookup(self.uniform_locations@, name@) == lookup(
                    self.uniform_locations@.skip(i as int),
                    name@,
                ),
            decreases n - i,
        {
            if self.uniform_locations[i].name == key {
                assert(self.uniform_locations@.skip(i as int)[0] == self.uniform_locations@[
                    i as int]);
                return Some(self.uniform_locations[i].location);
            }
            proof {
                assert(self.uniform_locations@.skip(i as int)[0] == self.uniform_locations@[
                    i as int]);
                assert(self.uniform_locations@.skip(i as int).skip(1)
                    =~= self.uniform_locations@.skip(i as int + 1));
            }
            i += 1;
        }
        proof {
            assert(self.uniform_locations@.skip(n as int) =~= Seq::<UniformBinding>::empty());
        }
        None
    }

    /// Accepts the location the driver reported for a uniform that was not
    /// in the cache. A found location is cached and handed back; a negative
    /// report means the program lacks the uniform, and the program is left
    /// completely unchanged so later draws proceed as before.
    pub fn record_uniform_location(&mut self, name: &str, queried_location: i32) -> (r: Option<
        i32,
    >)
        requires
            old(self).cached_location(name@) is None,
        ensures
            queried_location < 0 ==> r == None::<i32> && *final(self) == *old(self),
            queried_location >= 0 ==> {
                &&& r == Some(queried_location)
                &&& final(self).cached_location(name@) == Some(queried_location)
                &&& final(self).uniform_locations@.len() == old(self).uniform_locations@.len() + 1
                &&& final(self).uniform_locations@.take(old(self).uniform_locations@.len() as int)
                    == old(self).uniform_locations@
                &&& final(self).name == old(self).name
                &&& final(self).id == old(self).id
                &&& final(self).alive == old(self).alive
            },
            forall|other: Seq<char>|
                old(self).cached_location(other) is Some ==> final(self).cached_location(other)
                    == old(self).cached_location(other),
    {
        if queried_location < 0 {
            return None;
        }
        let entry = UniformBinding { name: String::from_str(name), location: queried_location };
        proof {
            lemma_lookup_push_found(self.uniform_locations@, entry, name@);
            assert forall|other: Seq<char>| lookup(self.uniform_locations@, other) is Some
                implies lookup(self.uniform_locations@.push(entry), other) == lookup(
                self.uniform_locations@,
                other,
            ) by {
                lemma_lookup_push_keeps(self.uniform_locations@, entry, other);
            }
        }
        self.uniform_locations.push(entry);
        proof {
            assert(self.uniform_locations@.take(old(self).uniform_locations@.len() as int)
                =~= old(self).uniform_locations@);
        }
        Some(queried_location)
    }

    /// Gives up the program handle; deletes it exactly once.
    pub fn release(&mut self) -> (cmd: Option<GpuCommand>)
        ensures
            cmd == old(self).release_command(),
            *final(self) == old(self).released(),
    {
        if self.alive {
            self.alive = false;
            Some(GpuCommand::DeleteProgram(self.id))
        } else {
            None
        }
    }
}

} // verus!
