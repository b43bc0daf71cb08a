use vstd::prelude::*;

verus! {

/// `GL_VERTEX_SHADER`.
pub const GL_VERTEX_SHADER: u32 = 0x8B31;

/// `GL_FRAGMENT_SHADER`.
pub const GL_FRAGMENT_SHADER: u32 = 0x8B30;

/// The stage of a shader.
#[derive(Debug, Clone, Copy, PartialEq, Eq, Structural)]
pub enum ShaderKind {
    Vertex,
    Fragment,
}

impl ShaderKind {
    pub open spec fn spec_gl_enum(self) -> u32 {
        match self {
            ShaderKind::Vertex => GL_VERTEX_SHADER,
            ShaderKind::Fragment => GL_FRAGMENT_SHADER,
        }
    }

    /// The graphics API's name for this stage.
    pub fn gl_enum(&self) -> (r: u32)
        ensures
            r == self.spec_gl_enum(),
    {
        match self {
            ShaderKind::Vertex => GL_VERTEX_SHADER,
            ShaderKind::Fragment => GL_FRAGMENT_SHADER,
        }
    }
}

/// Why a program could not be built.
#[derive(Debug, Clone, PartialEq, Eq)]
pub enum ProgramError {
    /// A stage did not compile; holds the driver's diagnostic.
    Compile { kind: ShaderKind, log: String },
    /// The program did not link; holds the driver's diagnostic.
    Link { log: String },
}

/// The diagnostic reported for a failure: the driver's log, or a fixed
/// text where the driver gave none or an empty one.
pub open spec fn spec_diagnostic(log: Option<String>) -> Seq<char> {
    match log {
        Some(s) => if s@.len() > 0 {
            s@
        } else {
            "Unknown error"@
        },
        None => "Unknown error"@,
    }
}

/// The driver's log, or the fixed text "Unknown error" where it gave none
/// or an empty one.
pub fn diagnostic(log: Option<String>) -> (r: String)
    ensures
        r@ == spec_diagnostic(log),
{
    match log {
        Some(s) => {
            if s.as_str().is_empty() {
                "Unknown error".to_owned()
            } else {
                s
            }
        },
        None => "Unknown error".to_owned(),
    }
}

/// A graphics call that building a program asks for, or the end.
#[derive(Debug, Clone, Copy, PartialEq, Eq, Structural)]
pub enum Command {
    /// Create a program object; answered by `Created`.
    CreateProgram,
    /// Create a shader object of this stage; answered by `Created`.
    CreateShader(ShaderKind),
    /// Hand the stage's source text to the shader; answered by `Done`.
    ShaderSource { kind: ShaderKind, shader: u32 },
    /// Compile the shader; answered by `Done`.
    CompileShader(u32),
    /// Ask whether the shader compiled; answered by `Status`.
    QueryCompileStatus(u32),
    /// Ask for the shader's log; answered by `Log`.
    QueryShaderLog(u32),
    /// Attach the shader to the program; answered by `Done`.
    AttachShader { program: u32, shader: u32 },
    /// Link the program; answered by `Done`.
    LinkProgram(u32),
    /// Delete the shader object of this stage; answered by `Done`.
    DeleteShader { kind: ShaderKind, shader: u32 },
    /// Ask whether the program linked; answered by `Status`.
    QueryLinkStatus(u32),
    /// Ask for the program's log; answered by `Log`.
    QueryProgramLog(u32),
    /// Building is over: take the outcome.
    Finish,
}

/// What a graphics call answered.
#[derive(Debug, Clone, PartialEq, Eq)]
pub enum Event {
    /// Nothing was asked yet.
    Start,
    /// An object was created, with this name.
    Created(u32),
    /// The call returned nothing.
    Done,
    /// A compile or link status.
    Status(bool),
    /// A diagnostic log, if the driver gave one.
    Log(Option<String>),
}

/// Where building a program stands: each phase but `Start` and `Finished`
/// awaits the answer to the command that led into it.
#[derive(Debug, Clone, Copy, PartialEq, Eq, Structural)]
pub enum Phase {
    Start,
    CreatingProgram,
    CreatingShader(ShaderKind),
    Sourcing(ShaderKind),
    Compiling(ShaderKind),
    CheckingCompile(ShaderKind),
    ReadingShaderLog(ShaderKind),
    DiscardingFailed(ShaderKind),
    DiscardingVertex,
    AttachingVertex,
    AttachingFragment,
    Linking,
    DeletingVertex,
    DeletingFragment,
    CheckingLink,
    ReadingProgramLog,
    Finished,
}

/// Builds a program from a vertex and a fragment stage, one graphics call at
/// a time: the caller performs each command and hands back its answer.
/// Every shader object created is deleted exactly once, whatever fails.
pub struct ProgramLinker {
    pub phase: Phase,
    pub program: u32,
    pub vertex: u32,
    pub fragment: u32,
    pub outcome: Option<Result<u32, ProgramError>>,
    /// The commands issued so far, in order.
    pub history: Ghost<Seq<Command>>,
}

/// How many commands of a history satisfy `f`.
pub open spec fn occurrences(h: Seq<Command>, f: spec_fn(Command) -> bool) -> nat
    decreases h.len(),
{
    if h.len() == 0 {
        0
    } else {
        occurrences(h.drop_last(), f) + if f(h.last()) {
            1nat
        } else {
            0nat
        }
    }
}

/// How many shader objects of a stage a history created.
pub open spec fn creates(h: Seq<Command>, kind: ShaderKind) -> nat {
    occurrences(h, |c: Command| c == Command::CreateShader(kind))
}

/// How many shader objects of a stage a history deleted.
pub open spec fn deletes(h: Seq<Command>, kind: ShaderKind) -> nat {
    occurrences(h, |c: Command| c matches Command::DeleteShader { kind: k, .. } && k == kind)
}

proof fn lemma_occurrences_push(h: Seq<Command>, c: Command, f: spec_fn(Command) -> bool)
    ensures
        occurrences(h.push(c), f) == occurrences(h, f) + if f(c) {
            1nat
        } else {
            0nat
        },
{
    assert(h.push(c).drop_last() =~= h);
}

proof fn lemma_counts_push(h: Seq<Command>, c: Command)
    ensures
        forall|k: ShaderKind|
            creates(h.push(c), k) == creates(h, k) + if c == Command::CreateShader(k) {
                1nat
            } else {
                0nat
            },
        forall|k: ShaderKind|
            deletes(h.push(c), k) == deletes(h, k) + if c matches Command::DeleteShader {
                kind: kk,
                ..
            } && kk == k {
                1nat
            } else {
                0nat
            },
{
    assert forall|k: ShaderKind|
        creates(h.push(c), k) == creates(h, k) + if c == Command::CreateShader(k) {
            1nat
        } else {
            0nat
        } by {
        lemma_occurrences_push(h, c, |x: Command| x == Command::CreateShader(k));
    }
    assert forall|k: ShaderKind|
        deletes(h.push(c), k) == deletes(h, k) + if c matches Command::DeleteShader {
            kind: kk,
            ..
        } && kk == k {
            1nat
        } else {
            0nat
        } by {
        lemma_occurrences_push(
            h,
            c,
            |x: Command| x matches Command::DeleteShader { kind: kk, .. } && kk == k,
        );
    }
}

/// How many shader objects of a stage have been created on entering a phase.
pub open spec fn created_by(phase: Phase, kind: ShaderKind) -> nat {
    match kind {
        ShaderKind::Vertex => match phase {
            Phase::Start | Phase::CreatingProgram => 0,
            _ => 1,
        },
        ShaderKind::Fragment => match phase {
            Phase::CreatingShader(ShaderKind::Fragment)
            | Phase::Sourcing(ShaderKind::Fragment)
            | Phase::Compiling(ShaderKind::Fragment)
            | Phase::CheckingCompile(ShaderKind::Fragment)
            | Phase::ReadingShaderLog(ShaderKind::Fragment)
            | Phase::DiscardingFailed(ShaderKind::Fragment)
            | Phase::DiscardingVertex
            | Phase::AttachingVertex
            | Phase::AttachingFragment
            | Phase::Linking
            | Phase::DeletingVertex
            | Phase::DeletingFragment
            | Phase::CheckingLink
            | Phase::ReadingProgramLog => 1,
            _ => 0,
        },
    }
}

/// How many shader objects of a stage have been deleted on entering a phase
/// other than `Finished`.
pub open spec fn deleted_by(phase: Phase, kind: ShaderKind) -> nat {
    match kind {
        ShaderKind::Vertex => match phase {
            Phase::DiscardingFailed(ShaderKind::Vertex)
            | Phase::DiscardingVertex
            | Phase::DeletingVertex
            | Phase::DeletingFragment
            | Phase::CheckingLink
            | Phase::ReadingProgramLog => 1,
            _ => 0,
        },
        ShaderKind::Fragment => match phase {
            Phase::DiscardingFailed(ShaderKind::Fragment)
            | Phase::DiscardingVertex
            | Phase::DeletingFragment
            | Phase::CheckingLink
            | Phase::ReadingProgramLog => 1,
            _ => 0,
        },
    }
}

/// Whether the outcome is known on entering a phase: a failed stage is
/// reported only once the shader objects are deleted.
pub open spec fn decided(phase: Phase) -> bool {
    match phase {
        Phase::DiscardingFailed(_) | Phase::DiscardingVertex | Phase::Finished => true,
        _ => false,
    }
}

/// Whether `event` is the answer that `phase` awaits.
pub open spec fn awaits(phase: Phase, event: Event) -> bool {
    match phase {
        Phase::Start => event is Start,
        Phase::CreatingProgram | Phase::CreatingShader(_) => event is Created,
        Phase::CheckingCompile(_) | Phase::CheckingLink => event is Status,
        Phase::ReadingShaderLog(_) | Phase::ReadingProgramLog => event is Log,
        Phase::Finished => false,
        _ => event is Done,
    }
}

impl ProgramLinker {
    /// The name of the shader object of a stage.
    pub open spec fn spec_stage(self, kind: ShaderKind) -> u32 {
        match kind {
            ShaderKind::Vertex => self.vertex,
            ShaderKind::Fragment => self.fragment,
        }
    }

    /// The counts of created and deleted shader objects match the phase;
    /// once finished, each stage that was created was deleted exactly once;
    /// the outcome is known once a failure or the link status decided it.
    pub open spec fn wf(self) -> bool {
        let h = self.history@;
        &&& self.outcome is Some <==> decided(self.phase)
        &&& self.phase == Phase::Finished ==> {
            &&& creates(h, ShaderKind::Vertex) == 1
            &&& deletes(h, ShaderKind::Vertex) == 1
            &&& creates(h, ShaderKind::Fragment) <= 1
            &&& deletes(h, ShaderKind::Fragment) == creates(h, ShaderKind::Fragment)
        }
        &&& self.phase != Phase::Finished ==> forall|k: ShaderKind|
            creates(h, k) == created_by(self.phase, k) && deletes(h, k) == deleted_by(
                self.phase,
                k,
            )
    }

    pub open spec fn is_finished(self) -> bool {
        self.phase == Phase::Finished
    }

    /// The program and stage names stay, and so does the outcome.
    pub open spec fn keeps(self, n: ProgramLinker) -> bool {
        &&& n.program == self.program
        &&& n.vertex == self.vertex
        &&& n.fragment == self.fragment
        &&& n.outcome == self.outcome
    }

    /// `n` is `self` with the stage `kind` named `shader`.
    pub open spec fn names_stage(self, n: ProgramLinker, kind: ShaderKind, shader: u32) -> bool {
        &&& n.program == self.program
        &&& n.spec_stage(kind) == shader
        &&& kind == ShaderKind::Vertex ==> n.fragment == self.fragment
        &&& kind == ShaderKind::Fragment ==> n.vertex == self.vertex
        &&& n.outcome == self.outcome
    }

    /// One step of building: from `self`, on the answer `event`, to `n`,
    /// issuing `cmd`.
    pub open spec fn transition(self, event: Event, n: ProgramLinker, cmd: Command) -> bool {
        &&& n.history@ == self.history@.push(cmd)
        &&& match self.phase {
            Phase::Start => cmd == Command::CreateProgram && n.phase == Phase::CreatingProgram
                && self.keeps(n),
            Phase::CreatingProgram => event matches Event::Created(p) && cmd
                == Command::CreateShader(ShaderKind::Vertex) && n.phase == Phase::CreatingShader(
                ShaderKind::Vertex,
            ) && n.program == p && n.vertex == self.vertex && n.fragment == self.fragment
                && n.outcome == self.outcome,
            Phase::CreatingShader(k) => event matches Event::Created(s) && cmd
                == Command::ShaderSource { kind: k, shader: s } && n.phase == Phase::Sourcing(k)
                && self.names_stage(n, k, s),
            Phase::Sourcing(k) => cmd == Command::CompileShader(self.spec_stage(k)) && n.phase
                == Phase::Compiling(k) && self.keeps(n),
            Phase::Compiling(k) => cmd == Command::QueryCompileStatus(self.spec_stage(k))
                && n.phase == Phase::CheckingCompile(k) && self.keeps(n),
            Phase::CheckingCompile(k) => event matches Event::Status(ok) && self.keeps(n) && if !ok {
                cmd == Command::QueryShaderLog(self.spec_stage(k)) && n.phase
                    == Phase::ReadingShaderLog(k)
            } else if k == ShaderKind::Vertex {
                cmd == Command::CreateShader(ShaderKind::Fragment) && n.phase
                    == Phase::CreatingShader(ShaderKind::Fragment)
            } else {
                cmd == Command::AttachShader { program: self.program, shader: self.vertex }
                    && n.phase == Phase::AttachingVertex
            },
            Phase::ReadingShaderLog(k) => event matches Event::Log(l) && cmd
                == Command::DeleteShader { kind: k, shader: self.spec_stage(k) } && n.phase
                == Phase::DiscardingFailed(k) && n.program == self.program && n.vertex
                == self.vertex && n.fragment == self.fragment && (n.outcome matches Some(
                Err(ProgramError::Compile { kind, log }),
            ) && kind == k && log@ == spec_diagnostic(l)),
            Phase::DiscardingFailed(k) => self.keeps(n) && if k == ShaderKind::Fragment {
                cmd == Command::DeleteShader { kind: ShaderKind::Vertex, shader: self.vertex }
                    && n.phase == Phase::DiscardingVertex
            } else {
                cmd == Command::Finish && n.phase == Phase::Finished
            },
            Phase::DiscardingVertex => cmd == Command::Finish && n.phase == Phase::Finished
                && self.keeps(n),
            Phase::AttachingVertex => cmd == Command::AttachShader {
                program: self.program,
                shader: self.fragment,
            } && n.phase == Phase::AttachingFragment && self.keeps(n),
            Phase::AttachingFragment => cmd == Command::LinkProgram(self.program) && n.phase
                == Phase::Linking && self.keeps(n),
            Phase::Linking => cmd == Command::DeleteShader {
                kind: ShaderKind::Vertex,
                shader: self.vertex,
            } && n.phase == Phase::DeletingVertex && self.keeps(n),
            Phase::DeletingVertex => cmd == Command::DeleteShader {
                kind: ShaderKind::Fragment,
                shader: self.fragment,
            } && n.phase == Phase::DeletingFragment && self.keeps(n),
            Phase::DeletingFragment => cmd == Command::QueryLinkStatus(self.program) && n.phase
                == Phase::CheckingLink && self.keeps(n),
            Phase::CheckingLink => event matches Event::Status(ok) && n.program == self.program
                && n.vertex == self.vertex && n.fragment == self.fragment && if ok {
                cmd == Command::Finish && n.phase == Phase::Finished && n.outcome == Some(
                    Ok::<u32, ProgramError>(self.program),
                )
            } else {
                cmd == Command::QueryProgramLog(self.program) && n.phase
                    == Phase::ReadingProgramLog && n.outcome == self.outcome
            },
            Phase::ReadingProgramLog => event matches Event::Log(l) && cmd == Command::Finish
                && n.phase == Phase::Finished && n.program == self.program && n.vertex
                == self.vertex && n.fragment == self.fragment && (n.outcome matches Some(
                Err(ProgramError::Link { log }),
            ) && log@ == spec_diagnostic(l)),
            Phase::Finished => false,
        }
    }

    /// A builder that has issued nothing yet; its first step takes `Start`.
    pub fn new() -> (r: ProgramLinker)
        ensures
            r.wf(),
            r.phase == Phase::Start,
            r.outcome is None,
            r.history@ == Seq::<Command>::empty(),
    {
        let r = ProgramLinker {
            phase: Phase::Start,
            program: 0,
            vertex: 0,
            fragment: 0,
            outcome: None,
            history: Ghost(Seq::empty()),
        };
        assert(creates(r.history@, ShaderKind::Vertex) == 0);
        assert(creates(r.history@, ShaderKind::Fragment) == 0);
        assert(deletes(r.history@, ShaderKind::Vertex) == 0);
        assert(deletes(r.history@, ShaderKind::Fragment) == 0);
        r
    }

    /// Whether building is over, so that `outcome` holds the result.
    pub fn is_done(&self) -> (r: bool)
        ensures
            r == self.is_finished(),
    {
        self.phase == Phase::Finished
    }

    /// Whether `event` is the answer that the last command awaits.
    pub fn accepts(&self, event: &Event) -> (r: bool)
        ensures
            r == awaits(self.phase, *event),
    {
        match self.phase {
            Phase::Start => matches!(event, Event::Start),
            Phase::CreatingProgram | Phase::CreatingShader(_) => matches!(event, Event::Created(_)),
            Phase::CheckingCompile(_) | Phase::CheckingLink => matches!(event, Event::Status(_)),
            Phase::ReadingShaderLog(_) | Phase::ReadingProgramLog => matches!(event, Event::Log(_)),
            Phase::Finished => false,
            _ => matches!(event, Event::Done),
        }
    }

    /// The result of building, once it is over: the program's name, or why
    /// it could not be built.
    pub fn into_outcome(self) -> (r: Result<u32, ProgramError>)
        requires
            self.wf(),
            self.is_finished(),
        ensures
            self.outcome == Some(r),
    {
        match self.outcome {
            Some(r) => r,
            None => Ok(self.program),
        }
    }

    fn stage(&self, kind: ShaderKind) -> (r: u32)
        ensures
            r == self.spec_stage(kind),
    {
        match kind {
            ShaderKind::Vertex => self.vertex,
            ShaderKind::Fragment => self.fragment,
        }
    }

    /// Takes the answer to the last command and gives the next command.
    pub fn step(&mut self, event: Event) -> (cmd: Command)
        requires
            old(self).wf(),
            awaits(old(self).phase, event),
        ensures
            final(self).wf(),
            old(self).transition(event, *final(self), cmd),
    {
        let ghost h0 = self.history@;
        let cmd = match self.phase {
            Phase::Start => {
                self.phase = Phase::CreatingProgram;
                Command::CreateProgram
            },
            Phase::CreatingProgram => {
                if let Event::Created(p) = event {
                    self.program = p;
                }
                self.phase = Phase::CreatingShader(ShaderKind::Vertex);
                Command::CreateShader(ShaderKind::Vertex)
            },
            Phase::CreatingShader(k) => {
                let mut s: u32 = 0;
                if let Event::Created(id) = event {
                    s = id;
                }
                match k {
                    ShaderKind::Vertex => self.vertex = s,
                    ShaderKind::Fragment => self.fragment = s,
                }
                self.phase = Phase::Sourcing(k);
                Command::ShaderSource { kind: k, shader: s }
            },
            Phase::Sourcing(k) => {
                self.phase = Phase::Compiling(k);
                Command::CompileShader(self.stage(k))
            },
            Phase::Compiling(k) => {
                self.phase = Phase::CheckingCompile(k);
                Command::QueryCompileStatus(self.stage(k))
            },
            Phase::CheckingCompile(k) => {
                let ok = match event {
                    Event::Status(b) => b,
                    _ => false,
                };
                if !ok {
                    self.phase = Phase::ReadingShaderLog(k);
                    Command::QueryShaderLog(self.stage(k))
                } else if k == ShaderKind::Vertex {
                    self.phase = Phase::CreatingShader(ShaderKind::Fragment);
                    Command::CreateShader(ShaderKind::Fragment)
                } else {
                    self.phase = Phase::AttachingVertex;
                    Command::AttachShader { program: self.program, shader: self.vertex }
                }
            },
            Phase::ReadingShaderLog(k) => {
                let log = match event {
                    Event::Log(l) => diagnostic(l),
                    _ => diagnostic(None),
                };
                self.outcome = Some(Err(ProgramError::Compile { kind: k, log }));
                self.phase = Phase::DiscardingFailed(k);
                Command::DeleteShader { kind: k, shader: self.stage(k) }
            },
            Phase::DiscardingFailed(k) => {
                if k == ShaderKind::Fragment {
                    self.phase = Phase::DiscardingVertex;
                    Command::DeleteShader { kind: ShaderKind::Vertex, shader: self.vertex }
                } else {
                    self.phase = Phase::Finished;
                    Command::Finish
                }
            },
            Phase::DiscardingVertex => {
                self.phase = Phase::Finished;
                Command::Finish
            },
            Phase::AttachingVertex => {
                self.phase = Phase::AttachingFragment;
                Command::AttachShader { program: self.program, shader: self.fragment }
            },
            Phase::AttachingFragment => {
                self.phase = Phase::Linking;
                Command::LinkProgram(self.program)
            },
            Phase::Linking => {
                self.phase = Phase::DeletingVertex;
                Command::DeleteShader { kind: ShaderKind::Vertex, shader: self.vertex }
            },
            Phase::DeletingVertex => {
                self.phase = Phase::DeletingFragment;
                Command::DeleteShader { kind: ShaderKind::Fragment, shader: self.fragment }
            },
            Phase::DeletingFragment => {
                self.phase = Phase::CheckingLink;
                Command::QueryLinkStatus(self.program)
            },
            Phase::CheckingLink => {
                let ok = match event {
                    Event::Status(b) => b,
                    _ => false,
                };
                if ok {
                    self.outcome = Some(Ok(self.program));
                    self.phase = Phase::Finished;
                    Command::Finish
                } else {
                    self.phase = Phase::ReadingProgramLog;
                    Command::QueryProgramLog(self.program)
                }
            },
            Phase::ReadingProgramLog => {
                let log = match event {
                    Event::Log(l) => diagnostic(l),
                    _ => diagnostic(None),
                };
                self.outcome = Some(Err(ProgramError::Link { log }));
                self.phase = Phase::Finished;
                Command::Finish
            },
            Phase::Finished => Command::Finish,
        };
        self.history = Ghost(h0.push(cmd));
        proof {
            lemma_counts_push(h0, cmd);
        }
        cmd
    }
}

/// Once building a program is over, whether a stage failed to compile, the
/// link failed or it succeeded, the vertex stage was created and deleted
/// exactly once, and the fragment stage was deleted exactly as many times
/// as it was created, at most once.
pub proof fn lemma_stages_deleted_once(linker: ProgramLinker)
    requires
        linker.wf(),
        linker.is_finished(),
    ensures
        creates(linker.history@, ShaderKind::Vertex) == 1,
        deletes(linker.history@, ShaderKind::Vertex) == 1,
        creates(linker.history@, ShaderKind::Fragment) <= 1,
        deletes(linker.history@, ShaderKind::Fragment) == creates(
            linker.history@,
            ShaderKind::Fragment,
        ),
{
}

} // verus!
