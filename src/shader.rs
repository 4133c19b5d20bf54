use vstd::prelude::*;
use crate::command::{
    Attribute, Call, GL_COMPILE_STATUS, GL_FRAGMENT_SHADER, GL_INFO_LOG_LENGTH, GL_VERTEX_SHADER,
};
use crate::error::{check_error, kind_of, GlError};

verus! {

/// A shader stage.
#[derive(Clone, Copy, Debug, PartialEq, Eq, Structural)]
pub enum Stage {
    Vertex,
    Fragment,
}

/// Why a rendering operation could not complete.
#[derive(Clone, Copy, Debug, PartialEq, Eq, Structural)]
pub enum Failure {
    /// The driver's error register reported an error after a call.
    Driver(GlError),
    /// A source text or a name did not end with a NUL byte.
    Unterminated,
    /// The program has no active uniform of that name.
    NoSuchUniform,
    /// The program has no active attribute of that name.
    NoSuchAttribute,
    /// A stage failed to compile; its info log is `log_len` bytes long and
    /// was fetched by the last call.
    CompileFailed { stage: Stage, log_len: i32 },
}

/// A byte string that C code can read: it ends with a NUL byte.
pub open spec fn terminated(s: Seq<u8>) -> bool {
    s.len() > 0 && s.last() == 0
}

pub fn is_terminated(s: &[u8]) -> (r: bool)
    ensures
        r == terminated(s@),
{
    s.len() > 0 && s[s.len() - 1] == 0
}

/// The lookup of a uniform named `name` in `program`; the name must be
/// NUL-terminated, which is checked before any call.
pub fn uniform(program: u32, name: &[u8]) -> (r: Result<Call, Failure>)
    ensures
        r is Err <==> !terminated(name@),
        r is Err ==> r == Err::<Call, Failure>(Failure::Unterminated),
        r matches Ok(c) ==> c == (Call::GetUniformLocation { program }),
{
    if !is_terminated(name) {
        return Err(Failure::Unterminated);
    }
    Ok(Call::GetUniformLocation { program })
}

/// What a uniform lookup means: the "not found" sentinel `-1` first, then
/// the error register read after the call.
pub open spec fn uniform_outcome(location: i32, error: u32) -> Result<i32, Failure> {
    if location == -1 {
        Err(Failure::NoSuchUniform)
    } else if error != 0 {
        Err(Failure::Driver(kind_of(error)))
    } else {
        Ok(location)
    }
}

/// Interprets the reply to a uniform lookup.
pub fn uniform_location(location: i32, error: u32) -> (r: Result<i32, Failure>)
    ensures
        r == uniform_outcome(location, error),
{
    if location == -1 {
        return Err(Failure::NoSuchUniform);
    }
    match check_error(error) {
        Ok(()) => Ok(location),
        Err(e) => Err(Failure::Driver(e)),
    }
}

/// The lookup of an attribute named `name` in `program`; the name must be
/// NUL-terminated, which is checked before any call.
pub fn attribute(program: u32, name: &[u8]) -> (r: Result<Call, Failure>)
    ensures
        r is Err <==> !terminated(name@),
        r is Err ==> r == Err::<Call, Failure>(Failure::Unterminated),
        r matches Ok(c) ==> c == (Call::GetAttribLocation { program }),
{
    if !is_terminated(name) {
        return Err(Failure::Unterminated);
    }
    Ok(Call::GetAttribLocation { program })
}

/// What an attribute lookup means: the sentinel `-1` first, then the error
/// register; a found attribute is then enabled as a vertex array.
pub open spec fn attribute_outcome(location: i32, error: u32) -> Result<(Attribute, Call), Failure> {
    if location == -1 {
        Err(Failure::NoSuchAttribute)
    } else if error != 0 {
        Err(Failure::Driver(kind_of(error)))
    } else {
        Ok((Attribute(location), Call::EnableVertexAttribArray { index: location as u32 }))
    }
}

/// Interprets the reply to an attribute lookup, and gives the call that
/// enables the attribute.
pub fn attribute_location(location: i32, error: u32) -> (r: Result<(Attribute, Call), Failure>)
    ensures
        r == attribute_outcome(location, error),
{
    if location == -1 {
        return Err(Failure::NoSuchAttribute);
    }
    match check_error(error) {
        Ok(()) => Ok((Attribute(location), Call::EnableVertexAttribArray { index: location as u32 })),
        Err(e) => Err(Failure::Driver(e)),
    }
}

/// The call that a shader build issued last, and so the reply it waits for.
#[derive(Clone, Copy, Debug, PartialEq, Eq, Structural)]
pub enum Phase {
    /// Nothing issued yet: the first reply is a reading of the error register
    /// that must be clear before the build begins.
    Start,
    Create(Stage),
    Source(Stage),
    Compile(Stage),
    Status(Stage),
    LogLength(Stage),
    Log(Stage),
    CreateProgram,
    AttachVertex,
    AttachFragment,
    Link,
    /// The build has finished or failed.
    Over,
}

/// What a shader build asks for next.
#[derive(Clone, Copy, Debug, PartialEq, Eq, Structural)]
pub enum Step {
    /// Issue this call, read the error register, and hand both results back.
    Issue(Call),
    /// The program is linked; here is its handle.
    Finished(u32),
    Failed(Failure),
}

/// Compiling a vertex and a fragment shader and linking them into a program,
/// as a sequence of driver calls. The caller issues each call it is given,
/// reads the error register right after, and hands back the call's result
/// (a handle or a queried integer, as raw bits; zero for calls that return
/// nothing) with that reading.
pub struct ShaderBuild {
    pub phase: Phase,
    pub vertex: u32,
    pub fragment: u32,
    pub program: u32,
    pub log_len: i32,
}

impl ShaderBuild {
    /// The shader object of `stage`.
    pub open spec fn shader_of(self, stage: Stage) -> u32 {
        match stage {
            Stage::Vertex => self.vertex,
            Stage::Fragment => self.fragment,
        }
    }

    pub open spec fn with_shader(self, stage: Stage, handle: u32) -> ShaderBuild {
        match stage {
            Stage::Vertex => ShaderBuild { vertex: handle, ..self },
            Stage::Fragment => ShaderBuild { fragment: handle, ..self },
        }
    }

    pub open spec fn goto(self, phase: Phase) -> ShaderBuild {
        ShaderBuild { phase, ..self }
    }

    /// One transition: from this state and the reply to the last call (its
    /// result `value` and the error register `error` read after it), the
    /// next state and what to do next.
    pub open spec fn next(self, value: u32, error: u32) -> (ShaderBuild, Step) {
        if error != 0 {
            (self.goto(Phase::Over), Step::Failed(Failure::Driver(kind_of(error))))
        } else {
            match self.phase {
                Phase::Start => (
                    self.goto(Phase::Create(Stage::Vertex)),
                    Step::Issue(Call::CreateShader { kind: GL_VERTEX_SHADER }),
                ),
                Phase::Create(s) => (
                    self.with_shader(s, value).goto(Phase::Source(s)),
                    Step::Issue(Call::ShaderSource { shader: value }),
                ),
                Phase::Source(s) => (
                    self.goto(Phase::Compile(s)),
                    Step::Issue(Call::CompileShader { shader: self.shader_of(s) }),
                ),
                Phase::Compile(s) => (
                    self.goto(Phase::Status(s)),
                    Step::Issue(Call::GetShaderiv { shader: self.shader_of(s), pname: GL_COMPILE_STATUS }),
                ),
                Phase::Status(s) => if value == 0 {
                    (
                        self.goto(Phase::LogLength(s)),
                        Step::Issue(Call::GetShaderiv { shader: self.shader_of(s), pname: GL_INFO_LOG_LENGTH }),
                    )
                } else if s == Stage::Vertex {
                    (
                        self.goto(Phase::Create(Stage::Fragment)),
                        Step::Issue(Call::CreateShader { kind: GL_FRAGMENT_SHADER }),
                    )
                } else {
                    (self.goto(Phase::CreateProgram), Step::Issue(Call::CreateProgram))
                },
                Phase::LogLength(s) => (
                    ShaderBuild { log_len: value as i32, phase: Phase::Log(s), ..self },
                    Step::Issue(Call::GetShaderInfoLog { shader: self.shader_of(s), max_len: value as i32 }),
                ),
                Phase::Log(s) => (
                    self.goto(Phase::Over),
                    Step::Failed(Failure::CompileFailed { stage: s, log_len: self.log_len }),
                ),
                Phase::CreateProgram => (
                    ShaderBuild { program: value, phase: Phase::AttachVertex, ..self },
                    Step::Issue(Call::AttachShader { program: value, shader: self.vertex }),
                ),
                Phase::AttachVertex => (
                    self.goto(Phase::AttachFragment),
                    Step::Issue(Call::AttachShader { program: self.program, shader: self.fragment }),
                ),
                Phase::AttachFragment => (
                    self.goto(Phase::Link),
                    Step::Issue(Call::LinkProgram { program: self.program }),
                ),
                Phase::Link => (self.goto(Phase::Over), Step::Finished(self.program)),
                // A finished build takes no more replies.
                Phase::Over => (self, Step::Failed(Failure::Driver(GlError::Unknown))),
            }
        }
    }

    /// Begins a build of the two sources. Both must end with a NUL byte:
    /// this is checked before any call is issued.
    pub fn new(vertex: &[u8], fragment: &[u8]) -> (r: Result<ShaderBuild, Failure>)
        ensures
            r is Err <==> !(terminated(vertex@) && terminated(fragment@)),
            r is Err ==> r == Err::<ShaderBuild, Failure>(Failure::Unterminated),
            r matches Ok(b) ==> b.phase == Phase::Start,
    {
        if !is_terminated(vertex) || !is_terminated(fragment) {
            return Err(Failure::Unterminated);
        }
        Ok(ShaderBuild { phase: Phase::Start, vertex: 0, fragment: 0, program: 0, log_len: 0 })
    }

    pub open spec fn is_over(&self) -> bool {
        self.phase == Phase::Over
    }

    /// Takes the reply to the last call and says what to do next.
    pub fn advance(&mut self, value: u32, error: u32) -> (r: Step)
        requires
            !old(self).is_over(),
        ensures
            (*final(self), r) == old(self).next(value, error),
            r !is Issue <==> final(self).is_over(),
    {
        if let Err(e) = check_error(error) {
            self.phase = Phase::Over;
            return Step::Failed(Failure::Driver(e));
        }
        match self.phase {
            Phase::Start => {
                self.phase = Phase::Create(Stage::Vertex);
                Step::Issue(Call::CreateShader { kind: GL_VERTEX_SHADER })
            },
            Phase::Create(s) => {
                match s {
                    Stage::Vertex => self.vertex = value,
                    Stage::Fragment => self.fragment = value,
                }
                self.phase = Phase::Source(s);
                Step::Issue(Call::ShaderSource { shader: value })
            },
            Phase::Source(s) => {
                self.phase = Phase::Compile(s);
                Step::Issue(Call::CompileShader { shader: self.shader(s) })
            },
            Phase::Compile(s) => {
                self.phase = Phase::Status(s);
                Step::Issue(Call::GetShaderiv { shader: self.shader(s), pname: GL_COMPILE_STATUS })
            },
            Phase::Status(s) => {
                if value == 0 {
                    self.phase = Phase::LogLength(s);
                    Step::Issue(
                        Call::GetShaderiv { shader: self.shader(s), pname: GL_INFO_LOG_LENGTH },
                    )
                } else if s == Stage::Vertex {
                    self.phase = Phase::Create(Stage::Fragment);
                    Step::Issue(Call::CreateShader { kind: GL_FRAGMENT_SHADER })
                } else {
                    self.phase = Phase::CreateProgram;
                    Step::Issue(Call::CreateProgram)
                }
            },
            Phase::LogLength(s) => {
                self.log_len = value as i32;
                self.phase = Phase::Log(s);
                Step::Issue(Call::GetShaderInfoLog { shader: self.shader(s), max_len: value as i32 })
            },
            Phase::Log(s) => {
                self.phase = Phase::Over;
                Step::Failed(Failure::CompileFailed { stage: s, log_len: self.log_len })
            },
            Phase::CreateProgram => {
                self.program = value;
                self.phase = Phase::AttachVertex;
                Step::Issue(Call::AttachShader { program: value, shader: self.vertex })
            },
            Phase::AttachVertex => {
                self.phase = Phase::AttachFragment;
                Step::Issue(Call::AttachShader { program: self.program, shader: self.fragment })
            },
            Phase::AttachFragment => {
                self.phase = Phase::Link;
                Step::Issue(Call::LinkProgram { program: self.program })
            },
            Phase::Link => {
                self.phase = Phase::Over;
                Step::Finished(self.program)
            },
            Phase::Over => Step::Failed(Failure::Driver(GlError::Unknown)),
        }
    }

    /// The shader object of `stage`.
    pub fn shader(&self, stage: Stage) -> (r: u32)
        ensures
            r == self.shader_of(stage),
    {
        match stage {
            Stage::Vertex => self.vertex,
            Stage::Fragment => self.fragment,
        }
    }
}

/// Feeds `replies` to the build in order and collects the steps it takes.
pub open spec fn run(b: ShaderBuild, replies: Seq<(u32, u32)>) -> (ShaderBuild, Seq<Step>)
    decreases replies.len(),
{
    if replies.len() == 0 {
        (b, Seq::empty())
    } else {
        let (b1, st) = b.next(replies[0].0, replies[0].1);
        let (b2, rest) = run(b1, replies.drop_first());
        (b2, seq![st] + rest)
    }
}

/// A fresh build, as `ShaderBuild::new` makes it.
pub open spec fn fresh() -> ShaderBuild {
    ShaderBuild { phase: Phase::Start, vertex: 0, fragment: 0, program: 0, log_len: 0 }
}

/// The driver's replies when both stages compile: shader objects `v` and
/// `f`, non-zero compile statuses `sv` and `sf`, program object `p`, and a
/// clear error register after every call.
pub open spec fn clean_replies(v: u32, sv: u32, f: u32, sf: u32, p: u32) -> Seq<(u32, u32)> {
    seq![
        (0u32, 0u32), (v, 0u32), (0u32, 0u32), (0u32, 0u32), (sv, 0u32),
        (f, 0u32), (0u32, 0u32), (0u32, 0u32), (sf, 0u32),
        (p, 0u32), (0u32, 0u32), (0u32, 0u32), (0u32, 0u32),
    ]
}

/// The calls of a build in which both stages compile.
pub open spec fn clean_calls(v: u32, f: u32, p: u32) -> Seq<Step> {
    seq![
        Step::Issue(Call::CreateShader { kind: GL_VERTEX_SHADER }),
        Step::Issue(Call::ShaderSource { shader: v }),
        Step::Issue(Call::CompileShader { shader: v }),
        Step::Issue(Call::GetShaderiv { shader: v, pname: GL_COMPILE_STATUS }),
        Step::Issue(Call::CreateShader { kind: GL_FRAGMENT_SHADER }),
        Step::Issue(Call::ShaderSource { shader: f }),
        Step::Issue(Call::CompileShader { shader: f }),
        Step::Issue(Call::GetShaderiv { shader: f, pname: GL_COMPILE_STATUS }),
        Step::Issue(Call::CreateProgram),
        Step::Issue(Call::AttachShader { program: p, shader: v }),
        Step::Issue(Call::AttachShader { program: p, shader: f }),
        Step::Issue(Call::LinkProgram { program: p }),
        Step::Finished(p),
    ]
}

/// When both stages compile and the driver reports no error, a build
/// creates, sources, compiles and checks the vertex shader, then the
/// fragment shader, then creates a program, attaches both and links it, and
/// returns the program handle that the driver gave.
pub proof fn lemma_clean_build(v: u32, sv: u32, f: u32, sf: u32, p: u32)
    requires
        sv != 0,
        sf != 0,
    ensures
        run(fresh(), clean_replies(v, sv, f, sf, p)).1 == clean_calls(v, f, p),
        run(fresh(), clean_replies(v, sv, f, sf, p)).0.is_over(),
{
    let r = clean_replies(v, sv, f, sf, p);
    reveal_with_fuel(run, 14);
    assert(r.drop_first() =~= r.subrange(1, 13));
    assert(run(fresh(), r).1 =~= clean_calls(v, f, p));
}

/// When the vertex stage fails to compile (status zero), a build queries the
/// info log's length `len`, fetches that many bytes of log, and fails with a
/// compile failure of the vertex stage that carries the length; nothing of
/// the fragment stage or the program is issued.
pub proof fn lemma_vertex_compile_failure(v: u32, len: u32)
    ensures
        run(fresh(), seq![(0u32, 0u32), (v, 0u32), (0u32, 0u32), (0u32, 0u32), (0u32, 0u32), (len, 0u32), (0u32, 0u32)]).1
            == seq![
            Step::Issue(Call::CreateShader { kind: GL_VERTEX_SHADER }),
            Step::Issue(Call::ShaderSource { shader: v }),
            Step::Issue(Call::CompileShader { shader: v }),
            Step::Issue(Call::GetShaderiv { shader: v, pname: GL_COMPILE_STATUS }),
            Step::Issue(Call::GetShaderiv { shader: v, pname: GL_INFO_LOG_LENGTH }),
            Step::Issue(Call::GetShaderInfoLog { shader: v, max_len: len as i32 }),
            Step::Failed(Failure::CompileFailed { stage: Stage::Vertex, log_len: len as i32 }),
        ],
{
    reveal_with_fuel(run, 8);
    let r = seq![(0u32, 0u32), (v, 0u32), (0u32, 0u32), (0u32, 0u32), (0u32, 0u32), (len, 0u32), (0u32, 0u32)];
    assert(run(fresh(), r).1 =~= seq![
            Step::Issue(Call::CreateShader { kind: GL_VERTEX_SHADER }),
            Step::Issue(Call::ShaderSource { shader: v }),
            Step::Issue(Call::CompileShader { shader: v }),
            Step::Issue(Call::GetShaderiv { shader: v, pname: GL_COMPILE_STATUS }),
            Step::Issue(Call::GetShaderiv { shader: v, pname: GL_INFO_LOG_LENGTH }),
            Step::Issue(Call::GetShaderInfoLog { shader: v, max_len: len as i32 }),
            Step::Failed(Failure::CompileFailed { stage: Stage::Vertex, log_len: len as i32 }),
        ]);
}

/// Every error that the driver reports after a call ends the build at once,
/// with that error's kind, whatever the build was waiting for.
pub proof fn lemma_error_is_fatal(b: ShaderBuild, value: u32, error: u32)
    requires
        error != 0,
    ensures
        b.next(value, error).0.is_over(),
        b.next(value, error).1 == Step::Failed(Failure::Driver(kind_of(error))),
{
}

} // verus!
