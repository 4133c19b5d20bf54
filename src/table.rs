use vstd::prelude::*;

verus! {

/// The number of rendering entry points that a context resolves.
pub const ENTRY_COUNT: usize = 30;

/// One slot of the dispatch table: a rendering entry point, resolved by its
/// fixed symbol name.
#[derive(Clone, Copy, Debug, PartialEq, Eq, Structural)]
pub enum Entry {
    Clear,
    ClearColor,
    Disable,
    Enable,
    GetError,
    BlendFuncSeparate,
    CreateShader,
    ShaderSource,
    CompileShader,
    CreateProgram,
    AttachShader,
    LinkProgram,
    GetString,
    GetUniformLocation,
    GenBuffers,
    BindBuffer,
    BufferData,
    GetAttribLocation,
    GetShaderiv,
    GetShaderInfoLog,
    DrawElements,
    UseProgram,
    UniformMatrix4fv,
    BindTexture,
    VertexAttribPointer,
    GenTextures,
    TexParameteri,
    TexImage2D,
    EnableVertexAttribArray,
    Viewport,
}

impl Entry {
    /// The position of this entry's slot in the table.
    pub open spec fn slot(self) -> int {
        match self {
            Entry::Clear => 0,
            Entry::ClearColor => 1,
            Entry::Disable => 2,
            Entry::Enable => 3,
            Entry::GetError => 4,
            Entry::BlendFuncSeparate => 5,
            Entry::CreateShader => 6,
            Entry::ShaderSource => 7,
            Entry::CompileShader => 8,
            Entry::CreateProgram => 9,
            Entry::AttachShader => 10,
            Entry::LinkProgram => 11,
            Entry::GetString => 12,
            Entry::GetUniformLocation => 13,
            Entry::GenBuffers => 14,
            Entry::BindBuffer => 15,
            Entry::BufferData => 16,
            Entry::GetAttribLocation => 17,
            Entry::GetShaderiv => 18,
            Entry::GetShaderInfoLog => 19,
            Entry::DrawElements => 20,
            Entry::UseProgram => 21,
            Entry::UniformMatrix4fv => 22,
            Entry::BindTexture => 23,
            Entry::VertexAttribPointer => 24,
            Entry::GenTextures => 25,
            Entry::TexParameteri => 26,
            Entry::TexImage2D => 27,
            Entry::EnableVertexAttribArray => 28,
            Entry::Viewport => 29,
        }
    }

    /// The position of this entry's slot in the table.
    pub fn index(&self) -> (r: usize)
        ensures
            r == self.slot(),
            r < ENTRY_COUNT,
    {
        match self {
            Entry::Clear => 0,
            Entry::ClearColor => 1,
            Entry::Disable => 2,
            Entry::Enable => 3,
            Entry::GetError => 4,
            Entry::BlendFuncSeparate => 5,
            Entry::CreateShader => 6,
            Entry::ShaderSource => 7,
            Entry::CompileShader => 8,
            Entry::CreateProgram => 9,
            Entry::AttachShader => 10,
            Entry::LinkProgram => 11,
            Entry::GetString => 12,
            Entry::GetUniformLocation => 13,
            Entry::GenBuffers => 14,
            Entry::BindBuffer => 15,
            Entry::BufferData => 16,
            Entry::GetAttribLocation => 17,
            Entry::GetShaderiv => 18,
            Entry::GetShaderInfoLog => 19,
            Entry::DrawElements => 20,
            Entry::UseProgram => 21,
            Entry::UniformMatrix4fv => 22,
            Entry::BindTexture => 23,
            Entry::VertexAttribPointer => 24,
            Entry::GenTextures => 25,
            Entry::TexParameteri => 26,
            Entry::TexImage2D => 27,
            Entry::EnableVertexAttribArray => 28,
            Entry::Viewport => 29,
        }
    }

    /// The entry whose slot is `i`.
    pub fn at(i: usize) -> (r: Entry)
        requires
            i < ENTRY_COUNT,
        ensures
            r.slot() == i,
    {
        match i {
            0 => Entry::Clear,
            1 => Entry::ClearColor,
            2 => Entry::Disable,
            3 => Entry::Enable,
            4 => Entry::GetError,
            5 => Entry::BlendFuncSeparate,
            6 => Entry::CreateShader,
            7 => Entry::ShaderSource,
            8 => Entry::CompileShader,
            9 => Entry::CreateProgram,
            10 => Entry::AttachShader,
            11 => Entry::LinkProgram,
            12 => Entry::GetString,
            13 => Entry::GetUniformLocation,
            14 => Entry::GenBuffers,
            15 => Entry::BindBuffer,
            16 => Entry::BufferData,
            17 => Entry::GetAttribLocation,
            18 => Entry::GetShaderiv,
            19 => Entry::GetShaderInfoLog,
            20 => Entry::DrawElements,
            21 => Entry::UseProgram,
            22 => Entry::UniformMatrix4fv,
            23 => Entry::BindTexture,
            24 => Entry::VertexAttribPointer,
            25 => Entry::GenTextures,
            26 => Entry::TexParameteri,
            27 => Entry::TexImage2D,
            28 => Entry::EnableVertexAttribArray,
            _ => Entry::Viewport,
        }
    }

    /// The symbol name under which the rendering library exports this entry.
    pub open spec fn symbol_name(self) -> Seq<char> {
        match self {
            Entry::Clear => "glClear"@,
            Entry::ClearColor => "glClearColor"@,
            Entry::Disable => "glDisable"@,
            Entry::Enable => "glEnable"@,
            Entry::GetError => "glGetError"@,
            Entry::BlendFuncSeparate => "glBlendFuncSeparate"@,
            Entry::CreateShader => "glCreateShader"@,
            Entry::ShaderSource => "glShaderSource"@,
            Entry::CompileShader => "glCompileShader"@,
            Entry::CreateProgram => "glCreateProgram"@,
            Entry::AttachShader => "glAttachShader"@,
            Entry::LinkProgram => "glLinkProgram"@,
            Entry::GetString => "glGetString"@,
            Entry::GetUniformLocation => "glGetUniformLocation"@,
            Entry::GenBuffers => "glGenBuffers"@,
            Entry::BindBuffer => "glBindBuffer"@,
            Entry::BufferData => "glBufferData"@,
            Entry::GetAttribLocation => "glGetAttribLocation"@,
            Entry::GetShaderiv => "glGetShaderiv"@,
            Entry::GetShaderInfoLog => "glGetShaderInfoLog"@,
            Entry::DrawElements => "glDrawElements"@,
            Entry::UseProgram => "glUseProgram"@,
            Entry::UniformMatrix4fv => "glUniformMatrix4fv"@,
            Entry::BindTexture => "glBindTexture"@,
            Entry::VertexAttribPointer => "glVertexAttribPointer"@,
            Entry::GenTextures => "glGenTextures"@,
            Entry::TexParameteri => "glTexParameteri"@,
            Entry::TexImage2D => "glTexImage2D"@,
            Entry::EnableVertexAttribArray => "glEnableVertexAttribArray"@,
            Entry::Viewport => "glViewport"@,
        }
    }

    /// The symbol name under which the rendering library exports this entry.
    pub fn symbol(&self) -> (r: &'static str)
        ensures
            r@ == self.symbol_name(),
    {
        match self {
            Entry::Clear => "glClear",
            Entry::ClearColor => "glClearColor",
            Entry::Disable => "glDisable",
            Entry::Enable => "glEnable",
            Entry::GetError => "glGetError",
            Entry::BlendFuncSeparate => "glBlendFuncSeparate",
            Entry::CreateShader => "glCreateShader",
            Entry::ShaderSource => "glShaderSource",
            Entry::CompileShader => "glCompileShader",
            Entry::CreateProgram => "glCreateProgram",
            Entry::AttachShader => "glAttachShader",
            Entry::LinkProgram => "glLinkProgram",
            Entry::GetString => "glGetString",
            Entry::GetUniformLocation => "glGetUniformLocation",
            Entry::GenBuffers => "glGenBuffers",
            Entry::BindBuffer => "glBindBuffer",
            Entry::BufferData => "glBufferData",
            Entry::GetAttribLocation => "glGetAttribLocation",
            Entry::GetShaderiv => "glGetShaderiv",
            Entry::GetShaderInfoLog => "glGetShaderInfoLog",
            Entry::DrawElements => "glDrawElements",
            Entry::UseProgram => "glUseProgram",
            Entry::UniformMatrix4fv => "glUniformMatrix4fv",
            Entry::BindTexture => "glBindTexture",
            Entry::VertexAttribPointer => "glVertexAttribPointer",
            Entry::GenTextures => "glGenTextures",
            Entry::TexParameteri => "glTexParameteri",
            Entry::TexImage2D => "glTexImage2D",
            Entry::EnableVertexAttribArray => "glEnableVertexAttribArray",
            Entry::Viewport => "glViewport",
        }
    }
}

/// Distinct entries have distinct slots, so a table holds one address per
/// entry.
pub proof fn lemma_slots_distinct(a: Entry, b: Entry)
    requires
        a != b,
    ensures
        a.slot() != b.slot(),
{
}

/// Every slot is filled: one address per entry, none of them null.
pub open spec fn is_complete(slots: Seq<usize>) -> bool {
    &&& slots.len() == ENTRY_COUNT
    &&& forall|i: int| 0 <= i < slots.len() ==> slots[i] != 0
}

/// The resolved addresses of the rendering entry points, by slot.
pub struct DispatchTable {
    slots: Vec<usize>,
}

impl DispatchTable {
    pub closed spec fn view(&self) -> Seq<usize> {
        self.slots@
    }

    pub open spec fn wf(&self) -> bool {
        is_complete(self@)
    }

    /// Builds the table from the addresses resolved for slots `0..ENTRY_COUNT`
    /// in order, a null address standing for a missing symbol. All or
    /// nothing: a table comes back only when every entry was found.
    pub fn from_resolved(resolved: Vec<usize>) -> (r: Option<DispatchTable>)
        ensures
            r is Some <==> is_complete(resolved@),
            r matches Some(t) ==> t@ == resolved@ && t.wf(),
    {
        if resolved.len() != ENTRY_COUNT {
            return None;
        }
        let mut i: usize = 0;
        while i < resolved.len()
            invariant
                0 <= i <= resolved.len(),
                forall|j: int| 0 <= j < i ==> resolved@[j] != 0,
            decreases resolved.len() - i,
        {
            if resolved[i] == 0 {
                return None;
            }
            i = i + 1;
        }
        Some(DispatchTable { slots: resolved })
    }

    /// The address resolved for `e`; never null in a complete table.
    pub fn address(&self, e: Entry) -> (r: usize)
        requires
            self.wf(),
        ensures
            r == self@[e.slot()],
            r != 0,
    {
        self.slots[e.index()]
    }
}

} // verus!
