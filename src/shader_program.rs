use vstd::prelude::*;

use crate::device::{stage_view, Command, CommandView, Device, ShaderStage};
use crate::error::{GlError, ShaderCompileType};

verus! {

/// The abstract content of a [`ShaderProgram`]: its handle and source paths.
pub struct ShaderProgramView {
    pub id: usize,
    pub vertex_path: Seq<char>,
    pub fragment_path: Seq<char>,
    pub geometry_path: Option<Seq<char>>,
}

/// The compile steps of a program, in order: vertex, fragment, then the
/// geometry stage where there is one.
pub open spec fn stage_list(p: ShaderProgramView) -> Seq<(ShaderCompileType, Seq<char>)> {
    seq![(ShaderCompileType::Vertex, p.vertex_path), (ShaderCompileType::Fragment, p.fragment_path)]
        + match p.geometry_path {
        Some(g) => seq![(ShaderCompileType::Geometry, g)],
        None => Seq::empty(),
    }
}

/// A shader program: the backend compiles and links its stages from the
/// source paths when it performs the queued `CompileProgram` command.
pub struct ShaderProgram {
    id: usize,
    vertex_path: String,
    fragment_path: String,
    maybe_geometry_path: Option<String>,
}

impl View for ShaderProgram {
    type V = ShaderProgramView;

    closed spec fn view(&self) -> ShaderProgramView {
        ShaderProgramView {
            id: self.id,
            vertex_path: self.vertex_path@,
            fragment_path: self.fragment_path@,
            geometry_path: match self.maybe_geometry_path {
                Some(g) => Some(g@),
                None => None,
            },
        }
    }
}

fn copy_string(s: &String) -> (r: String)
    ensures
        r@ == s@,
{
    s.clone()
}

impl ShaderProgram {
    /// Issues a program handle and queues the compilation of its stages.
    pub fn new(
        device: &mut Device,
        vertex_path: String,
        fragment_path: String,
        maybe_geometry_path: Option<String>,
    ) -> (r: Result<ShaderProgram, GlError>)
        ensures
            (r is Ok) == old(device)@.has_room(1),
            r matches Ok(p) ==> {
                &&& p@.id == old(device)@.live.len()
                &&& p@.vertex_path == vertex_path@
                &&& p@.fragment_path == fragment_path@
                &&& p@.geometry_path == match maybe_geometry_path {
                    Some(g) => Some(g@),
                    None => None::<Seq<char>>,
                }
                &&& final(device)@.live == old(device)@.live.push(true)
                &&& final(device)@.limits == old(device)@.limits
                &&& final(device)@.log == old(device)@.log.push(
                    CommandView::CompileProgram { program: p@.id, stages: stage_list(p@) },
                )
            },
            r matches Err(e) ==> e is AllocationFailed && final(device)@ == old(device)@,
    {
        if !device.has_room(1) {
            return Err(GlError::AllocationFailed);
        }
        let id = device.issue();
        let p = ShaderProgram { id, vertex_path, fragment_path, maybe_geometry_path };
        let stages = p.stages();
        device.push(Command::CompileProgram { program: id, stages });
        Ok(p)
    }

    pub fn id(&self) -> (r: usize)
        ensures
            r == self@.id,
    {
        self.id
    }

    /// The compile steps of this program, in order.
    pub fn stages(&self) -> (r: Vec<ShaderStage>)
        ensures
            r@.map_values(|s: ShaderStage| stage_view(s)) == stage_list(self@),
    {
        let mut r: Vec<ShaderStage> = Vec::new();
        r.push(ShaderStage { kind: ShaderCompileType::Vertex, path: copy_string(&self.vertex_path) });
        r.push(
            ShaderStage { kind: ShaderCompileType::Fragment, path: copy_string(&self.fragment_path) },
        );
        match &self.maybe_geometry_path {
            Some(g) => {
                r.push(ShaderStage { kind: ShaderCompileType::Geometry, path: copy_string(g) });
            },
            None => {},
        }
        proof {
            assert(r@.map_values(|s: ShaderStage| stage_view(s)) =~= stage_list(self@));
        }
        r
    }

    /// Queues a recompilation of the program from its sources, under the
    /// same handle.
    pub fn reload(&self, device: &mut Device)
        ensures
            final(device)@.same_objects(old(device)@),
            final(device)@.log == old(device)@.log.push(
                CommandView::CompileProgram { program: self@.id, stages: stage_list(self@) },
            ),
    {
        let stages = self.stages();
        device.push(Command::CompileProgram { program: self.id, stages });
    }

    /// Queues making this the current program.
    pub fn use_program(&self, device: &mut Device)
        ensures
            final(device)@.same_objects(old(device)@),
            final(device)@.log == old(device)@.log.push(
                CommandView::UseProgram { program: self@.id },
            ),
    {
        device.push(Command::UseProgram { program: self.id });
    }

    /// Queues setting a boolean uniform. A program without that uniform
    /// ignores the command, so passes can share code across shader variants.
    pub fn set_bool(&self, device: &mut Device, name: &str, value: bool)
        ensures
            final(device)@.same_objects(old(device)@),
            final(device)@.log == old(device)@.log.push(
                CommandView::SetBool { program: self@.id, name: name@, value },
            ),
    {
        device.push(Command::SetBool { program: self.id, name: name.to_owned(), value });
    }

    /// Queues setting an integer uniform, ignored where the program lacks it.
    pub fn set_int(&self, device: &mut Device, name: &str, value: i32)
        ensures
            final(device)@.same_objects(old(device)@),
            final(device)@.log == old(device)@.log.push(
                CommandView::SetInt { program: self@.id, name: name@, number: value },
            ),
    {
        device.push(Command::SetInt { program: self.id, name: name.to_owned(), number: value });
    }
}

/// A uniform buffer shared by several programs through a named uniform block.
pub struct UniformBuffer {
    id: usize,
    name: String,
}

impl UniformBuffer {
    pub closed spec fn id_spec(&self) -> usize {
        self.id
    }

    pub closed spec fn name_spec(&self) -> Seq<char> {
        self.name@
    }

    /// Issues a buffer handle, queues the creation of a buffer of
    /// `buffer_size` bytes, then binds the block `name` of each program to it.
    pub fn new(
        device: &mut Device,
        shader_programs: Vec<&ShaderProgram>,
        name: &str,
        buffer_size: u32,
    ) -> (r: Result<UniformBuffer, GlError>)
        ensures
            (r is Ok) == old(device)@.has_room(1),
            r matches Ok(u) ==> {
                &&& u.id_spec() == old(device)@.live.len()
                &&& u.name_spec() == name@
                &&& final(device)@.live == old(device)@.live.push(true)
                &&& final(device)@.limits == old(device)@.limits
                &&& final(device)@.log == old(device)@.log.push(
                    CommandView::CreateUniformBuffer { buffer: u.id_spec(), size: buffer_size },
                ) + Seq::new(
                    shader_programs@.len(),
                    |i: int|
                        CommandView::BindUniformBlock {
                            program: shader_programs@[i]@.id,
                            block: name@,
                            buffer: u.id_spec(),
                        },
                )
            },
            r matches Err(e) ==> e is AllocationFailed && final(device)@ == old(device)@,
    {
        if !device.has_room(1) {
            return Err(GlError::AllocationFailed);
        }
        let id = device.issue();
        let u = UniformBuffer { id, name: name.to_owned() };
        device.push(Command::CreateUniformBuffer { buffer: id, size: buffer_size });
        let ghost start = device@.log;
        let mut i: usize = 0;
        while i < shader_programs.len()
            invariant
                0 <= i <= shader_programs@.len(),
                u.id_spec() == id,
                u.name_spec() == name@,
                device@.live == old(device)@.live.push(true),
                device@.limits == old(device)@.limits,
                device@.log == start + Seq::new(
                    i as nat,
                    |k: int|
                        CommandView::BindUniformBlock {
                            program: shader_programs@[k]@.id,
                            block: name@,
                            buffer: id,
                        },
                ),
            decreases shader_programs@.len() - i,
        {
            u.register_shader_program(device, shader_programs[i]);
            i = i + 1;
            proof {
                assert(device@.log =~= start + Seq::new(
                    i as nat,
                    |k: int|
                        CommandView::BindUniformBlock {
                            program: shader_programs@[k]@.id,
                            block: name@,
                            buffer: id,
                        },
                ));
            }
        }
        Ok(u)
    }

    pub fn id(&self) -> (r: usize)
        ensures
            r == self.id_spec(),
    {
        self.id
    }

    /// Queues binding the uniform block of this buffer's name in a program
    /// to this buffer.
    pub fn register_shader_program(&self, device: &mut Device, shader_program: &ShaderProgram)
        ensures
            final(device)@.same_objects(old(device)@),
            final(device)@.log == old(device)@.log.push(
                CommandView::BindUniformBlock {
                    program: shader_program@.id,
                    block: self.name_spec(),
                    buffer: self.id_spec(),
                },
            ),
    {
        device.push(
            Command::BindUniformBlock {
                program: shader_program.id,
                block: copy_string(&self.name),
                buffer: self.id,
            },
        );
    }
}

} // verus!
