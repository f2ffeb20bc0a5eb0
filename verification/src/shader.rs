use vstd::prelude::*;

verus! {

/// Stage a shader module is compiled for.
#[derive(Clone, Copy, Debug, PartialEq, Eq, Structural)]
pub enum ShaderType {
    Vertex,
    Fragment,
    Compute,
}

/// Handle of one compiled shader module. The shell compiles the source
/// for a stage, keeps the module, and hands the library its handle.
#[derive(Clone, Copy, Debug, PartialEq, Eq, Structural)]
pub struct ShaderModuleId {
    pub id: u64,
}

/// The explicitly owned shader-module table handed to pipeline
/// construction: one slot per stage, filled by `load_*` and emptied by
/// `unload_*`.
#[derive(Clone, Copy, Debug, PartialEq, Eq, Structural)]
pub struct ShaderManager {
    pub vertex_shader: Option<ShaderModuleId>,
    pub fragment_shader: Option<ShaderModuleId>,
    pub compute_shader: Option<ShaderModuleId>,
}

impl ShaderManager {
    /// A manager with every slot empty.
    pub fn new() -> (m: ShaderManager)
        ensures
            m.vertex_shader is None,
            m.fragment_shader is None,
            m.compute_shader is None,
    {
        ShaderManager { vertex_shader: None, fragment_shader: None, compute_shader: None }
    }

    /// Stores the compiled vertex shader and returns its handle.
    pub fn load_vertex_shader(&mut self, module: ShaderModuleId) -> (r: ShaderModuleId)
        ensures
            *final(self) == (ShaderManager { vertex_shader: Some(module), ..*old(self) }),
            r == module,
    {
        self.vertex_shader = Some(module);
        module
    }

    /// Stores the compiled fragment shader and returns its handle.
    pub fn load_fragment_shader(&mut self, module: ShaderModuleId) -> (r: ShaderModuleId)
        ensures
            *final(self) == (ShaderManager { fragment_shader: Some(module), ..*old(self) }),
            r == module,
    {
        self.fragment_shader = Some(module);
        module
    }

    /// Stores the compiled compute shader and returns its handle.
    pub fn load_compute_shader(&mut self, module: ShaderModuleId) -> (r: ShaderModuleId)
        ensures
            *final(self) == (ShaderManager { compute_shader: Some(module), ..*old(self) }),
            r == module,
    {
        self.compute_shader = Some(module);
        module
    }

    /// The loaded vertex shader, if any.
    pub fn get_vertex_shader(&self) -> (r: Option<ShaderModuleId>)
        ensures
            r == self.vertex_shader,
    {
        self.vertex_shader
    }

    /// The loaded fragment shader, if any.
    pub fn get_fragment_shader(&self) -> (r: Option<ShaderModuleId>)
        ensures
            r == self.fragment_shader,
    {
        self.fragment_shader
    }

    /// The loaded compute shader, if any.
    pub fn get_compute_shader(&self) -> (r: Option<ShaderModuleId>)
        ensures
            r == self.compute_shader,
    {
        self.compute_shader
    }

    /// Empties every slot.
    pub fn unload_all(&mut self)
        ensures
            final(self).vertex_shader is None,
            final(self).fragment_shader is None,
            final(self).compute_shader is None,
    {
        self.vertex_shader = None;
        self.fragment_shader = None;
        self.compute_shader = None;
    }

    /// Empties the vertex slot.
    pub fn unload_vertex_shader(&mut self)
        ensures
            *final(self) == (ShaderManager { vertex_shader: None, ..*old(self) }),
    {
        self.vertex_shader = None;
    }

    /// Empties the fragment slot.
    pub fn unload_fragment_shader(&mut self)
        ensures
            *final(self) == (ShaderManager { fragment_shader: None, ..*old(self) }),
    {
        self.fragment_shader = None;
    }

    /// Empties the compute slot.
    pub fn unload_compute_shader(&mut self)
        ensures
            *final(self) == (ShaderManager { compute_shader: None, ..*old(self) }),
    {
        self.compute_shader = None;
    }
}

} // verus!
