use vstd::prelude::*;

verus! {

/// Failures of the device layer: surface, swapchain, resources and commands.
#[derive(Debug)]
pub enum VulkanError {
    InitializationError(String),
    DeviceCreationError(String),
    CommandBufferError(String),
    SwapchainError(String),
    MemoryAllocationError(String),
    SynchronizationError(String),
    SurfaceCreationError(String),
    ShaderCompilationError(String),
    PipelineLayoutError(String),
    PipelineCreationError(String),
    BufferCreationError(String),
    ImageCreationError(String),
    ImageViewCreationError(String),
    InstanceCreationError(String),
    PresentationSupportError(String),
    SceneError(String),
}

/// Failures of the rendering engine as seen by its callers.
#[derive(Debug)]
pub enum GraphicsError {
    VulkanError(VulkanError),
    InvalidTextureFormat(String),
    ShaderCompilationError(String),
    MeshLoadingError(String),
    MaterialNotFound(String),
    RenderingError(String),
    CameraSetupError(String),
    NoMeshDataFound,
    NoCameraFound,
}

impl From<VulkanError> for GraphicsError {
    fn from(e: VulkanError) -> (r: GraphicsError) {
        GraphicsError::VulkanError(e)
    }
}

impl vstd::std_specs::convert::FromSpecImpl<VulkanError> for GraphicsError {
    open spec fn obeys_from_spec() -> bool {
        true
    }

    open spec fn from_spec(e: VulkanError) -> GraphicsError {
        GraphicsError::VulkanError(e)
    }
}

/// The kinds of scene file the importer tells apart.
#[derive(Debug, Clone, Copy, PartialEq, Eq, Structural)]
pub enum FileType {
    Obj,
    Fbx,
    Mtl,
}

impl Default for FileType {
    fn default() -> (r: FileType)
        ensures
            r == FileType::Obj,
    {
        FileType::Obj
    }
}

pub open spec fn file_type_name(t: FileType) -> Seq<char> {
    match t {
        FileType::Obj => "OBJ"@,
        FileType::Fbx => "FBX"@,
        FileType::Mtl => "MTL"@,
    }
}

impl FileType {
    /// The upper-case name of the kind, as shown to users.
    pub fn name(&self) -> (r: String)
        ensures
            r@ == file_type_name(*self),
    {
        match self {
            FileType::Obj => String::from_str("OBJ"),
            FileType::Fbx => String::from_str("FBX"),
            FileType::Mtl => String::from_str("MTL"),
        }
    }
}

/// Failures of reading a scene file.
#[derive(Debug)]
pub enum FileError {
    NotFound(String),
    PermissionDenied(String),
    InvalidFormat(String),
    UnexpectedEndOfFile,
    /// An input/output failure, by its description.
    IoError(String),
    /// A malformed item: the item, the kind of file and the line.
    FormatError(String, FileType, usize),
}

} // verus!
