use vstd::prelude::*;
use crate::error::FileType;
use crate::scene::Scene;

verus! {

/// The editor's state: the scene being edited and the kind of file the
/// loader offers.
#[derive(Debug)]
pub struct Editor {
    pub scene: Scene,
    selected_file_type: FileType,
}

impl Editor {
    pub closed spec fn file_type(&self) -> FileType {
        self.selected_file_type
    }

    /// The scene being edited.
    pub closed spec fn edited(&self) -> Scene {
        self.scene
    }

    /// An editor of `scene`, offering the default kind of file.
    pub fn with_scene(scene: Scene) -> (r: Editor)
        ensures
            r.edited() == scene,
            r.file_type() == FileType::Obj,
    {
        Editor { scene, selected_file_type: FileType::Obj }
    }

    /// The kind of file the loader offers.
    pub fn selected_file_type(&self) -> (r: FileType)
        ensures
            r == self.file_type(),
    {
        self.selected_file_type
    }

    pub fn select_file_type(&mut self, t: FileType)
        ensures
            final(self).file_type() == t,
            final(self).edited() == old(self).edited(),
    {
        self.selected_file_type = t;
    }

    /// Adds a loaded scene's objects, cameras and lights after the edited
    /// scene's own.
    pub fn load_scene(&mut self, loaded: Scene)
        ensures
            final(self).edited().objects@ == old(self).edited().objects@ + loaded.objects@,
            final(self).edited().cameras@ == old(self).edited().cameras@ + loaded.cameras@,
            final(self).edited().lights@ == old(self).edited().lights@ + loaded.lights@,
            final(self).edited().main_camera_index == old(self).edited().main_camera_index,
            final(self).file_type() == old(self).file_type(),
    {
        self.scene.merge(loaded);
    }
}

} // verus!
