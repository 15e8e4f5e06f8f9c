//! The planet: six face meshes, their generation parameters, and the shared
//! material state.
//!
//! The model owns one mesh per cube face and rebuilds all six whenever a
//! geometry parameter (resolution or spherify) changes.  A change of color
//! or of the wireframe flag only updates the shared material state and never
//! triggers a rebuild.

use crate::fx::clamp_spec;
use crate::mesh::{Face, FaceMesh, build_face_mesh, is_face_mesh};
use vstd::prelude::*;

verus! {

/// The smallest accepted grid resolution: below two the grid has no cell
/// and the coordinate divisor `resolution - 1` would vanish.
pub const MIN_RESOLUTION: u32 = 2;

/// The largest accepted grid resolution: keeps `resolution * resolution`
/// vertex indices inside the 32-bit index format.
pub const MAX_RESOLUTION: u32 = 65535;

/// An sRGB color with alpha, eight bits per channel (the granularity of the
/// editor's color picker).
#[derive(Clone, Copy, PartialEq, Eq, Structural, Debug)]
pub struct Rgba {
    pub r: u8,
    pub g: u8,
    pub b: u8,
    pub a: u8,
}

/// The generation parameters of the planet.
#[derive(Clone, Copy, PartialEq, Eq, Structural, Debug)]
pub struct PlanetSettings {
    pub resolution: u32,
    pub spherify: bool,
    pub wireframe: bool,
    pub color: Rgba,
}

/// The parameters the planet starts with: a sphere of resolution ten with a
/// bluish gray base color.
pub open spec fn default_settings() -> PlanetSettings {
    (PlanetSettings {
        resolution: 10,
        spherify: true,
        wireframe: false,
        color: Rgba { r: 127, g: 127, b: 153, a: 255 },
    })
}

impl Default for PlanetSettings {
    /// The parameters the planet starts with.
    fn default() -> (s: Self)
        ensures
            s == default_settings(),
    {
        PlanetSettings {
            resolution: 10,
            spherify: true,
            wireframe: false,
            color: Rgba { r: 127, g: 127, b: 153, a: 255 },
        }
    }
}

/// The face built at slot `k` of the model, in the fixed build order.
pub open spec fn face_at(k: int) -> Face {
    if k == 0 {
        Face::YPos
    } else if k == 1 {
        Face::YNeg
    } else if k == 2 {
        Face::XNeg
    } else if k == 3 {
        Face::XPos
    } else if k == 4 {
        Face::ZPos
    } else {
        Face::ZNeg
    }
}

/// The face built at slot `k`, executable form.
fn face_of_index(k: usize) -> (f: Face)
    requires
        k < 6,
    ensures
        f == face_at(k as int),
{
    if k == 0 {
        Face::YPos
    } else if k == 1 {
        Face::YNeg
    } else if k == 2 {
        Face::XNeg
    } else if k == 3 {
        Face::XPos
    } else if k == 4 {
        Face::ZPos
    } else {
        Face::ZNeg
    }
}

/// Incoming parameters with the resolution clamped into the accepted range.
pub open spec fn applied_settings(s: PlanetSettings) -> PlanetSettings {
    (PlanetSettings {
        resolution: clamp_spec(
            s.resolution as int,
            MIN_RESOLUTION as int,
            MAX_RESOLUTION as int,
        ) as u32,
        spherify: s.spherify,
        wireframe: s.wireframe,
        color: s.color,
    })
}

/// Whether applying `s` on top of the stored parameters `stored` leaves the
/// geometry (resolution and spherify) as it is.  Color and wireframe do not
/// count: they never force a rebuild.
pub open spec fn geometry_unchanged(stored: PlanetSettings, s: PlanetSettings) -> bool {
    applied_settings(s).resolution == stored.resolution && s.spherify == stored.spherify
}

/// The rebuild counter after one more rebuild (saturating at its cap).
pub open spec fn next_count(c: u64) -> u64 {
    if c < u64::MAX {
        (c + 1) as u64
    } else {
        c
    }
}

/// The planet model: the stored parameters, one mesh per cube face, and a
/// counter of how many times the six faces were (re)built.
pub struct PlanetModel {
    pub settings: PlanetSettings,
    pub faces: Vec<FaceMesh>,
    pub regenerations: u64,
}

impl PlanetModel {
    /// The model is well formed: the resolution is in range and each of the
    /// six slots holds exactly the mesh of its face for the stored
    /// parameters.
    pub open spec fn wf(&self) -> bool {
        &&& MIN_RESOLUTION <= self.settings.resolution <= MAX_RESOLUTION
        &&& self.faces@.len() == 6
        &&& forall|k: int|
            0 <= k < 6 ==> is_face_mesh(
                #[trigger] self.faces@[k],
                face_at(k),
                self.settings.resolution as int,
                self.settings.spherify,
            )
    }

    /// Build six fresh face meshes for the given parameters.
    fn build_faces(resolution: u32, spherify: bool) -> (faces: Vec<FaceMesh>)
        requires
            MIN_RESOLUTION <= resolution <= MAX_RESOLUTION,
        ensures
            faces@.len() == 6,
            forall|k: int|
                0 <= k < 6 ==> is_face_mesh(
                    #[trigger] faces@[k],
                    face_at(k),
                    resolution as int,
                    spherify,
                ),
    {
        let mut faces: Vec<FaceMesh> = Vec::new();
        for k in 0..6usize
            invariant
                MIN_RESOLUTION <= resolution <= MAX_RESOLUTION,
                faces@.len() == k,
                forall|j: int|
                    0 <= j < k ==> is_face_mesh(
                        #[trigger] faces@[j],
                        face_at(j),
                        resolution as int,
                        spherify,
                    ),
        {
            let face = face_of_index(k);
            faces.push(build_face_mesh(resolution, face, spherify));
        }
        faces
    }

    /// A fresh planet with the default parameters and its six faces built
    /// once.
    pub fn new() -> (m: PlanetModel)
        ensures
            m.wf(),
            m.settings == default_settings(),
            m.regenerations == 1,
    {
        let settings = PlanetSettings::default();
        let faces = Self::build_faces(settings.resolution, settings.spherify);
        PlanetModel { settings, faces, regenerations: 1 }
    }

    /// Store new parameters.  If they change the geometry (resolution after
    /// clamping, or spherify) all six faces are rebuilt and the rebuild
    /// counter advances; otherwise the faces and the counter stay untouched.
    /// Color and wireframe changes are stored without any rebuild.
    pub fn set_parameters(&mut self, s: PlanetSettings)
        requires
            old(self).wf(),
        ensures
            final(self).wf(),
            final(self).settings == applied_settings(s),
            geometry_unchanged(old(self).settings, s) ==> final(self).faces == old(self).faces
                && final(self).regenerations == old(self).regenerations,
            !geometry_unchanged(old(self).settings, s) ==> final(self).regenerations
                == next_count(old(self).regenerations),
    {
        let resolution = if s.resolution < MIN_RESOLUTION {
            MIN_RESOLUTION
        } else if s.resolution > MAX_RESOLUTION {
            MAX_RESOLUTION
        } else {
            s.resolution
        };
        let geometry_changed = resolution != self.settings.resolution || s.spherify
            != self.settings.spherify;
        self.settings = PlanetSettings {
            resolution,
            spherify: s.spherify,
            wireframe: s.wireframe,
            color: s.color,
        };
        if geometry_changed {
            self.faces = Self::build_faces(resolution, s.spherify);
            self.regenerations = if self.regenerations < u64::MAX {
                self.regenerations + 1
            } else {
                self.regenerations
            };
        }
    }

    /// The six face meshes, one per cube face in the fixed build order.
    pub fn current_faces(&self) -> (faces: &Vec<FaceMesh>)
        ensures
            faces == &self.faces,
    {
        &self.faces
    }
}

/// Applying the same parameters a second time never touches the geometry:
/// after one application of `s`, another application of `s` finds the
/// geometry unchanged, so by [`PlanetModel::set_parameters`]'s contract the
/// second call leaves the faces and the rebuild counter exactly as they
/// were — the two calls cause at most one rebuild.
pub proof fn lemma_second_application_is_noop(s: PlanetSettings)
    ensures
        geometry_unchanged(applied_settings(s), s),
{
}

} // verus!
