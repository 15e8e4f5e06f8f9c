use planet_viewer::mesh::FxVec3;
use planet_viewer::planet::{PlanetModel, PlanetSettings, Rgba};

#[test]
fn default_planet_settings_values() {
    let s = PlanetSettings::default();
    assert_eq!(s.resolution, 10);
    assert!(s.spherify);
    assert!(!s.wireframe);
    assert_eq!(s.color, Rgba { r: 127, g: 127, b: 153, a: 255 });
}

#[test]
fn new_model_has_six_faces() {
    let m = PlanetModel::new();
    assert_eq!(m.regenerations, 1);
    let faces = m.current_faces();
    assert_eq!(faces.len(), 6);
    for f in faces.iter() {
        assert_eq!(f.positions.len(), 100);
        assert_eq!(f.indices.len(), 6 * 81);
    }
}

#[test]
fn set_parameters_idempotent_no_op() {
    let mut m = PlanetModel::new();
    let mut s = PlanetSettings::default();
    s.resolution = 16;
    m.set_parameters(s);
    assert_eq!(m.regenerations, 2);
    m.set_parameters(s);
    assert_eq!(m.regenerations, 2);
}

#[test]
fn color_change_does_not_regenerate() {
    let mut m = PlanetModel::new();
    let mut s = PlanetSettings::default();
    s.color = Rgba { r: 10, g: 20, b: 30, a: 255 };
    m.set_parameters(s);
    assert_eq!(m.regenerations, 1);
    assert_eq!(m.settings.color, Rgba { r: 10, g: 20, b: 30, a: 255 });
}

#[test]
fn wireframe_change_does_not_regenerate() {
    let mut m = PlanetModel::new();
    let mut s = PlanetSettings::default();
    s.wireframe = true;
    m.set_parameters(s);
    assert_eq!(m.regenerations, 1);
    assert!(m.settings.wireframe);
}

#[test]
fn spherify_change_regenerates() {
    let mut m = PlanetModel::new();
    let mut s = PlanetSettings::default();
    s.spherify = false;
    m.set_parameters(s);
    assert_eq!(m.regenerations, 2);
    // In cube mode the first face's normals are the fixed +Y normal.
    let faces = m.current_faces();
    assert_eq!(faces[0].normals[0], FxVec3 { x: 0, y: 1048576, z: 0 });
}

#[test]
fn degenerate_resolution_is_clamped() {
    let mut m = PlanetModel::new();
    let mut s = PlanetSettings::default();
    s.resolution = 0;
    m.set_parameters(s);
    assert_eq!(m.settings.resolution, 2);
    assert_eq!(m.current_faces()[0].positions.len(), 4);
    let mut s1 = PlanetSettings::default();
    s1.resolution = 1;
    m.set_parameters(s1);
    assert_eq!(m.settings.resolution, 2);
}

#[test]
fn resolution_change_rebuilds_all_faces() {
    let mut m = PlanetModel::new();
    let mut s = PlanetSettings::default();
    s.resolution = 3;
    m.set_parameters(s);
    for f in m.current_faces().iter() {
        assert_eq!(f.positions.len(), 9);
        assert_eq!(f.normals.len(), 9);
        assert_eq!(f.indices.len(), 24);
    }
}
