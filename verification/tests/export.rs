//! The artifact: its names and its text, with meshes made by `csgrs`.

use csgrs::csg::CSG;
use csgrs::float_types::CLOSED;
use csgrs::polygon::Polygon;
use csgrs::vertex::Vertex;
use loft_profiles::circle::{generate_circle, START_EIGHTHS};
use loft_profiles::driver::{check_pair, plan_loft};
use loft_profiles::export::{assemble_artifact, export_stl, name_artifact};
use loft_profiles::square::generate_square;
use nalgebra::{Point3, Vector3};

fn square_vertices(half_size: f64, z: f64, segments: u64) -> Vec<Vertex> {
    generate_square(segments)
        .iter()
        .map(|v| {
            let t = v.step as f64 / v.steps as f64;
            let travel = t * (2.0 * half_size);
            let (cx, cy) = v.side.start_corner();
            let (dx, dy) = v.side.direction();
            let (nx, ny, nz) = v.normal();
            Vertex::new(
                Point3::new(
                    cx as f64 * half_size + dx as f64 * travel,
                    cy as f64 * half_size + dy as f64 * travel,
                    z,
                ),
                Vector3::new(nx as f64, ny as f64, nz as f64),
            )
        })
        .collect()
}

fn circle_vertices(radius: f64, z: f64, segments: u64) -> Vec<Vertex> {
    generate_circle(segments)
        .iter()
        .map(|v| {
            let start_angle = START_EIGHTHS as f64 * std::f64::consts::PI / 4.0;
            let angle =
                start_angle + 2.0 * std::f64::consts::PI * (v.step as f64) / (v.steps as f64);
            Vertex::new(
                Point3::new(radius * angle.cos(), radius * angle.sin(), z),
                Vector3::new(angle.cos(), angle.sin(), 0.0),
            )
        })
        .collect()
}

fn loft(segments: u64) -> CSG<()> {
    let square = square_vertices(1.1985, 0.0, segments);
    let circle = circle_vertices(2.0, 20.0, segments);
    assert_eq!(check_pair(square.len(), circle.len()), Ok(()));
    let bottom: Polygon<()> = Polygon::new(square, CLOSED, None);
    let top: Polygon<()> = Polygon::new(circle, CLOSED, None);
    CSG::extrude_between(&bottom, &top, false)
}

#[test]
fn artifact_names_carry_the_segment_count() {
    assert_eq!(name_artifact(48), "csgrs-logfting_segments-48");
    assert_eq!(name_artifact(4), "csgrs-logfting_segments-4");
    assert_eq!(name_artifact(0), "csgrs-logfting_segments-0");
    assert_eq!(
        name_artifact(u64::MAX),
        "csgrs-logfting_segments-18446744073709551615"
    );
}

#[test]
fn artifacts_are_assembled_under_their_names() {
    let a = assemble_artifact(52, "solid x\nendsolid x\n".to_string());
    assert_eq!(a.name, "csgrs-logfting_segments-52");
    assert_eq!(a.file_name, "csgrs-logfting_segments-52.stl");
    assert_eq!(a.text, "solid x\nendsolid x\n");
}

#[test]
fn an_empty_mesh_is_an_empty_solid() {
    let mesh: CSG<()> = CSG::new();
    let a = export_stl(&mesh, 4);
    assert_eq!(a.name, "csgrs-logfting_segments-4");
    assert_eq!(a.file_name, "csgrs-logfting_segments-4.stl");
    assert_eq!(
        a.text,
        "solid csgrs-logfting_segments-4\nendsolid csgrs-logfting_segments-4\n"
    );
}

#[test]
fn a_loft_of_four_segments_is_rendered_facet_by_facet() {
    let mesh = loft(4);
    let a = export_stl(&mesh, 4);
    assert!(a.text.starts_with("solid csgrs-logfting_segments-4\n  facet normal "));
    assert!(a.text.ends_with("  endfacet\nendsolid csgrs-logfting_segments-4\n"));
    // two caps of two triangles each, four side walls of two triangles each
    assert_eq!(a.text.matches("facet normal").count(), 12);
    assert_eq!(a.text.matches("outer loop").count(), 12);
    assert_eq!(a.text.matches("      vertex ").count(), 36);
    assert!(a.text.contains("      vertex -1.198500 -1.198500 0.000000\n"));
    assert!(a.text.contains("      vertex -1.414214 -1.414214 20.000000\n"));
}

#[test]
fn the_facets_do_not_depend_on_the_name() {
    let mesh = loft(8);
    let a = export_stl(&mesh, 8);
    let b = export_stl(&mesh, 12);
    let facets_a = a
        .text
        .strip_prefix("solid csgrs-logfting_segments-8\n")
        .and_then(|t| t.strip_suffix("endsolid csgrs-logfting_segments-8\n"))
        .unwrap();
    let facets_b = b
        .text
        .strip_prefix("solid csgrs-logfting_segments-12\n")
        .and_then(|t| t.strip_suffix("endsolid csgrs-logfting_segments-12\n"))
        .unwrap();
    assert_eq!(facets_a, facets_b);
    assert!(!facets_a.is_empty());
}

#[test]
fn a_run_for_forty_eight_segments_leaves_its_artifact() {
    let plan = plan_loft(Some("48")).unwrap();
    assert_eq!(plan.square.len(), 48);
    assert_eq!(plan.circle.len(), 48);
    let mesh = loft(plan.segments);
    assert_eq!(mesh.polygons.len(), 50);
    let a = export_stl(&mesh, plan.segments);
    assert_eq!(a.file_name, "csgrs-logfting_segments-48.stl");
    assert!(!a.text.is_empty());
    assert!(a.text.starts_with("solid csgrs-logfting_segments-48\n"));
    assert!(a.text.ends_with("endsolid csgrs-logfting_segments-48\n"));
    // 46 triangles in each cap and two in each of the 48 side walls
    assert_eq!(a.text.matches("facet normal").count(), 2 * 46 + 2 * 48);
}

#[test]
fn a_run_without_a_count_leaves_nothing() {
    assert!(plan_loft(None).is_err());
    assert!(!plan_loft(None).unwrap_err().is_fatal());
}
