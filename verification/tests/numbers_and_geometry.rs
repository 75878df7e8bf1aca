use glam::Vec3;
use parry3d::math::Pose as ParryPose;
use parry3d::shape::TriMesh;
use rs_opw_kinematics::constraints::Constraints as EngineConstraints;
use rs_opw_kinematics::jacobian::Jacobian as EngineJacobian;
use rs_opw_kinematics::kinematics_impl::OPWKinematics;
use rs_opw_kinematics::parameters::opw_kinematics::Parameters;
use spherical_wrist::constraints::Constraints;
use spherical_wrist::ieee754::{is_finite64, is_less32, is_less64, is_nan64, is_positive64};
use spherical_wrist::jacobian::Jacobian;
use spherical_wrist::mesh::{joint_mesh_array, Mesh};
use spherical_wrist::validate::{
    tcp_box_to_ranges, tcp_range, validate_angle, validate_collision_index,
    validate_jacobian_epsilon, validate_linear_axis, validate_positive_angle, validate_vector3_values,
    validate_vector6,
};
use std::sync::Arc;

fn b(value: f64) -> u64 {
    value.to_bits()
}

#[test]
fn binary64_classification_matches_the_hardware() {
    let samples = [
        0.0,
        -0.0,
        1.0,
        -1.0,
        f64::MIN_POSITIVE,
        f64::from_bits(1),
        -f64::from_bits(1),
        f64::MAX,
        -f64::MAX,
        f64::INFINITY,
        f64::NEG_INFINITY,
        f64::NAN,
        -f64::NAN,
        f64::from_bits(0x7ff0_0000_0000_0001),
        1.0e300,
        -3.5,
    ];
    for x in samples {
        assert_eq!(is_finite64(b(x)), x.is_finite(), "{x:?}");
        assert_eq!(is_nan64(b(x)), x.is_nan(), "{x:?}");
        assert_eq!(is_positive64(b(x)), x > 0.0, "{x:?}");
        for y in samples {
            assert_eq!(is_less64(b(x), b(y)), x < y, "{x:?} < {y:?}");
            let (fx, fy) = (x as f32, y as f32);
            assert_eq!(is_less32(fx.to_bits(), fy.to_bits()), fx < fy, "{fx:?} < {fy:?}");
        }
    }
}

#[test]
fn scalar_checks_report_the_named_value() {
    assert_eq!(validate_jacobian_epsilon(b(1.0e-6)).unwrap(), b(1.0e-6));
    for eps in [0.0, -1.0e-6, f64::NAN, f64::INFINITY] {
        assert_eq!(validate_jacobian_epsilon(b(eps)).unwrap_err().message(), "epsilon must be positive");
    }
    assert_eq!(validate_angle(b(-720.0), "j6").unwrap(), b(-720.0));
    assert_eq!(validate_angle(b(f64::NAN), "j6").unwrap_err().message(), "j6 must be finite");
    assert_eq!(
        validate_positive_angle(b(0.0), "check_step_rad").unwrap_err().message(),
        "check_step_rad must be positive"
    );
    assert_eq!(validate_positive_angle(b(2.0), "step").unwrap(), b(2.0));
    assert!(validate_collision_index(65_535).is_ok());
    assert_eq!(
        validate_collision_index(65_536).unwrap_err().message(),
        "collision indices must fit in an unsigned 16-bit value"
    );
    assert!(validate_linear_axis(2).is_ok());
    assert_eq!(
        validate_linear_axis(3).unwrap_err().message(),
        "linear axis index must be in the range 0..3"
    );
}

#[test]
fn vectors_must_be_finite() {
    assert!(validate_vector6(&[b(1.0); 6], "twist").is_ok());
    assert_eq!(
        validate_vector6(&[b(1.0), b(1.0), b(1.0), b(1.0), b(1.0), b(f64::NEG_INFINITY)], "twist")
            .unwrap_err()
            .message(),
        "twist values must be finite"
    );
    assert!(validate_vector3_values(&[b(0.0), b(-0.0), b(5.0)], "force").is_ok());
    assert_eq!(
        validate_vector3_values(&[b(f64::NAN), b(0.0), b(0.0)], "force").unwrap_err().message(),
        "force values must be finite"
    );
}

#[test]
fn tcp_ranges_need_finite_ordered_bounds() {
    assert_eq!(tcp_range((b(-1.0), b(1.0)), "x").unwrap(), (b(-1.0), b(1.0)));
    assert_eq!(tcp_range((b(0.5), b(0.5)), "x").unwrap(), (b(0.5), b(0.5)));
    assert_eq!(tcp_range((b(-0.0), b(0.0)), "x").unwrap(), (b(-0.0), b(0.0)));
    assert_eq!(tcp_range((b(0.0), b(-0.0)), "x").unwrap(), (b(0.0), b(-0.0)));
    assert_eq!(
        tcp_range((b(2.0), b(1.0)), "x").unwrap_err().message(),
        "x lower bound must not exceed upper bound"
    );
    assert_eq!(
        tcp_range((b(f64::NAN), b(1.0)), "x").unwrap_err().message(),
        "x values must be finite"
    );
    let good = [(b(-1.0), b(1.0)), (b(-2.0), b(2.0)), (b(0.0), b(3.0))];
    assert_eq!(tcp_box_to_ranges(good).unwrap(), good);
    let mut bad = good;
    bad[1] = (b(3.0), b(2.0));
    bad[2] = (b(f64::INFINITY), b(2.0));
    assert_eq!(
        tcp_box_to_ranges(bad).unwrap_err().message(),
        "tcp_box[1] lower bound must not exceed upper bound"
    );
    bad[1] = good[1];
    assert_eq!(tcp_box_to_ranges(bad).unwrap_err().message(), "tcp_box[2] values must be finite");
}

fn tetrahedron() -> TriMesh {
    TriMesh::new(
        vec![
            Vec3::new(0.0, 0.0, 0.0),
            Vec3::new(1.0, 0.0, 0.0),
            Vec3::new(0.0, 1.0, 0.0),
            Vec3::new(0.0, 0.0, 1.0),
        ],
        vec![[0, 2, 1], [0, 1, 3], [0, 3, 2], [1, 2, 3]],
    )
    .unwrap()
}

#[test]
fn mesh_counts_and_description() {
    let mesh = Mesh::from_parts(Arc::new(tetrahedron()), ParryPose::identity());
    assert_eq!(mesh.vertex_count(), 4);
    assert_eq!(mesh.triangle_count(), 4);
    assert_eq!(mesh.__repr__(), "Mesh(vertex_count=4, triangle_count=4)");
    let copy = mesh.clone_trimesh();
    assert_eq!(copy.vertices().len(), 4);
    assert_eq!(copy.indices(), tetrahedron().indices());

    let mut vertices = Vec::new();
    let mut triangles = Vec::new();
    for i in 0..1234u32 {
        vertices.push(Vec3::new(i as f32, 0.0, 0.0));
        vertices.push(Vec3::new(i as f32, 1.0, 0.0));
        vertices.push(Vec3::new(i as f32, 0.0, 1.0));
        triangles.push([3 * i, 3 * i + 1, 3 * i + 2]);
    }
    let large = Mesh::from_parts(
        Arc::new(TriMesh::new(vertices, triangles).unwrap()),
        ParryPose::identity(),
    );
    assert_eq!(large.__repr__(), "Mesh(vertex_count=3702, triangle_count=1234)");
}

#[test]
fn joint_meshes_must_be_exactly_six() {
    assert_eq!(joint_mesh_array(vec![1, 2, 3, 4, 5, 6]).unwrap(), [1, 2, 3, 4, 5, 6]);
    for n in [0, 5, 7] {
        let meshes: Vec<u8> = (0..n).collect();
        assert_eq!(
            joint_mesh_array(meshes).unwrap_err().message(),
            "joint_meshes must contain exactly 6 meshes"
        );
    }
}

#[test]
fn jacobian_description_names_the_joint_unit() {
    let robot = OPWKinematics::new(Parameters::irb2400_10());
    let joints = [0.1, 0.2, 0.3, 0.4, 0.5, 0.6];
    let jacobian = Jacobian::from_parts(EngineJacobian::new(&robot, &joints, 1.0e-6), true);
    assert_eq!(jacobian.__repr__(), "Jacobian(degrees=true)");
    assert!(jacobian.degrees());
    assert!(jacobian.converts_to_degrees(false));
    assert!(!jacobian.converts_to_degrees(true));
    let expected = *EngineJacobian::new(&robot, &joints, 1.0e-6).matrix().rows();
    assert_eq!(*jacobian.engine_jacobian().matrix().rows(), expected);

    let radians = Jacobian::from_parts(EngineJacobian::new(&robot, &joints, 1.0e-6), false);
    assert_eq!(radians.__repr__(), "Jacobian(degrees=false)");
    assert!(!radians.converts_to_degrees(false));
}

#[test]
fn constraints_are_handed_to_the_engine_unchanged() {
    let engine = EngineConstraints::new([-1.0; 6], [1.0; 6], 0.25);
    let constraints = Constraints::from_engine(engine);
    let back = constraints.to_rs_constraints();
    assert_eq!(back.from, engine.from);
    assert_eq!(back.to, engine.to);
    assert_eq!(back.sorting_weight, 0.25);
}
