use azul_gl::{AzString, GlCommand, MatrixValues, Uniform, UniformType};

fn bits(value: f32) -> u32 {
    value.to_bits()
}

#[test]
fn scalar_and_vector_numbers_use_the_call_of_their_size() {
    assert_eq!(
        UniformType::Float(bits(0.5)).set(3),
        GlCommand::Uniform1f { location: 3, v0: bits(0.5) }
    );
    assert_eq!(
        UniformType::FloatVec2([bits(1.0), bits(2.0)]).set(4),
        GlCommand::Uniform2f { location: 4, v0: bits(1.0), v1: bits(2.0) }
    );
    assert_eq!(
        UniformType::FloatVec3([bits(1.0), bits(2.0), bits(3.0)]).set(5),
        GlCommand::Uniform3f { location: 5, v0: bits(1.0), v1: bits(2.0), v2: bits(3.0) }
    );
    assert_eq!(
        UniformType::FloatVec4([bits(1.0), bits(2.0), bits(3.0), bits(4.0)]).set(-1),
        GlCommand::Uniform4f {
            location: -1,
            x: bits(1.0),
            y: bits(2.0),
            z: bits(3.0),
            w: bits(4.0)
        }
    );
}

#[test]
fn signed_integers_use_the_call_of_their_size() {
    assert_eq!(UniformType::Int(-7).set(0), GlCommand::Uniform1i { location: 0, v0: -7 });
    assert_eq!(
        UniformType::IntVec2([1, -2]).set(1),
        GlCommand::Uniform2i { location: 1, v0: 1, v1: -2 }
    );
    assert_eq!(
        UniformType::IntVec3([1, 2, 3]).set(2),
        GlCommand::Uniform3i { location: 2, v0: 1, v1: 2, v2: 3 }
    );
    assert_eq!(
        UniformType::IntVec4([1, 2, 3, i32::MIN]).set(3),
        GlCommand::Uniform4i { location: 3, x: 1, y: 2, z: 3, w: i32::MIN }
    );
}

#[test]
fn unsigned_integers_use_the_call_of_their_size() {
    assert_eq!(UniformType::UnsignedInt(7).set(0), GlCommand::Uniform1ui { location: 0, v0: 7 });
    assert_eq!(
        UniformType::UnsignedIntVec2([1, 2]).set(1),
        GlCommand::Uniform2ui { location: 1, v0: 1, v1: 2 }
    );
    assert_eq!(
        UniformType::UnsignedIntVec3([1, 2, 3]).set(2),
        GlCommand::Uniform3ui { location: 2, v0: 1, v1: 2, v2: 3 }
    );
    assert_eq!(
        UniformType::UnsignedIntVec4([1, 2, 3, u32::MAX]).set(3),
        GlCommand::Uniform4ui { location: 3, x: 1, y: 2, z: 3, w: u32::MAX }
    );
}

#[test]
fn every_matrix_goes_through_the_two_by_two_call() {
    let m2 = [bits(1.0), bits(0.0), bits(0.0), bits(1.0)];
    assert_eq!(
        UniformType::Matrix2 { transpose: false, matrix: m2 }.set(9),
        GlCommand::UniformMatrix2fv { location: 9, transpose: false, value: MatrixValues::M2(m2) }
    );
    let mut m3 = [0u32; 9];
    for (i, slot) in m3.iter_mut().enumerate() {
        *slot = bits(i as f32);
    }
    assert_eq!(
        UniformType::Matrix3 { transpose: true, matrix: m3 }.set(9),
        GlCommand::UniformMatrix2fv { location: 9, transpose: true, value: MatrixValues::M3(m3) }
    );
    let mut m4 = [0u32; 16];
    for (i, slot) in m4.iter_mut().enumerate() {
        *slot = bits(i as f32 * 0.25);
    }
    assert_eq!(
        UniformType::Matrix4 { transpose: false, matrix: m4 }.set(10),
        GlCommand::UniformMatrix2fv {
            location: 10,
            transpose: false,
            value: MatrixValues::M4(m4)
        }
    );
}

#[test]
fn same_values_are_the_same() {
    let values = [
        UniformType::Float(1),
        UniformType::FloatVec2([1, 2]),
        UniformType::FloatVec3([1, 2, 3]),
        UniformType::FloatVec4([1, 2, 3, 4]),
        UniformType::Int(1),
        UniformType::IntVec2([1, 2]),
        UniformType::IntVec3([1, 2, 3]),
        UniformType::IntVec4([1, 2, 3, 4]),
        UniformType::UnsignedInt(1),
        UniformType::UnsignedIntVec2([1, 2]),
        UniformType::UnsignedIntVec3([1, 2, 3]),
        UniformType::UnsignedIntVec4([1, 2, 3, 4]),
        UniformType::Matrix2 { transpose: false, matrix: [1; 4] },
        UniformType::Matrix3 { transpose: false, matrix: [1; 9] },
        UniformType::Matrix4 { transpose: false, matrix: [1; 16] },
    ];
    for (i, a) in values.iter().enumerate() {
        for (j, b) in values.iter().enumerate() {
            assert_eq!(a.same_as(b), i == j);
            assert_eq!(a == b, i == j);
        }
    }
}

#[test]
fn values_that_differ_in_one_component_are_not_the_same() {
    assert!(!UniformType::FloatVec3([1, 2, 3]).same_as(&UniformType::FloatVec3([1, 2, 4])));
    assert!(!UniformType::IntVec4([1, 2, 3, 4]).same_as(&UniformType::IntVec4([0, 2, 3, 4])));
    assert!(!UniformType::UnsignedIntVec2([1, 2]).same_as(&UniformType::UnsignedIntVec2([1, 3])));
    let mut other = [5u32; 16];
    other[15] = 6;
    assert!(!UniformType::Matrix4 { transpose: true, matrix: [5; 16] }
        .same_as(&UniformType::Matrix4 { transpose: true, matrix: other }));
    assert!(!UniformType::Matrix2 { transpose: true, matrix: [5; 4] }
        .same_as(&UniformType::Matrix2 { transpose: false, matrix: [5; 4] }));
}

#[test]
fn numbers_are_compared_bit_for_bit() {
    assert!(!UniformType::Float(bits(0.0)).same_as(&UniformType::Float(bits(-0.0))));
    assert!(UniformType::Float(bits(f32::NAN)).same_as(&UniformType::Float(bits(f32::NAN))));
}

#[test]
fn a_uniform_keeps_its_name_and_value() {
    let uniform = Uniform::new(AzString::from_str("vBboxSize"), UniformType::IntVec2([800, 600]));
    assert_eq!(uniform.name.as_str(), "vBboxSize");
    assert_eq!(uniform.uniform_type, UniformType::IntVec2([800, 600]));
}
