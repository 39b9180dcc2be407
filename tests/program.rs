use luminance_gl_program::bracket::{update_uniforms, ProgramSlot, NO_PROGRAM};
use luminance_gl_program::linker::{attach_order, is_linked, link_failure, link_result, log_capacity};
use luminance_gl_program::marshal::{
    bool_to_int, bools_to_ints, bvec2_to_ivec2, bvec2s_to_ivec2s, bvec3_to_ivec3, bvec3s_to_ivec3s,
    bvec4_to_ivec4, bvec4s_to_ivec4s, element_count, texture_unit_value,
};
use luminance_gl_program::matcher::{
    lookup_type_entry, uniform_type_match, GL_BOOL, GL_BOOL_VEC2, GL_BOOL_VEC3, GL_BOOL_VEC4,
    GL_FLOAT, GL_FLOAT_MAT2, GL_FLOAT_MAT3, GL_FLOAT_MAT4, GL_FLOAT_VEC2, GL_FLOAT_VEC3,
    GL_FLOAT_VEC4, GL_INT, GL_INT_VEC2, GL_INT_VEC3, GL_INT_VEC4, GL_UNSIGNED_INT,
    GL_UNSIGNED_INT_VEC2, GL_UNSIGNED_INT_VEC3, GL_UNSIGNED_INT_VEC4,
};
use luminance_gl_program::resolver::{map_uniform, UniformInfo, INACTIVE_LOCATION};
use luminance_gl_program::types::{Dim, ProgramError, Type, UniformWarning};

const TYPES: [Type; 4] = [Type::Integral, Type::Unsigned, Type::Floating, Type::Boolean];
const DIMS: [Dim; 7] = [Dim::Dim1, Dim::Dim2, Dim::Dim3, Dim::Dim4, Dim::Dim22, Dim::Dim33, Dim::Dim44];

fn table() -> Vec<(Type, Dim, u32, &'static str)> {
    vec![
        (Type::Integral, Dim::Dim1, GL_INT, "int"),
        (Type::Integral, Dim::Dim2, GL_INT_VEC2, "ivec2"),
        (Type::Integral, Dim::Dim3, GL_INT_VEC3, "ivec3"),
        (Type::Integral, Dim::Dim4, GL_INT_VEC4, "ivec4"),
        (Type::Unsigned, Dim::Dim1, GL_UNSIGNED_INT, "uint"),
        (Type::Unsigned, Dim::Dim2, GL_UNSIGNED_INT_VEC2, "uvec2"),
        (Type::Unsigned, Dim::Dim3, GL_UNSIGNED_INT_VEC3, "uvec3"),
        (Type::Unsigned, Dim::Dim4, GL_UNSIGNED_INT_VEC4, "uvec4"),
        (Type::Floating, Dim::Dim1, GL_FLOAT, "float"),
        (Type::Floating, Dim::Dim2, GL_FLOAT_VEC2, "vec2"),
        (Type::Floating, Dim::Dim3, GL_FLOAT_VEC3, "vec3"),
        (Type::Floating, Dim::Dim4, GL_FLOAT_VEC4, "vec4"),
        (Type::Floating, Dim::Dim22, GL_FLOAT_MAT2, "mat2"),
        (Type::Floating, Dim::Dim33, GL_FLOAT_MAT3, "mat3"),
        (Type::Floating, Dim::Dim44, GL_FLOAT_MAT4, "mat4"),
        (Type::Boolean, Dim::Dim1, GL_BOOL, "bool"),
        (Type::Boolean, Dim::Dim2, GL_BOOL_VEC2, "bvec2"),
        (Type::Boolean, Dim::Dim3, GL_BOOL_VEC3, "bvec3"),
        (Type::Boolean, Dim::Dim4, GL_BOOL_VEC4, "bvec4"),
    ]
}

#[test]
fn gl_enum_values() {
    assert_eq!(GL_INT, 0x1404);
    assert_eq!(GL_UNSIGNED_INT_VEC4, 0x8DC8);
    assert_eq!(GL_FLOAT_MAT4, 0x8B5C);
    assert_eq!(GL_BOOL_VEC4, 0x8B59);
}

#[test]
fn matching_type_gives_no_mismatch() {
    for (ty, dim, gl_type, _) in table() {
        assert_eq!(uniform_type_match(1, gl_type, ty, dim), None);
    }
}

#[test]
fn every_other_row_gives_a_mismatch() {
    let rows = table();
    for (ty, dim, _, token) in rows.iter().copied() {
        for (other_ty, other_dim, other_gl, _) in rows.iter().copied() {
            if (other_ty, other_dim) == (ty, dim) {
                continue;
            }
            let expected = format!("requested {} doesn't match", token);
            assert_eq!(uniform_type_match(1, other_gl, ty, dim), Some(expected));
        }
    }
}

#[test]
fn mismatch_message_names_expected_token() {
    assert_eq!(
        uniform_type_match(1, GL_FLOAT, Type::Integral, Dim::Dim2),
        Some("requested ivec2 doesn't match".to_string())
    );
    assert_eq!(
        uniform_type_match(1, GL_INT, Type::Floating, Dim::Dim44),
        Some("requested mat4 doesn't match".to_string())
    );
}

#[test]
fn pairs_outside_the_table_are_never_checked() {
    for ty in [Type::Integral, Type::Unsigned, Type::Boolean] {
        for dim in [Dim::Dim22, Dim::Dim33, Dim::Dim44] {
            assert_eq!(lookup_type_entry(ty, dim), None);
            assert_eq!(uniform_type_match(1, GL_FLOAT, ty, dim), None);
        }
    }
}

#[test]
fn arrays_are_never_reported() {
    for ty in TYPES {
        for dim in DIMS {
            for size in [0, 2, 16, -1] {
                assert_eq!(uniform_type_match(size, GL_INT, ty, dim), None);
                assert_eq!(uniform_type_match(size, GL_BOOL_VEC3, ty, dim), None);
            }
        }
    }
}

#[test]
fn inactive_uniform_gives_sentinel_and_inactive_warning() {
    for ty in TYPES {
        for dim in DIMS {
            let (loc, warning) = map_uniform("missing", INACTIVE_LOCATION, None, ty, dim);
            assert_eq!(loc, -1);
            match warning {
                Some(UniformWarning::Inactive(name)) => assert_eq!(name, "missing"),
                other => panic!("unexpected warning {:?}", other),
            }
        }
    }
}

#[test]
fn active_uniform_with_matching_type() {
    let info = UniformInfo { size: 1, gl_type: GL_FLOAT_VEC3 };
    let (loc, warning) = map_uniform("color", 4, Some(info), Type::Floating, Dim::Dim3);
    assert_eq!(loc, 4);
    assert!(warning.is_none());
}

#[test]
fn active_uniform_with_mismatched_type() {
    let info = UniformInfo { size: 1, gl_type: GL_INT };
    let (loc, warning) = map_uniform("flag", 7, Some(info), Type::Boolean, Dim::Dim1);
    assert_eq!(loc, 7);
    match warning {
        Some(UniformWarning::TypeMismatch(d)) => assert_eq!(d, "requested bool doesn't match"),
        other => panic!("unexpected warning {:?}", other),
    }
}

#[test]
fn array_uniform_resolves_without_warning() {
    let info = UniformInfo { size: 8, gl_type: GL_FLOAT };
    let (loc, warning) = map_uniform("weights", 2, Some(info), Type::Integral, Dim::Dim4);
    assert_eq!(loc, 2);
    assert!(warning.is_none());
}

#[test]
fn resolving_twice_gives_the_same_answer() {
    let info = UniformInfo { size: 1, gl_type: GL_UNSIGNED_INT };
    let first = map_uniform("count", 3, Some(info), Type::Integral, Dim::Dim1);
    let second = map_uniform("count", 3, Some(info), Type::Integral, Dim::Dim1);
    assert_eq!(first.0, second.0);
    assert_eq!(format!("{:?}", first.1), format!("{:?}", second.1));
    let a = map_uniform("gone", INACTIVE_LOCATION, None, Type::Floating, Dim::Dim1);
    let b = map_uniform("gone", INACTIVE_LOCATION, None, Type::Floating, Dim::Dim1);
    assert_eq!(a.0, b.0);
    assert_eq!(format!("{:?}", a.1), format!("{:?}", b.1));
}

#[test]
fn boolean_sequence_round_trip() {
    assert_eq!(bools_to_ints(&[true, false, true]), vec![1, 0, 1]);
    assert_eq!(bools_to_ints(&[]), Vec::<i32>::new());
}

#[test]
fn boolean_scalars_and_vectors() {
    assert_eq!(bool_to_int(true), 1);
    assert_eq!(bool_to_int(false), 0);
    assert_eq!(bvec2_to_ivec2([false, true]), [0, 1]);
    assert_eq!(bvec3_to_ivec3([true, true, false]), [1, 1, 0]);
    assert_eq!(bvec4_to_ivec4([true, false, false, true]), [1, 0, 0, 1]);
}

#[test]
fn boolean_vector_sequences() {
    assert_eq!(bvec2s_to_ivec2s(&[[true, false], [false, false]]), vec![[1, 0], [0, 0]]);
    assert_eq!(bvec3s_to_ivec3s(&[[false, true, true]]), vec![[0, 1, 1]]);
    assert_eq!(
        bvec4s_to_ivec4s(&[[true, true, true, true], [false, true, false, true]]),
        vec![[1, 1, 1, 1], [0, 1, 0, 1]]
    );
    assert!(bvec4s_to_ivec4s(&[]).is_empty());
}

#[test]
fn texture_unit_is_sent_as_int() {
    assert_eq!(texture_unit_value(0), 0);
    assert_eq!(texture_unit_value(5), 5);
    assert_eq!(texture_unit_value(u32::MAX), -1);
}

#[test]
fn element_counts_are_never_truncated() {
    assert_eq!(element_count(0), Some(0));
    assert_eq!(element_count(3), Some(3));
    assert_eq!(element_count(i32::MAX as usize), Some(i32::MAX));
    assert_eq!(element_count(i32::MAX as usize + 1), None);
}

#[test]
fn attach_order_with_all_stages() {
    assert_eq!(attach_order(Some((1, 2)), 3, Some(4), 5), vec![1, 2, 3, 4, 5]);
}

#[test]
fn attach_order_with_vertex_and_fragment_only() {
    assert_eq!(attach_order(None, 10, None, 11), vec![10, 11]);
    assert_eq!(attach_order(None, 10, Some(12), 11), vec![10, 12, 11]);
    assert_eq!(attach_order(Some((7, 8)), 10, None, 11), vec![7, 8, 10, 11]);
}

#[test]
fn link_status() {
    assert!(is_linked(1));
    assert!(!is_linked(0));
}

#[test]
fn successful_link_returns_the_program() {
    match link_result(42, 1, Vec::new()) {
        Some(Ok(p)) => assert_eq!(p, 42),
        other => panic!("unexpected outcome {:?}", other),
    }
}

#[test]
fn failed_link_carries_the_log() {
    let log = b"0:3(1): error: syntax error\n".to_vec();
    match link_result(42, 0, log) {
        Some(Err(ProgramError::LinkFailed(text))) => {
            assert_eq!(text, "0:3(1): error: syntax error\n");
            assert!(!text.is_empty());
        }
        other => panic!("unexpected outcome {:?}", other),
    }
}

#[test]
fn link_log_that_is_not_text() {
    assert!(link_failure(vec![0xff, 0xfe, 0x41]).is_none());
    assert!(link_result(9, 0, vec![0xc3]).is_none());
    match link_failure(Vec::new()) {
        Some(ProgramError::LinkFailed(text)) => assert!(text.is_empty()),
        None => panic!("empty log must decode"),
    }
}

#[test]
fn log_capacity_of_reported_lengths() {
    assert_eq!(log_capacity(0), 0);
    assert_eq!(log_capacity(128), 128);
    assert_eq!(log_capacity(-4), 0);
}

#[test]
fn bracket_binds_then_clears() {
    let mut slot = ProgramSlot::new();
    let r: Result<u32, ()> = update_uniforms(&mut slot, 5, || Ok(17));
    assert_eq!(r, Ok(17));
    assert_eq!(slot.current(), NO_PROGRAM);
    assert_eq!(slot.binds(), &vec![5, 0]);
}

#[test]
fn bracket_clears_when_updates_fail() {
    let mut slot = ProgramSlot::new();
    let r: Result<(), &str> = update_uniforms(&mut slot, 9, || Err("upload failed"));
    assert_eq!(r, Err("upload failed"));
    assert_eq!(slot.current(), NO_PROGRAM);
    assert_eq!(slot.binds(), &vec![9, 0]);
    let again: Result<(), &str> = update_uniforms(&mut slot, 3, || Ok(()));
    assert!(again.is_ok());
    assert_eq!(slot.binds(), &vec![9, 0, 3, 0]);
}
