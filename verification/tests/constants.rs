//! Tests pinning the typed constants to the published native numeric codes,
//! the sentinel handles to zero, and the clear-mask composition.

use cac_gl_bindings::gl43::{
    Buffer, BufferTarget, BufferUsage, Capability, ClearMask, DebugSeverity, DebugSource,
    DebugType, Primitive, Program, Shader, ShaderKind, VertexArray, VertexAttributeKind,
};

#[test]
fn capability_codes_match_the_native_specification() {
    assert_eq!(Capability::debug_output().raw(), 0x92E0);
}

#[test]
fn buffer_target_codes_match_the_native_specification() {
    assert_eq!(BufferTarget::array_buffer().raw(), 0x8892);
    assert_eq!(BufferTarget::copy_read_buffer().raw(), 0x8F36);
    assert_eq!(BufferTarget::copy_write_buffer().raw(), 0x8F37);
    assert_eq!(BufferTarget::element_array_buffer().raw(), 0x8893);
    assert_eq!(BufferTarget::uniform_buffer().raw(), 0x8A11);
    assert_eq!(BufferTarget::texture_buffer().raw(), 0x8C2A);
    assert_eq!(BufferTarget::shader_storage_buffer().raw(), 0x90D2);
}

#[test]
fn buffer_usage_codes_match_the_native_specification() {
    assert_eq!(BufferUsage::stream_draw().raw(), 0x88E0);
    assert_eq!(BufferUsage::stream_read().raw(), 0x88E1);
    assert_eq!(BufferUsage::stream_copy().raw(), 0x88E2);
    assert_eq!(BufferUsage::static_draw().raw(), 0x88E4);
    assert_eq!(BufferUsage::static_read().raw(), 0x88E5);
    assert_eq!(BufferUsage::static_copy().raw(), 0x88E6);
    assert_eq!(BufferUsage::dynamic_draw().raw(), 0x88E8);
    assert_eq!(BufferUsage::dynamic_read().raw(), 0x88E9);
    assert_eq!(BufferUsage::dynamic_copy().raw(), 0x88EA);
}

#[test]
fn vertex_attribute_kind_codes_match_the_native_specification() {
    assert_eq!(VertexAttributeKind::byte().raw(), 0x1400);
    assert_eq!(VertexAttributeKind::unsigned_byte().raw(), 0x1401);
    assert_eq!(VertexAttributeKind::short().raw(), 0x1402);
    assert_eq!(VertexAttributeKind::unsigned_short().raw(), 0x1403);
    assert_eq!(VertexAttributeKind::integer().raw(), 0x1404);
    assert_eq!(VertexAttributeKind::unsigned_int().raw(), 0x1405);
    assert_eq!(VertexAttributeKind::float().raw(), 0x1406);
}

#[test]
fn clear_mask_codes_match_the_native_specification() {
    assert_eq!(ClearMask::none().raw(), 0);
    assert_eq!(ClearMask::color().raw(), 0x4000);
    assert_eq!(ClearMask::depth().raw(), 0x100);
    assert_eq!(ClearMask::stencil().raw(), 0x400);
}

#[test]
fn clear_mask_all_is_the_or_of_its_components() {
    let composed = ClearMask::color().raw() | ClearMask::depth().raw() | ClearMask::stencil().raw();
    assert_eq!(ClearMask::all().raw(), composed);
    assert_eq!(ClearMask::all().raw(), 0x4500);
}

#[test]
fn clear_mask_combines_by_bitwise_or() {
    let composed = ClearMask::color().combine(ClearMask::depth()).combine(ClearMask::stencil());
    assert_eq!(composed, ClearMask::all());
    assert_eq!(
        ClearMask::color().combine(ClearMask::none()).raw(),
        ClearMask::color().raw()
    );
}

#[test]
fn primitive_codes_match_the_native_specification() {
    assert_eq!(Primitive::triangles().raw(), 0x4);
    assert_eq!(Primitive::triangle_strip().raw(), 0x5);
}

#[test]
fn shader_kind_codes_match_the_native_specification() {
    assert_eq!(ShaderKind::fragment().raw(), 0x8B30);
    assert_eq!(ShaderKind::vertex().raw(), 0x8B31);
}

#[test]
fn debug_source_codes_match_the_native_specification() {
    assert_eq!(DebugSource::api().raw(), 0x8246);
    assert_eq!(DebugSource::window_system().raw(), 0x8247);
    assert_eq!(DebugSource::shader_compiler().raw(), 0x8248);
    assert_eq!(DebugSource::third_party().raw(), 0x8249);
    assert_eq!(DebugSource::application().raw(), 0x824A);
    assert_eq!(DebugSource::other().raw(), 0x824B);
}

#[test]
fn debug_type_codes_match_the_native_specification() {
    assert_eq!(DebugType::error().raw(), 0x824C);
    assert_eq!(DebugType::deprecated_behaviour().raw(), 0x824D);
    assert_eq!(DebugType::undefined_behaviour().raw(), 0x824E);
    assert_eq!(DebugType::portability().raw(), 0x824F);
    assert_eq!(DebugType::performance().raw(), 0x8250);
    assert_eq!(DebugType::other().raw(), 0x8251);
}

#[test]
fn debug_severity_codes_match_the_native_specification() {
    assert_eq!(DebugSeverity::high().raw(), 0x9146);
    assert_eq!(DebugSeverity::medium().raw(), 0x9147);
    assert_eq!(DebugSeverity::low().raw(), 0x9148);
    assert_eq!(DebugSeverity::notification().raw(), 0x826B);
}

#[test]
fn none_sentinel_handles_are_zero() {
    assert_eq!(Shader::none().raw(), 0);
    assert_eq!(Program::none().raw(), 0);
    assert_eq!(VertexArray::none().raw(), 0);
    assert_eq!(Buffer::none().raw(), 0);
}

#[test]
fn handles_round_trip_raw_values() {
    assert_eq!(Shader::from_raw(42).raw(), 42);
    assert_eq!(Program::from_raw(7).raw(), 7);
    assert_eq!(VertexArray::from_raw(u32::MAX).raw(), u32::MAX);
    assert_eq!(Buffer::from_raw(1).raw(), 1);
    assert_eq!(Shader::from_raw(0), Shader::none());
}

#[test]
fn driver_reported_severity_compares_equal_to_the_constant() {
    // A driver message arrives as a raw code; wrapping the "high" code must
    // compare equal to the published "high" severity constant.
    let reported = DebugSeverity::from_raw(0x9146);
    assert_eq!(reported, DebugSeverity::high());
    assert_ne!(reported, DebugSeverity::medium());
    assert_eq!(DebugSource::from_raw(0x8248), DebugSource::shader_compiler());
    assert_eq!(DebugType::from_raw(0x824C), DebugType::error());
}

#[test]
fn debug_categories_describe_themselves() {
    assert_eq!(DebugSource::api().describe(), "API");
    assert_eq!(DebugSource::window_system().describe(), "WINDOW_SYSTEM");
    assert_eq!(DebugSource::shader_compiler().describe(), "SHADER_COMPILER");
    assert_eq!(DebugSource::third_party().describe(), "THIRD_PARTY");
    assert_eq!(DebugSource::application().describe(), "APPLICATION");
    assert_eq!(DebugSource::other().describe(), "OTHER");
    assert_eq!(DebugSource::from_raw(0x1234).describe(), "UNKNOWN");

    assert_eq!(DebugType::error().describe(), "ERROR");
    assert_eq!(DebugType::deprecated_behaviour().describe(), "DEPRECATED");
    assert_eq!(DebugType::undefined_behaviour().describe(), "UNDEFINED_BEHAVIOUR");
    assert_eq!(DebugType::portability().describe(), "PORTABILITY");
    assert_eq!(DebugType::performance().describe(), "PERFORMANCE");
    assert_eq!(DebugType::other().describe(), "OTHER");
    assert_eq!(DebugType::from_raw(0x1234).describe(), "UNKNOWN");
}
