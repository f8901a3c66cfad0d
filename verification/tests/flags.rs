use ray_marcher::rendering::flags::{BufferUsages, ShaderStages, TextureUsages};
use ray_marcher::rendering::flags::{
    BUFFER_INDEX, BUFFER_VERTEX, STAGE_ALL, STAGE_COMPUTE, STAGE_FRAGMENT, STAGE_VERTEX, TEXTURE_BINDING,
    TEXTURE_COPY_DST, TEXTURE_COPY_SRC, TEXTURE_RENDER_ATTACHMENT, TEXTURE_STORAGE_BINDING,
};

#[test]
fn texture_usage_flags_have_their_bits() {
    assert_eq!(TextureUsages::copy_src().bits, 0x01);
    assert_eq!(TextureUsages::copy_dst().bits, 0x02);
    assert_eq!(TextureUsages::texture_binding().bits, 0x04);
    assert_eq!(TextureUsages::storage_binding().bits, 0x08);
    assert_eq!(TextureUsages::render_attachment().bits, 0x10);
}

#[test]
fn texture_usage_flags_equal_the_named_constants() {
    assert_eq!(TextureUsages::copy_src().bits, TEXTURE_COPY_SRC);
    assert_eq!(TextureUsages::copy_dst().bits, TEXTURE_COPY_DST);
    assert_eq!(TextureUsages::texture_binding().bits, TEXTURE_BINDING);
    assert_eq!(TextureUsages::storage_binding().bits, TEXTURE_STORAGE_BINDING);
    assert_eq!(TextureUsages::render_attachment().bits, TEXTURE_RENDER_ATTACHMENT);
}

#[test]
fn texture_usage_flags_are_those_of_the_graphics_api() {
    assert_eq!(
        wgpu::TextureUsages::from_bits(TextureUsages::copy_src().bits),
        Some(wgpu::TextureUsages::COPY_SRC)
    );
    assert_eq!(
        wgpu::TextureUsages::from_bits(TextureUsages::copy_dst().bits),
        Some(wgpu::TextureUsages::COPY_DST)
    );
    assert_eq!(
        wgpu::TextureUsages::from_bits(TextureUsages::texture_binding().bits),
        Some(wgpu::TextureUsages::TEXTURE_BINDING)
    );
    assert_eq!(
        wgpu::TextureUsages::from_bits(TextureUsages::storage_binding().bits),
        Some(wgpu::TextureUsages::STORAGE_BINDING)
    );
    assert_eq!(
        wgpu::TextureUsages::from_bits(TextureUsages::render_attachment().bits),
        Some(wgpu::TextureUsages::RENDER_ATTACHMENT)
    );
}

#[test]
fn texture_usage_flags_are_distinct_single_bits() {
    let flags = [
        TextureUsages::copy_src().bits,
        TextureUsages::copy_dst().bits,
        TextureUsages::texture_binding().bits,
        TextureUsages::storage_binding().bits,
        TextureUsages::render_attachment().bits,
    ];
    for (i, a) in flags.iter().enumerate() {
        assert_eq!(a.count_ones(), 1);
        for b in flags.iter().skip(i + 1) {
            assert_ne!(a, b);
        }
    }
}

#[test]
fn union_holds_the_flags_of_both() {
    let both = TextureUsages::copy_src().union(TextureUsages::storage_binding());
    assert_eq!(both.bits, 0x09);
    assert!(both.contains(TextureUsages::copy_src()));
    assert!(both.contains(TextureUsages::storage_binding()));
    assert!(!both.contains(TextureUsages::copy_dst()));
    assert!(!both.contains(TextureUsages::texture_binding()));
    assert!(!both.contains(TextureUsages::render_attachment()));
}

#[test]
fn union_with_itself_and_with_nothing_changes_nothing() {
    let usage = TextureUsages::copy_dst();
    assert_eq!(usage.union(usage), usage);
    assert_eq!(usage.union(TextureUsages { bits: 0 }), usage);
    assert_eq!(TextureUsages { bits: 0 }.union(usage), usage);
}

#[test]
fn union_is_the_bitwise_or_of_any_two_sets() {
    let a = TextureUsages { bits: 0x15 };
    let b = TextureUsages { bits: 0x0c };
    assert_eq!(a.union(b).bits, 0x1d);
    assert_eq!(b.union(a).bits, 0x1d);
    assert_eq!(TextureUsages { bits: u32::MAX }.union(a).bits, u32::MAX);
}

#[test]
fn every_set_contains_the_empty_set_and_itself() {
    let empty = TextureUsages { bits: 0 };
    let usage = TextureUsages { bits: 0x13 };
    assert!(usage.contains(empty));
    assert!(usage.contains(usage));
    assert!(empty.contains(empty));
    assert!(!empty.contains(usage));
}

#[test]
fn contains_asks_for_every_flag() {
    let usage = TextureUsages { bits: 0x03 };
    assert!(usage.contains(TextureUsages { bits: 0x01 }));
    assert!(usage.contains(TextureUsages { bits: 0x02 }));
    assert!(!usage.contains(TextureUsages { bits: 0x07 }));
    assert!(!usage.contains(TextureUsages { bits: 0x04 }));
}

#[test]
fn shader_stages_have_their_bits() {
    assert_eq!(ShaderStages::fragment().bits, 0x02);
    assert_eq!(ShaderStages::compute().bits, 0x04);
    assert_eq!(ShaderStages::all().bits, 0x07);
    assert_eq!(ShaderStages::fragment().bits, STAGE_FRAGMENT);
    assert_eq!(ShaderStages::compute().bits, STAGE_COMPUTE);
    assert_eq!(ShaderStages::all().bits, STAGE_ALL);
    assert_eq!(STAGE_VERTEX, 0x01);
}

#[test]
fn shader_stages_are_those_of_the_graphics_api() {
    assert_eq!(
        wgpu::ShaderStages::from_bits(ShaderStages::fragment().bits),
        Some(wgpu::ShaderStages::FRAGMENT)
    );
    assert_eq!(
        wgpu::ShaderStages::from_bits(ShaderStages::compute().bits),
        Some(wgpu::ShaderStages::COMPUTE)
    );
    assert_eq!(wgpu::ShaderStages::from_bits(ShaderStages::all().bits), Some(wgpu::ShaderStages::all()));
    assert_eq!(wgpu::ShaderStages::VERTEX.bits(), STAGE_VERTEX);
}

#[test]
fn all_stages_are_vertex_fragment_and_compute() {
    let all = ShaderStages::all();
    assert_eq!(all.bits, STAGE_VERTEX | STAGE_FRAGMENT | STAGE_COMPUTE);
    assert!(all.contains(ShaderStages { bits: STAGE_VERTEX }));
    assert!(all.contains(ShaderStages::fragment()));
    assert!(all.contains(ShaderStages::compute()));
    assert!(!ShaderStages::compute().contains(ShaderStages::fragment()));
    assert!(!ShaderStages::fragment().contains(ShaderStages::compute()));
    assert!(!ShaderStages::compute().contains(all));
}

#[test]
fn buffer_usage_flags_have_their_bits() {
    assert_eq!(BufferUsages::index().bits, 0x10);
    assert_eq!(BufferUsages::vertex().bits, 0x20);
    assert_eq!(BufferUsages::index().bits, BUFFER_INDEX);
    assert_eq!(BufferUsages::vertex().bits, BUFFER_VERTEX);
}

#[test]
fn buffer_usage_flags_are_those_of_the_graphics_api() {
    assert_eq!(wgpu::BufferUsages::from_bits(BufferUsages::index().bits), Some(wgpu::BufferUsages::INDEX));
    assert_eq!(wgpu::BufferUsages::from_bits(BufferUsages::vertex().bits), Some(wgpu::BufferUsages::VERTEX));
}
