use ray_marcher::rendering::binding::{bind_group, bind_group_layout, SamplerDescriptor};
use ray_marcher::rendering::flags::TextureUsages;
use ray_marcher::rendering::frame::{frame_commands, FrameCommand};
use ray_marcher::rendering::geometry::{index_buffer, quad_indices, VertexBufferLayout};
use ray_marcher::rendering::pipeline::PrimitiveTopology;
use ray_marcher::rendering::renderer::Renderer;
use ray_marcher::rendering::surface::{PhysicalSize, PresentMode, SurfaceConfiguration};
use ray_marcher::rendering::texture::{Extent3d, TexturePair};
use wgpu::TextureFormat;

fn size(width: u32, height: u32) -> PhysicalSize {
    PhysicalSize { width, height }
}

fn renderer(width: u32, height: u32) -> Renderer {
    match Renderer::new(size(width, height), &vec![TextureFormat::Bgra8UnormSrgb, TextureFormat::Rgba8Unorm]) {
        Some(renderer) => renderer,
        None => panic!("a surface with a format has a renderer"),
    }
}

fn copy_extent(commands: &[FrameCommand]) -> Extent3d {
    match commands[2] {
        FrameCommand::Copy(copy) => copy.extent,
        _ => panic!("the third command is the copy"),
    }
}

#[test]
fn no_renderer_without_a_surface_format() {
    assert!(Renderer::new(size(1280, 720), &vec![]).is_none());
    assert!(Renderer::new(size(0, 0), &vec![]).is_none());
}

#[test]
fn renderer_for_every_surface_with_a_format() {
    assert!(Renderer::new(size(1280, 720), &vec![TextureFormat::Bgra8Unorm]).is_some());
    assert!(Renderer::new(size(0, 0), &vec![TextureFormat::Rgba16Float]).is_some());
    assert!(Renderer::new(size(u32::MAX, u32::MAX), &vec![TextureFormat::Rgba8UnormSrgb]).is_some());
}

#[test]
fn renderer_takes_the_first_supported_format() {
    let formats = vec![TextureFormat::Rgba16Float, TextureFormat::Bgra8Unorm, TextureFormat::Rgba8Unorm];
    let renderer = Renderer::new(size(800, 600), &formats).unwrap();
    assert_eq!(renderer.surface_configuration().format, TextureFormat::Rgba16Float);
    let reversed: Vec<TextureFormat> = formats.iter().rev().copied().collect();
    let renderer = Renderer::new(size(800, 600), &reversed).unwrap();
    assert_eq!(renderer.surface_configuration().format, TextureFormat::Rgba8Unorm);
}

#[test]
fn surface_starts_at_the_size_of_the_window() {
    let renderer = renderer(800, 600);
    assert_eq!(
        renderer.surface_configuration(),
        SurfaceConfiguration {
            usage: TextureUsages { bits: 0x10 },
            format: TextureFormat::Bgra8UnormSrgb,
            width: 800,
            height: 600,
            present_mode: PresentMode::Fifo,
        }
    );
    assert_eq!(renderer.surface_configuration().size(), size(800, 600));
}

#[test]
fn surface_is_a_render_attachment_presented_first_in_first_out() {
    let config = renderer(1280, 720).surface_configuration();
    assert_eq!(wgpu::TextureUsages::from_bits(config.usage.bits), Some(wgpu::TextureUsages::RENDER_ATTACHMENT));
    assert_eq!(config.present_mode, PresentMode::Fifo);
}

#[test]
fn surface_configuration_is_built_from_format_and_size() {
    let config = SurfaceConfiguration::new(TextureFormat::Bgra8Unorm, size(3, 4));
    assert_eq!(config.format, TextureFormat::Bgra8Unorm);
    assert_eq!((config.width, config.height), (3, 4));
    assert_eq!(config.usage, TextureUsages::render_attachment());
    assert_eq!(config.present_mode, PresentMode::Fifo);
}

#[test]
fn resized_configuration_differs_in_size_only() {
    let config = SurfaceConfiguration::new(TextureFormat::Bgra8Unorm, size(3, 4));
    let resized = config.resized(size(50, 60));
    assert_eq!(resized, SurfaceConfiguration { width: 50, height: 60, ..config });
    assert_eq!(resized.size(), size(50, 60));
}

#[test]
fn textures_have_the_fixed_extent_whatever_the_window() {
    for (width, height) in [(0, 0), (1, 1), (800, 600), (1280, 720), (3840, 2160), (u32::MAX, u32::MAX)] {
        let renderer = renderer(width, height);
        assert_eq!(renderer.texture_size(), Extent3d { width: 1280, height: 720, depth_or_array_layers: 1 });
        assert_eq!(renderer.textures(), TexturePair::new(Extent3d::fixed()));
    }
}

#[test]
fn resize_sets_the_size_of_the_surface() {
    let mut renderer = renderer(800, 600);
    for (width, height) in [(1024, 768), (1, 1), (0, 0), (7, 4000), (u32::MAX, u32::MAX), (1280, 720)] {
        renderer.resize(size(width, height));
        let config = renderer.surface_configuration();
        assert_eq!((config.width, config.height), (width, height));
    }
}

#[test]
fn resize_keeps_format_usage_and_present_mode() {
    let mut renderer = renderer(800, 600);
    let before = renderer.surface_configuration();
    renderer.resize(size(1920, 1080));
    let after = renderer.surface_configuration();
    assert_eq!(after, SurfaceConfiguration { width: 1920, height: 1080, ..before });
    assert_eq!(after.format, TextureFormat::Bgra8UnormSrgb);
    assert_eq!(after.present_mode, PresentMode::Fifo);
    assert_eq!(after.usage, TextureUsages::render_attachment());
}

#[test]
fn resize_keeps_the_textures_at_the_fixed_extent() {
    let mut renderer = renderer(800, 600);
    let before = renderer.textures();
    for (width, height) in [(1920, 1080), (0, 0), (2, 3), (u32::MAX, 1)] {
        renderer.resize(size(width, height));
        assert_eq!(renderer.textures(), before);
        assert_eq!(renderer.textures().output.size, Extent3d::fixed());
        assert_eq!(renderer.textures().display.size, Extent3d::fixed());
        assert_eq!(renderer.texture_size(), Extent3d::fixed());
    }
}

#[test]
fn resize_keeps_bindings_pipelines_and_quad() {
    let mut renderer = renderer(800, 600);
    renderer.resize(size(300, 200));
    assert_eq!(renderer.sampler(), SamplerDescriptor::display());
    assert_eq!(*renderer.bind_group_layout(), bind_group_layout());
    assert_eq!(*renderer.bind_group(), bind_group());
    assert_eq!(renderer.pipelines().layout, bind_group_layout());
    assert_eq!(*renderer.indices(), quad_indices());
    assert_eq!(renderer.pipelines().render.target_format, TextureFormat::Bgra8UnormSrgb);
}

#[test]
fn resize_twice_to_one_size_is_resize_once() {
    let mut once = renderer(800, 600);
    once.resize(size(1024, 768));
    let mut twice = renderer(800, 600);
    twice.resize(size(1024, 768));
    twice.resize(size(1024, 768));
    assert_eq!(once.surface_configuration(), twice.surface_configuration());
    assert_eq!(once.textures(), twice.textures());
    assert_eq!(once.texture_size(), twice.texture_size());
    assert_eq!(once.render(), twice.render());
    assert_eq!(once.pipelines(), twice.pipelines());
}

#[test]
fn resize_to_the_present_size_changes_nothing() {
    let mut renderer = renderer(800, 600);
    let before = renderer.surface_configuration();
    renderer.resize(size(800, 600));
    assert_eq!(renderer.surface_configuration(), before);
}

#[test]
fn resize_gives_what_a_new_renderer_has_at_that_size() {
    let mut resized = renderer(800, 600);
    resized.resize(size(640, 480));
    resized.resize(size(2560, 1440));
    let fresh = renderer(2560, 1440);
    assert_eq!(resized.surface_configuration(), fresh.surface_configuration());
    assert_eq!(resized.textures(), fresh.textures());
    assert_eq!(resized.pipelines(), fresh.pipelines());
    assert_eq!(resized.render(), fresh.render());
}

#[test]
fn render_yields_the_frame_of_the_fixed_extent() {
    let renderer = renderer(800, 600);
    assert_eq!(renderer.render(), frame_commands(Extent3d::fixed(), 6));
}

#[test]
fn stage_copy_has_the_fixed_extent_whatever_the_surface() {
    let mut renderer = renderer(800, 600);
    assert_eq!(copy_extent(&renderer.render()), Extent3d { width: 1280, height: 720, depth_or_array_layers: 1 });
    for (width, height) in [(1, 1), (0, 0), (4000, 3000), (1280, 720), (u32::MAX, u32::MAX)] {
        renderer.resize(size(width, height));
        assert_eq!(
            copy_extent(&renderer.render()),
            Extent3d { width: 1280, height: 720, depth_or_array_layers: 1 }
        );
    }
}

#[test]
fn render_is_the_same_before_and_after_a_resize() {
    let mut renderer = renderer(800, 600);
    let before = renderer.render();
    renderer.resize(size(123, 456));
    assert_eq!(renderer.render(), before);
}

#[test]
fn each_render_is_one_submit_and_one_present() {
    let renderer = renderer(1280, 720);
    let mut submits = 0;
    let mut presents = 0;
    let frames = 25;
    for _ in 0..frames {
        for command in renderer.render() {
            match command {
                FrameCommand::Submit => {
                    assert_eq!(submits, presents);
                    submits += 1;
                }
                FrameCommand::Present => {
                    presents += 1;
                    assert_eq!(submits, presents);
                }
                _ => assert_eq!(submits, presents),
            }
        }
    }
    assert_eq!((submits, presents), (frames, frames));
}

#[test]
fn render_leaves_the_resources_as_they_were() {
    let renderer = renderer(1280, 720);
    let textures = renderer.textures();
    let sampler = renderer.sampler();
    let layout = renderer.bind_group_layout().clone();
    let group = renderer.bind_group().clone();
    let indices = renderer.indices().clone();
    let first = renderer.render();
    for _ in 0..10 {
        assert_eq!(renderer.render(), first);
    }
    assert_eq!(renderer.textures(), textures);
    assert_eq!(renderer.sampler(), sampler);
    assert_eq!(*renderer.bind_group_layout(), layout);
    assert_eq!(*renderer.bind_group(), group);
    assert_eq!(*renderer.indices(), indices);
}

#[test]
fn pipelines_share_the_layout_of_the_bind_group() {
    let renderer = renderer(1280, 720);
    assert_eq!(renderer.pipelines().layout, *renderer.bind_group_layout());
    assert_eq!(renderer.pipelines().layout, bind_group_layout());
    assert_eq!(renderer.bind_group_layout().len(), 3);
}

#[test]
fn pipelines_start_at_the_entry_points_of_the_shader() {
    let renderer = renderer(1280, 720);
    assert_eq!(renderer.pipelines().compute.entry_point, "compute_main");
    assert_eq!(renderer.pipelines().render.vertex_entry_point, "vs_main");
    assert_eq!(renderer.pipelines().render.fragment_entry_point, "fs_main");
}

#[test]
fn render_target_has_the_format_of_the_surface() {
    for format in [TextureFormat::Bgra8Unorm, TextureFormat::Bgra8UnormSrgb, TextureFormat::Rgba16Float] {
        let renderer = Renderer::new(size(640, 480), &vec![format, TextureFormat::Rgba8Unorm]).unwrap();
        assert_eq!(renderer.pipelines().render.target_format, format);
        assert_eq!(renderer.pipelines().render.target_format, renderer.surface_configuration().format);
    }
}

#[test]
fn render_pipeline_reads_the_quad_as_triangles() {
    let renderer = renderer(1280, 720);
    assert_eq!(renderer.pipelines().render.vertex_buffer, VertexBufferLayout::quad());
    assert_eq!(renderer.pipelines().render.topology, PrimitiveTopology::TriangleList);
    assert_eq!(renderer.indices().len() % 3, 0);
}

#[test]
fn renderer_draws_the_quad() {
    let renderer = renderer(1280, 720);
    assert_eq!(*renderer.indices(), vec![0, 1, 2, 2, 3, 0]);
    assert_eq!(renderer.index_buffer(), index_buffer(&[0, 1, 2, 2, 3, 0]));
    assert_eq!(renderer.index_buffer().contents.len(), 12);
    match renderer.render()[3] {
        FrameCommand::Draw(pass) => assert_eq!(pass.index_count, 6),
        _ => panic!("the fourth command is the render pass"),
    }
}
