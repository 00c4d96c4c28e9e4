use avila::alignment::{align_up, is_power_of_two};
use avila::backend::{BackendDevice, ResourcePool};
use avila::clock::{Clock, Profiler, Stopwatch, Timer};
use avila::gfx::{
    BlendState, BufferDesc, RendererConfig, TextureDesc, TextureFormat, TextureUsage,
    VertexFormat,
};
use avila::framegraph::{PassBuilder, PassId, PassResources, ResourceId};
use avila::network::HttpClient;
use avila::sysinfo::{ConsoleColor, SystemInfo};
use avila::window::{DisplayMode, WindowConfig, WindowPosition, WindowSize};

#[test]
fn clock_measures_supplied_instants() {
    let clock = Clock::new(1_000);
    assert_eq!(clock.elapsed(4_000), 3_000);
    assert_eq!(clock.elapsed(500), 0);
    assert_eq!(clock.elapsed_millis(5_001_000), 5);
    assert_eq!(clock.elapsed_micros(5_001_000), 5_000);
    assert_eq!(clock.elapsed_nanos(5_001_000), 5_000_000);
}

#[test]
fn timer_expires_after_duration() {
    let timer = Timer::from_millis(50, 0);
    assert!(!timer.expired(49_999_999));
    assert!(timer.expired(50_000_000));
    assert_eq!(timer.remaining(20_000_000), 30_000_000);
    assert_eq!(timer.remaining(80_000_000), 0);

    let secs = Timer::from_secs(2, 100);
    assert_eq!(secs.remaining(100), 2_000_000_000);
}

#[test]
fn stopwatch_accumulates_spans() {
    let mut sw = Stopwatch::new();
    assert!(!sw.is_running());

    sw.start(100);
    assert!(sw.is_running());
    sw.stop(400);
    assert!(!sw.is_running());
    assert_eq!(sw.elapsed(9_999), 300);

    sw.start(1_000);
    assert_eq!(sw.elapsed(1_250), 550);
    let lap = sw.lap(1_500);
    assert_eq!(lap, 800);
    assert_eq!(sw.elapsed(1_500), 0);
    assert!(sw.is_running());
}

#[test]
fn profiler_averages_sections() {
    let mut profiler = Profiler::new();
    profiler.begin("update", 0);
    profiler.end(300);
    profiler.begin("update", 1_000);
    profiler.end(1_100);
    profiler.begin("render", 2_000);
    profiler.end(2_050);

    assert_eq!(profiler.average("update"), Some(200));
    assert_eq!(profiler.average("render"), Some(50));
    assert_eq!(profiler.average("absent"), None);
    assert_eq!(profiler.averages().len(), 2);

    profiler.clear();
    assert_eq!(profiler.average("update"), None);
}

#[test]
fn texture_formats_report_layout() {
    assert_eq!(TextureFormat::Rgba8.bytes_per_pixel(), 4);
    assert_eq!(TextureFormat::Rgba32f.bytes_per_pixel(), 16);
    assert_eq!(TextureFormat::Bc1.bytes_per_pixel(), 8);
    assert!(TextureFormat::Depth24Stencil8.is_depth());
    assert!(!TextureFormat::Rgba8.is_depth());
    assert!(TextureFormat::Bc7.is_compressed());

    assert_eq!(VertexFormat::Float3.size(), 12);
    assert_eq!(VertexFormat::UInt.size(), 4);
}

#[test]
fn texture_usage_flags_combine() {
    let usage = TextureUsage::sampled().union(TextureUsage::color_attachment());
    assert!(usage.contains(TextureUsage::sampled()));
    assert!(usage.contains(TextureUsage::color_attachment()));
    assert!(!usage.contains(TextureUsage::storage()));
}

#[test]
fn descriptors_carry_their_settings() {
    let desc = TextureDesc::new_2d(1920, 1080, TextureFormat::Bgra8, TextureUsage::sampled())
        .with_mips(4)
        .with_msaa(8);
    assert_eq!(desc.width, 1920);
    assert_eq!(desc.mip_levels, 4);
    assert_eq!(desc.samples, 8);

    let buffer = BufferDesc::uniform(256);
    assert!(buffer.cpu_visible);
    assert_eq!(buffer.size, 256);
    assert!(!BufferDesc::vertex(64).cpu_visible);

    let blend = BlendState::alpha_blending();
    assert!(blend.enabled);
}

#[test]
fn resource_pool_reuses_slots() {
    let mut pool: ResourcePool<u64> = ResourcePool::new();
    let a = pool.allocate(11);
    let b = pool.allocate(22);
    assert_ne!(a, b);
    assert_eq!(pool.get(a), Some(&11));

    assert_eq!(pool.free(a), Some(11));
    assert_eq!(pool.free(a), None);
    assert_eq!(pool.get(a), None);

    let c = pool.allocate(33);
    assert_eq!(c, a);
    assert_eq!(pool.get(c), Some(&33));
    if let Some(v) = pool.get_mut(b) {
        *v = 44;
    }
    assert_eq!(pool.get(b), Some(&44));
}

#[test]
fn backend_device_tracks_resources() {
    let mut device = BackendDevice::new(RendererConfig::default());
    let tex = device.create_texture(&TextureDesc::new_2d(
        64,
        64,
        TextureFormat::Rgba8,
        TextureUsage::sampled(),
    ));
    let buf = device.create_buffer(&BufferDesc::index(128));
    device.destroy_texture(tex);
    device.destroy_buffer(buf);
    device.resize(800, 600);
    device.present();
    assert_eq!(device.get_swapchain_texture().0, 0);
}

#[test]
fn frame_graph_passes_declare_dependencies() {
    let depth = ResourceId::new("depth");
    let color = ResourceId::new("color");
    let mut pass = PassBuilder::new(PassId(0));
    pass.read(&depth);
    pass.write(&color);
    assert_eq!(depth.name(), "depth");

    let mut resources = PassResources::new();
    resources.add("color", avila::gfx::TextureHandle(7));
    assert_eq!(resources.get_texture("color").0, 7);
    assert_eq!(resources.get_texture("missing").0, u32::MAX);
}

#[test]
fn parse_url_splits_host_port_path() {
    assert_eq!(
        HttpClient::parse_url("http://example.com/index.html"),
        ("example.com".to_string(), 80, "/index.html".to_string())
    );
    assert_eq!(
        HttpClient::parse_url("https://example.com:8080/a/b"),
        ("example.com".to_string(), 8080, "/a/b".to_string())
    );
    assert_eq!(
        HttpClient::parse_url("example.com"),
        ("example.com".to_string(), 80, "/".to_string())
    );
    assert_eq!(
        HttpClient::parse_url("http://host:notaport/x"),
        ("host".to_string(), 80, "/x".to_string())
    );
    assert_eq!(
        HttpClient::parse_url("host:99999"),
        ("host".to_string(), 80, "/".to_string())
    );
}

#[test]
fn window_config_builder_sets_fields() {
    let config = WindowConfig::new("demo")
        .with_size(640, 480)
        .with_position(10, 20)
        .with_display_mode(DisplayMode::Maximized)
        .resizable(false)
        .decorated(false)
        .transparent(true)
        .vsync(false);
    assert_eq!(config.title, "demo");
    assert_eq!(config.size, WindowSize::new(640, 480));
    assert_eq!(config.position, WindowPosition::new(10, 20));
    assert_eq!(config.display_mode, DisplayMode::Maximized);
    assert!(!config.resizable);
    assert!(!config.decorated);
    assert!(config.transparent);
    assert!(!config.vsync);
}

#[test]
fn alignment_rounds_up_to_powers_of_two() {
    assert!(is_power_of_two(1));
    assert!(is_power_of_two(1024));
    assert!(!is_power_of_two(0));
    assert!(!is_power_of_two(12));

    assert_eq!(align_up(0, 8), 0);
    assert_eq!(align_up(1, 8), 8);
    assert_eq!(align_up(8, 8), 8);
    assert_eq!(align_up(9, 16), 16);
}

#[test]
fn console_colors_have_ansi_codes() {
    assert_eq!(ConsoleColor::Red.ansi_code(), "\x1b[31m");
    assert_eq!(ConsoleColor::BrightWhite.ansi_code(), "\x1b[97m");
}

#[test]
fn hostname_query_returns_without_panicking() {
    let _name = SystemInfo::hostname();
}

#[test]
fn timer_duration_saturates_at_the_nanosecond_range() {
    let timer = Timer::from_secs(u64::MAX, 0);
    assert_eq!(timer.remaining(0), u64::MAX);
    assert!(!timer.expired(u64::MAX - 1));
}
