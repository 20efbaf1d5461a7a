//! Frame graphs.

use ash::vk;
use ignis::error::Error;
use ignis::format::Format;
use ignis::framegraph::graph::{
    BufferDesc, FrameGraph, ImageDesc, ImportedImage, PassBuilder, StateChange,
};
use ignis::framegraph::schedule::{topo_sort, PassAccess, ResourceAccess};
use ignis::memory::resources::MemoryLocation;

fn read(handle: u32) -> ResourceAccess {
    ResourceAccess { handle, usage: 1, write: false }
}

fn write(handle: u32) -> ResourceAccess {
    ResourceAccess { handle, usage: 2, write: true }
}

fn images(list: Vec<ResourceAccess>) -> PassAccess {
    PassAccess { image: list, buffer: vec![] }
}

fn place(order: &[usize], pass: usize) -> usize {
    match order.iter().position(|p| *p == pass) {
        Some(i) => i,
        None => unreachable!(),
    }
}

#[test]
fn readers_run_after_writers() {
    let passes = vec![images(vec![read(0)]), images(vec![write(0)])];
    assert!(matches!(topo_sort(&passes), Ok(o) if o == vec![1, 0]));
}

#[test]
fn writers_keep_their_order() {
    let passes = vec![
        images(vec![write(0)]),
        images(vec![write(0)]),
        images(vec![read(0)]),
        images(vec![write(0)]),
    ];
    match topo_sort(&passes) {
        Ok(o) => {
            assert!(place(&o, 0) < place(&o, 1));
            assert!(place(&o, 1) < place(&o, 3));
            assert!(place(&o, 3) < place(&o, 2));
        }
        Err(_) => unreachable!(),
    }
}

#[test]
fn cycle_is_refused() {
    let passes =
        vec![images(vec![read(0), write(1)]), images(vec![read(1), write(0)])];
    assert!(matches!(
        topo_sort(&passes),
        Err(Error::InvalidConfig("framegraph: dependency cycle detected"))
    ));
}

#[test]
fn pass_may_read_what_it_writes() {
    assert!(matches!(topo_sort(&vec![images(vec![read(0), write(0)])]), Ok(o) if o == vec![0]));
    assert!(matches!(topo_sort(&vec![]), Ok(o) if o.is_empty()));
}

#[test]
fn images_and_buffers_are_different_resources() {
    let passes = vec![
        PassAccess { image: vec![read(0)], buffer: vec![] },
        PassAccess { image: vec![], buffer: vec![write(0)] },
    ];
    assert!(matches!(topo_sort(&passes), Ok(o) if o == vec![0, 1]));
}

#[test]
fn graph_is_compiled_and_recorded() {
    let mut fg = FrameGraph::new();
    let gbuffer = fg.declare_image(
        "gbuffer".to_string(),
        ImageDesc::color(64, 32, Format { raw: vk::Format::R16G16B16A16_SFLOAT.as_raw() }),
    );
    let screen = fg.import_image(
        "screen".to_string(),
        ImportedImage { handle: 500, initial_layout: 0, mip_levels: 1, array_layers: 1, aspect: 1 },
    );
    let args = fg.declare_buffer(
        "args".to_string(),
        BufferDesc { size: 256, usage: 32, location: MemoryLocation::GpuOnly },
    );
    let shared = fg.import_buffer("shared".to_string(), 600);
    let mut lighting = PassBuilder::new("lighting".to_string());
    lighting.reads_image(gbuffer, 11);
    lighting.writes_image(screen, 12);
    lighting.reads_buffer(args, 13);
    lighting.reads_buffer(shared, 15);
    fg.add_pass(lighting);
    let mut geometry = PassBuilder::new("geometry".to_string());
    geometry.writes_image(gbuffer, 10);
    geometry.writes_buffer(args, 14);
    fg.add_pass(geometry);
    match (fg.image_request(0), fg.image_request(1)) {
        (Some(info), None) => {
            assert_eq!((info.extent.width, info.extent.height), (64, 32));
            assert_ne!(info.usage & vk::ImageUsageFlags::COLOR_ATTACHMENT.as_raw(), 0);
        }
        _ => unreachable!(),
    }
    match (fg.buffer_request(0), fg.buffer_request(1)) {
        (Some(info), None) => assert_eq!(info.size, 256),
        _ => unreachable!(),
    }
    match fg.compile(&vec![400, 0], &vec![401, 0]) {
        Ok(g) => {
            assert_eq!(g.order, vec![1, 0]);
            assert_eq!(g.image(gbuffer), 400);
            assert_eq!(g.image(screen), 500);
            assert_eq!(g.buffer(args), 401);
            assert_eq!(g.buffer(shared), 600);
            assert!(g.images[0].owned && !g.images[1].owned);
            assert_eq!(
                g.dump_plan(),
                "FrameGraph plan:\n   0. geometry\n       [W] image  gbuffer\n       [W] buffer args\n   1. lighting\n       [R] image  gbuffer\n       [W] image  screen\n       [R] buffer args\n       [R] buffer shared\n"
            );
            let steps = g.record();
            assert_eq!(steps[0].pass, 1);
            assert_eq!(steps[0].images, vec![StateChange { handle: 400, usage: 10 }]);
            assert_eq!(
                steps[1].images,
                vec![
                    StateChange { handle: 400, usage: 11 },
                    StateChange { handle: 500, usage: 12 },
                ]
            );
            assert_eq!(
                steps[1].buffers,
                vec![
                    StateChange { handle: 401, usage: 13 },
                    StateChange { handle: 600, usage: 15 },
                ]
            );
        }
        Err(_) => unreachable!(),
    }
}

#[test]
fn empty_graph_compiles() {
    let fg = FrameGraph::default();
    match fg.compile(&vec![], &vec![]) {
        Ok(g) => {
            assert!(g.record().is_empty());
            assert_eq!(g.dump_plan(), "FrameGraph plan:\n");
        }
        Err(_) => unreachable!(),
    }
}

#[test]
fn depth_images_are_attachments() {
    let d = ImageDesc::depth(4, 4, Format { raw: vk::Format::D32_SFLOAT.as_raw() });
    assert_ne!(d.usage & vk::ImageUsageFlags::DEPTH_STENCIL_ATTACHMENT.as_raw(), 0);
}

#[test]
fn pass_may_write_a_resource_twice() {
    let passes = vec![images(vec![write(0), write(0)])];
    assert!(matches!(topo_sort(&passes), Ok(o) if o == vec![0]));
    let passes = vec![
        images(vec![read(0)]),
        PassAccess { image: vec![write(0), write(0)], buffer: vec![write(0), write(0)] },
        images(vec![write(0)]),
    ];
    assert!(matches!(topo_sort(&passes), Ok(o) if o == vec![1, 2, 0]));
}
