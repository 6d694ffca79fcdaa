//! The vertex buffer layout description and the stopwatch.

use meshgen::timer::Timer;
use meshgen::vertex::{AsVertexPrimitive, Vertex};

#[test]
fn vertex_layout_description() {
    let layout = Vertex::desc();
    assert_eq!(layout.array_stride, 44);
    assert_eq!(layout.attributes.len(), 4);
    let offsets: Vec<u32> = layout.attributes.iter().map(|a| a.offset).collect();
    let locations: Vec<u32> = layout.attributes.iter().map(|a| a.shader_location).collect();
    let components: Vec<u32> = layout.attributes.iter().map(|a| a.components).collect();
    assert_eq!(offsets, vec![0, 12, 24, 36]);
    assert_eq!(locations, vec![0, 1, 2, 3]);
    assert_eq!(components, vec![3, 3, 3, 2]);
}

#[test]
fn timer_stopped_tick_measures_nothing() {
    let mut t = Timer::new();
    assert_eq!(t.delta_time(), 0);
    t.stop();
    t.tick();
    assert_eq!(t.delta_time(), 0);
}

#[test]
fn timer_running_tick_measures_time() {
    let mut t = Timer::new();
    std::hint::black_box(&mut t);
    t.tick();
    let total_before = t.total_time();
    t.tick();
    assert!(t.total_time() >= total_before);
}

#[test]
fn timer_stop_freezes_total() {
    let mut t = Timer::new();
    t.tick();
    t.stop();
    let a = t.total_time();
    let b = t.total_time();
    assert_eq!(a, b);
    t.start();
    t.reset();
    t.tick();
}
