use bevy::render::view::RenderLayers;
use post_processing::layers::{draws, post_process_layers, scene_layers};

#[test]
fn scene_layer_is_the_first_layer() {
    assert_eq!(scene_layers(), RenderLayers::layer(0));
    assert_eq!(scene_layers(), RenderLayers::default());
    assert_eq!(scene_layers().iter().collect::<Vec<u8>>(), vec![0u8]);
}

#[test]
fn post_process_layer_is_the_last_layer() {
    assert_eq!(RenderLayers::TOTAL_LAYERS, 32);
    assert_eq!(post_process_layers(), RenderLayers::layer(31));
    assert_eq!(post_process_layers().iter().collect::<Vec<u8>>(), vec![31u8]);
}

#[test]
fn a_camera_draws_what_shares_a_layer_with_it() {
    assert!(draws(&scene_layers(), &scene_layers()));
    assert!(draws(&post_process_layers(), &post_process_layers()));
    assert!(!draws(&scene_layers(), &post_process_layers()));
    assert!(!draws(&post_process_layers(), &scene_layers()));
    assert!(draws(&RenderLayers::all(), &post_process_layers()));
    assert!(draws(&RenderLayers::layer(3).with(5), &RenderLayers::layer(5)));
    assert!(!draws(&RenderLayers::layer(3).with(5), &RenderLayers::layer(4)));
}

#[test]
fn an_empty_layer_set_is_drawn_by_no_camera() {
    assert!(!draws(&RenderLayers::all(), &RenderLayers::none()));
    assert!(!draws(&RenderLayers::none(), &RenderLayers::none()));
    assert!(!draws(&RenderLayers::none(), &scene_layers()));
}
