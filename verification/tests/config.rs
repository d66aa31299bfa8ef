use crius::image::{determine_image_type, Extent3d, ImageType};
use crius::settings::{version_major, version_minor, version_patch, GraphicsSettings, Version};
use crius::store::Store;

#[test]
fn version_packs_into_the_driver_encoding() {
    assert_eq!(Version::new(1, 2, 0).pack(), (1 << 22) | (2 << 12));
    assert_eq!(Version::new(0, 0, 0).pack(), 0);
    assert_eq!(Version::new(1, 0, 3).pack(), (1 << 22) | 3);
}

#[test]
fn packed_versions_unpack_to_their_parts() {
    let packed = Version::new(3, 25, 114).pack();
    assert_eq!(version_major(packed), 3);
    assert_eq!(version_minor(packed), 25);
    assert_eq!(version_patch(packed), 114);
}

#[test]
fn image_type_follows_the_dimension_count() {
    let extent = |width, height, depth| Extent3d { width, height, depth };
    assert_eq!(determine_image_type(extent(64, 64, 1)), Some(ImageType::TwoDim));
    assert_eq!(determine_image_type(extent(64, 1, 1)), Some(ImageType::TwoDim));
    assert_eq!(determine_image_type(extent(64, 64, 4)), Some(ImageType::ThreeDim));
    assert_eq!(determine_image_type(extent(0, 1, 1)), Some(ImageType::OneDim));
    assert_eq!(determine_image_type(extent(0, 0, 4)), Some(ImageType::OneDim));
    assert_eq!(determine_image_type(extent(0, 0, 1)), None);
}

#[test]
fn instance_extensions_keep_configured_then_platform_order() {
    let graphics = GraphicsSettings {
        extensions: Some(vec!["VK_EXT_debug_report".to_owned()]),
        layers: None,
    };
    let names = graphics.instance_extensions(vec![
        "VK_KHR_surface".to_owned(),
        "VK_KHR_xlib_surface".to_owned(),
    ]);
    assert_eq!(names, vec![
        "VK_EXT_debug_report".to_owned(),
        "VK_KHR_surface".to_owned(),
        "VK_KHR_xlib_surface".to_owned(),
    ]);

    let graphics = GraphicsSettings { extensions: None, layers: None };
    let names = graphics.instance_extensions(vec!["VK_KHR_surface".to_owned()]);
    assert_eq!(names, vec!["VK_KHR_surface".to_owned()]);
}

#[test]
fn instance_layers_append_validation_only_on_request() {
    let graphics = GraphicsSettings {
        extensions: None,
        layers: Some(vec!["VK_LAYER_LUNARG_monitor".to_owned()]),
    };
    let names = graphics.instance_layers(true);
    assert_eq!(names, vec![
        "VK_LAYER_LUNARG_monitor".to_owned(),
        "VK_LAYER_KHRONOS_validation".to_owned(),
    ]);

    let graphics = GraphicsSettings {
        extensions: None,
        layers: Some(vec!["VK_LAYER_LUNARG_monitor".to_owned()]),
    };
    let names = graphics.instance_layers(false);
    assert_eq!(names, vec!["VK_LAYER_LUNARG_monitor".to_owned()]);
}

#[test]
fn store_insert_overwrites_and_get_reads_back() {
    let mut store = Store::new();
    assert_eq!(store.get_resource(5), None);
    assert!(!store.contains_resource(5));
    store.insert_resource(5, 10);
    assert_eq!(store.get_resource(5), Some(10));
    assert!(store.contains_resource(5));
    store.insert_resource(5, 11);
    assert_eq!(store.get_resource(5), Some(11));
    store.insert_resource(6, 12);
    assert_eq!(store.get_resource(5), Some(11));
    assert_eq!(store.get_resource(6), Some(12));
}
