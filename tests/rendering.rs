use ofws_core::color::{Color, Interpolate};
use ofws_core::interpolation::InterpolationError;
use ofws_core::map::Map2d;
use ofws_core::rendering::{calculate_tile_index, calculate_tiles, CellRenderer, EMPTY_TILE};
use ofws_core::selector::Selector;
use ofws_core::size2d::Size2d;

#[test]
fn color_channels() {
    let color = Color::new(1, 2, 3);

    assert_eq!(color.r(), 1);
    assert_eq!(color.g(), 2);
    assert_eq!(color.b(), 3);
    assert_eq!(color.to_array(), [1, 2, 3]);
    assert_eq!(Color::gray(7), Color::new(7, 7, 7));
}

#[test]
fn color_interpolation() {
    let start = Color::new(0, 100, 200);
    let end = Color::new(200, 100, 0);

    assert_eq!(start.interpolate(&end, 1, 2), Color::new(100, 100, 100));
    assert_eq!(start.interpolate(&end, 3, 2), end);
    assert_eq!(100u8.interpolate(&200, 1, 2), 150);
}

#[test]
fn selector_const_and_pair() {
    assert_eq!(Selector::Const(5u8).get(200), 5);

    let pair = Selector::new_interpolate_pair(0u8, 255);
    assert_eq!(pair.get(0), 0);
    assert_eq!(pair.get(128), 128);
    assert_eq!(pair.get(255), 255);
}

#[test]
fn selector_vector() {
    let selector = Selector::new_interpolate_vector(vec![(100u8, 150u8), (150, 200), (200, 100)]).unwrap();

    assert_eq!(selector.get(0), 150);
    assert_eq!(selector.get(125), 175);
    assert_eq!(selector.get(175), 150);
    assert_eq!(selector.get(255), 100);
    assert_eq!(
        Selector::new_interpolate_vector(vec![(1u8, 1u8)]).err().map(|_| ()),
        Some(())
    );
    assert!(matches!(
        Selector::new_interpolate_vector(vec![(9u8, 1u8), (3, 2)]),
        Err(InterpolationError::NotOrdered)
    ));
}

#[test]
fn selector_lookup() {
    let selector = Selector::new_lookup(vec![(1u8, Color::new(1, 1, 1)), (2, Color::new(2, 2, 2))], Color::gray(0));

    assert_eq!(selector.get(2), Color::new(2, 2, 2));
    assert_eq!(selector.get(3), Color::gray(0));
}

#[test]
fn cell_renderer_selects_from_the_attribute() {
    let mut map = Map2d::new(Size2d::new(2, 1));
    map.create_attribute_from("biome".to_string(), vec![1, 2]);
    let renderer = CellRenderer::new_attribute_renderer(
        0,
        Selector::new_lookup(vec![(1, Color::new(0, 0, 255))], Color::gray(0)),
        Selector::Const(Color::gray(9)),
        Selector::new_lookup(vec![(2, 65u8)], 46),
    );

    assert_eq!(renderer.get(&map, 0), (46, Color::gray(9), Color::new(0, 0, 255)));
    assert_eq!(renderer.get(&map, 1), (65, Color::gray(9), Color::gray(0)));

    let colors = CellRenderer::new_color_renderer(0, Selector::Const(Color::gray(3)));
    assert_eq!(colors.get(&map, 1), (EMPTY_TILE, Color::new(255, 0, 128), Color::gray(3)));
}

#[test]
fn tiles_of_a_window() {
    let window = Size2d::new(100, 50);
    let tile = Size2d::new(30, 20);

    assert_eq!(calculate_tiles(window, tile), Size2d::new(4, 3));
    assert_eq!(calculate_tiles(Size2d::new(90, 40), tile), Size2d::new(3, 2));
    assert_eq!(calculate_tile_index(window, tile, (0, 0)), 0);
    assert_eq!(calculate_tile_index(window, tile, (95, 45)), 11);
    assert_eq!(calculate_tile_index(window, tile, (31, 21)), 5);
}
