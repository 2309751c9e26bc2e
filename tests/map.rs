use ofws_core::attribute::Attribute;
use ofws_core::map::Map2d;
use ofws_core::size2d::Size2d;

#[test]
fn size_conversions() {
    let size = Size2d::new(2, 3);

    assert_eq!(size.get_area(), 6);
    assert_eq!(size.width(), 2);
    assert_eq!(size.height(), 3);
    assert_eq!(size.to_x(5), 1);
    assert_eq!(size.to_y(5), 2);
    assert_eq!(size.to_x_and_y(5), [1, 2]);
    assert_eq!(size.to_index(1, 2), 5);
    assert_eq!(size.saturating_to_index(1, 2), 5);
    assert_eq!(size.saturating_to_index(2, 2), 5);
    assert_eq!(size.saturating_to_index(3, 2), 5);
    assert_eq!(size.saturating_to_index(0, 3), 4);
    assert_eq!(size.saturating_to_index(0, 4), 4);
}

#[test]
fn attribute_values_fill_the_size() {
    let attribute = Attribute::default_value("elevation".to_string(), Size2d::new(2, 3), 42);

    assert_eq!(attribute.get_name(), "elevation");
    assert_eq!(attribute.get_size(), &Size2d::new(2, 3));
    assert_eq!(attribute.get_all(), &vec![42u8; 6]);
}

#[test]
fn attribute_get_mut_and_replace() {
    let mut attribute = Attribute::default_value("elevation".to_string(), Size2d::new(1, 2), 42);

    *attribute.get_mut(0) += 4;
    assert_eq!(attribute.get(0), 46);
    assert_eq!(attribute.get(1), 42);

    attribute.replace_values(vec![3, 4]);
    assert_eq!(attribute.get(0), 3);
    assert_eq!(attribute.get(1), 4);

    let attribute = Attribute::new("rain".to_string(), Size2d::new(1, 2), vec![10, 15]);
    assert_eq!(attribute.get_all(), &vec![10u8, 15u8]);
}

#[test]
fn map_create_and_lookup() {
    let size = Size2d::new(2, 3);
    let mut map = Map2d::with_name("world".to_string(), size);

    assert_eq!(map.get_name(), "world");
    assert_eq!(map.get_size(), size);
    assert_eq!(map.create_attribute("elevation".to_string(), 42), Some(0));
    assert_eq!(map.create_attribute("rainfall".to_string(), 100), Some(1));
    assert_eq!(map.create_attribute("elevation".to_string(), 7), None);
    assert_eq!(map.len(), 2);
    assert_eq!(map.get_attribute_id("elevation"), Some(0));
    assert_eq!(map.get_attribute_id("rainfall"), Some(1));
    assert_eq!(map.get_attribute_id("unknown"), None);
    assert_eq!(map.get_attribute(0).get_name(), "elevation");
    assert_eq!(map.get_attribute(0).get_all(), &vec![42u8; 6]);
    assert_eq!(map.get_attribute_mut(1).get_name(), "rainfall");
}

#[test]
fn map_create_from_values() {
    let mut map = Map2d::new(Size2d::new(1, 2));

    assert_eq!(map.get_name(), "test");
    assert_eq!(map.create_attribute_from("a".to_string(), vec![1, 2]), Some(0));
    assert_eq!(map.create_attribute_from("a".to_string(), vec![3, 4]), None);
    map.replace_values(0, vec![5, 6]);
    assert_eq!(map.get_attribute(0).get_all(), &vec![5u8, 6u8]);
}
