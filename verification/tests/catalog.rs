use scale_trainer::catalog::{get, size, IndexOutOfRange, Scale, CATALOG_SIZE};

#[test]
fn catalog_has_fifteen_scales() {
    assert_eq!(size(), 15);
    assert_eq!(CATALOG_SIZE, 15);
}

#[test]
fn catalog_lists_the_scales_in_order() {
    let names = [
        "E0", "F0", "G0", "A1", "B1", "C1", "D1", "F1", "G1", "A2", "B2", "C2", "D2", "F2", "G2",
    ];
    for (index, name) in names.iter().enumerate() {
        let scale = get(index).unwrap();
        assert_eq!(scale.name(), *name);
    }
}

#[test]
fn get_refuses_the_first_position_past_the_end() {
    assert_eq!(get(15), Err(IndexOutOfRange { index: 15, size: 15 }));
}

#[test]
fn get_refuses_the_largest_position() {
    assert_eq!(get(usize::MAX), Err(IndexOutOfRange { index: usize::MAX, size: 15 }));
}

#[test]
fn image_paths_follow_the_name() {
    let scale = get(3).unwrap();
    assert_eq!(scale.name(), "A1");
    assert_eq!(scale.image_path(), "./assets/images/A1.png");
    assert_eq!(scale.tab_image_path(), "./assets/images/A1_tab.png");
}

#[test]
fn every_entry_has_paths_made_of_its_name() {
    for index in 0..size() {
        let scale = get(index).unwrap();
        assert_eq!(scale.image_path(), format!("./assets/images/{}.png", scale.name()));
        assert_eq!(scale.tab_image_path(), format!("./assets/images/{}_tab.png", scale.name()));
    }
}

#[test]
fn a_scale_outside_the_catalog_has_paths_too() {
    let scale = Scale::new("H9");
    assert_eq!(scale.name(), "H9");
    assert_eq!(scale.image_path(), "./assets/images/H9.png");
    assert_eq!(scale.tab_image_path(), "./assets/images/H9_tab.png");
}

#[test]
fn equal_names_give_equal_scales() {
    assert_eq!(Scale::new("E0"), get(0).unwrap());
    assert_ne!(get(0).unwrap(), get(1).unwrap());
}
