use std::path::PathBuf;

use dnp3::schema::variation::{define, group_name, gv};
use oo_bindgen::model::{
    ClassSettings, CollectionSettings, FutureSettings, InterfaceSettings, IteratorSettings,
    LibraryBuilder, LibraryInfo, LibrarySettings, Version,
};

fn new_library() -> LibraryBuilder {
    let info = LibraryInfo {
        description: "test".to_string(),
        project_url: "https://example.com".to_string(),
        repository: "example/test".to_string(),
        license_name: "none".to_string(),
        license_description: Vec::new(),
        license_path: PathBuf::from("LICENSE"),
        developers: Vec::new(),
        logo_png: &[],
    };
    let settings = LibrarySettings::create(
        "dnp3",
        "dnp3",
        ClassSettings::default(),
        IteratorSettings::default(),
        CollectionSettings::default(),
        FutureSettings::default(),
        InterfaceSettings::default(),
    )
    .unwrap();
    LibraryBuilder::new(Version::new(1, 0, 0), info, settings)
}

#[test]
fn variation_names_are_formatted() {
    assert_eq!(gv(1, 0), "group1var0");
    assert_eq!(gv(42, 8), "group42var8");
    assert_eq!(gv(21, 10), "group21var10");
    assert_eq!(gv(255, 100), "group255var100");
    assert_eq!(group_name(110), "group110");
    assert_eq!(group_name(0), "group0");
}

#[test]
fn variation_enum_is_defined_once() {
    let mut lib = new_library();
    let variation = define(&mut lib).expect("the enum is defined");
    assert!(variation.handle.value("group1var0").is_ok());
    assert!(variation.handle.value("group42var8").is_ok());
    assert!(variation.handle.value("group110").is_ok());
    assert!(variation.handle.value("group111").is_ok());
    assert!(variation.handle.value("group13var1").is_err());
    assert!(variation.handle.value("group43var1").is_err());
    // the name is taken now
    assert!(define(&mut lib).is_err());
}
