use sector_dump::{Output, Shape};
use std::cell::Cell;

#[test]
fn tags_have_their_names() {
    assert_eq!(Shape::FileSector.name(), "FileSector");
    assert_eq!(Shape::RenderableSector.name(), "RenderableSector");
}

#[test]
fn tags_are_numbered_in_order() {
    assert_eq!(Shape::FileSector.index(), 0);
    assert_eq!(Shape::RenderableSector.index(), 1);
}

#[test]
fn tag_names_and_numbers_differ() {
    assert_ne!(Shape::FileSector.name(), Shape::RenderableSector.name());
    assert_ne!(Shape::FileSector.index(), Shape::RenderableSector.index());
}

#[test]
fn output_knows_its_shape() {
    let plain: Output<u8, u8> = Output::FileSector(3);
    let faces: Output<u8, u8> = Output::RenderableSector(vec![1, 2]);
    assert_eq!(plain.shape(), Shape::FileSector);
    assert_eq!(faces.shape(), Shape::RenderableSector);
}

#[test]
fn select_wraps_the_sector_unchanged() {
    let sector = vec![9u32, 8, 7];
    let output: Output<Vec<u32>, u32> = Output::select(sector.clone(), Shape::FileSector, |s| s.clone());
    match output {
        Output::FileSector(kept) => assert_eq!(kept, sector),
        Output::RenderableSector(_) => panic!("the sector was to be kept"),
    }
}

#[test]
fn select_does_not_convert_a_file_sector() {
    let calls = Cell::new(0u32);
    let output: Output<u32, u32> = Output::select(5, Shape::FileSector, |_| {
        calls.set(calls.get() + 1);
        vec![1]
    });
    assert_eq!(calls.get(), 0);
    assert_eq!(output.shape(), Shape::FileSector);
}

#[test]
fn select_converts_once_and_keeps_the_faces_in_order() {
    let calls = Cell::new(0u32);
    let output: Output<u32, String> = Output::select(4, Shape::RenderableSector, |sector| {
        calls.set(calls.get() + 1);
        (0..*sector).rev().map(|i| format!("face {}", i)).collect()
    });
    assert_eq!(calls.get(), 1);
    match output {
        Output::RenderableSector(faces) => {
            assert_eq!(faces.len(), 4);
            assert_eq!(faces, vec!["face 3", "face 2", "face 1", "face 0"]);
        }
        Output::FileSector(_) => panic!("the sector was to be converted"),
    }
}

#[test]
fn select_keeps_an_empty_list_of_faces() {
    let output: Output<u32, u32> = Output::select(0, Shape::RenderableSector, |_| Vec::new());
    assert_eq!(output.shape(), Shape::RenderableSector);
    match output {
        Output::RenderableSector(faces) => assert!(faces.is_empty()),
        Output::FileSector(_) => panic!("the sector was to be converted"),
    }
}

#[test]
fn select_gives_the_shape_asked_for() {
    for shape in [Shape::FileSector, Shape::RenderableSector] {
        let output: Output<u8, u8> = Output::select(1, shape, |s| vec![*s, *s]);
        assert_eq!(output.shape(), shape);
    }
}
