use batch_os::catalog::Catalog;
use batch_os::loader::{load, ExecutionRegion, LoadError};

fn image_with(programs: &[&[u8]]) -> Vec<u8> {
    let mut image: Vec<u8> = Vec::new();
    image.extend_from_slice(&(programs.len() as u64).to_le_bytes());
    let mut offset = 8 * (programs.len() as u64 + 2);
    image.extend_from_slice(&offset.to_le_bytes());
    for program in programs {
        offset += program.len() as u64;
        image.extend_from_slice(&offset.to_le_bytes());
    }
    for program in programs {
        image.extend_from_slice(program);
    }
    image
}

#[test]
fn a_new_region_is_empty_and_zero() {
    let region = ExecutionRegion::new(16);
    assert_eq!(region.limit(), 16);
    assert_eq!(region.held(), None);
    assert_eq!(region.bytes(), &[0u8; 16][..]);
}

#[test]
fn acquire_places_the_image_at_the_base() {
    let mut region = ExecutionRegion::new(8);
    assert_eq!(region.acquire(&[1, 2, 3]), Ok(()));
    assert_eq!(region.bytes(), &[1u8, 2, 3, 0, 0, 0, 0, 0][..]);
    assert_eq!(region.held(), Some(3));
    assert_eq!(region.limit(), 8);
}

#[test]
fn load_leaves_no_residue_of_the_program_before() {
    let catalog = Catalog::parse(image_with(&[&[0xaa; 7], &[0x11, 0x22]])).expect("sound image");
    let mut region = ExecutionRegion::new(8);
    assert_eq!(load(&mut region, &catalog, 0), Ok(()));
    assert_eq!(region.bytes(), &[0xaau8, 0xaa, 0xaa, 0xaa, 0xaa, 0xaa, 0xaa, 0][..]);
    assert_eq!(load(&mut region, &catalog, 1), Ok(()));
    assert_eq!(region.bytes(), &[0x11u8, 0x22, 0, 0, 0, 0, 0, 0][..]);
    assert_eq!(region.held(), Some(2));
}

#[test]
fn load_places_exactly_the_length_of_the_entry() {
    let catalog = Catalog::parse(image_with(&[&[5, 6, 7, 8, 9], &[1]])).expect("sound image");
    let mut region = ExecutionRegion::new(32);
    for i in 0..catalog.count() {
        assert_eq!(load(&mut region, &catalog, i), Ok(()));
        let length = catalog.entry(i).length();
        assert_eq!(&region.bytes()[..length], catalog.program(i));
        assert!(region.bytes()[length..].iter().all(|b| *b == 0));
        assert_eq!(region.bytes().len(), 32);
    }
}

#[test]
fn a_program_as_long_as_the_region_fits() {
    let catalog = Catalog::parse(image_with(&[&[3; 8]])).expect("sound image");
    let mut region = ExecutionRegion::new(8);
    assert_eq!(load(&mut region, &catalog, 0), Ok(()));
    assert_eq!(region.bytes(), &[3u8; 8][..]);
    assert_eq!(region.held(), Some(8));
}

#[test]
fn a_program_longer_than_the_region_is_refused() {
    let catalog = Catalog::parse(image_with(&[&[1, 2], &[3; 9]])).expect("sound image");
    let mut region = ExecutionRegion::new(8);
    assert_eq!(load(&mut region, &catalog, 0), Ok(()));
    assert_eq!(
        load(&mut region, &catalog, 1),
        Err(LoadError::ProgramTooLarge { length: 9, limit: 8 })
    );
    // The region is as it was.
    assert_eq!(region.bytes(), &[1u8, 2, 0, 0, 0, 0, 0, 0][..]);
    assert_eq!(region.held(), Some(2));
}

#[test]
fn acquire_into_a_region_of_no_bytes() {
    let mut region = ExecutionRegion::new(0);
    assert_eq!(region.acquire(&[]), Ok(()));
    assert_eq!(region.held(), Some(0));
    assert_eq!(
        region.acquire(&[1]),
        Err(LoadError::ProgramTooLarge { length: 1, limit: 0 })
    );
}
