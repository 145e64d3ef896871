use dasm::mmap::{Mmap, MmapError};

#[test]
fn empty_code_is_refused() {
    assert!(matches!(Mmap::exec(&[]), Err(MmapError::Failed)));
}

#[test]
fn memory_holds_the_code() {
    let code = [0x90u8, 0x90, 0xC3];
    let map = Mmap::exec(&code).unwrap();
    assert_eq!(map.as_ref(), &code);
    assert_eq!(map.as_ref().len(), 3);

    let long: Vec<u8> = (0..10_000u32).map(|n| (n % 251) as u8).collect();
    let map = Mmap::exec(&long).unwrap();
    assert_eq!(map.as_ref(), &long[..]);
}

#[test]
fn address_stays() {
    let map = Mmap::exec(&[0xC3]).unwrap();
    let first = map.as_ptr();
    assert_ne!(first, 0);
    assert_eq!(map.as_ptr(), first);
    assert_eq!(map.as_ref().as_ptr() as usize, first);
    let moved = map;
    assert_eq!(moved.as_ptr(), first);
}

#[test]
fn address_is_that_of_the_bytes() {
    let code: Vec<u8> = (0..5000u32).map(|n| (n % 200) as u8).collect();
    let map = Mmap::exec(&code).unwrap();
    assert_eq!(map.as_ptr(), map.as_ref().as_ptr() as usize);
    assert_eq!(map.as_ptr() % 4096, 0);
}

#[test]
fn two_maps_are_apart() {
    let one = Mmap::exec(&[1, 2, 3]).unwrap();
    let two = Mmap::exec(&[4, 5, 6]).unwrap();
    assert_ne!(one.as_ptr(), two.as_ptr());
    assert_eq!(one.as_ref(), &[1, 2, 3]);
    assert_eq!(two.as_ref(), &[4, 5, 6]);
}

#[test]
fn a_refused_mapping_is_failed() {
    let refused = Err(std::io::Error::from(std::io::ErrorKind::OutOfMemory));
    assert!(matches!(Mmap::written(refused, &[1, 2, 3]), Err(MmapError::Failed)));
    let refused = Err(std::io::Error::from(std::io::ErrorKind::PermissionDenied));
    assert!(matches!(Mmap::sealed(refused), Err(MmapError::Failed)));
}

#[test]
fn a_granted_mapping_is_filled() {
    let granted = memmap2::MmapMut::map_anon(4);
    let region = Mmap::written(granted, &[9, 8, 7, 6]).unwrap();
    assert_eq!(&region[..], &[9, 8, 7, 6]);
}

#[test]
fn error_in_words() {
    assert_eq!(MmapError::Failed.to_string(), "Failed to create mmap");
    assert_eq!(MmapError::Failed, MmapError::Failed);
}

#[test]
fn a_grant_of_another_length_is_failed() {
    let granted = memmap2::MmapMut::map_anon(8);
    assert!(matches!(Mmap::written(granted, &[9, 8, 7, 6]), Err(MmapError::Failed)));
    let granted = memmap2::MmapMut::map_anon(0);
    assert!(Mmap::written(granted, &[]).unwrap().is_empty());
}
