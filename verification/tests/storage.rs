use kawa::kawa::patch::Patch;
use kawa::kawa::storage::{Storage, MAX_PATCHES, PATCH_BYTES, STORE_BYTES};

fn default_patch_bytes() -> Vec<u8> {
    let mut b = b"empty   ".to_vec();
    let params: [u32; 22] = [
        0x3f800000, 0, 0x3f000000, 0, 0x3f000000, 0x3f000000, 0x3f4ccccd, 0x3f000000, 0x3f000000,
        0x3f600000, 0x3e4ccccd, 0x3f000000, 0x3e800000, 0x3e99999a, 0x3803126f, 0x3de66667,
        0x3f1b3333, 0x3f533333, 0x3f000000, 0x3f000000, 0x3f333333, 0,
    ];
    for p in params.iter() {
        b.extend_from_slice(&p.to_le_bytes());
    }
    b
}

#[test]
fn default_patch_matches_the_engine_defaults() {
    let p = Patch::new();
    assert_eq!(&p.name, b"empty   ");
    assert_eq!(f32::from_bits(p.elements_params[0]), 1.0);
    assert_eq!(f32::from_bits(p.elements_params[6]), 0.800000012);
    assert_eq!(f32::from_bits(p.elements_params[14]), 3.12500015e-05);
    assert_eq!(f32::from_bits(p.elements_params[20]), 0.7);
    assert_eq!(p.elements_params[21], 0);
}

#[test]
fn erased_flash_loads_initial_patches() {
    let image = vec![0xffu8; STORE_BYTES];
    let storage = Storage::new(&image);
    for i in 0..MAX_PATCHES as u8 {
        assert_eq!(&storage.get_patch(i).name, b"empty   ");
        assert_eq!(storage.get_patch(i).elements_params, Patch::new().elements_params);
    }
    let flushed = storage.flush();
    assert_eq!(flushed.len(), STORE_BYTES);
    assert_eq!(&flushed[..PATCH_BYTES], &default_patch_bytes()[..]);
}

#[test]
fn saved_patch_reads_back_and_survives_a_reload() {
    let mut storage = Storage::new(&vec![0xffu8; STORE_BYTES]);
    let mut patch = Patch::new();
    patch.name = *b"bells   ";
    patch.elements_params[3] = 0x12345678;
    let image = storage.save_patch(5, &patch);
    assert_eq!(&storage.get_patch(5).name, b"bells   ");
    assert_eq!(&storage.get_patch(4).name, b"empty   ");
    // little-endian layout: patch 5 starts at byte 480, parameter 3 at 480 + 8 + 12
    assert_eq!(&image[480..488], b"bells   ");
    assert_eq!(&image[500..504], &[0x78, 0x56, 0x34, 0x12]);
    let reloaded = Storage::new(&image);
    assert_eq!(reloaded.get_patch(5).elements_params[3], 0x12345678);
    assert_eq!(&reloaded.get_patch(5).name, b"bells   ");
    assert_eq!(reloaded.flush(), image);
}

#[test]
fn a_name_starting_with_erased_byte_is_replaced_on_reload() {
    let mut storage = Storage::new(&vec![0u8; STORE_BYTES]);
    assert_eq!(storage.get_patch(0).name, [0u8; 8]);
    let mut patch = Patch::new();
    patch.name[0] = 0xff;
    let image = storage.save_patch(2, &patch);
    let reloaded = Storage::new(&image);
    assert_eq!(&reloaded.get_patch(2).name, b"empty   ");
    assert_eq!(reloaded.get_patch(1).name, [0u8; 8]);
}
