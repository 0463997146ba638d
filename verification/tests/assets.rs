use basita::assets::{AssetCollection, AssetLoadError, AssetLoader};
use basita::geometry::Point;
use basita::registry::Handle;
use basita::renderer::assets::{Font, Image, FONT_SIZE};
use basita::renderer::{Fonts, Images};

/// What stands for the backend in these tests: it counts the loads and fails
/// for the paths it is told to miss.
struct Disk {
    loads: usize,
    missing: Vec<String>,
}

fn disk() -> Disk {
    Disk { loads: 0, missing: Vec::new() }
}

struct TextureLoader;

impl AssetLoader<Image> for TextureLoader {
    type Storage = Disk;

    fn load(&self, id: &String, storage: &mut Disk) -> Result<Image, AssetLoadError> {
        storage.loads += 1;
        if storage.missing.contains(id) {
            Err(AssetLoadError { id: id.clone(), message: format!("no such file: {}", id) })
        } else {
            Ok(Image::new(storage.loads - 1, 128, 64))
        }
    }
}

struct FontLoader;

impl AssetLoader<Font> for FontLoader {
    type Storage = Disk;

    fn load(&self, _id: &String, storage: &mut Disk) -> Result<Font, AssetLoadError> {
        storage.loads += 1;
        Ok(Font::new(storage.loads - 1))
    }
}

#[test]
fn second_request_is_served_without_loading() {
    let mut images: Images = AssetCollection::new();
    let mut disk = disk();
    let path = "a.png".to_string();
    let first = images.load_or_get(&path, &TextureLoader, &mut disk).unwrap();
    assert_eq!(disk.loads, 1);
    let second = images.load_or_get(&path, &TextureLoader, &mut disk).unwrap();
    assert_eq!(disk.loads, 1);
    assert_eq!(first, second);
    assert_eq!(images.len(), 1);
}

#[test]
fn every_request_for_one_identifier_returns_one_handle() {
    let mut images: Images = AssetCollection::new();
    let mut disk = disk();
    let wanted = "hero.png".to_string();
    let handle = images.load_or_get(&wanted, &TextureLoader, &mut disk).unwrap();
    for round in 0..50usize {
        let other = format!("tile{}.png", round);
        images.load_or_get(&other, &TextureLoader, &mut disk).unwrap();
        assert_eq!(images.load_or_get(&wanted, &TextureLoader, &mut disk), Ok(handle));
    }
    assert_eq!(disk.loads, 51);
    assert_eq!(images.len(), 51);
}

#[test]
fn handles_follow_the_order_of_loading() {
    let mut images: Images = AssetCollection::new();
    let mut disk = disk();
    let a = images.load_or_get(&"a.png".to_string(), &TextureLoader, &mut disk).unwrap();
    let b = images.load_or_get(&"b.png".to_string(), &TextureLoader, &mut disk).unwrap();
    assert_eq!(a, Handle::from_index(0));
    assert_eq!(b, Handle::from_index(1));
    assert_eq!(images.get(a).index, 0);
    assert_eq!(images.get(b).index, 1);
}

#[test]
fn identifiers_are_compared_letter_for_letter() {
    let mut images: Images = AssetCollection::new();
    let mut disk = disk();
    let plain = images.load_or_get(&"a.png".to_string(), &TextureLoader, &mut disk).unwrap();
    let dotted = images.load_or_get(&"./a.png".to_string(), &TextureLoader, &mut disk).unwrap();
    let upper = images.load_or_get(&"A.png".to_string(), &TextureLoader, &mut disk).unwrap();
    assert_ne!(plain, dotted);
    assert_ne!(plain, upper);
    assert_ne!(dotted, upper);
    assert_eq!(disk.loads, 3);
}

#[test]
fn failed_load_is_reported_as_the_loader_said() {
    let mut images: Images = AssetCollection::new();
    let mut disk = disk();
    disk.missing.push("gone.png".to_string());
    let answer = images.load_or_get(&"gone.png".to_string(), &TextureLoader, &mut disk);
    assert_eq!(
        answer,
        Err(AssetLoadError {
            id: "gone.png".to_string(),
            message: "no such file: gone.png".to_string(),
        })
    );
}

#[test]
fn failed_load_stores_nothing_and_is_tried_again() {
    let mut images: Images = AssetCollection::new();
    let mut disk = disk();
    let path = "late.png".to_string();
    disk.missing.push(path.clone());
    assert!(images.load_or_get(&path, &TextureLoader, &mut disk).is_err());
    assert_eq!(images.len(), 0);
    assert_eq!(images.find(&path), None);
    assert!(images.load_or_get(&path, &TextureLoader, &mut disk).is_err());
    assert_eq!(disk.loads, 2);
    disk.missing.clear();
    let handle = images.load_or_get(&path, &TextureLoader, &mut disk).unwrap();
    assert_eq!(disk.loads, 3);
    assert_eq!(handle, Handle::from_index(0));
    assert_eq!(images.find(&path), Some(handle));
}

#[test]
fn failed_load_leaves_earlier_assets_alone() {
    let mut images: Images = AssetCollection::new();
    let mut disk = disk();
    let kept = images.load_or_get(&"kept.png".to_string(), &TextureLoader, &mut disk).unwrap();
    disk.missing.push("gone.png".to_string());
    assert!(images.load_or_get(&"gone.png".to_string(), &TextureLoader, &mut disk).is_err());
    assert_eq!(images.len(), 1);
    assert!(images.contains(kept));
    assert_eq!(images.find(&"kept.png".to_string()), Some(kept));
}

#[test]
fn new_collections_are_empty() {
    let images: Images = AssetCollection::default();
    assert_eq!(images.len(), 0);
    assert!(!images.contains(Handle::from_index(0)));
    let fonts: Fonts = AssetCollection::new();
    assert_eq!(fonts.len(), 0);
}

#[test]
fn find_tells_what_is_stored() {
    let mut fonts: Fonts = AssetCollection::new();
    let mut disk = disk();
    assert_eq!(fonts.find(&"sans.ttf".to_string()), None);
    let sans = fonts.load_or_get(&"sans.ttf".to_string(), &FontLoader, &mut disk).unwrap();
    assert_eq!(fonts.find(&"sans.ttf".to_string()), Some(sans));
    assert_eq!(fonts.find(&"serif.ttf".to_string()), None);
    assert_eq!(*fonts.get(sans), Font { index: 0, size: 32 });
}

#[test]
fn resolve_stores_what_was_loaded() {
    let mut images: Images = AssetCollection::new();
    let path = "a.png".to_string();
    let handle = images.resolve(&path, Ok(Image::new(4, 10, 10))).unwrap();
    assert_eq!(handle, Handle::from_index(0));
    assert_eq!(images.get(handle).index, 4);
}

#[test]
fn resolve_keeps_what_is_stored_already() {
    let mut images: Images = AssetCollection::new();
    let path = "a.png".to_string();
    let first = images.resolve(&path, Ok(Image::new(4, 10, 10))).unwrap();
    let again = images.resolve(&path, Ok(Image::new(9, 10, 10))).unwrap();
    assert_eq!(first, again);
    assert_eq!(images.get(again).index, 4);
    let failed = AssetLoadError { id: path.clone(), message: "late failure".to_string() };
    assert_eq!(images.resolve(&path, Err(failed)), Ok(first));
    assert_eq!(images.len(), 1);
}

#[test]
fn resolve_hands_a_failure_on() {
    let mut images: Images = AssetCollection::new();
    let path = "a.png".to_string();
    let failed = AssetLoadError { id: path.clone(), message: "cannot decode".to_string() };
    assert_eq!(
        images.resolve(&path, Err(failed)),
        Err(AssetLoadError { id: path.clone(), message: "cannot decode".to_string() })
    );
    assert_eq!(images.len(), 0);
}

#[test]
fn image_center_is_half_its_size() {
    let image = Image::new(3, 128, 64);
    assert_eq!(image.index, 3);
    assert_eq!(image.center, Point::new(64, 32));
    assert_eq!(Image::new(0, 5, 7).center, Point::new(2, 3));
    assert_eq!(Image::new(0, 0, 1).center, Point::new(0, 0));
}

#[test]
fn image_center_of_an_oversized_texture() {
    assert_eq!(
        Image::new(0, 0x7fff_ffff, 0x7fff_fffe).center,
        Point::new(0x3fff_ffff, 0x3fff_ffff)
    );
    assert_eq!(
        Image::new(0, 0x8000_0000, 0x8000_0001).center,
        Point::new(-0x4000_0000, -0x3fff_ffff)
    );
    assert_eq!(Image::new(0, u32::MAX, u32::MAX - 1).center, Point::new(0, -1));
    assert_eq!(Image::new(0, u32::MAX - 2, 3).center, Point::new(-1, 1));
}

#[test]
fn fonts_are_loaded_at_one_size() {
    assert_eq!(FONT_SIZE, 32);
    assert_eq!(Font::new(6), Font { index: 6, size: 32 });
}
