use cdn::media::ImageKind;
use cdn::naming::{asset_name, new_asset_name, reference_path};

const ID: &str = "67e55044-10b1-426f-9247-bb680e5fe0c8";

fn is_lower_hex(c: char) -> bool {
    c.is_ascii_digit() || ('a'..='f').contains(&c)
}

fn assert_random_identifier(id: &str) {
    let chars: Vec<char> = id.chars().collect();
    assert_eq!(chars.len(), 36);
    for (i, c) in chars.iter().enumerate() {
        if i == 8 || i == 13 || i == 18 || i == 23 {
            assert_eq!(*c, '-');
        } else {
            assert!(is_lower_hex(*c), "{:?} at {}", c, i);
        }
    }
    assert_eq!(chars[14], '4');
    assert!(matches!(chars[19], '8' | '9' | 'a' | 'b'));
}

#[test]
fn asset_name_is_identifier_dot_extension() {
    assert_eq!(asset_name(ID, ImageKind::Jpeg), "67e55044-10b1-426f-9247-bb680e5fe0c8.jpg");
    assert_eq!(asset_name(ID, ImageKind::Png), "67e55044-10b1-426f-9247-bb680e5fe0c8.png");
    assert_eq!(asset_name(ID, ImageKind::Gif), "67e55044-10b1-426f-9247-bb680e5fe0c8.gif");
}

#[test]
fn asset_name_of_empty_identifier() {
    assert_eq!(asset_name("", ImageKind::Png), ".png");
}

#[test]
fn reference_path_is_under_uploads() {
    assert_eq!(
        reference_path("67e55044-10b1-426f-9247-bb680e5fe0c8.jpg"),
        "/uploads/67e55044-10b1-426f-9247-bb680e5fe0c8.jpg"
    );
    assert_eq!(reference_path(""), "/uploads/");
}

#[test]
fn new_asset_name_has_the_random_shape() {
    for kind in [ImageKind::Jpeg, ImageKind::Png, ImageKind::Gif] {
        let name = new_asset_name(kind);
        assert_eq!(name.len(), 40);
        assert_random_identifier(&name[..36]);
        assert_eq!(&name[36..37], ".");
        assert_eq!(&name[37..], kind.extension());
        assert!(!name.contains('/'));
        assert!(!name.contains('\\'));
        assert!(!name.starts_with('.'));
    }
}

#[test]
fn new_asset_names_are_distinct() {
    let first = new_asset_name(ImageKind::Jpeg);
    let second = new_asset_name(ImageKind::Jpeg);
    assert_ne!(first, second);
    assert_ne!(reference_path(&first), reference_path(&second));
}

#[test]
fn distinct_identifiers_give_distinct_names() {
    let other = "67e55044-10b1-426f-9247-bb680e5fe0c9";
    assert_ne!(asset_name(ID, ImageKind::Gif), asset_name(other, ImageKind::Gif));
    assert_ne!(asset_name(ID, ImageKind::Gif), asset_name(ID, ImageKind::Png));
    assert_eq!(asset_name(ID, ImageKind::Gif), asset_name(ID, ImageKind::Gif));
}
