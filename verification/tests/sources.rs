use mathpixapi::json::render;
use mathpixapi::source::{Base64Image, Base64ImageError, ImageMime, ImageSrc};

/// The base64 encoding of the test image's bytes; decoding it gives the
/// bytes a caller would read from the image file at serialization time.
const TEST_IMAGE_BASE64: &str = "/9j/4AAQSkZJRgABAQAAAQABAAD/2wBDAAMCAgICAgMCAgIDAwMDBAYEBAQEBAgGBgUGCQgKCgkICQkKDA8MCgsOCwkJDRENDg8QEBEQCgwSExIQEw8QEBD/wAALCAACAAIBAREA/8QAFAABAAAAAAAAAAAAAAAAAAAACP/EABwQAAEFAQEBAAAAAAAAAAAAAAIBAwQFBgcIAP/aAAgBAQAAPwBfeevPXAt7wLmm63XD+f6PSaPH01tcXFtmYUydZTpEJp1+TIfdbJx55xwzM3DJSIiUlVVVV+//2Q==";

fn test_image_bytes() -> Vec<u8> {
    base64::decode(TEST_IMAGE_BASE64).unwrap()
}

fn expected_data_uri() -> String {
    format!("data:image/jpeg;base64,{}", TEST_IMAGE_BASE64)
}

#[test]
fn base64image_from_pathbuf() {
    // JPG
    let base64image = Base64Image::from_path("./test/assets/test_encode_base64.jpg".to_string())
        .unwrap();
    let acctual = Base64Image {
        img_path: "./test/assets/test_encode_base64.jpg".to_string(),
        img_mime: ImageMime::Jpeg,
    };
    assert_eq!(base64image, acctual);

    // PNG
    let base64image = Base64Image::from_path("./test/assets/test_encode_base64.png".to_string())
        .unwrap();
    let acctual = Base64Image {
        img_path: "./test/assets/test_encode_base64.png".to_string(),
        img_mime: ImageMime::Png,
    };
    assert_eq!(base64image, acctual);

    // Uppercase extension
    let base64image = Base64Image::from_path("./test/assets/test_encode_base64.JPG".to_string())
        .unwrap();
    let acctual = Base64Image {
        img_path: "./test/assets/test_encode_base64.JPG".to_string(),
        img_mime: ImageMime::Jpeg,
    };
    assert_eq!(base64image, acctual);

    // UnsupportedFileType
    let base64image = Base64Image::from_path("./test/assets/test_encode_base64.txt".to_string());
    assert!(match base64image {
        Err(Base64ImageError::UnsupportedFileType(_)) => true,
        _ => false,
    });
    let msg = base64image.unwrap_err().message();
    assert!(msg.starts_with("UnsupportedFileType: "));

    // InvalidExtension
    let base64image = Base64Image::from_path("./test/assets/test_encode_base64".to_string());
    assert!(base64image.is_err());
    let msg = base64image.unwrap_err().message();
    assert!(msg.starts_with("InvalidExtension: "));
}

#[test]
fn mod_base64image_to_string() {
    let base64image = Base64Image {
        img_path: "./test/assets/test_encode_base64.jpg".to_string(),
        img_mime: ImageMime::Jpeg,
    };
    assert_eq!(base64image.data_uri(&test_image_bytes()), expected_data_uri());
}

#[test]
fn base64image_base64image_to_string() {
    let base64image = Base64Image {
        img_path: "./test/assets/test_encode_base64.jpg".to_string(),
        img_mime: ImageMime::Jpeg,
    };
    assert_eq!(base64image.data_uri(&test_image_bytes()), expected_data_uri());
}

#[test]
fn mod_serialize_base64image() {
    let base64image = Base64Image {
        img_path: "./test/assets/test_encode_base64.jpg".to_string(),
        img_mime: ImageMime::Jpeg,
    };
    let serialized: serde_json::Value = serde_json::from_str(&render(
        &ImageSrc::Image(base64image).to_json(&test_image_bytes()),
    ))
    .unwrap();
    let acctual = serde_json::Value::String(expected_data_uri());
    assert_eq!(serialized, acctual);
}

#[test]
fn base64image_serialize_base64image() {
    let base64image = Base64Image {
        img_path: "./test/assets/test_encode_base64.jpg".to_string(),
        img_mime: ImageMime::Jpeg,
    };
    let serialized: serde_json::Value = serde_json::from_str(&render(
        &ImageSrc::Image(base64image).to_json(&test_image_bytes()),
    ))
    .unwrap();
    let acctual = serde_json::Value::String(expected_data_uri());
    assert_eq!(serialized, acctual);
}

#[test]
fn mod_serialize_src_url() {
    let src = ImageSrc::Url("https://www.duckduckgo.com/".to_string());
    let serialized: serde_json::Value =
        serde_json::from_str(&render(&src.to_json(&Vec::new()))).unwrap();
    let acctual = serde_json::Value::String("https://www.duckduckgo.com/".to_string());
    assert_eq!(serialized, acctual);
}

#[test]
fn mod_serialize_src_image() {
    let image =
        Base64Image::from_path("./test/assets/test_encode_base64.jpg".to_string()).unwrap();
    let src = ImageSrc::Image(image);
    let serialized: serde_json::Value =
        serde_json::from_str(&render(&src.to_json(&test_image_bytes()))).unwrap();
    let acctual = serde_json::Value::String(expected_data_uri());
    assert_eq!(serialized, acctual);
}

#[test]
fn base64_encoding_depends_on_bytes() {
    let image = Base64Image {
        img_path: "a.jpg".to_string(),
        img_mime: ImageMime::Jpeg,
    };
    let uri = image.data_uri(&vec![104, 105]);
    assert_eq!(uri, "data:image/jpeg;base64,aGk=".to_string());
    let empty = image.data_uri(&Vec::new());
    assert_eq!(empty, "data:image/jpeg;base64,".to_string());
}
