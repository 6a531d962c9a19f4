use rwall::background::{background_path, path_from_decoded};
use rwall::progress::PipelineError;

fn undecodable() -> PipelineError {
    PipelineError::Platform { message: "Failed to decode image path".to_string() }
}

#[test]
fn encoded_path_is_decoded() {
    assert_eq!(
        background_path("%2Fhome%2Fme%2FPictures%2Frwall%2Fblue%20sky.png"),
        Ok("/home/me/Pictures/rwall/blue sky.png".to_string())
    );
    assert_eq!(background_path("a%20b.png"), Ok("a b.png".to_string()));
    assert_eq!(background_path("caf%C3%A9.jpg"), Ok("café.jpg".to_string()));
}

#[test]
fn plain_path_is_kept() {
    assert_eq!(background_path("/home/me/Pictures/rwall/a.png"), Ok("/home/me/Pictures/rwall/a.png".to_string()));
    assert_eq!(background_path("a+b.png"), Ok("a+b.png".to_string()));
    assert_eq!(background_path(""), Ok(String::new()));
}

#[test]
fn undecodable_path_is_a_platform_error() {
    assert_eq!(background_path("%FF.png"), Err(undecodable()));
    assert_eq!(background_path("a%C3.png"), Err(undecodable()));
}

#[test]
fn path_from_decoded_passes_the_text_on() {
    assert_eq!(path_from_decoded(Some("x y.png".to_string())), Ok("x y.png".to_string()));
    assert_eq!(path_from_decoded(None), Err(undecodable()));
}
