use gguf_engine::error::EngineError;
use gguf_engine::state::ModelState;
use gguf_engine::vision::{decode_images, image_payload, prepare_vision_request, vision_prompt};

#[test]
fn vision_request_needs_a_model() {
    let state = ModelState::new();
    let r = prepare_vision_request(&state, &String::from("look"), &vec![String::from("aGVsbG8=")]);
    assert!(matches!(r, Err(EngineError::ModelNotLoaded)));
}

#[test]
fn valid_base64_is_decoded() {
    let images = vec![String::from("aGVsbG8=")];
    let decoded = decode_images(&images).unwrap();
    assert_eq!(decoded.len(), 1);
    assert_eq!(decoded[0], b"hello".to_vec());
}

#[test]
fn data_url_prefix_is_stripped() {
    let images = vec![String::from("data:image/png;base64,aGVsbG8=")];
    let decoded = decode_images(&images).unwrap();
    assert_eq!(decoded[0], b"hello".to_vec());
}

#[test]
fn payload_without_prefix_is_unchanged() {
    assert_eq!(
        image_payload(&String::from("aGVsbG8=")),
        String::from("aGVsbG8=")
    );
    assert_eq!(
        image_payload(&String::from("data:image/jpeg;base64,Zm9v")),
        String::from("Zm9v")
    );
}

#[test]
fn malformed_base64_is_a_hard_error() {
    let mut state = ModelState::new();
    state.install_model(String::from("/m.gguf"), 4096, 0, 0);
    let before = state.status();

    let r = prepare_vision_request(
        &state,
        &String::from("describe"),
        &vec![String::from("!!!not-base64!!!")],
    );
    match r {
        Err(EngineError::ImageDecodeError { index, .. }) => assert_eq!(index, 0),
        _ => panic!("expected ImageDecodeError"),
    }

    // The engine state is untouched by the failed request.
    let after = state.status();
    assert_eq!(before.loaded, after.loaded);
    assert_eq!(before.model_path, after.model_path);
}

#[test]
fn error_names_the_failing_image() {
    let images = vec![String::from("aGVsbG8="), String::from("%%%")];
    match decode_images(&images) {
        Err(EngineError::ImageDecodeError { index, .. }) => assert_eq!(index, 1),
        _ => panic!("expected ImageDecodeError"),
    }
}

#[test]
fn degraded_prompt_notes_image_count() {
    let mut state = ModelState::new();
    state.install_model(String::from("/m.gguf"), 4096, 0, 0);
    let req = prepare_vision_request(
        &state,
        &String::from("what is this?"),
        &vec![String::from("aGVsbG8="), String::from("Zm9v")],
    )
    .unwrap();
    assert_eq!(req.decoded_images.len(), 2);
    assert_eq!(req.decoded_images[1], b"foo".to_vec());
    assert!(req.prompt.starts_with("[System: User sent 2 image(s)"));
    assert!(req.prompt.ends_with("what is this?"));
}

#[test]
fn vision_prompt_exact_text() {
    let p = vision_prompt(&String::from("hi"), 1);
    assert_eq!(
        p,
        String::from(
            "[System: User sent 1 image(s) but vision processing is not yet implemented. Please acknowledge the images and respond based on the text prompt.]\n\nhi"
        )
    );
}

#[test]
fn vision_prompt_counts_many_images() {
    let p = vision_prompt(&String::from("x"), 12);
    assert!(p.starts_with("[System: User sent 12 image(s)"));
}

#[test]
fn empty_image_list_is_fine() {
    let images: Vec<String> = Vec::new();
    let decoded = decode_images(&images).unwrap();
    assert!(decoded.is_empty());
}
