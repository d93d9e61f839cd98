use gguf_engine::error::EngineError;
use gguf_engine::host::{
    ChatMessage, OAuthState, P2PPeer, RemoteFile, StreamToken, TokenRequest, TokenResponse,
};

#[test]
fn not_found_message() {
    let e = EngineError::NotFound { path: String::from("/x/y.gguf") };
    assert_eq!(e.message(), String::from("Model file not found: /x/y.gguf"));
}

#[test]
fn backend_init_message() {
    let e = EngineError::BackendInitError { detail: String::from("no device") };
    assert_eq!(e.message(), String::from("Backend init failed: no device"));
}

#[test]
fn model_load_message() {
    let e = EngineError::ModelLoadError { detail: String::from("bad magic") };
    assert_eq!(e.message(), String::from("Model load failed: bad magic"));
}

#[test]
fn model_not_loaded_message() {
    assert_eq!(
        EngineError::ModelNotLoaded.message(),
        String::from("Model not loaded! Please load a model first.")
    );
}

#[test]
fn prompt_too_long_message() {
    let e = EngineError::PromptTooLong { token_count: 5000, limit: 4096 };
    assert_eq!(
        e.message(),
        String::from("Prompt too long: 5000 tokens (max: 4096)")
    );
}

#[test]
fn tokenize_batch_decode_messages() {
    assert_eq!(
        EngineError::TokenizeError { detail: String::from("x") }.message(),
        String::from("Tokenization failed: x")
    );
    assert_eq!(
        EngineError::BatchError { detail: String::from("y") }.message(),
        String::from("Batch add failed: y")
    );
    assert_eq!(
        EngineError::DecodeError { detail: String::from("z") }.message(),
        String::from("Decode failed: z")
    );
}

#[test]
fn image_decode_message() {
    let e = EngineError::ImageDecodeError { index: 2, detail: String::from("pad") };
    assert_eq!(e.message(), String::from("Failed to decode image 2: pad"));
}

#[test]
fn lock_poisoned_message() {
    assert_eq!(
        EngineError::LockPoisoned.message(),
        String::from("State lock was poisoned; state recovered")
    );
}

#[test]
fn host_records_hold_their_fields() {
    let msg = ChatMessage { role: String::from("user"), content: String::from("hi") };
    assert_eq!(msg.role, String::from("user"));

    let req = TokenRequest {
        code: String::from("abc"),
        provider: String::from("github"),
        redirect_uri: String::from("http://127.0.0.1:1420/cb"),
    };
    assert_eq!(req.provider, String::from("github"));

    let resp = TokenResponse {
        access_token: String::from("tok"),
        refresh_token: None,
        expires_in: Some(3600),
        token_type: String::from("Bearer"),
    };
    assert_eq!(resp.expires_in, Some(3600));

    let peer = P2PPeer {
        id: String::from("p1"),
        name: String::from("desk"),
        ip: String::from("192.168.0.7"),
        port: 9137,
        is_online: true,
    };
    assert!(peer.is_online);

    let file = RemoteFile {
        name: String::from("main.rs"),
        path: String::from("/srv/main.rs"),
        file_type: String::from("file"),
        size: 10,
        modified: 0,
    };
    assert_eq!(file.file_type, String::from("file"));

    let frame = StreamToken { token: String::from("He"), is_complete: false };
    assert!(!frame.is_complete);
    let last = StreamToken { token: String::from(""), is_complete: true };
    assert!(last.is_complete);
}

#[test]
fn oauth_state_starts_empty_and_clones() {
    let s = OAuthState::new();
    let _copy = s.clone();
}
