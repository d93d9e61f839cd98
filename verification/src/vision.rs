use vstd::prelude::*;
use vstd::string::StringExecFns;

use crate::error::EngineError;
use crate::state::ModelState;
use crate::strutil::{
    copy_range, find_first, first_occurrence, spec_dec, str_to_chars, u64_to_string,
    chars_to_string,
};

verus! {

/// What base64's standard-alphabet decode returns for a string: the
/// decoded bytes, or nothing when the input is not valid base64.  The
/// result is a function of the input characters alone.
pub uninterp spec fn base64_decoded(s: Seq<char>) -> Option<Seq<u8>>;

/// Relies on base64's `STANDARD` engine `decode`: strict decoding under
/// the standard alphabet with padding, deterministic in the input.
#[verifier::external_body]
fn decode_base64(s: &str) -> (r: Result<Vec<u8>, String>)
    ensures
        r is Ok <==> base64_decoded(s@) is Some,
        r matches Ok(v) ==> Some(v@) == base64_decoded(s@),
{
    match base64::Engine::decode(&base64::engine::general_purpose::STANDARD, s) {
        Ok(bytes) => Ok(bytes),
        Err(e) => Err(format!("{:?}", e)),
    }
}

/// The base64 payload of an image string: everything after the first
/// `base64,` (dropping a `data:...;base64,` prefix), or the whole string
/// when no such prefix is present.
pub open spec fn spec_image_payload(s: Seq<char>) -> Seq<char> {
    let i = first_occurrence(s, "base64,"@);
    if i < 0 {
        s
    } else {
        s.skip(i + "base64,"@.len())
    }
}

/// Strips a `data:...;base64,` prefix from an image string, if present.
pub fn image_payload(image: &String) -> (r: String)
    ensures
        r@ == spec_image_payload(image@),
{
    let chars = str_to_chars(image.as_str());
    let pat = str_to_chars("base64,");
    match find_first(&chars, &pat) {
        None => image.clone(),
        Some(i) => {
            let n: usize = chars.len();
            proof {
                assert(i + pat@.len() <= chars@.len());
            }
            let start: usize = i + pat.len();
            let tail = copy_range(&chars, start, n);
            proof {
                assert(chars@.subrange(start as int, chars@.len() as int) =~= chars@.skip(
                    start as int,
                ));
            }
            chars_to_string(&tail)
        },
    }
}

/// Decodes and validates every supplied image payload.  The first
/// malformed payload is a hard error naming its index; on success every
/// image is returned decoded, in order.
pub fn decode_images(images: &Vec<String>) -> (r: Result<Vec<Vec<u8>>, EngineError>)
    ensures
        r matches Ok(v) ==> v@.len() == images@.len() && (forall|k: int|
            0 <= k < images@.len() ==> base64_decoded(
                spec_image_payload(#[trigger] images@[k]@),
            ) == Some(v@[k]@)),
        r matches Err(e) ==> (e matches EngineError::ImageDecodeError { index, detail: _ }
            && 0 <= index < images@.len() && base64_decoded(
            spec_image_payload(images@[index as int]@),
        ) is None && (forall|k: int|
            0 <= k < index ==> base64_decoded(
                spec_image_payload(#[trigger] images@[k]@),
            ) is Some)),
        (r is Err) <==> (exists|k: int|
            0 <= k < images@.len() && base64_decoded(
                spec_image_payload(#[trigger] images@[k]@),
            ) is None),
{
    let mut out: Vec<Vec<u8>> = Vec::new();
    let mut idx: usize = 0;
    while idx < images.len()
        invariant
            idx <= images@.len(),
            out@.len() == idx,
            forall|k: int|
                0 <= k < idx ==> base64_decoded(spec_image_payload(#[trigger] images@[k]@))
                    == Some(out@[k]@),
        decreases images@.len() - idx,
    {
        let payload = image_payload(&images[idx]);
        match decode_base64(payload.as_str()) {
            Ok(bytes) => {
                out.push(bytes);
            },
            Err(detail) => {
                return Err(EngineError::ImageDecodeError { index: idx, detail });
            },
        }
        idx += 1;
    }
    Ok(out)
}

/// The degraded prompt of a vision request: the original prompt behind a
/// note that images were sent but not incorporated.
pub open spec fn spec_vision_prompt(prompt: Seq<char>, count: int) -> Seq<char> {
    "[System: User sent "@ + spec_dec(count)
        + " image(s) but vision processing is not yet implemented. Please acknowledge the images and respond based on the text prompt.]\n\n"@
        + prompt
}

/// Builds the degraded text prompt for a vision request.
pub fn vision_prompt(prompt: &String, image_count: u64) -> (r: String)
    ensures
        r@ == spec_vision_prompt(prompt@, image_count as int),
{
    let mut s = String::from_str("[System: User sent ");
    s.append(u64_to_string(image_count).as_str());
    s.append(
        " image(s) but vision processing is not yet implemented. Please acknowledge the images and respond based on the text prompt.]\n\n",
    );
    s.append(prompt.as_str());
    s
}

/// A vision request made ready for the text generation path.
pub struct VisionRequest {
    /// The decoded image payloads, validated but not incorporated.
    pub decoded_images: Vec<Vec<u8>>,
    /// The degraded text prompt to generate from.
    pub prompt: String,
}

/// Validates a vision-augmented request and degrades it, by design, to a
/// text request: absent a vision-projection capability the images cannot
/// be incorporated, so they are decoded and validated only, and the
/// prompt is rewritten to note the image count.  Malformed base64 is a
/// hard error; nothing here mutates the engine state, and no partial
/// output is produced.
pub fn prepare_vision_request(state: &ModelState, prompt: &String, images: &Vec<String>) -> (r:
    Result<VisionRequest, EngineError>)
    ensures
        state@.model is None ==> r matches Err(EngineError::ModelNotLoaded),
        state@.model is Some ==> match r {
            Ok(req) => {
                &&& req.prompt@ == spec_vision_prompt(prompt@, images@.len() as int)
                &&& req.decoded_images@.len() == images@.len()
                &&& forall|k: int|
                    0 <= k < images@.len() ==> base64_decoded(
                        spec_image_payload(#[trigger] images@[k]@),
                    ) == Some(req.decoded_images@[k]@)
            },
            Err(e) => {
                &&& e matches EngineError::ImageDecodeError { index, detail: _ }
                &&& 0 <= e->index < images@.len()
                &&& base64_decoded(spec_image_payload(images@[e->index as int]@)) is None
            },
        },
        state@.model is Some ==> ((r is Err) <==> (exists|k: int|
            0 <= k < images@.len() && base64_decoded(
                spec_image_payload(#[trigger] images@[k]@),
            ) is None)),
{
    if !state.is_loaded() {
        return Err(EngineError::ModelNotLoaded);
    }
    match decode_images(images) {
        Ok(decoded) => Ok(
            VisionRequest {
                decoded_images: decoded,
                prompt: vision_prompt(prompt, images.len() as u64),
            },
        ),
        Err(e) => Err(e),
    }
}

} // verus!
