//! The generation request and the defaults of its optional fields.

use vstd::prelude::*;
use vstd::string::*;

verus! {

/// One image-generation request, as the client sent it.
///
/// `cfg_scale` holds the guidance scale as the text that is handed to the
/// generator; the number itself is never inspected.
#[derive(Debug)]
pub struct ImageGenerationRequest {
    pub prompt: String,
    pub model: String,
    pub size: String,
    pub negative_prompt: Option<String>,
    pub steps: u32,
    pub cfg_scale: String,
    pub seed: i32,
}

/// The size used when the request names none.
pub fn default_size() -> (r: String)
    ensures
        r@ == "512x512"@,
{
    String::from_str("512x512")
}

/// The number of steps used when the request names none.
pub fn default_steps() -> (r: u32)
    ensures
        r == 20,
{
    20
}

/// The seed used when the request names none: negative, which stands for
/// "not set".
pub fn default_seed() -> (r: i32)
    ensures
        r == -1,
{
    -1
}

/// The guidance scale used when the request names none, as text.
pub fn default_cfg_scale_text() -> (r: String)
    ensures
        r@ == "7"@,
{
    String::from_str("7")
}

impl ImageGenerationRequest {
    /// A request for `prompt` and `model` with every optional field at its
    /// default.
    pub fn new(prompt: String, model: String) -> (r: ImageGenerationRequest)
        ensures
            r.prompt == prompt,
            r.model == model,
            r.size@ == "512x512"@,
            r.negative_prompt is None,
            r.steps == 20,
            r.cfg_scale@ == "7"@,
            r.seed == -1,
    {
        ImageGenerationRequest {
            prompt,
            model,
            size: default_size(),
            negative_prompt: None,
            steps: default_steps(),
            cfg_scale: default_cfg_scale_text(),
            seed: default_seed(),
        }
    }
}

} // verus!
