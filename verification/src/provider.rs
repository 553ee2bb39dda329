use vstd::prelude::*;

verus! {

/// Which model provider serves a request.
#[derive(Clone, Copy, Debug, PartialEq, Eq, Structural)]
pub enum ModelProvider {
    Local,
    Ollama,
    OpenAI,
    Groq,
}

/// One turn of a model exchange, as sent over the provider's wire format.
#[derive(Clone, Debug)]
pub struct Message {
    pub role: String,
    pub content: String,
}

/// The provider that answers in-process, without any network round trip.
/// Its transport (an asynchronous stream) lives at the boundary; the
/// replies it produces are fixed and stated here.
pub struct LocalProvider;

impl LocalProvider {
    /// The reply the local provider returns for any exchange.
    pub fn generate_response(&self) -> (r: String)
        ensures
            r@ == "Local response"@,
    {
        String::from_str("Local response")
    }

    /// The single chunk the local provider streams for any exchange.
    pub fn generate_stream_chunk(&self) -> (r: String)
        ensures
            r@ == "Local stream response"@,
    {
        String::from_str("Local stream response")
    }
}

} // verus!
