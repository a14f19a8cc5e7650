//! The API keys that the application works with, and where each was found.

use vstd::prelude::*;

verus! {

/// Where an API key was found.
#[derive(Clone, Copy, Debug, PartialEq, Eq, Structural)]
pub enum Source {
    Environment,
}

/// An API key: the secret, and where it was found.
#[derive(Clone, Debug, PartialEq, Eq)]
pub struct ApiKey {
    pub value: String,
    pub source: Source,
}

/// The API keys known, one place for each service.
#[derive(Clone, Debug, PartialEq, Eq)]
pub struct ApiKeys {
    pub openai: Option<ApiKey>,
}

impl View for ApiKey {
    type V = (Seq<char>, Source);

    open spec fn view(&self) -> (Seq<char>, Source) {
        (self.value@, self.source)
    }
}

impl View for ApiKeys {
    type V = Option<(Seq<char>, Source)>;

    open spec fn view(&self) -> Option<(Seq<char>, Source)> {
        match self.openai {
            Some(key) => Some(key@),
            None => None,
        }
    }
}

/// The keys that the environment gives: the OpenAI key is the value of
/// `OPENAI_API_KEY` as it stands, marked as found in the environment, and
/// there is none where the variable is not set.
pub open spec fn keys_of_environment(openai_api_key: Option<Seq<char>>) -> Option<
    (Seq<char>, Source),
> {
    match openai_api_key {
        Some(value) => Some((value, Source::Environment)),
        None => None,
    }
}

impl Default for ApiKeys {
    fn default() -> (keys: ApiKeys)
        ensures
            keys@ is None,
    {
        ApiKeys { openai: None }
    }
}

/// Collects the API keys from the value of the variable `OPENAI_API_KEY`,
/// `None` where the variable is not set.
pub fn setup_api_keys(openai_api_key: Option<String>) -> (api_keys: ApiKeys)
    ensures
        api_keys@ == keys_of_environment(
            match openai_api_key {
                Some(value) => Some(value@),
                None => None,
            },
        ),
{
    let mut api_keys = ApiKeys { openai: None };
    if let Some(value) = openai_api_key {
        api_keys.openai = Some(ApiKey { value, source: Source::Environment });
    }
    api_keys
}

/// The keys are told from `OPENAI_API_KEY` alone: two looks at the same
/// value find the same key from the same source, or both find none.
pub proof fn lemma_keys_are_repeatable(
    first: ApiKeys,
    second: ApiKeys,
    openai_api_key: Option<Seq<char>>,
)
    requires
        first@ == keys_of_environment(openai_api_key),
        second@ == keys_of_environment(openai_api_key),
    ensures
        first@ == second@,
        first.openai is Some <==> openai_api_key is Some,
        first.openai matches Some(key) ==> key.value@ == openai_api_key->0 && key.source
            == Source::Environment,
{
}

} // verus!
