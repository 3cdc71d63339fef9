//! The animation URLs the bot may attach to a notification.
//!
//! The list is decoded once at startup from a JSON document (a JSON array of
//! strings) and is fixed and non-empty from then on. Callers pick an entry
//! by index or at random.

use vstd::prelude::*;

verus! {

/// The error type of serde_json, declared so that the parse wrapper can
/// return it; this crate maps it to `AnimationError::InvalidJson`.
#[verifier::external_type_specification]
#[verifier::external_body]
pub struct ExSerdeJsonError(serde_json::Error);

/// What serde_json makes of a text that should hold a JSON array of
/// strings: `None` when the text is not such a document, the decoded list
/// otherwise. The result depends on the characters alone.
pub uninterp spec fn json_string_list(text: Seq<char>) -> Option<Seq<Seq<char>>>;

/// Relies on serde_json::from_str::<Vec<String>>: decodes a JSON array of
/// strings, and fails exactly when the input is not one.
#[verifier::external_body]
fn parse_string_list(text: &str) -> (r: Result<Vec<String>, serde_json::Error>)
    ensures
        r is Ok <==> json_string_list(text@) is Some,
        (r matches Ok(urls) ==> json_string_list(text@) == Some(urls.deep_view())),
{
    serde_json::from_str(text)
}

/// Relies on rand::thread_rng and Rng::gen_range: a random index below
/// `bound`. gen_range panics on an empty range, so the bound must be
/// positive; nothing is promised about which index comes back.
#[verifier::external_body]
fn random_index(bound: usize) -> (index: usize)
    requires
        bound > 0,
    ensures
        index < bound,
{
    rand::Rng::gen_range(&mut rand::thread_rng(), 0..bound)
}

/// Why a list of animation URLs could not be built.
#[derive(Debug, Clone, Copy, PartialEq, Eq, Structural)]
pub enum AnimationError {
    /// The text is not a JSON array of strings.
    InvalidJson,
    /// The decoded list holds no URL.
    EmptyList,
}

/// A fixed, non-empty list of animation URLs.
pub struct AnimationStore {
    urls: Vec<String>,
}

impl AnimationStore {
    /// The URLs held, in order, as sequences of characters.
    pub closed spec fn spec_urls(&self) -> Seq<Seq<char>> {
        self.urls.deep_view()
    }

    /// A store is well-formed when it holds at least one URL.
    pub open spec fn wf(&self) -> bool {
        self.spec_urls().len() > 0
    }

    /// Build a store from already-decoded URLs; an empty list is refused.
    pub fn new(urls: Vec<String>) -> (r: Result<Self, AnimationError>)
        ensures
            r is Ok <==> urls.deep_view().len() > 0,
            (r matches Ok(store) ==> store.spec_urls() == urls.deep_view() && store.wf()),
            (r matches Err(e) ==> e == AnimationError::EmptyList),
    {
        if urls.len() == 0 {
            Err(AnimationError::EmptyList)
        } else {
            Ok(AnimationStore { urls })
        }
    }

    /// Decode a store from a JSON document, as the startup configuration
    /// supplies it: a JSON array of strings with at least one entry.
    pub fn from_json(text: &str) -> (r: Result<Self, AnimationError>)
        ensures
            r is Ok <==> (json_string_list(text@) matches Some(urls) && urls.len() > 0),
            (r matches Ok(store) ==> json_string_list(text@) matches Some(urls)
                && store.spec_urls() == urls && store.wf()),
            (r matches Err(e) ==> e == (if json_string_list(text@) is None {
                AnimationError::InvalidJson
            } else {
                AnimationError::EmptyList
            })),
    {
        match parse_string_list(text) {
            Ok(urls) => Self::new(urls),
            Err(_) => Err(AnimationError::InvalidJson),
        }
    }

    /// How many animation URLs are held.
    pub fn get_animation_urls_size(&self) -> (size: usize)
        ensures
            size == self.spec_urls().len(),
    {
        self.urls.len()
    }

    /// All animation URLs, in order.
    pub fn get_animation_urls(&self) -> (urls: Vec<String>)
        ensures
            urls.deep_view() == self.spec_urls(),
    {
        let urls = self.urls.clone();
        proof {
            assert forall|i: int| 0 <= i < urls.deep_view().len() implies urls.deep_view()[i]
                == self.urls.deep_view()[i] by {
                assert(cloned::<String>(self.urls[i], urls[i]));
            }
            assert(urls.deep_view() =~= self.urls.deep_view());
        }
        urls
    }

    /// The URL at `index`, when the index is in range.
    pub fn get_animation_url(&self, index: usize) -> (r: Option<String>)
        ensures
            index < self.spec_urls().len() ==> (r matches Some(url) && url@ == self.spec_urls()[index as int]),
            index >= self.spec_urls().len() ==> r is None,
    {
        if index < self.urls.len() {
            Some(self.urls[index].clone())
        } else {
            None
        }
    }

    /// A randomly chosen animation URL out of the held list.
    pub fn get_random_animation_url(&self) -> (url: String)
        requires
            self.wf(),
        ensures
            exists|i: int| 0 <= i < self.spec_urls().len() && url@ == self.spec_urls()[i],
    {
        let index = random_index(self.urls.len());
        let url = self.urls[index].clone();
        proof {
            assert(url@ == self.spec_urls()[index as int]);
        }
        url
    }
}

} // verus!
