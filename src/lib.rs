//! Reverse image search over several providers behind one contract.
//!
//! A search for an image address runs as a short exchange between a provider
//! and its caller: the provider asks for a metadata fetch of the image,
//! decides from the reported content type whether to search, asks for the
//! search request, and turns the search reply into an [`Output`]. The caller
//! performs the requests.
mod error;
mod laws;
mod saucenao;
mod source;
mod text;
mod yandex;

pub use error::Error;
pub use laws::{entry_view, lemma_entries_determine_items};
pub use saucenao::{ApiEntry, SauceNao, BASE_URL, FIXED_PARAMS};
pub use source::{
    check_with_replies, content_type_is_image, head_request, Item, ItemModel, Method, Output,
    OutputModel, Request, Score, Similarity, Source, Step,
};
pub use text::{is_float_text, normalize_link, str_contains};
pub use yandex::{Yandex, INFO_SELECTOR, RESULTS_SELECTOR, RESULT_SELECTOR, SEARCH_URL};
