use vstd::prelude::*;

verus! {

/// The kinds of failure shared by every provider.
#[derive(Clone, Copy, Debug, PartialEq, Eq, Structural)]
pub enum Error {
    /// The target's content type is absent or does not name an image.
    LinkIsNotImage,
    /// A configuration value that the provider needs (an API key) was not set.
    MissingConfiguration,
    /// The transport failed: network error, bad status or timeout.
    Transport,
    /// A reply could not be read in the expected shape.
    Decode,
    /// The request address could not be filled in from its template.
    Templating,
}

} // verus!
