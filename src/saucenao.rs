use std::collections::HashMap;

use vstd::prelude::*;
use vstd::string::*;

use crate::error::Error;
use crate::source::{
    content_type_is_image, head_request, is_head_of, is_image_type, items_view, opt_view, Item,
    ItemModel, Method, Output, OutputModel, Request, Score, Similarity, Source, Step,
};
use crate::text::{float_text, is_float_text, normalize_link, normalized};

verus! {

/// The address template of the search API.
pub const BASE_URL: &'static str = "https://saucenao.com/search.php?url={url}&api_key={api_key}";

/// Fixed parameters appended to the filled template: every database, JSON
/// output, test mode, at most sixteen results.
pub const FIXED_PARAMS: &'static str = "&db=999&output_type=2&testmode=1&numres=16";

/// `s` holds no brace.
pub open spec fn brace_free(s: Seq<char>) -> bool {
    forall|i: int| 0 <= i < s.len() ==> s[i] != '{' && s[i] != '}'
}

/// The template `t` with each `{url}` replaced by `u` and each `{api_key}` by
/// `k`; `None` where `t` holds any other brace.
pub open spec fn filled(t: Seq<char>, u: Seq<char>, k: Seq<char>) -> Option<Seq<char>>
    decreases t.len(),
{
    if t.len() == 0 {
        Some(Seq::empty())
    } else if t.len() >= 5 && t.subrange(0, 5) == "{url}"@ {
        match filled(t.skip(5), u, k) {
            Some(r) => Some(u + r),
            None => None,
        }
    } else if t.len() >= 9 && t.subrange(0, 9) == "{api_key}"@ {
        match filled(t.skip(9), u, k) {
            Some(r) => Some(k + r),
            None => None,
        }
    } else if t[0] == '{' || t[0] == '}' {
        None
    } else {
        match filled(t.skip(1), u, k) {
            Some(r) => Some(seq![t[0]] + r),
            None => None,
        }
    }
}

/// `s` percent-encoded for a URL query: every byte of its UTF-8 form but
/// ASCII letters, digits and `-`, `_`, `.`, `~` written as `%XX`.
pub uninterp spec fn url_encoded(s: Seq<char>) -> Seq<char>;

/// Relies on `urlencoding::encode`: percent-encodes the text; the result
/// depends on the text alone.
#[verifier::external_body]
fn encode_component(s: &str) -> (r: String)
    ensures
        r@ == url_encoded(s@),
{
    urlencoding::encode(s).into_owned()
}

/// Relies on `strfmt::strfmt` with the variables `url` and `api_key`: each
/// `{url}` and `{api_key}` of the template becomes the variable's value, every
/// other character is copied, and such a template is accepted.
#[verifier::external_body]
fn fill_template(template: &str, url: &str, api_key: &str) -> (r: Option<String>)
    ensures
        filled(template@, url@, api_key@) is Some ==> r is Some && r->Some_0@ == filled(
            template@,
            url@,
            api_key@,
        )->Some_0,
{
    let mut vars: HashMap<String, &str> = HashMap::new();
    vars.insert("url".to_string(), url);
    vars.insert("api_key".to_string(), api_key);
    strfmt::strfmt(template, &vars).ok()
}

proof fn lemma_filled_plain(a: Seq<char>, t: Seq<char>, u: Seq<char>, k: Seq<char>)
    requires
        brace_free(a),
    ensures
        filled(a + t, u, k) == (match filled(t, u, k) {
            Some(r) => Some(a + r),
            None => None::<Seq<char>>,
        }),
    decreases a.len(),
{
    reveal_strlit("{url}");
    reveal_strlit("{api_key}");
    if a.len() == 0 {
        assert(a + t =~= t);
        if let Some(r) = filled(t, u, k) {
            assert(a + r =~= r);
        }
    } else {
        let s = a + t;
        assert(s[0] == a[0]);
        assert(s.len() >= 5 ==> s.subrange(0, 5) != "{url}"@) by {
            if s.len() >= 5 {
                assert(s.subrange(0, 5)[0] == s[0]);
            }
        }
        assert(s.len() >= 9 ==> s.subrange(0, 9) != "{api_key}"@) by {
            if s.len() >= 9 {
                assert(s.subrange(0, 9)[0] == s[0]);
            }
        }
        assert(s.skip(1) =~= a.skip(1) + t);
        lemma_filled_plain(a.skip(1), t, u, k);
        if let Some(r) = filled(t, u, k) {
            assert(seq![a[0]] + (a.skip(1) + r) =~= a + r);
        }
    }
}

proof fn lemma_filled_url(t: Seq<char>, u: Seq<char>, k: Seq<char>)
    ensures
        filled("{url}"@ + t, u, k) == (match filled(t, u, k) {
            Some(r) => Some(u + r),
            None => None::<Seq<char>>,
        }),
{
    reveal_strlit("{url}");
    let s = "{url}"@ + t;
    assert(s.subrange(0, 5) =~= "{url}"@);
    assert(s.skip(5) =~= t);
}

proof fn lemma_filled_key(t: Seq<char>, u: Seq<char>, k: Seq<char>)
    ensures
        filled("{api_key}"@ + t, u, k) == (match filled(t, u, k) {
            Some(r) => Some(k + r),
            None => None::<Seq<char>>,
        }),
{
    reveal_strlit("{url}");
    reveal_strlit("{api_key}");
    let s = "{api_key}"@ + t;
    assert(s.subrange(0, 5)[1] != "{url}"@[1]);
    assert(s.subrange(0, 9) =~= "{api_key}"@);
    assert(s.skip(9) =~= t);
}

/// The API address for `url` under `key`.
pub open spec fn api_url(url: Seq<char>, key: Seq<char>) -> Seq<char> {
    "https://saucenao.com/search.php?url="@ + url_encoded(url) + "&api_key="@ + key
}

proof fn lemma_base_filled(u: Seq<char>, k: Seq<char>)
    ensures
        filled(BASE_URL@, u, k) == Some(
            "https://saucenao.com/search.php?url="@ + u + "&api_key="@ + k,
        ),
{
    let a = "https://saucenao.com/search.php?url="@;
    let b = "&api_key="@;
    reveal_strlit("https://saucenao.com/search.php?url={url}&api_key={api_key}");
    reveal_strlit("https://saucenao.com/search.php?url=");
    reveal_strlit("&api_key=");
    reveal_strlit("{url}");
    reveal_strlit("{api_key}");
    assert(BASE_URL@ =~= a + ("{url}"@ + (b + ("{api_key}"@ + Seq::empty()))));
    assert(brace_free(a));
    assert(brace_free(b));
    lemma_filled_key(Seq::empty(), u, k);
    lemma_filled_plain(b, "{api_key}"@ + Seq::empty(), u, k);
    lemma_filled_url(b + ("{api_key}"@ + Seq::empty()), u, k);
    lemma_filled_plain(a, "{url}"@ + (b + ("{api_key}"@ + Seq::empty())), u, k);
    assert(k + Seq::<char>::empty() =~= k);
    assert(a + (u + (b + k)) =~= a + u + b + k);
}

/// The search address for `url` under `key`.
pub open spec fn search_address(url: Seq<char>, key: Seq<char>) -> Seq<char> {
    api_url(url, key) + "&db=999&output_type=2&testmode=1&numres=16"@
}

/// The search request for `url` under `key`: a GET of the search address that
/// asks for UTF-8, bounded to ten seconds.
pub open spec fn is_search_of(req: Request, url: Seq<char>, key: Seq<char>) -> bool {
    &&& req.method == Method::Get
    &&& req.url@ == search_address(url, key)
    &&& req.query@.len() == 0
    &&& req.headers@.len() == 1
    &&& req.headers@[0].0@ == "accept-encoding"@
    &&& req.headers@[0].1@ == "utf-8"@
    &&& req.timeout_secs == Some(10u64)
}

/// One entry of the API's result list: the similarity text of its header and
/// the external addresses of its data, if any.
#[derive(Debug, Clone, PartialEq)]
pub struct ApiEntry {
    pub similarity: String,
    pub ext_urls: Option<Vec<String>>,
}

/// The first external address of an entry, if it has one.
pub open spec fn first_link(e: ApiEntry) -> Option<Seq<char>> {
    match e.ext_urls {
        Some(v) => if v@.len() > 0 {
            Some(v@[0]@)
        } else {
            None
        },
        None => None,
    }
}

/// The items that the entries give, in order: one per entry with an external
/// address, from its first address and its similarity; `None` when such an
/// entry's similarity does not read as a float.
pub open spec fn sauce_items(es: Seq<ApiEntry>) -> Option<Seq<ItemModel>>
    decreases es.len(),
{
    if es.len() == 0 {
        Some(Seq::empty())
    } else {
        match sauce_items(es.drop_last()) {
            None => None,
            Some(items) => {
                let e = es.last();
                match first_link(e) {
                    None => Some(items),
                    Some(l) => if float_text(e.similarity@) {
                        Some(
                            items.push(
                                ItemModel { link: normalized(l), score: Score::Reported(e.similarity@) },
                            ),
                        )
                    } else {
                        None
                    },
                }
            },
        }
    }
}

proof fn lemma_failure_spreads(es: Seq<ApiEntry>, i: int)
    requires
        0 <= i <= es.len(),
        sauce_items(es.subrange(0, i)) is None,
    ensures
        sauce_items(es) is None,
    decreases es.len() - i,
{
    if i < es.len() {
        assert(es.subrange(0, i + 1).drop_last() =~= es.subrange(0, i));
        lemma_failure_spreads(es, i + 1);
    } else {
        assert(es.subrange(0, i) =~= es);
    }
}

/// The provider for `saucenao.com`. Searching needs an API key.
#[derive(Debug)]
pub struct SauceNao {
    api_key: Option<String>,
}

impl SauceNao {
    /// The API key, if one is set.
    pub closed spec fn key(&self) -> Option<Seq<char>> {
        opt_view(self.api_key)
    }

    /// A provider with no API key.
    pub fn new() -> (r: Self)
        ensures
            r.key() is None,
    {
        SauceNao { api_key: None }
    }

    /// Sets the API key.
    pub fn set_api_key(&mut self, api_key: String)
        ensures
            final(self).key() == Some(api_key@),
    {
        self.api_key = Some(api_key);
    }

    /// The API key, if one is set.
    pub fn get_api_key(&self) -> (r: &Option<String>)
        ensures
            opt_view(*r) == self.key(),
    {
        &self.api_key
    }

    /// The API address for `url`: the template filled with `url`
    /// percent-encoded and the API key.
    pub fn build_url(&self, url: &str) -> (r: Result<String, Error>)
        ensures
            self.key() is None ==> r == Err::<String, Error>(Error::MissingConfiguration),
            self.key() matches Some(k) ==> (r matches Ok(s) && s@ == api_url(url@, k)),
    {
        match &self.api_key {
            None => Err(Error::MissingConfiguration),
            Some(key) => {
                let encoded = encode_component(url);
                proof {
                    lemma_base_filled(encoded@, key@);
                }
                match fill_template(BASE_URL, encoded.as_str(), key.as_str()) {
                    Some(s) => Ok(s),
                    None => Err(Error::Templating),
                }
            },
        }
    }

    /// The search request for `url`.
    pub fn search_request(&self, url: &str) -> (r: Result<Request, Error>)
        ensures
            self.key() is None ==> (r matches Err(e) && e == Error::MissingConfiguration),
            self.key() matches Some(k) ==> (r matches Ok(req) && is_search_of(req, url@, k)),
    {
        let mut address = self.build_url(url)?;
        address.append(FIXED_PARAMS);
        let mut headers: Vec<(String, String)> = Vec::new();
        headers.push((String::from_str("accept-encoding"), String::from_str("utf-8")));
        Ok(
            Request {
                method: Method::Get,
                url: address,
                query: Vec::new(),
                headers,
                timeout_secs: Some(10),
            },
        )
    }

    /// The first step of a search: without an API key the search fails at
    /// once, with no request; otherwise the metadata fetch of `url`.
    pub fn first_step(&self, url: &str) -> (r: Step)
        ensures
            self.key() is None ==> r == Step::Fail(Error::MissingConfiguration),
            self.key() is Some ==> (r matches Step::Fetch(req) && is_head_of(req, url@)),
    {
        if self.api_key.is_none() {
            return Step::Fail(Error::MissingConfiguration);
        }
        Step::Fetch(head_request(url))
    }

    /// The step after the metadata fetch reported `content_type`.
    pub fn step_after_head(&self, url: &str, content_type: Option<String>) -> (r: Step)
        ensures
            !is_image_type(opt_view(content_type)) ==> r == Step::Fail(Error::LinkIsNotImage),
            is_image_type(opt_view(content_type)) && self.key() is None ==> r == Step::Fail(
                Error::MissingConfiguration,
            ),
            self.key() matches Some(k) ==> (is_image_type(opt_view(content_type)) ==> (
            r matches Step::Fetch(req) && is_search_of(req, url@, k))),
    {
        if !content_type_is_image(&content_type) {
            return Step::Fail(Error::LinkIsNotImage);
        }
        match self.search_request(url) {
            Ok(req) => Step::Fetch(req),
            Err(e) => Step::Fail(e),
        }
    }

    /// The result of the search for `url` from the API's result entries: one
    /// item per entry with an external address; a similarity that does not
    /// read as a float fails the whole search.
    pub fn read_entries(url: &str, entries: Vec<ApiEntry>) -> (r: Result<Output, Error>)
        ensures
            sauce_items(entries@) is None ==> r == Err::<Output, Error>(Error::Decode),
            sauce_items(entries@) is Some ==> (r matches Ok(out) && out@ == (OutputModel {
                original_url: url@,
                items: sauce_items(entries@)->Some_0,
            })),
    {
        let ghost es = entries@;
        let mut items: Vec<Item> = Vec::new();
        let n = entries.len();
        let rest = entries;
        let mut i: usize = 0;
        while i < n
            invariant
                n == es.len(),
                es == entries@,
                i <= n,
                rest@ == es,
                sauce_items(es.subrange(0, i as int)) == Some(items_view(items@)),
            decreases n - i,
        {
            assert(es.subrange(0, i + 1).drop_last() =~= es.subrange(0, i as int));
            assert(es.subrange(0, i + 1).last() == es[i as int]);
            let e = &rest[i];
            match &e.ext_urls {
                None => {},
                Some(links) => {
                    if links.len() > 0 {
                        if !is_float_text(e.similarity.as_str()) {
                            proof {
                                assert(first_link(es[i as int]) == Some(links@[0]@));
                                assert(sauce_items(es.subrange(0, i + 1)) is None);
                                lemma_failure_spreads(es, i + 1);

                            }
                            return Err(Error::Decode);
                        }
                        let link = normalize_link(links[0].clone());
                        let similarity = Similarity::Reported(e.similarity.clone());
                        let ghost before = items@;
                        items.push(Item { link, similarity });
                        assert(items_view(items@) =~= items_view(before).push(items@.last()@));
                    }
                },
            }
            i = i + 1;
        }
        assert(es.subrange(0, n as int) =~= es);
        Ok(Output { original_url: url.to_string(), items })
    }
}

impl Default for SauceNao {
    fn default() -> (r: Self)
        ensures
            r.key() is None,
    {
        Self::new()
    }
}

impl Source for SauceNao {
    /// The API key, if any.
    type State = Option<String>;

    type Reply = Vec<ApiEntry>;

    /// An API key is set.
    open spec fn ready(&self) -> bool {
        self.key() is Some
    }

    /// The API key is `argument`.
    open spec fn holds(&self, argument: Option<String>) -> bool {
        self.key() == opt_view(argument)
    }

    fn create(argument: Option<String>) -> (r: Result<Self, Error>) {
        Ok(SauceNao { api_key: argument })
    }

    fn begin(&self, url: &str) -> (r: Step) {
        self.first_step(url)
    }

    fn after_head(&self, url: &str, content_type: Option<String>) -> (r: Step) {
        self.step_after_head(url, content_type)
    }

    fn finish(&self, url: &str, reply: Vec<ApiEntry>) -> (r: Result<Output, Error>) {
        SauceNao::read_entries(url, reply)
    }
}

} // verus!
