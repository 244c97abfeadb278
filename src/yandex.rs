use vstd::prelude::*;
use vstd::string::*;

use crate::error::Error;
use crate::source::{
    content_type_is_image, head_request, is_head_of, is_image_type, items_view, opt_view, Item,
    ItemModel, Method, Output, OutputModel, Request, Score, Similarity, Source, Step,
};
use crate::text::{normalize_link, normalized};

verus! {

/// The search page that takes an image address.
pub const SEARCH_URL: &'static str = "https://yandex.com/images/search";

/// The element that holds one result per child.
pub const RESULTS_SELECTOR: &'static str = ".CbirSites-Items";

/// The elements of the result list.
pub const RESULT_SELECTOR: &'static str = "li";

/// The part of a result that holds its link.
pub const INFO_SELECTOR: &'static str = ".CbirSites-ItemInfo";

/// In the document `html`, for each element that `child` selects among the
/// children of the elements that `container` selects: the attribute `attr` of
/// the first child selected by `anchor` of the first descendant selected by
/// `scope`, or `None` where there is none. `None` as a whole where the document
/// cannot be read.
pub uninterp spec fn dom_child_links(
    html: Seq<char>,
    container: Seq<char>,
    child: Seq<char>,
    scope: Seq<char>,
    anchor: Seq<char>,
    attr: Seq<char>,
) -> Option<Seq<Option<Seq<char>>>>;

/// Relies on `visdom::Vis::load`, `Vis::dom` and the `find`, `children`,
/// `first` and `attr` queries of `visdom::types::Elements`: one attribute read
/// from each selected element of a parsed document.
#[verifier::external_body]
fn child_links(
    html: &str,
    container: &str,
    child: &str,
    scope: &str,
    anchor: &str,
    attr: &str,
) -> (r: Option<Vec<Option<String>>>)
    requires
        container@ == ".CbirSites-Items"@,
        child@ == "li"@,
        scope@ == ".CbirSites-ItemInfo"@,
        anchor@ == "a"@,
        attr@ == "href"@,
    ensures
        match r {
            Some(v) => dom_child_links(html@, container@, child@, scope@, anchor@, attr@) == Some(
                links_view(v@),
            ),
            None => dom_child_links(html@, container@, child@, scope@, anchor@, attr@) is None,
        },
{
    let doc = visdom::Vis::load(html).ok()?;
    let pages = doc.find(container).children(child);
    let links = pages.get_ref().iter().map(|page| {
        let info = visdom::Vis::dom(page).find(scope).first();
        info.children(anchor).attr(attr).map(|v| v.to_string())
    });
    Some(links.collect())
}

/// The item that a result's link gives: none without a link; otherwise the
/// normalised link with no reported similarity.
pub open spec fn link_item(link: Option<Seq<char>>) -> Option<ItemModel> {
    match link {
        Some(l) => Some(ItemModel { link: normalized(l), score: Score::NotReported }),
        None => None,
    }
}

/// The items that the results' links give, in order, skipping results
/// without a link.
pub open spec fn link_items(links: Seq<Option<Seq<char>>>) -> Seq<ItemModel>
    decreases links.len(),
{
    if links.len() == 0 {
        Seq::empty()
    } else {
        let rest = link_items(links.drop_last());
        match link_item(links.last()) {
            Some(it) => rest.push(it),
            None => rest,
        }
    }
}

/// The links of the optional texts, in their mathematical form.
pub open spec fn links_view(links: Seq<Option<String>>) -> Seq<Option<Seq<char>>> {
    links.map_values(|o: Option<String>| opt_view(o))
}

/// The links of the results of a search page: the `href` of the anchor under
/// the info part of each element of the result list.
pub open spec fn page_links(html: Seq<char>) -> Option<Seq<Option<Seq<char>>>> {
    dom_child_links(html, ".CbirSites-Items"@, "li"@, ".CbirSites-ItemInfo"@, "a"@, "href"@)
}

/// The search request for `url`: a GET of the search page with the image
/// address and the image-view flag as query, bounded to ten seconds.
pub open spec fn is_search_of(req: Request, url: Seq<char>) -> bool {
    &&& req.method == Method::Get
    &&& req.url@ == "https://yandex.com/images/search"@
    &&& req.query@.len() == 2
    &&& req.query@[0].0@ == "url"@
    &&& req.query@[0].1@ == url
    &&& req.query@[1].0@ == "rpt"@
    &&& req.query@[1].1@ == "imageview"@
    &&& req.headers@.len() == 0
    &&& req.timeout_secs == Some(10u64)
}

/// The provider for `yandex.com`, read from its search page. It needs no
/// configuration and reports no similarity.
#[derive(Debug)]
pub struct Yandex;

impl Yandex {
    /// The first step of a search: the metadata fetch of `url`.
    pub fn first_step(url: &str) -> (r: Step)
        ensures
            r matches Step::Fetch(req) && is_head_of(req, url@),
    {
        Step::Fetch(head_request(url))
    }

    /// The search request for `url`.
    pub fn search_request(url: &str) -> (r: Request)
        ensures
            is_search_of(r, url@),
    {
        let mut query: Vec<(String, String)> = Vec::new();
        query.push((String::from_str("url"), url.to_string()));
        query.push((String::from_str("rpt"), String::from_str("imageview")));
        Request {
            method: Method::Get,
            url: String::from_str(SEARCH_URL),
            query,
            headers: Vec::new(),
            timeout_secs: Some(10),
        }
    }

    /// The step after the metadata fetch reported `content_type`.
    pub fn step_after_head(url: &str, content_type: Option<String>) -> (r: Step)
        ensures
            !is_image_type(opt_view(content_type)) ==> r == Step::Fail(Error::LinkIsNotImage),
            is_image_type(opt_view(content_type)) ==> (r matches Step::Fetch(req) && is_search_of(
                req,
                url@,
            )),
    {
        if !content_type_is_image(&content_type) {
            return Step::Fail(Error::LinkIsNotImage);
        }
        Step::Fetch(Yandex::search_request(url))
    }

    /// The item that one result's link gives.
    pub fn item_from_link(link: Option<String>) -> (r: Option<Item>)
        ensures
            match r {
                Some(it) => link_item(opt_view(link)) == Some(it@),
                None => link_item(opt_view(link)) is None,
            },
    {
        match link {
            Some(l) => Some(Item { link: normalize_link(l), similarity: Similarity::NotReported }),
            None => None,
        }
    }

    /// The result of the search for `url` from the links of its results.
    pub fn output_from_links(url: &str, links: Vec<Option<String>>) -> (r: Output)
        ensures
            r@ == (OutputModel { original_url: url@, items: link_items(links_view(links@)) }),
    {
        let ghost ls = links_view(links@);
        let mut items: Vec<Item> = Vec::new();
        let mut i: usize = 0;
        let n = links.len();
        while i < n
            invariant
                n == links@.len(),
                ls == links_view(links@),
                i <= n,
                link_items(ls.subrange(0, i as int)) == items_view(items@),
            decreases n - i,
        {
            assert(ls.subrange(0, i + 1).drop_last() =~= ls.subrange(0, i as int));
            assert(ls.subrange(0, i + 1).last() == opt_view(links@[i as int]));
            let ghost before = items@;
            match Yandex::item_from_link(links[i].clone()) {
                Some(it) => {
                    items.push(it);
                    assert(items_view(items@) =~= items_view(before).push(items@.last()@));
                },
                None => {},
            }
            i = i + 1;
        }
        assert(ls.subrange(0, n as int) =~= ls);
        Output { original_url: url.to_string(), items }
    }

    /// The result of the search for `url` from the search page `html`: one
    /// item per result that has a link.
    pub fn read_page(url: &str, html: &str) -> (r: Result<Output, Error>)
        ensures
            page_links(html@) is None ==> r == Err::<Output, Error>(Error::Decode),
            page_links(html@) matches Some(links) ==> (r matches Ok(out) && out@ == (OutputModel {
                original_url: url@,
                items: link_items(links),
            })),
    {
        match child_links(html, RESULTS_SELECTOR, RESULT_SELECTOR, INFO_SELECTOR, "a", "href") {
            Some(links) => Ok(Yandex::output_from_links(url, links)),
            None => Err(Error::Decode),
        }
    }
}

impl Source for Yandex {
    type State = ();

    /// The search page as text.
    type Reply = String;

    /// No configuration is needed.
    open spec fn ready(&self) -> bool {
        true
    }

    open spec fn holds(&self, argument: ()) -> bool {
        true
    }

    fn create(argument: ()) -> (r: Result<Self, Error>) {
        Ok(Yandex)
    }

    fn begin(&self, url: &str) -> (r: Step) {
        Yandex::first_step(url)
    }

    fn after_head(&self, url: &str, content_type: Option<String>) -> (r: Step) {
        Yandex::step_after_head(url, content_type)
    }

    fn finish(&self, url: &str, reply: String) -> (r: Result<Output, Error>) {
        Yandex::read_page(url, reply.as_str())
    }
}

} // verus!
