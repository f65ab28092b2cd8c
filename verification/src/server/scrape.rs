//! What the scrape endpoint answers to a request.
//!
//! A scrape is a `GET` of the path `/padm` with the identifier of a target in
//! the `target` parameter of the query.
use vstd::prelude::*;
use vstd::string::StringExecFns;
use crate::config::schema::{Config, ConfigView};
use crate::text::views;

verus! {

/// The pairs of name and value that `url::form_urlencoded::parse` finds in a
/// query, in their order.
pub uninterp spec fn query_pairs(query: Seq<char>) -> Seq<(Seq<char>, Seq<char>)>;

/// The mathematical values of a list of pairs of strings.
pub open spec fn pair_views(pairs: Seq<(String, String)>) -> Seq<(Seq<char>, Seq<char>)> {
    Seq::new(pairs.len(), |i: int| (pairs[i].0@, pairs[i].1@))
}

/// Calls `url::form_urlencoded::parse` on the bytes of the query and collects
/// the decoded pairs that it yields. The pairs are a function of the query
/// alone; the contract names them and says nothing more of them.
#[verifier::external_body]
fn parse_query(query: &str) -> (pairs: Vec<(String, String)>)
    ensures
        pair_views(pairs@) == query_pairs(query@),
{
    url::form_urlencoded::parse(query.as_bytes()).into_owned().collect()
}

/// The content type of the text exposition format.
pub const CONTENT_TYPE: &'static str = "text/plain; version=0.0.4; charset=utf-8";

/// What becomes of a request.
#[derive(Debug)]
pub enum Route {
    /// The method is not `GET`.
    MethodNotAllowed,
    /// The path is not the scrape path.
    NotFound,
    /// The query names no target.
    BadRequest,
    /// The query names a target that is not known.
    UnknownTarget(String),
    /// The request is a scrape of the target at this place in the list.
    Scrape(usize),
}

/// Mathematical value of a [`Route`].
pub enum RouteView {
    MethodNotAllowed,
    NotFound,
    BadRequest,
    UnknownTarget(Seq<char>),
    Scrape(int),
}

impl View for Route {
    type V = RouteView;

    open spec fn view(&self) -> RouteView {
        match self {
            Route::MethodNotAllowed => RouteView::MethodNotAllowed,
            Route::NotFound => RouteView::NotFound,
            Route::BadRequest => RouteView::BadRequest,
            Route::UnknownTarget(target) => RouteView::UnknownTarget(target@),
            Route::Scrape(index) => RouteView::Scrape(*index as int),
        }
    }
}

impl RouteView {
    /// The status of the response: 200 for a scrape, 405 for another method,
    /// 404 for another path or an unknown target, 400 for a query without a
    /// target.
    pub open spec fn status(self) -> u16 {
        match self {
            RouteView::MethodNotAllowed => 405,
            RouteView::NotFound => 404,
            RouteView::BadRequest => 400,
            RouteView::UnknownTarget(_) => 404,
            RouteView::Scrape(_) => 200,
        }
    }
}

/// The value of the first pair that bears the name, if there is one.
pub open spec fn first_value(pairs: Seq<(Seq<char>, Seq<char>)>, name: Seq<char>) -> Option<
    Seq<char>,
>
    decreases pairs.len(),
{
    if pairs.len() == 0 {
        None
    } else if pairs[0].0 == name {
        Some(pairs[0].1)
    } else {
        first_value(pairs.skip(1), name)
    }
}

/// The place of a target in the list of identifiers. Where an identifier
/// occurs more than once, the last occurrence counts.
pub open spec fn target_place(ids: Seq<Seq<char>>, id: Seq<char>) -> Option<int>
    decreases ids.len(),
{
    if ids.len() == 0 {
        None
    } else if ids.last() == id {
        Some(ids.len() - 1)
    } else {
        target_place(ids.drop_last(), id)
    }
}

/// The place of a target is a place in the list, and the identifier stands
/// there.
pub proof fn lemma_target_place(ids: Seq<Seq<char>>, id: Seq<char>)
    ensures
        match target_place(ids, id) {
            Some(place) => 0 <= place < ids.len() && ids[place] == id,
            None => forall|i: int| 0 <= i < ids.len() ==> ids[i] != id,
        },
    decreases ids.len(),
{
    if ids.len() > 0 {
        lemma_target_place(ids.drop_last(), id);
        assert forall|i: int| 0 <= i < ids.len() - 1 implies ids.drop_last()[i] == ids[i] by {}
    }
}

/// What becomes of a request with the given method, path and query pairs.
/// The method is examined first, then the path, then the query.
pub open spec fn routed(
    method: Seq<char>,
    path: Seq<char>,
    pairs: Seq<(Seq<char>, Seq<char>)>,
    ids: Seq<Seq<char>>,
) -> RouteView {
    if method != "GET"@ {
        RouteView::MethodNotAllowed
    } else if path != "/padm"@ {
        RouteView::NotFound
    } else {
        match first_value(pairs, "target"@) {
            None => RouteView::BadRequest,
            Some(id) => match target_place(ids, id) {
                None => RouteView::UnknownTarget(id),
                Some(index) => RouteView::Scrape(index),
            },
        }
    }
}

impl Route {
    /// The status of the response.
    pub fn status(&self) -> (r: u16)
        ensures
            r == self@.status(),
    {
        match self {
            Route::MethodNotAllowed => 405,
            Route::NotFound => 404,
            Route::BadRequest => 400,
            Route::UnknownTarget(_) => 404,
            Route::Scrape(_) => 200,
        }
    }
}

/// Finds the value of the first pair that bears the name.
pub fn find_value(pairs: &Vec<(String, String)>, name: &str) -> (r: Option<String>)
    ensures
        match r {
            Some(value) => first_value(pair_views(pairs@), name@) == Some(value@),
            None => first_value(pair_views(pairs@), name@) is None,
        },
{
    let ghost all = pair_views(pairs@);
    let mut i: usize = 0;
    assert(all.skip(0) =~= all);
    while i < pairs.len()
        invariant
            i <= pairs.len(),
            all == pair_views(pairs@),
            first_value(all, name@) == first_value(all.skip(i as int), name@),
        decreases pairs.len() - i,
    {
        proof {
            assert(all.skip(i as int)[0] == all[i as int]);
            assert(all.skip(i as int).skip(1) =~= all.skip(i + 1));
        }
        if pairs[i].0.as_str().eq(name) {
            return Some(pairs[i].1.clone());
        }
        i += 1;
    }
    None
}

/// Finds the place of a target in the list of identifiers; the last
/// occurrence counts.
pub fn find_target(ids: &Vec<String>, id: &str) -> (r: Option<usize>)
    ensures
        match r {
            Some(index) => target_place(views(ids@), id@) == Some(index as int) && index
                < ids.len(),
            None => target_place(views(ids@), id@) is None,
        },
{
    let ghost all = views(ids@);
    let mut i: usize = ids.len();
    assert(all.take(i as int) =~= all);
    while i > 0
        invariant
            i <= ids.len(),
            all == views(ids@),
            target_place(all, id@) == target_place(all.take(i as int), id@),
        decreases i,
    {
        proof {
            assert(all.take(i as int).last() == all[i - 1]);
            assert(all.take(i as int).drop_last() =~= all.take(i - 1));
        }
        if ids[i - 1].as_str().eq(id) {
            return Some(i - 1);
        }
        i -= 1;
    }
    None
}

/// Decides what becomes of a request, given the pairs of its query.
pub fn route_pairs(
    method: &str,
    path: &str,
    pairs: &Vec<(String, String)>,
    targets: &Vec<String>,
) -> (route: Route)
    ensures
        route@ == routed(method@, path@, pair_views(pairs@), views(targets@)),
        match route {
            Route::Scrape(index) => index < targets@.len(),
            _ => true,
        },
{
    if !method.eq("GET") {
        return Route::MethodNotAllowed;
    }
    if !path.eq("/padm") {
        return Route::NotFound;
    }
    match find_value(pairs, "target") {
        None => Route::BadRequest,
        Some(id) => match find_target(targets, id.as_str()) {
            None => Route::UnknownTarget(id),
            Some(index) => Route::Scrape(index),
        },
    }
}

/// Decides what becomes of a request. `targets` holds the identifiers of the
/// known targets; a scrape is answered with the place of its target in that
/// list, which is a place in the list.
pub fn route(method: &str, path: &str, query: &str, targets: &Vec<String>) -> (route: Route)
    ensures
        route@ == routed(method@, path@, query_pairs(query@), views(targets@)),
        match route {
            Route::Scrape(index) => index < targets@.len(),
            _ => true,
        },
{
    let pairs = parse_query(query);
    route_pairs(method, path, &pairs, targets)
}

/// The identifiers under which the targets of the settings are scraped:
/// their hosts, in the order of the settings.
pub open spec fn target_hosts(config: ConfigView) -> Seq<Seq<char>> {
    Seq::new(config.targets.len(), |i: int| config.targets[i].host)
}

/// Lists the identifiers under which the targets of the settings are
/// scraped.
pub fn target_ids(config: &Config) -> (ids: Vec<String>)
    ensures
        views(ids@) == target_hosts(config@),
{
    let targets = config.targets();
    let mut ids: Vec<String> = Vec::new();
    let mut i: usize = 0;
    while i < targets.len()
        invariant
            i <= targets.len(),
            targets@.len() == config@.targets.len(),
            forall|j: int| 0 <= j < targets@.len() ==> (#[trigger] targets@[j])@ == config@.targets[j],
            ids.len() == i,
            forall|j: int| 0 <= j < i ==> (#[trigger] ids@[j])@ == config@.targets[j].host,
        decreases targets.len() - i,
    {
        ids.push(String::from_str(targets[i].host()));
        i += 1;
    }
    assert(views(ids@) =~= target_hosts(config@));
    ids
}

/// The message that the scrape of an unknown target is answered with.
pub fn unknown_target_message(target: &str) -> (message: String)
    ensures
        message@ == "requested target "@ + target@ + " not found."@,
{
    let mut message = String::from_str("requested target ");
    message.append(target);
    message.append(" not found.");
    message
}

} // verus!
