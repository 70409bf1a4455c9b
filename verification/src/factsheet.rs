//! The project document that every agent reads and fills in, and the two
//! filters that the agents apply to what they store in it.

use crate::text::{clone_opt_text, clone_texts, opt_text};
use vstd::prelude::*;
use vstd::string::*;

verus! {

/// `serde_json::Value`, the shape of a request or a response body. The
/// library only carries such a value along; it never looks inside.
#[verifier::external_type_specification]
#[verifier::external_body]
pub struct ExJsonValue(serde_json::Value);

/// `Clone::clone` of `serde_json::Value`, which the crate derives. Trusted:
/// the copy is the same JSON value.
pub assume_specification[ <serde_json::Value as Clone>::clone ](value: &serde_json::Value) -> (copy:
    serde_json::Value)
    ensures
        copy == *value,
;

/// What the architect decides about a project.
#[derive(Debug, Clone, Copy, PartialEq, Eq, Structural)]
pub struct ProjectScope {
    pub is_crud_required: bool,
    pub is_user_login_and_logout: bool,
    pub is_external_urls_required: bool,
}

/// One endpoint of the generated server.
#[derive(Debug, Clone, PartialEq)]
pub struct RouteObject {
    pub is_route_dynamic: bool,
    pub method: String,
    pub request_body: serde_json::Value,
    pub response: serde_json::Value,
    pub route: String,
}

/// The mathematical model of a [`RouteObject`].
pub struct RouteView {
    pub is_route_dynamic: bool,
    pub method: Seq<char>,
    pub request_body: serde_json::Value,
    pub response: serde_json::Value,
    pub route: Seq<char>,
}

impl DeepView for RouteObject {
    type V = RouteView;

    open spec fn deep_view(&self) -> RouteView {
        RouteView {
            is_route_dynamic: self.is_route_dynamic,
            method: self.method@,
            request_body: self.request_body,
            response: self.response,
            route: self.route@,
        }
    }
}

impl View for RouteObject {
    type V = RouteView;

    open spec fn view(&self) -> RouteView {
        self.deep_view()
    }
}

/// The shared record of a run: the requirement, and what the agents have
/// derived from it so far.
#[derive(Debug, Clone, PartialEq)]
pub struct FactSheet {
    pub project_description: String,
    pub project_scope: Option<ProjectScope>,
    pub external_url: Option<Vec<String>>,
    pub backend_code: Option<String>,
    pub api_endpoint_schema: Option<Vec<RouteObject>>,
}

/// The mathematical model of a [`FactSheet`].
pub struct FactSheetView {
    pub project_description: Seq<char>,
    pub project_scope: Option<ProjectScope>,
    pub external_url: Option<Seq<Seq<char>>>,
    pub backend_code: Option<Seq<char>>,
    pub api_endpoint_schema: Option<Seq<RouteView>>,
}

/// The view of an optional list of texts.
pub open spec fn opt_texts(texts: Option<Vec<String>>) -> Option<Seq<Seq<char>>> {
    match texts {
        Some(t) => Some(t.deep_view()),
        None => None,
    }
}

/// The view of an optional list of routes.
pub open spec fn opt_routes(routes: Option<Vec<RouteObject>>) -> Option<Seq<RouteView>> {
    match routes {
        Some(r) => Some(r.deep_view()),
        None => None,
    }
}

impl View for FactSheet {
    type V = FactSheetView;

    open spec fn view(&self) -> FactSheetView {
        FactSheetView {
            project_description: self.project_description@,
            project_scope: self.project_scope,
            external_url: opt_texts(self.external_url),
            backend_code: opt_text(self.backend_code),
            api_endpoint_schema: opt_routes(self.api_endpoint_schema),
        }
    }
}

/// The document at the start of a run: the description and nothing else.
pub open spec fn blank_document(description: Seq<char>) -> FactSheetView {
    FactSheetView {
        project_description: description,
        project_scope: None,
        external_url: None,
        backend_code: None,
        api_endpoint_schema: None,
    }
}

/// `after` keeps what `before` held: the description is the same, and no
/// field that was filled is empty again.
pub open spec fn document_extends(before: FactSheetView, after: FactSheetView) -> bool {
    &&& after.project_description == before.project_description
    &&& before.project_scope is Some ==> after.project_scope is Some
    &&& before.external_url is Some ==> after.external_url is Some
    &&& before.backend_code is Some ==> after.backend_code is Some
    &&& before.api_endpoint_schema is Some ==> after.api_endpoint_schema is Some
}

/// A copy of a list of routes.
pub fn clone_routes(routes: &Vec<RouteObject>) -> (copy: Vec<RouteObject>)
    ensures
        copy.deep_view() == routes.deep_view(),
{
    let mut copy: Vec<RouteObject> = Vec::new();
    let mut i: usize = 0;
    while i < routes.len()
        invariant
            i <= routes.len(),
            copy.len() == i,
            forall|k: int| 0 <= k < i ==> copy[k]@ == routes[k]@,
        decreases routes.len() - i,
    {
        copy.push(routes[i].duplicate());
        i = i + 1;
    }
    assert(copy.deep_view() =~= routes.deep_view());
    copy
}

impl FactSheet {
    /// A copy of the document.
    pub fn duplicate(&self) -> (copy: Self)
        ensures
            copy@ == self@,
    {
        FactSheet {
            project_description: self.project_description.clone(),
            project_scope: self.project_scope,
            external_url: match &self.external_url {
                Some(urls) => Some(clone_texts(urls)),
                None => None,
            },
            backend_code: clone_opt_text(&self.backend_code),
            api_endpoint_schema: match &self.api_endpoint_schema {
                Some(routes) => Some(clone_routes(routes)),
                None => None,
            },
        }
    }

    /// The document of a new run.
    pub fn new(project_description: String) -> (document: Self)
        ensures
            document@ == blank_document(project_description@),
    {
        FactSheet {
            project_description,
            project_scope: None,
            external_url: None,
            backend_code: None,
            api_endpoint_schema: None,
        }
    }
}

/// The method of the routes that are probed.
pub open spec fn probed_method() -> Seq<char> {
    "get"@
}

/// A route that can be probed as it stands: a `get` route whose path has no
/// variable part.
pub open spec fn is_static_get(route: RouteView) -> bool {
    route.method == probed_method() && !route.is_route_dynamic
}

/// [`is_static_get`] as a predicate value.
pub open spec fn static_get() -> spec_fn(RouteView) -> bool {
    |route: RouteView| is_static_get(route)
}

/// The routes of `routes` that are probed, in their order.
pub open spec fn static_get_routes(routes: Seq<RouteView>) -> Seq<RouteView> {
    routes.filter(static_get())
}

impl RouteObject {
    /// A copy of the route.
    pub fn duplicate(&self) -> (copy: Self)
        ensures
            copy@ == self@,
    {
        RouteObject {
            is_route_dynamic: self.is_route_dynamic,
            method: self.method.clone(),
            request_body: self.request_body.clone(),
            response: self.response.clone(),
            route: self.route.clone(),
        }
    }

    /// Whether the route is a `get` route with a fixed path.
    pub fn is_static_get(&self) -> (yes: bool)
        ensures
            yes == is_static_get(self@),
    {
        let get = String::from_str("get");
        self.method == get && !self.is_route_dynamic
    }
}

/// Keeps the routes that are probed: the `get` routes with a fixed path, in
/// the order in which they were given.
pub fn retain_static_get_routes(routes: &Vec<RouteObject>) -> (kept: Vec<RouteObject>)
    ensures
        kept.deep_view() == static_get_routes(routes.deep_view()),
{
    let mut kept: Vec<RouteObject> = Vec::new();
    let mut i: usize = 0;
    assert(routes.deep_view().take(0) =~= Seq::<RouteView>::empty());
    assert(kept.deep_view() =~= Seq::<RouteView>::empty());
    proof {
        reveal(Seq::filter);
    }
    while i < routes.len()
        invariant
            i <= routes.len(),
            kept.deep_view() == static_get_routes(routes.deep_view().take(i as int)),
        decreases routes.len() - i,
    {
        let route = &routes[i];
        proof {
            let all = routes.deep_view();
            reveal(Seq::filter);
            assert(all.take(i as int + 1).drop_last() =~= all.take(i as int));
            assert(all.take(i as int + 1).last() == route@);
        }
        if route.is_static_get() {
            let ghost before = kept.deep_view();
            kept.push(route.duplicate());
            assert(kept.deep_view() =~= before.push(route@));
        }
        i = i + 1;
    }
    assert(routes.deep_view().take(routes.len() as int) =~= routes.deep_view());
    kept
}

/// A URL that no failed probe has named.
pub open spec fn is_not_excluded(excluded: Seq<Seq<char>>) -> spec_fn(Seq<char>) -> bool {
    |url: Seq<char>| !excluded.contains(url)
}

/// The URLs of `urls` that are not among `excluded`, in their order.
pub open spec fn surviving_urls(urls: Seq<Seq<char>>, excluded: Seq<Seq<char>>) -> Seq<Seq<char>> {
    urls.filter(is_not_excluded(excluded))
}

/// Whether `url` is one of `texts`.
pub fn contains_text(texts: &Vec<String>, url: &String) -> (found: bool)
    ensures
        found == texts.deep_view().contains(url@),
{
    let mut i: usize = 0;
    while i < texts.len()
        invariant
            i <= texts.len(),
            forall|k: int| 0 <= k < i ==> texts.deep_view()[k] != url@,
        decreases texts.len() - i,
    {
        if texts[i] == *url {
            assert(texts.deep_view()[i as int] == url@);
            return true;
        }
        i = i + 1;
    }
    false
}

/// Removes from `urls` every URL that is among `excluded`. The URLs that stay
/// keep their order.
pub fn retain_surviving_urls(urls: &Vec<String>, excluded: &Vec<String>) -> (kept: Vec<String>)
    ensures
        kept.deep_view() == surviving_urls(urls.deep_view(), excluded.deep_view()),
{
    let mut kept: Vec<String> = Vec::new();
    let mut i: usize = 0;
    assert(urls.deep_view().take(0) =~= Seq::<Seq<char>>::empty());
    assert(kept.deep_view() =~= Seq::<Seq<char>>::empty());
    proof {
        reveal(Seq::filter);
    }
    while i < urls.len()
        invariant
            i <= urls.len(),
            kept.deep_view() == surviving_urls(
                urls.deep_view().take(i as int),
                excluded.deep_view(),
            ),
        decreases urls.len() - i,
    {
        let url = &urls[i];
        proof {
            let all = urls.deep_view();
            reveal(Seq::filter);
            assert(all.take(i as int + 1).drop_last() =~= all.take(i as int));
            assert(all.take(i as int + 1).last() == url@);
        }
        if !contains_text(excluded, url) {
            let ghost before = kept.deep_view();
            kept.push(url.clone());
            assert(kept.deep_view() =~= before.push(url@));
        }
        i = i + 1;
    }
    assert(urls.deep_view().take(urls.len() as int) =~= urls.deep_view());
    kept
}

/// `picks` says where each item of `kept` stands in `all`: item by item, at
/// places that rise.
pub open spec fn is_selection<A>(all: Seq<A>, kept: Seq<A>, picks: Seq<int>) -> bool {
    &&& picks.len() == kept.len()
    &&& forall|k: int|
        0 <= k < picks.len() ==> 0 <= #[trigger] picks[k] < all.len() && all[picks[k]] == kept[k]
    &&& forall|j: int, k: int|
        0 <= j < k < picks.len() ==> #[trigger] picks[j] < #[trigger] picks[k]
}

/// A filter keeps the items that meet `pred`, all of them, each once, in
/// their order. The result names the places that are kept.
pub proof fn lemma_filter_is_selection<A>(all: Seq<A>, pred: spec_fn(A) -> bool) -> (picks: Seq<
    int,
>)
    ensures
        is_selection(all, all.filter(pred), picks),
        forall|i: int| 0 <= i < all.len() ==> (picks.contains(i) <==> pred(all[i])),
    decreases all.len(),
{
    reveal(Seq::filter);
    if all.len() == 0 {
        Seq::empty()
    } else {
        let front = all.drop_last();
        let last = all.len() - 1;
        let before = lemma_filter_is_selection(front, pred);
        let picks = if pred(all.last()) {
            before.push(last)
        } else {
            before
        };
        assert forall|i: int| 0 <= i < all.len() implies (picks.contains(i) <==> pred(all[i])) by {
            if i < last {
                assert(front[i] == all[i]);
                if before.contains(i) {
                    let k = choose|k: int| 0 <= k < before.len() && before[k] == i;
                    assert(picks[k] == i);
                }
                if picks.contains(i) {
                    let k = choose|k: int| 0 <= k < picks.len() && picks[k] == i;
                    assert(before[k] == i);
                }
            } else {
                if pred(all[i]) {
                    assert(picks[picks.len() - 1] == i);
                }
                if picks.contains(i) {
                    let k = choose|k: int| 0 <= k < picks.len() && picks[k] == i;
                    if k < before.len() {
                        assert(before[k] < front.len());
                    }
                }
            }
        }
        picks
    }
}

/// The routes that are stored are `get` routes with a fixed path, and they
/// are all such routes of the list, each once, in the order of the list.
pub proof fn law_static_get_routes_are_selected(routes: Seq<RouteView>) -> (picks: Seq<int>)
    ensures
        is_selection(routes, static_get_routes(routes), picks),
        forall|i: int| 0 <= i < routes.len() ==> (picks.contains(i) <==> is_static_get(routes[i])),
        forall|k: int|
            0 <= k < static_get_routes(routes).len() ==> is_static_get(
                #[trigger] static_get_routes(routes)[k],
            ),
{
    let picks = lemma_filter_is_selection(routes, static_get());
    assert forall|k: int| 0 <= k < static_get_routes(routes).len() implies is_static_get(
        #[trigger] static_get_routes(routes)[k],
    ) by {
        assert(picks.contains(picks[k]));
    }
    picks
}

/// The URLs that stay are the URLs of the list that are not excluded, all of
/// them, each once, in the order of the list.
pub proof fn law_surviving_urls_keep_their_order(
    urls: Seq<Seq<char>>,
    excluded: Seq<Seq<char>>,
) -> (picks: Seq<int>)
    ensures
        is_selection(urls, surviving_urls(urls, excluded), picks),
        forall|i: int| 0 <= i < urls.len() ==> (picks.contains(i) <==> !excluded.contains(urls[i])),
{
    lemma_filter_is_selection(urls, is_not_excluded(excluded))
}

/// Where no URL is excluded, the list stays as it is.
pub proof fn law_nothing_excluded_keeps_all(urls: Seq<Seq<char>>)
    ensures
        surviving_urls(urls, Seq::empty()) == urls,
    decreases urls.len(),
{
    reveal(Seq::filter);
    if urls.len() > 0 {
        law_nothing_excluded_keeps_all(urls.drop_last());
        assert(urls.drop_last().push(urls.last()) =~= urls);
    }
}

} // verus!
