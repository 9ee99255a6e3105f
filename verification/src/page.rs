//! The index page: every method of the upstream node as a link with an
//! example query.

use crate::routes::{upstream_route_list, upstream_routes, Routes};
use vstd::prelude::*;

verus! {

/// How the page begins.
pub open spec fn page_head() -> Seq<char> {
    "<html><body><br>Available endpoints:<br><br>Endpoints that require arguments:<br>"@
}

/// How the page ends.
pub open spec fn page_foot() -> Seq<char> {
    "</body></html>"@
}

/// The example query of a method: each of its parameters set to `_`, with
/// `&` between them.
pub open spec fn example_query(params: Seq<Seq<char>>) -> Seq<char>
    decreases params.len(),
{
    if params.len() == 0 {
        Seq::empty()
    } else if params.len() == 1 {
        params[0] + "=_"@
    } else {
        example_query(params.drop_last()) + "&"@ + params.last() + "=_"@
    }
}

/// The address of a method under `base`, with its example query.
pub open spec fn endpoint(base: Seq<char>, route: (Seq<char>, Seq<Seq<char>>)) -> Seq<char> {
    base + "/"@ + route.0 + "?"@ + example_query(route.1)
}

/// The link to a method: its address, shown as it is.
pub open spec fn link(base: Seq<char>, route: (Seq<char>, Seq<Seq<char>>)) -> Seq<char> {
    "<a href=\""@ + endpoint(base, route) + "\">"@ + endpoint(base, route) + "</a></br>"@
}

/// The links to `routes`, one after the other.
pub open spec fn links(base: Seq<char>, routes: Routes) -> Seq<char>
    decreases routes.len(),
{
    if routes.len() == 0 {
        Seq::empty()
    } else {
        links(base, routes.drop_last()) + link(base, routes.last())
    }
}

/// The index page for `routes` under `base`.
pub open spec fn index_page(base: Seq<char>, routes: Routes) -> Seq<char> {
    page_head() + links(base, routes) + page_foot()
}

/// Writes the example query of a method at the end of `out`.
pub fn write_example_query(out: &mut String, params: &Vec<String>)
    ensures
        final(out)@ == old(out)@ + example_query(params.deep_view()),
{
    let ghost start = out@;
    let ghost names = params.deep_view();
    let mut i: usize = 0;
    assert(names.subrange(0, 0) =~= Seq::empty());
    assert(start + example_query(names.subrange(0, 0)) =~= start);
    while i < params.len()
        invariant
            i <= params.len(),
            names == params.deep_view(),
            out@ == start + example_query(names.subrange(0, i as int)),
        decreases params.len() - i,
    {
        let ghost before = names.subrange(0, i as int);
        let ghost after = names.subrange(0, i + 1);
        proof {
            assert(after.drop_last() =~= before);
            assert(after.last() == params@[i as int]@);
            assert(after[0] == names[0]);
        }
        if i > 0 {
            out.append("&");
        }
        out.append(params[i].as_str());
        out.append("=_");
        proof {
            if i == 0 {
                assert(before =~= Seq::empty());
                assert(out@ =~= start + (after[0] + "=_"@));
            } else {
                assert(out@ =~= start + (example_query(before) + "&"@ + after.last() + "=_"@));
            }
        }
        i += 1;
    }
    assert(names.subrange(0, i as int) =~= names);
}

/// Writes the address of a method at the end of `out`.
pub fn write_endpoint(out: &mut String, base: &str, method: &str, params: &Vec<String>)
    ensures
        final(out)@ == old(out)@ + endpoint(base@, (method@, params.deep_view())),
{
    let ghost start = out@;
    out.append(base);
    out.append("/");
    out.append(method);
    out.append("?");
    write_example_query(out, params);
    assert(out@ =~= start + endpoint(base@, (method@, params.deep_view())));
}

/// The index page for `routes` under `base`.
pub fn render(base: &str, routes: &Vec<(String, Vec<String>)>) -> (page: String)
    ensures
        page@ == index_page(base@, routes.deep_view()),
{
    let ghost all = routes.deep_view();
    let head = "<html><body><br>Available endpoints:<br><br>Endpoints that require arguments:<br>";
    let mut page = head.to_owned();
    let mut i: usize = 0;
    assert(all.subrange(0, 0) =~= Seq::empty());
    assert(page_head() + links(base@, all.subrange(0, 0)) =~= page_head());
    while i < routes.len()
        invariant
            i <= routes.len(),
            all == routes.deep_view(),
            page@ == page_head() + links(base@, all.subrange(0, i as int)),
        decreases routes.len() - i,
    {
        let ghost before = all.subrange(0, i as int);
        let ghost after = all.subrange(0, i + 1);
        let ghost route = (routes@[i as int].0@, routes@[i as int].1.deep_view());
        let ghost start = page@;
        proof {
            assert(after.drop_last() =~= before);
            assert(after.last() == route);
        }
        page.append("<a href=\"");
        write_endpoint(&mut page, base, routes[i].0.as_str(), &routes[i].1);
        page.append("\">");
        write_endpoint(&mut page, base, routes[i].0.as_str(), &routes[i].1);
        page.append("</a></br>");
        proof {
            assert(page@ =~= start + link(base@, route));
            assert(page@ =~= page_head() + (links(base@, before) + link(base@, route)));
        }
        i += 1;
    }
    assert(all.subrange(0, i as int) =~= all);
    page.append("</body></html>");
    page
}

/// The index page of the gateway under `base`.
pub fn root_page(base: &str) -> (page: String)
    ensures
        page@ == index_page(base@, upstream_routes()),
{
    render(base, &upstream_route_list())
}

/// The base of the links on the index page that is served to a request
/// whose `Host` header is `host`: the host behind two slashes, and the two
/// slashes alone where there is no such header.
pub open spec fn base_for(host: Option<Seq<char>>) -> Seq<char> {
    match host {
        Some(h) => "//"@ + h,
        None => "//"@,
    }
}

/// The index page that is served to a request whose `Host` header is `host`.
pub fn root_page_for(host: Option<&str>) -> (page: String)
    ensures
        page@ == index_page(base_for(crate::proxy::view_of(host)), upstream_routes()),
{
    let mut base = "//".to_owned();
    match host {
        Some(h) => {
            base.append(h);
        },
        None => {},
    }
    root_page(base.as_str())
}

} // verus!
