//! The routes of the application and the page that each one shows.

use crate::drill::NavigationEvent;
use vstd::prelude::*;

verus! {

/// A location of the application.
#[derive(Debug)]
pub enum Route {
    /// The start: the view centred on the root.
    Root,
    /// Any location that is none of the others.
    NotFound,
    /// The view centred on the node with the title, which is a segment of
    /// the path and so may be percent-encoded.
    ShowNode { title: String },
}

/// What a route shows.
#[derive(Debug)]
pub enum Page {
    /// The view centred on the node with this title.
    Graph { node: String },
    /// The notice that there is no such page.
    NotFound,
}

/// The title of the root of the sample company.
pub fn root_title() -> (title: &'static str)
    ensures
        title@ == "Security Union"@,
{
    "Security Union"
}

/// What `urlencoding::decode` makes of a text: the text with each `%` and the
/// two hexadecimal digits after it replaced by the byte they name, read as
/// UTF-8, or `None` where those bytes are not UTF-8. A `%` that is not
/// followed by two hexadecimal digits is kept as it is.
pub uninterp spec fn percent_decoded(text: Seq<char>) -> Option<Seq<char>>;

/// `urlencoding::decode`: the percent-decoding of `text`, or `None` where the
/// decoded bytes are not UTF-8. A text without `%` is handed back as it is.
#[verifier::external_body]
fn decode(text: &str) -> (decoded: Option<String>)
    ensures
        match decoded {
            Some(plain) => percent_decoded(text@) == Some(plain@),
            None => percent_decoded(text@).is_none(),
        },
        !text@.contains('%') ==> decoded.is_some() && decoded.unwrap()@ == text@,
{
    match urlencoding::decode(text) {
        Ok(plain) => Some(plain.into_owned()),
        Err(_) => None,
    }
}

/// Whether `page` is what `route` shows, given what the title of a
/// `ShowNode` route decodes to. Such a route shows the view of the decoded
/// title; a title that cannot be decoded shows nothing.
pub open spec fn is_page_of(route: Route, decoded: Option<Seq<char>>, page: Option<Page>) -> bool {
    match route {
        Route::Root => page matches Some(Page::Graph { node }) && node@ == "Security Union"@,
        Route::NotFound => page matches Some(Page::NotFound),
        Route::ShowNode { title } => match decoded {
            Some(plain) => page matches Some(Page::Graph { node }) && node@ == plain,
            None => page.is_none(),
        },
    }
}

/// The page that `route` shows, where `decoded` is what the title of a
/// `ShowNode` route decodes to. For the other routes `decoded` is not looked
/// at.
pub fn page_for(route: &Route, decoded: Option<String>) -> (page: Option<Page>)
    ensures
        is_page_of(
            *route,
            match decoded {
                Some(plain) => Some(plain@),
                None => None,
            },
            page,
        ),
{
    match route {
        Route::Root => Some(Page::Graph { node: root_title().to_owned() }),
        Route::NotFound => Some(Page::NotFound),
        Route::ShowNode { title: _ } => match decoded {
            Some(plain) => Some(Page::Graph { node: plain }),
            None => None,
        },
    }
}

/// The page that `route` shows. The title of a `ShowNode` route is
/// percent-decoded first.
pub fn switch(route: &Route) -> (page: Option<Page>)
    ensures
        is_page_of(
            *route,
            match *route {
                Route::ShowNode { title } => percent_decoded(title@),
                _ => None,
            },
            page,
        ),
        match *route {
            Route::ShowNode { title } => !title@.contains('%') ==> (page matches Some(Page::Graph { node })
                && node@ == title@),
            _ => true,
        },
{
    let decoded = match route {
        Route::ShowNode { title } => decode(title.as_str()),
        _ => None,
    };
    page_for(route, decoded)
}

/// The route that a drill-down leads to: the one that shows the node it
/// names.
pub fn route_of(event: NavigationEvent) -> (route: Route)
    ensures
        route matches Route::ShowNode { title } && title@ == event.title@,
{
    Route::ShowNode { title: event.title }
}

} // verus!
