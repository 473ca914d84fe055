//! The pages that need no form.

use crate::models::templates::{AboutTemplate, ContactTemplate, HomeTemplate, NotFound, ServerError};
use crate::state::AppState;
use crate::util::{HtmlTemplate, STATUS_INTERNAL_SERVER_ERROR, STATUS_NOT_FOUND};
use vstd::prelude::*;

verus! {

/// The home page; counts one view.
pub fn home(state: &mut AppState) -> (page: HtmlTemplate<HomeTemplate>)
    requires
        old(state).view_count < u64::MAX,
    ensures
        final(state).view_count == old(state).view_count + 1,
        page.0.view_count == final(state).view_count,
{
    let n: u64 = state.count_view();
    HtmlTemplate(HomeTemplate { view_count: n })
}

/// The about page; counts one view.
pub fn about(state: &mut AppState) -> (page: HtmlTemplate<AboutTemplate>)
    requires
        old(state).view_count < u64::MAX,
    ensures
        final(state).view_count == old(state).view_count + 1,
        page.0.view_count == final(state).view_count,
{
    let n: u64 = state.count_view();
    HtmlTemplate(AboutTemplate { view_count: n })
}

/// The contact page; counts one view.
pub fn contact(state: &mut AppState) -> (page: HtmlTemplate<ContactTemplate>)
    requires
        old(state).view_count < u64::MAX,
    ensures
        final(state).view_count == old(state).view_count + 1,
        page.0.view_count == final(state).view_count,
{
    let n: u64 = state.count_view();
    HtmlTemplate(ContactTemplate { view_count: n })
}

/// The page for a path that nothing serves, with its status; counts one
/// view.
pub fn notfound(state: &mut AppState) -> (r: (u16, HtmlTemplate<NotFound>))
    requires
        old(state).view_count < u64::MAX,
    ensures
        final(state).view_count == old(state).view_count + 1,
        r.0 == STATUS_NOT_FOUND,
{
    state.count_view();
    (STATUS_NOT_FOUND, HtmlTemplate(NotFound {  }))
}

/// The error page, with its status; counts one view.
pub fn servererror(state: &mut AppState) -> (r: (u16, HtmlTemplate<ServerError>))
    requires
        old(state).view_count < u64::MAX,
    ensures
        final(state).view_count == old(state).view_count + 1,
        r.0 == STATUS_INTERNAL_SERVER_ERROR,
{
    state.count_view();
    (STATUS_INTERNAL_SERVER_ERROR, HtmlTemplate(ServerError {  }))
}

} // verus!
