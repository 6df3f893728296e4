//! What holds of the session's operations taken together.

use vstd::prelude::*;
use vstd::arithmetic::div_mod::*;
use crate::app::selection::{ahead, behind};
use crate::app::activate::Activation;
use crate::app::fetch::{DetailRequest, ListRequest, Listing, Request};
use crate::app::service::ServiceType;
use crate::app::keys::{is_letter, meaning, Command, Effect, Key};
use crate::app::modal::Mode;
use crate::app::refresh::error_rows;
use crate::app::session::App;
use crate::aws::role::Role;
use crate::aws::s3::S3Item;
use crate::path::{bucket_of, prefix_of};

verus! {

/// Where some row can be selected, a move forward from any position, in
/// range or not, ends on a selectable row, and reaches it within as many
/// steps as there are rows.
pub proof fn law_forward_reaches_selectable(app: App, to: int)
    requires
        exists|i: int| 0 <= i < app.items.len() && app.selectable(i),
        app.moved_forward(to),
    ensures
        0 <= to < app.items.len(),
        app.selectable(to),
        exists|k: int|
            1 <= k <= app.items.len() && to == #[trigger] ahead(
                app.items.len() as int,
                app.selected_index as int,
                k,
            ),
{
    let n = app.items.len() as int;
    let from = app.selected_index as int;
    assert(!app.none_selectable());
    let k = choose|k: int|
        {
            &&& 1 <= k <= n
            &&& to == #[trigger] ahead(n, from, k)
            &&& app.selectable(to)
            &&& forall|j: int| 1 <= j < k ==> !app.selectable(#[trigger] ahead(n, from, j))
        };
    lemma_mod_bound(from + k, n);
}

/// Where some row can be selected, a move backward from any position ends
/// on a selectable row, and reaches it within as many steps as there are
/// rows.
pub proof fn law_backward_reaches_selectable(app: App, to: int)
    requires
        exists|i: int| 0 <= i < app.items.len() && app.selectable(i),
        app.moved_backward(to),
    ensures
        0 <= to < app.items.len(),
        app.selectable(to),
        exists|k: int|
            1 <= k <= app.items.len() && to == #[trigger] behind(
                app.items.len() as int,
                app.selected_index as int,
                k,
            ),
{
    let n = app.items.len() as int;
    let from = app.selected_index as int;
    assert(!app.none_selectable());
    let k = choose|k: int|
        {
            &&& 1 <= k <= n
            &&& to == #[trigger] behind(n, from, k)
            &&& app.selectable(to)
            &&& forall|j: int| 1 <= j < k ==> !app.selectable(#[trigger] behind(n, from, j))
        };
    lemma_mod_bound(from - k, n);
}

/// The cursor may rest on a row if and only if the row is an entry or the
/// parent link: never on heading or rule.
pub proof fn law_selectable_by_role(app: App, i: int)
    ensures
        app.selectable(i) <==> app.role_at(i) == Role::Entry || app.role_at(i) == Role::ParentLink,
{
}

/// Where no row can be selected, heading and rule alone for instance, a
/// move in either direction leaves the cursor where it is.
pub proof fn law_no_move_without_selectable(app: App, to: int)
    requires
        app.none_selectable(),
        app.moved_forward(to) || app.moved_backward(to),
    ensures
        to == app.selected_index,
{
}

/// A cursor that rests on a selectable row stays on selectable rows under
/// moves in either direction, however many.
pub proof fn law_moves_keep_cursor_on_selectable(app: App, to: int)
    requires
        app.selected_index < app.items.len(),
        app.selectable(app.selected_index as int),
        app.moved_forward(to) || app.moved_backward(to),
    ensures
        0 <= to < app.items.len(),
        app.selectable(to),
{
    if app.moved_forward(to) {
        law_forward_reaches_selectable(app, to);
    } else {
        law_backward_reaches_selectable(app, to);
    }
}

/// Toggling a favorite in the open service picker flips the flag of the
/// service under its cursor and of no other, keeps every service's kind, and
/// leaves the active mode as it is.
pub proof fn law_toggle_flips_one_favorite(before: App, after: App)
    requires
        before.show_service_popup,
        before.popup_selected_index < before.services.len(),
        before.favorite_toggled(&after),
    ensures
        after.services.len() == before.services.len(),
        forall|i: int|
            0 <= i < before.services.len() ==> (#[trigger] after.services[i]).service_type
                == before.services[i].service_type && (after.services[i].favorite
                == before.services[i].favorite <==> i != before.popup_selected_index),
        after.active_mode() == before.active_mode(),
        after.show_service_popup,
{
}

/// Denying the quit confirmation gives the input back to the mode it was
/// opened from, and nothing that mode held is lost: asking and denying in a
/// row leave the session exactly as it was. Opened from the detail pane,
/// the pane is active again with its content.
pub proof fn law_denied_quit_restores(before: App, asked: App, denied: App)
    requires
        !before.show_quit_confirm,
        before.changed_by(Command::AskQuit, &asked),
        asked.changed_by(Command::DenyQuit, &denied),
    ensures
        asked.active_mode() == Mode::QuitConfirm,
        denied == before,
        denied.active_mode() == before.active_mode(),
        before.active_mode() == Mode::DetailView ==> denied.show_detail_popup
            && denied.detail_content == before.detail_content,
{
}

/// After a refresh that was started and then failed, the path is where it
/// was before the refresh, and the rows are the fixed diagnostic with the
/// backend's message in the line of details.
pub proof fn law_failed_refresh_keeps_path(
    before: App,
    started: App,
    request: ListRequest,
    failed: App,
    message: Seq<char>,
)
    requires
        before.refresh_started(&started, Some(request)),
        started.refresh_failed(&failed, message),
    ensures
        failed.current_path == before.current_path,
        failed.items.deep_view() == error_rows(before.title(), message),
        failed.items.len() == 7,
        failed.items[1]@ == "Details: "@ + message,
{
    assert(failed.items.deep_view().len() == 7);
    assert(failed.items.deep_view()[1] == failed.items[1]@);
}

/// After a listing that holds something has arrived for the service that
/// reads its roles, the cursor stands on the first row that can be
/// selected, never on heading or rule.
pub proof fn law_cursor_on_first_selectable(before: App, after: App, listing: Listing)
    requires
        before.listing_applied(&after, listing),
        !listing.is_empty(),
        listing.fits(before.active_kind()),
    ensures
        after.selected_index < after.items.len(),
        after.selectable(after.selected_index as int),
        forall|j: int| 0 <= j < after.selected_index ==> !after.selectable(j),
{
    assert(after.items.len() == after.items.deep_view().len());
}

/// The cursor never comes to rest on heading or rule through a key: where
/// it stood on a selectable row, was out of range, or no row could be
/// selected, the same holds after any command.
pub proof fn law_commands_keep_cursor(before: App, after: App, command: Command, effect: Effect)
    requires
        before.wf(),
        before.cursor_ok(),
        before.carried_out(command, &after, effect),
    ensures
        after.cursor_ok(),
{
    match command {
        Command::NextRow => {
            if !before.none_selectable() && before.items.len() > 0 {
                law_forward_reaches_selectable(before, after.selected_index as int);
            }
            assert(forall|i: int| after.selectable(i) == before.selectable(i));
        },
        Command::PreviousRow => {
            if !before.none_selectable() && before.items.len() > 0 {
                law_backward_reaches_selectable(before, after.selected_index as int);
            }
            assert(forall|i: int| after.selectable(i) == before.selectable(i));
        },
        Command::Activate => {
            match before.activation() {
                Activation::MoveTo(_) => {
                    let moved = App { current_path: after.current_path, ..before };
                    assert(forall|i: int| moved.selectable(i) == before.selectable(i));
                    assert(forall|i: int| after.selectable(i) == before.selectable(i)
                        || after.no_roles());
                },
                _ => {
                    assert(forall|i: int| after.selectable(i) == before.selectable(i));
                },
            }
        },
        Command::Refresh => {
            assert(forall|i: int| after.selectable(i) == before.selectable(i) || after.no_roles());
        },
        Command::PickerCommit => {},
        _ => {
            assert(forall|i: int| after.selectable(i) == before.selectable(i));
        },
    }
}

/// Nor does it through a listing that arrives: afterwards the cursor
/// stands on a selectable row, or no row can be selected.
pub proof fn law_listing_keeps_cursor(before: App, after: App, listing: Listing)
    requires
        before.wf(),
        before.listing_applied(&after, listing),
    ensures
        after.cursor_ok(),
{
    assert(after.items.len() == after.items.deep_view().len());
}

/// Nor through a list call that fails: every row of the diagnostic can be
/// selected.
pub proof fn law_failure_keeps_cursor(before: App, after: App, message: Seq<char>)
    requires
        before.wf(),
        before.refresh_failed(&after, message),
    ensures
        after.cursor_ok(),
        forall|i: int| after.selectable(i),
{
}

/// Activating an object below a bucket asks for one describe call: for the
/// path's bucket, and for the key made of the path's prefix and the name
/// that the row's role holds, whatever characters the name is made of. The
/// path, the rows and the state of the main view stay as they are.
pub proof fn law_object_described_by_its_name(before: App, after: App, request: Option<Request>)
    requires
        before.wf(),
        before.connected,
        !before.in_flight(),
        before.active_kind() == ServiceType::S3,
        before.selected_index < before.items.len(),
        before.selected_index < before.s3_items.len(),
        before.s3_items[before.selected_index as int] is Object,
        before.current_path is Some,
        before.activated(&after, request),
    ensures
        request matches Some(Request::Detail(DetailRequest::Object { bucket, key })) && bucket@
            == bucket_of(before.current_path->0@) && key@ == prefix_of(before.current_path->0@)
            + before.s3_items[before.selected_index as int]->Object_0@,
        after.current_path == before.current_path,
        after.loading_state == before.loading_state,
        after.items == before.items,
        after.selected_index == before.selected_index,
{
}

/// Asking for the details of a bucket or of an object by its row asks for
/// the resource that the row's role names, not for what the row's text
/// happens to read.
pub proof fn law_details_go_by_the_role(before: App, after: App, request: Option<DetailRequest>)
    requires
        before.wf(),
        before.connected,
        !before.in_flight(),
        before.active_kind() == ServiceType::S3,
        before.selected_index < before.items.len(),
        before.selected_index < before.s3_items.len(),
        before.details_requested(&after, request),
    ensures
        before.s3_items[before.selected_index as int] is Bucket ==> (request matches Some(
            DetailRequest::Bucket(b),
        ) && b@ == before.s3_items[before.selected_index as int]->Bucket_0@),
        before.s3_items[before.selected_index as int] is Object && before.current_path is Some
            ==> (request matches Some(DetailRequest::Object { bucket, key }) && bucket@
            == bucket_of(before.current_path->0@) && key@ == prefix_of(before.current_path->0@)
            + before.s3_items[before.selected_index as int]->Object_0@),
{
}

/// The detail pane opens on selectable rows only: where a request for
/// details opens it, the cursor stands on a row in range that is neither
/// heading nor rule.
pub proof fn law_pane_opens_on_selectable_rows(
    before: App,
    after: App,
    request: Option<DetailRequest>,
)
    requires
        before.wf(),
        !before.show_detail_popup,
        before.details_requested(&after, request),
        after.show_detail_popup,
    ensures
        before.selected_index < before.items.len(),
        before.selectable(before.selected_index as int),
{
}

/// Activating heading or rule at the root of the object store gives the
/// hint and nothing besides, whether a fetch is outstanding or not: no call
/// is asked for, and only the status line changes.
pub proof fn law_decoration_at_root_gives_hint(before: App, after: App, request: Option<Request>)
    requires
        before.wf(),
        before.active_kind() == ServiceType::S3,
        before.current_path is None,
        before.selected_index < before.items.len(),
        before.role_at(before.selected_index as int) == Role::Header || before.role_at(
            before.selected_index as int,
        ) == Role::Separator,
        before.activated(&after, request),
    ensures
        request is None,
        after == (App { status_message: after.status_message, ..before }),
        after.status_message@ == "Please select a bucket row"@,
{
}

/// At most one fetch is in flight: every request that an operation hands
/// out is handed out while none is outstanding, and leaves one outstanding.
pub proof fn law_one_fetch_in_flight(before: App, after: App, command: Command, effect: Effect)
    requires
        before.wf(),
        before.carried_out(command, &after, effect),
        effect is Fetch,
    ensures
        !before.in_flight(),
        after.in_flight(),
{
}

/// The program ends on a confirmed quit only: with the confirmation open
/// and the answer yes.
pub proof fn law_quit_needs_confirmation(before: App, key: Key)
    ensures
        meaning(before.active_mode(), key) == Command::Quit <==> before.show_quit_confirm
            && is_letter(key, 'y', 'Y'),
{
}

} // verus!
