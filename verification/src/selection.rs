//! What this library believes of `ratatui::widgets::ListState`, the cursor
//! that the list widget of the terminal interface reads each frame.

use ratatui::widgets::ListState;
use vstd::prelude::*;

verus! {

/// `ratatui::widgets::ListState`, carried as an opaque value.
#[verifier::external_type_specification]
#[verifier::external_body]
pub struct ExListState(ratatui::widgets::ListState);

/// The index that a `ListState` holds as selected, if any.
pub uninterp spec fn selected_in(state: ListState) -> Option<usize>;

/// `ListState::default`: a fresh state has nothing selected.
pub assume_specification[ <ListState as Default>::default ]() -> (state: ListState)
    ensures
        selected_in(state) is None,
;

/// `ListState::selected`: hands back the selected index as it is held.
pub assume_specification[ ListState::selected ](state: &ListState) -> (index: Option<usize>)
    ensures
        index == selected_in(*state),
;

/// `ListState::select`: the state then holds exactly the index given.
pub assume_specification[ ListState::select ](state: &mut ListState, index: Option<usize>)
    ensures
        selected_in(*final(state)) == index,
;

} // verus!
