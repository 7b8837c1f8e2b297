use vstd::prelude::*;
use crate::actors::mediator_messages::ConnectViewerResponse;
use crate::game::server_state::ServerState;

verus! {

/// What the viewer's endpoint gets once the coordinator has answered the
/// session: a viewer is always taken in, and learns the server's state.
pub fn connect_viewer(response: ConnectViewerResponse) -> (state: ServerState)
    ensures
        state == response.0,
{
    response.0
}

} // verus!
