use vstd::prelude::*;
use crate::actors::mediator_messages::ConnectResponse;
use crate::errors::service_error::ServiceError;
use crate::game::server_state::ServerState;
use crate::PlayerId;

verus! {

/// What the player's endpoint answers once the coordinator has answered
/// the session: the connection stands with the server's state, or it fails
/// because the player is not registered, or is connected already.
pub fn connect_player(player_id: PlayerId, response: ConnectResponse) -> (result: Result<ServerState, ServiceError>)
    ensures
        match response {
            ConnectResponse::Connected(state) => result == Ok::<ServerState, ServiceError>(state),
            ConnectResponse::NotRegistered => result == Err::<ServerState, ServiceError>(
                ServiceError::NotRegistered(player_id),
            ),
            ConnectResponse::AlreadyConnected => result == Err::<ServerState, ServiceError>(
                ServiceError::AlreadyConnected(player_id),
            ),
        },
{
    match response {
        ConnectResponse::Connected(state) => Ok(state),
        ConnectResponse::NotRegistered => Err(ServiceError::NotRegistered(player_id)),
        ConnectResponse::AlreadyConnected => Err(ServiceError::AlreadyConnected(player_id)),
    }
}

} // verus!
