//! The module that authorizes everything.
use vstd::prelude::*;

use crate::authorization::{
    annotated, dispatches_nothing, empty_response, AuthoriazationExecuteMsg,
    AuthoriazationQueryMsg, AuthorizationError, Empty, IsAuthorizedResponse, Response,
};
use crate::value::Value;

verus! {

/// Authorizes every batch of actions for every requester.
pub struct BasicAuth {}

/// Creation takes no settings.
#[derive(Clone, Copy, Debug, PartialEq, Eq, Structural)]
pub struct InstantiateMsg {}

/// Sets up a module that authorizes everything.
pub fn instantiate(msg: InstantiateMsg) -> (r: Result<Response, AuthorizationError>)
    ensures
        r is Ok,
        dispatches_nothing(r->Ok_0),
{
    Ok(annotated("action", "instantiate".to_string()))
}

impl BasicAuth {
    pub fn new() -> (r: Self) {
        BasicAuth {  }
    }

    /// Always yes.
    pub fn is_authorized(&self, msgs: &Vec<Value>, sender: &String) -> (r: Result<
        bool,
        AuthorizationError,
    >)
        ensures
            r is Ok && r->Ok_0,
    {
        Ok(true)
    }

    /// A leaf: no children.
    pub fn get_sub_authorizations(&self) -> (r: Vec<String>)
        ensures
            r@.len() == 0,
    {
        Vec::new()
    }

    /// The decision query; it always authorizes.
    pub fn query_authorizations(&self, msgs: &Vec<Value>, sender: &String) -> (r:
        IsAuthorizedResponse)
        ensures
            r.authorized,
    {
        let authorized = match self.is_authorized(msgs, sender) {
            Ok(b) => b,
            Err(_) => false,
        };
        IsAuthorizedResponse { authorized }
    }

    /// Routes a query. This module answers no queries of its own: for those
    /// there is no answer.
    pub fn query(&self, msg: AuthoriazationQueryMsg<Empty>) -> (r: Option<IsAuthorizedResponse>)
        ensures
            msg is IsAuthorized ==> r == Some(IsAuthorizedResponse { authorized: true }),
            msg is Extension ==> r is None,
    {
        match msg {
            AuthoriazationQueryMsg::IsAuthorized { msgs, sender } => Some(
                self.query_authorizations(&msgs, &sender),
            ),
            AuthoriazationQueryMsg::Extension(_) => None,
        }
    }

    /// Records an executed batch. There is no state here and no child to
    /// notify; as this module has no privileged address, an update may only
    /// be sent by the requester it names.
    pub fn update_authorization_state(
        &self,
        msgs: &Vec<Value>,
        sender: &String,
        real_sender: &String,
    ) -> (r: Result<Response, AuthorizationError>)
        ensures
            r is Ok <==> sender@ == real_sender@,
            r is Ok ==> dispatches_nothing(r->Ok_0),
            r is Err ==> r->Err_0 is Unauthorized,
    {
        if *sender == *real_sender {
            Ok(empty_response())
        } else {
            Err(AuthorizationError::Unauthorized)
        }
    }

    /// Routes a command sent by `info_sender`. This module has no commands of
    /// its own.
    pub fn execute(&self, info_sender: &String, msg: AuthoriazationExecuteMsg<Empty>) -> (r: Result<
        Response,
        AuthorizationError,
    >)
        requires
            msg is UpdateExecutedAuthorizationState,
        ensures
            r is Ok <==> msg->UpdateExecutedAuthorizationState_sender@ == info_sender@,
            r is Ok ==> dispatches_nothing(r->Ok_0),
            r is Err ==> r->Err_0 is Unauthorized,
    {
        match msg {
            AuthoriazationExecuteMsg::UpdateExecutedAuthorizationState { msgs, sender } => {
                self.update_authorization_state(&msgs, &sender, info_sender)
            },
            AuthoriazationExecuteMsg::Extension(_) => Err(AuthorizationError::Unauthorized),
        }
    }
}

} // verus!
