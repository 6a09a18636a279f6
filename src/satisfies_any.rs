//! The composite module that authorizes when some child does, and cascades
//! state updates to all its children when it does.
use vstd::prelude::*;

use crate::addr_set::addr_set;
use crate::authorization::{
    addrs_view, annotated, check_update_sender, dispatches_nothing, dispatches_to,
    generate_child_update_msgs, sub_message_reply, update_permitted, AuthoriazationExecuteMsg, AuthoriazationQueryMsg, Empty,
    AuthorizationError, IsAuthorizedResponse, Response, UPDATE_REPLY_ID,
};
use crate::composite::{any_answer_granted, any_granted, ExecuteMsg, ProxyState};

verus! {

/// Creation names the administrator, the parent and the first children.
pub struct InstantiateMsg {
    pub admin: String,
    pub parent: String,
    pub children: Vec<String>,
}

/// The composite's own queries.
pub enum QueryMsg {
    GetAuthorizations,
}

/// Authorizes a batch when some child does; with no children, never.
pub struct SatisfiesAnyContract {
    pub state: ProxyState,
}

/// Sets up the module.
pub fn instantiate(msg: InstantiateMsg) -> (r: (SatisfiesAnyContract, Response))
    ensures
        r.0.state.wf(),
        r.0.state.admin == msg.admin,
        r.0.state.parent == msg.parent,
        r.0.state.child_set() == addr_set(msg.children@),
        dispatches_nothing(r.1),
{
    (SatisfiesAnyContract::instantiate(msg), annotated("action", "instantiate".to_string()))
}

/// Relies on std's `format!`: the text of the failure for a reply whose id
/// is not the update correlation id.
#[verifier::external_body]
fn unknown_reply_text(id: u64) -> (r: String) {
    format!("Unknown reply id: {}", id)
}

/// Handles the report of a dispatched child update. A report under the update
/// correlation id is recorded as an annotation and never fails, whatever the
/// child reported; any other id is refused.
pub fn reply(id: u64, result: Result<String, String>) -> (r: Result<Response, AuthorizationError>)
    ensures
        r is Ok <==> id == UPDATE_REPLY_ID,
        r is Err ==> r->Err_0 is Std,
        r is Ok ==> {
            &&& dispatches_nothing(r->Ok_0)
            &&& r->Ok_0.attributes@.len() == 1
            &&& result is Err ==> r->Ok_0.attributes@[0].0@ == "update_error"@
                && r->Ok_0.attributes@[0].1@ == result->Err_0@
            &&& result is Ok ==> r->Ok_0.attributes@[0].0@ == "update_success"@
                && r->Ok_0.attributes@[0].1@ == result->Ok_0@
        },
{
    if id == UPDATE_REPLY_ID {
        sub_message_reply(result)
    } else {
        Err(AuthorizationError::Std(unknown_reply_text(id)))
    }
}

impl SatisfiesAnyContract {
    pub fn instantiate(msg: InstantiateMsg) -> (r: Self)
        ensures
            r.state.wf(),
            r.state.admin == msg.admin,
            r.state.parent == msg.parent,
            r.state.child_set() == addr_set(msg.children@),
    {
        SatisfiesAnyContract { state: ProxyState::new(msg.admin, msg.parent, msg.children) }
    }

    /// The children, in the order they are queried and notified.
    pub fn get_sub_authorizations(&self) -> (r: Vec<String>)
        ensures
            addrs_view(r@) == addrs_view(self.state.children@),
    {
        self.state.list_children()
    }

    /// Yes exactly when some child answered yes; `answers[i]` is the answer
    /// of the `i`-th child of `get_sub_authorizations`, `None` where its
    /// query failed.
    pub fn is_authorized(&self, answers: &Vec<Option<bool>>) -> (r: Result<
        bool,
        AuthorizationError,
    >)
        requires
            answers@.len() == self.state.children@.len(),
        ensures
            r is Ok,
            r->Ok_0 == any_granted(answers@),
            self.state.children@.len() == 0 ==> !r->Ok_0,
    {
        if self.state.children.len() == 0 {
            return Ok(false);
        }
        Ok(any_answer_granted(answers))
    }

    /// The decision query.
    pub fn query_authorizations(&self, answers: &Vec<Option<bool>>) -> (r: IsAuthorizedResponse)
        requires
            answers@.len() == self.state.children@.len(),
        ensures
            r.authorized == any_granted(answers@),
    {
        let authorized = match self.is_authorized(answers) {
            Ok(b) => b,
            Err(_) => false,
        };
        IsAuthorizedResponse { authorized }
    }

    /// Routes a query; `answers` are the children's answers for the batch
    /// of a decision query, as for `is_authorized`. The module answers no
    /// queries of its own: for those there is no answer.
    pub fn query(&self, msg: AuthoriazationQueryMsg<Empty>, answers: &Vec<Option<bool>>) -> (r:
        Option<IsAuthorizedResponse>)
        requires
            answers@.len() == self.state.children@.len(),
        ensures
            msg is IsAuthorized ==> r == Some(IsAuthorizedResponse { authorized: any_granted(answers@) }),
            msg is Extension ==> r is None,
    {
        match msg {
            AuthoriazationQueryMsg::IsAuthorized { .. } => Some(self.query_authorizations(answers)),
            AuthoriazationQueryMsg::Extension(_) => None,
        }
    }

    /// Records an executed batch for `sender`, sent by `real_sender`, given
    /// the children's current answers for that batch. The caller must be
    /// `sender` itself or the parent, and some child must answer yes; then
    /// every child, whatever it answered, is sent one update notice for
    /// `sender`. Otherwise the call fails `Unauthorized` and sends nothing.
    pub fn update_authorization_state(
        &self,
        sender: &String,
        real_sender: &String,
        answers: &Vec<Option<bool>>,
    ) -> (r: Result<Response, AuthorizationError>)
        requires
            answers@.len() == self.state.children@.len(),
        ensures
            r is Ok <==> update_permitted(sender@, real_sender@, self.state.parent@) && any_granted(
                answers@,
            ),
            r is Err ==> r->Err_0 is Unauthorized,
            r is Ok ==> dispatches_to(
                r->Ok_0.messages@,
                addrs_view(self.state.children@),
                sender@,
            ),
    {
        match check_update_sender(sender, real_sender, &self.state.parent) {
            Err(e) => {
                return Err(e);
            },
            Ok(()) => {},
        }
        let authorized = match self.is_authorized(answers) {
            Ok(b) => b,
            Err(_) => false,
        };
        if authorized {
            let children = self.get_sub_authorizations();
            let messages = generate_child_update_msgs(&children, sender);
            Ok(Response { attributes: Vec::new(), messages })
        } else {
            Err(AuthorizationError::Unauthorized)
        }
    }

    /// Adds or removes a child. Only the administrator may.
    pub fn execute_extension(&mut self, info_sender: &String, msg: ExecuteMsg) -> (r: Result<
        Response,
        AuthorizationError,
    >)
        requires
            old(self).state.wf(),
        ensures
            final(self).state.wf(),
            final(self).state.admin == old(self).state.admin,
            final(self).state.parent == old(self).state.parent,
            r is Ok <==> info_sender@ == old(self).state.admin@,
            r is Err ==> r->Err_0 is Unauthorized && final(self).state.children@ == old(
                self,
            ).state.children@,
            r is Ok ==> dispatches_nothing(r->Ok_0) && match msg {
                ExecuteMsg::AddChild { addr } => final(self).state.child_set() == old(
                    self,
                ).state.child_set().insert(addr@),
                ExecuteMsg::RemoveChild { addr } => final(self).state.child_set() == old(
                    self,
                ).state.child_set().remove(addr@),
            },
    {
        if !(*info_sender == self.state.admin) {
            return Err(AuthorizationError::Unauthorized);
        }
        let action = match &msg {
            ExecuteMsg::AddChild { .. } => "allow",
            ExecuteMsg::RemoveChild { .. } => "remove",
        };
        self.state.apply_child_change(msg);
        Ok(annotated("action", action.to_string()))
    }

    /// Routes a command sent by `info_sender`: an update goes to
    /// `update_authorization_state`, with `answers` the children's current
    /// answers for its batch; the module's own commands go to
    /// `execute_extension`.
    pub fn execute(
        &mut self,
        info_sender: &String,
        msg: AuthoriazationExecuteMsg<ExecuteMsg>,
        answers: &Vec<Option<bool>>,
    ) -> (r: Result<Response, AuthorizationError>)
        requires
            old(self).state.wf(),
            answers@.len() == old(self).state.children@.len(),
        ensures
            final(self).state.wf(),
            final(self).state.admin == old(self).state.admin,
            final(self).state.parent == old(self).state.parent,
            match msg {
                AuthoriazationExecuteMsg::UpdateExecutedAuthorizationState { sender, .. } => {
                    &&& final(self).state.children@ == old(self).state.children@
                    &&& r is Ok <==> update_permitted(sender@, info_sender@, old(self).state.parent@)
                        && any_granted(answers@)
                    &&& r is Err ==> r->Err_0 is Unauthorized
                    &&& r is Ok ==> dispatches_to(
                        r->Ok_0.messages@,
                        addrs_view(old(self).state.children@),
                        sender@,
                    )
                },
                AuthoriazationExecuteMsg::Extension(m) => {
                    &&& r is Ok <==> info_sender@ == old(self).state.admin@
                    &&& r is Err ==> r->Err_0 is Unauthorized && final(self).state.children@ == old(
                        self,
                    ).state.children@
                    &&& r is Ok ==> dispatches_nothing(r->Ok_0) && match m {
                        ExecuteMsg::AddChild { addr } => final(self).state.child_set() == old(
                            self,
                        ).state.child_set().insert(addr@),
                        ExecuteMsg::RemoveChild { addr } => final(self).state.child_set() == old(
                            self,
                        ).state.child_set().remove(addr@),
                    }
                },
            },
    {
        match msg {
            AuthoriazationExecuteMsg::UpdateExecutedAuthorizationState { msgs, sender } => {
                self.update_authorization_state(&sender, info_sender, answers)
            },
            AuthoriazationExecuteMsg::Extension(m) => self.execute_extension(info_sender, m),
        }
    }
}

} // verus!
