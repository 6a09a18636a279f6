//! The composite module that authorizes when every child does.
use vstd::prelude::*;

use crate::addr_set::addr_set;
use crate::authorization::{
    addrs_view, annotated, dispatches_nothing, dispatches_to, generate_child_update_msgs,
    AuthoriazationExecuteMsg, AuthoriazationQueryMsg, Empty, AuthorizationError, IsAuthorizedResponse, Response,
};
use crate::composite::{all_answers_granted, all_granted, ExecuteMsg, ProxyState};

verus! {

/// Creation names the parent and the first children.
pub struct InstantiateMsg {
    pub parent: String,
    pub children: Vec<String>,
}

/// Authorizes a batch when every child does; with no children, always.
pub struct SatisfiesAllContract {
    pub state: ProxyState,
}

/// Sets up the module; its parent administers it too.
pub fn instantiate(msg: InstantiateMsg) -> (r: (SatisfiesAllContract, Response))
    ensures
        r.0.state.wf(),
        r.0.state.parent == msg.parent,
        r.0.state.child_set() == addr_set(msg.children@),
        dispatches_nothing(r.1),
{
    (SatisfiesAllContract::instantiate(msg), annotated("action", "instantiate".to_string()))
}

impl SatisfiesAllContract {
    pub fn instantiate(msg: InstantiateMsg) -> (r: Self)
        ensures
            r.state.wf(),
            r.state.parent == msg.parent,
            r.state.child_set() == addr_set(msg.children@),
    {
        let admin = msg.parent.clone();
        SatisfiesAllContract { state: ProxyState::new(admin, msg.parent, msg.children) }
    }

    /// The children, in the order they are queried and notified.
    pub fn get_sub_authorizations(&self) -> (r: Vec<String>)
        ensures
            addrs_view(r@) == addrs_view(self.state.children@),
    {
        self.state.list_children()
    }

    /// Yes exactly when every child answered yes; `answers[i]` is the answer
    /// of the `i`-th child of `get_sub_authorizations`, `None` where its
    /// query failed.
    pub fn is_authorized(&self, answers: &Vec<Option<bool>>) -> (r: Result<
        bool,
        AuthorizationError,
    >)
        requires
            answers@.len() == self.state.children@.len(),
        ensures
            r is Ok,
            r->Ok_0 == all_granted(answers@),
            self.state.children@.len() == 0 ==> r->Ok_0,
    {
        Ok(all_answers_granted(answers))
    }

    /// The decision query.
    pub fn query_authorizations(&self, answers: &Vec<Option<bool>>) -> (r: IsAuthorizedResponse)
        requires
            answers@.len() == self.state.children@.len(),
        ensures
            r.authorized == all_granted(answers@),
    {
        let authorized = match self.is_authorized(answers) {
            Ok(b) => b,
            Err(_) => false,
        };
        IsAuthorizedResponse { authorized }
    }

    /// Routes a query; `answers` are the children's answers for the batch
    /// of a decision query, as for `is_authorized`. The module answers no
    /// queries of its own: for those there is no answer.
    pub fn query(&self, msg: AuthoriazationQueryMsg<Empty>, answers: &Vec<Option<bool>>) -> (r:
        Option<IsAuthorizedResponse>)
        requires
            answers@.len() == self.state.children@.len(),
        ensures
            msg is IsAuthorized ==> r == Some(IsAuthorizedResponse { authorized: all_granted(answers@) }),
            msg is Extension ==> r is None,
    {
        match msg {
            AuthoriazationQueryMsg::IsAuthorized { .. } => Some(self.query_authorizations(answers)),
            AuthoriazationQueryMsg::Extension(_) => None,
        }
    }

    /// Records an executed batch for `sender`. Only the parent may send it;
    /// then every child is sent one update notice for `sender`.
    pub fn update_authorization_state(&self, sender: &String, real_sender: &String) -> (r: Result<
        Response,
        AuthorizationError,
    >)
        ensures
            r is Ok <==> real_sender@ == self.state.parent@,
            r is Err ==> r->Err_0 is Unauthorized,
            r is Ok ==> dispatches_to(
                r->Ok_0.messages@,
                addrs_view(self.state.children@),
                sender@,
            ),
    {
        if !(*real_sender == self.state.parent) {
            return Err(AuthorizationError::Unauthorized);
        }
        let children = self.get_sub_authorizations();
        let messages = generate_child_update_msgs(&children, sender);
        Ok(Response { attributes: Vec::new(), messages })
    }

    /// Adds or removes a child. Only the parent may.
    pub fn execute_extension(&mut self, info_sender: &String, msg: ExecuteMsg) -> (r: Result<
        Response,
        AuthorizationError,
    >)
        requires
            old(self).state.wf(),
        ensures
            final(self).state.wf(),
            final(self).state.parent == old(self).state.parent,
            r is Ok <==> info_sender@ == old(self).state.parent@,
            r is Err ==> r->Err_0 is Unauthorized && final(self).state.children@ == old(
                self,
            ).state.children@,
            r is Ok ==> dispatches_nothing(r->Ok_0) && match msg {
                ExecuteMsg::AddChild { addr } => final(self).state.child_set() == old(
                    self,
                ).state.child_set().insert(addr@),
                ExecuteMsg::RemoveChild { addr } => final(self).state.child_set() == old(
                    self,
                ).state.child_set().remove(addr@),
            },
    {
        if !(*info_sender == self.state.parent) {
            return Err(AuthorizationError::Unauthorized);
        }
        let action = match &msg {
            ExecuteMsg::AddChild { .. } => "allow",
            ExecuteMsg::RemoveChild { .. } => "remove",
        };
        self.state.apply_child_change(msg);
        Ok(annotated("action", action.to_string()))
    }

    /// Routes a command sent by `info_sender`: an update goes to
    /// `update_authorization_state`, the module's own commands to
    /// `execute_extension`.
    pub fn execute(&mut self, info_sender: &String, msg: AuthoriazationExecuteMsg<ExecuteMsg>) -> (r:
        Result<Response, AuthorizationError>)
        requires
            old(self).state.wf(),
        ensures
            final(self).state.wf(),
            final(self).state.parent == old(self).state.parent,
            match msg {
                AuthoriazationExecuteMsg::UpdateExecutedAuthorizationState { sender, .. } => {
                    &&& final(self).state.children@ == old(self).state.children@
                    &&& r is Ok <==> info_sender@ == old(self).state.parent@
                    &&& r is Err ==> r->Err_0 is Unauthorized
                    &&& r is Ok ==> dispatches_to(
                        r->Ok_0.messages@,
                        addrs_view(old(self).state.children@),
                        sender@,
                    )
                },
                AuthoriazationExecuteMsg::Extension(m) => {
                    &&& r is Ok <==> info_sender@ == old(self).state.parent@
                    &&& r is Err ==> r->Err_0 is Unauthorized && final(self).state.children@ == old(
                        self,
                    ).state.children@
                    &&& r is Ok ==> dispatches_nothing(r->Ok_0) && match m {
                        ExecuteMsg::AddChild { addr } => final(self).state.child_set() == old(
                            self,
                        ).state.child_set().insert(addr@),
                        ExecuteMsg::RemoveChild { addr } => final(self).state.child_set() == old(
                            self,
                        ).state.child_set().remove(addr@),
                    }
                },
            },
    {
        match msg {
            AuthoriazationExecuteMsg::UpdateExecutedAuthorizationState { msgs, sender } => {
                self.update_authorization_state(&sender, info_sender)
            },
            AuthoriazationExecuteMsg::Extension(m) => self.execute_extension(info_sender, m),
        }
    }
}

} // verus!
