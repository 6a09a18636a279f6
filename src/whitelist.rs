//! The module that authorizes the requesters on a list kept by its owner.
use vstd::prelude::*;

use crate::addr_set::{addr_set, contains_addr, insert_addr, remove_addr, unique_addrs};
use crate::authorization::{
    annotated, check_update_sender, dispatches_nothing, empty_response, update_permitted,
    AuthoriazationExecuteMsg, AuthoriazationQueryMsg, AuthorizationError, Empty,
    IsAuthorizedResponse, Response,
};
use crate::value::Value;

verus! {

/// Creation names the owner, the only caller that may change the list.
pub struct InstantiateMsg {
    pub dao: String,
}

/// The whitelist's own commands.
pub enum ExecuteMsg {
    Allow { addr: String },
    Remove { addr: String },
}

/// A whitelist migrates with no settings.
#[derive(Clone, Copy, Debug, PartialEq, Eq, Structural)]
pub struct MigrateMsg {}

/// The owner and the authorized requesters, without repeats.
pub struct WhitelistState {
    pub owner: String,
    pub authorized: Vec<String>,
}

impl WhitelistState {
    /// A state owned by `owner` that authorizes no one yet.
    pub fn new(owner: String) -> (r: Self)
        ensures
            r.owner@ == owner@,
            r.wf(),
            r.members() == Set::<Seq<char>>::empty(),
    {
        let r = WhitelistState { owner, authorized: Vec::new() };
        assert(addr_set(r.authorized@) =~= Set::<Seq<char>>::empty());
        r
    }

    pub open spec fn wf(&self) -> bool {
        unique_addrs(self.authorized@)
    }

    /// The authorized requesters.
    pub open spec fn members(&self) -> Set<Seq<char>> {
        addr_set(self.authorized@)
    }
}

/// After `Allow` for `s`, `s` is authorized.
pub proof fn allowed_requester_is_authorized(pre: WhitelistState, post: WhitelistState, s: Seq<char>)
    requires
        post.members() == pre.members().insert(s),
    ensures
        post.members().contains(s),
{
}

/// `Remove` of a requester that is not on the list leaves the list as it was.
pub proof fn removing_absent_requester_changes_nothing(
    pre: WhitelistState,
    post: WhitelistState,
    s: Seq<char>,
)
    requires
        !pre.members().contains(s),
        post.members() == pre.members().remove(s),
    ensures
        post.members() == pre.members(),
{
    assert(post.members() =~= pre.members());
}

/// Authorizes a requester exactly when it is on the list.
pub struct WhitelistContract {
    pub state: WhitelistState,
}

/// Sets up a whitelist owned by `msg.dao`.
pub fn instantiate(msg: InstantiateMsg) -> (r: (WhitelistContract, Response))
    ensures
        r.0.state.wf(),
        r.0.state.owner@ == msg.dao@,
        r.0.state.members() == Set::<Seq<char>>::empty(),
        dispatches_nothing(r.1),
{
    (WhitelistContract::new(msg.dao), annotated("action", "instantiate".to_string()))
}

impl WhitelistContract {
    pub fn new(owner: String) -> (r: Self)
        ensures
            r.state.wf(),
            r.state.owner@ == owner@,
            r.state.members() == Set::<Seq<char>>::empty(),
    {
        WhitelistContract { state: WhitelistState::new(owner) }
    }

    /// Yes exactly when `sender` is on the list; the actions do not matter.
    pub fn is_authorized(&self, msgs: &Vec<Value>, sender: &String) -> (r: Result<
        bool,
        AuthorizationError,
    >)
        ensures
            r is Ok,
            r->Ok_0 == self.state.members().contains(sender@),
    {
        Ok(contains_addr(&self.state.authorized, sender))
    }

    /// A leaf: no children.
    pub fn get_sub_authorizations(&self) -> (r: Vec<String>)
        ensures
            r@.len() == 0,
    {
        Vec::new()
    }

    /// The decision query.
    pub fn query_authorizations(&self, msgs: &Vec<Value>, sender: &String) -> (r:
        IsAuthorizedResponse)
        ensures
            r.authorized == self.state.members().contains(sender@),
    {
        let authorized = match self.is_authorized(msgs, sender) {
            Ok(b) => b,
            Err(_) => false,
        };
        IsAuthorizedResponse { authorized }
    }

    /// Routes a query. A whitelist answers no queries of its own: for those
    /// there is no answer.
    pub fn query(&self, msg: AuthoriazationQueryMsg<Empty>) -> (r: Option<IsAuthorizedResponse>)
        ensures
            msg is IsAuthorized ==> r == Some(
                IsAuthorizedResponse {
                    authorized: self.state.members().contains(msg->IsAuthorized_sender@),
                },
            ),
            msg is Extension ==> r is None,
    {
        match msg {
            AuthoriazationQueryMsg::IsAuthorized { msgs, sender } => Some(
                self.query_authorizations(&msgs, &sender),
            ),
            AuthoriazationQueryMsg::Extension(_) => None,
        }
    }

    /// Records an executed batch: nothing to update and no child to notify.
    /// The requester may differ from the caller only when the owner relays it.
    pub fn update_authorization_state(
        &self,
        msgs: &Vec<Value>,
        sender: &String,
        real_sender: &String,
    ) -> (r: Result<Response, AuthorizationError>)
        ensures
            r is Ok <==> update_permitted(sender@, real_sender@, self.state.owner@),
            r is Ok ==> dispatches_nothing(r->Ok_0),
            r is Err ==> r->Err_0 is Unauthorized,
    {
        match check_update_sender(sender, real_sender, &self.state.owner) {
            Ok(()) => Ok(empty_response()),
            Err(e) => Err(e),
        }
    }

    /// Adds or removes a requester. Only the owner may; removing an absent
    /// requester changes nothing and succeeds.
    pub fn execute_extension(&mut self, info_sender: &String, msg: ExecuteMsg) -> (r: Result<
        Response,
        AuthorizationError,
    >)
        requires
            old(self).state.wf(),
        ensures
            final(self).state.wf(),
            final(self).state.owner == old(self).state.owner,
            r is Ok <==> info_sender@ == old(self).state.owner@,
            r is Err ==> r->Err_0 is Unauthorized && final(self).state.authorized@ == old(
                self,
            ).state.authorized@,
            r is Ok ==> dispatches_nothing(r->Ok_0),
            r is Ok ==> (match msg {
                ExecuteMsg::Allow { addr } => final(self).state.members() == old(
                    self,
                ).state.members().insert(addr@),
                ExecuteMsg::Remove { addr } => final(self).state.members() == old(
                    self,
                ).state.members().remove(addr@),
            }),
    {
        if !(*info_sender == self.state.owner) {
            return Err(AuthorizationError::Unauthorized);
        }
        match msg {
            ExecuteMsg::Allow { addr } => {
                insert_addr(&mut self.state.authorized, addr);
                Ok(annotated("action", "allow".to_string()))
            },
            ExecuteMsg::Remove { addr } => {
                remove_addr(&mut self.state.authorized, &addr);
                Ok(annotated("action", "remove".to_string()))
            },
        }
    }

    /// Routes a command sent by `info_sender`: an update goes to
    /// `update_authorization_state`, the whitelist's own commands to
    /// `execute_extension`.
    pub fn execute(&mut self, info_sender: &String, msg: AuthoriazationExecuteMsg<ExecuteMsg>) -> (r:
        Result<Response, AuthorizationError>)
        requires
            old(self).state.wf(),
        ensures
            final(self).state.wf(),
            final(self).state.owner == old(self).state.owner,
            match msg {
                AuthoriazationExecuteMsg::UpdateExecutedAuthorizationState { sender, .. } => {
                    &&& final(self).state.authorized@ == old(self).state.authorized@
                    &&& r is Ok <==> update_permitted(sender@, info_sender@, old(self).state.owner@)
                    &&& r is Ok ==> dispatches_nothing(r->Ok_0)
                    &&& r is Err ==> r->Err_0 is Unauthorized
                },
                AuthoriazationExecuteMsg::Extension(m) => {
                    &&& r is Ok <==> info_sender@ == old(self).state.owner@
                    &&& r is Err ==> r->Err_0 is Unauthorized && final(self).state.authorized@ == old(
                        self,
                    ).state.authorized@
                    &&& r is Ok ==> dispatches_nothing(r->Ok_0) && match m {
                        ExecuteMsg::Allow { addr } => final(self).state.members() == old(
                            self,
                        ).state.members().insert(addr@),
                        ExecuteMsg::Remove { addr } => final(self).state.members() == old(
                            self,
                        ).state.members().remove(addr@),
                    }
                },
            },
    {
        match msg {
            AuthoriazationExecuteMsg::UpdateExecutedAuthorizationState { msgs, sender } => {
                self.update_authorization_state(&msgs, &sender, info_sender)
            },
            AuthoriazationExecuteMsg::Extension(m) => self.execute_extension(info_sender, m),
        }
    }
}

} // verus!
