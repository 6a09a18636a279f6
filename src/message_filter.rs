//! The module that allows or rejects a requester's batches by matching them
//! against the rules stored for that requester.
use vstd::prelude::*;

use crate::authorization::{
    annotated, check_update_sender, dispatches_nothing, empty_response, update_permitted,
    AuthoriazationExecuteMsg, AuthorizationError, IsAuthorizedResponse, Response,
};
use crate::value::{deep_partial_match, json_parse, matches_pattern, parse_json, Value};

verus! {

/// What a rule does: under `Allow` a batch passes only when a rule matches it;
/// under `Reject` a batch passes unless a rule matches it.
#[derive(Clone, Copy, Debug, PartialEq, Eq, Structural)]
pub enum Kind {
    Allow,
    Reject,
}

/// The filter's own errors.
#[derive(Debug)]
pub enum MessageFilterError {
    NotFound,
    UnauthorizedBecause { reason: String },
}

/// The parent, the only caller that may change the rules, and the kind.
pub struct Config {
    pub parent: String,
    pub kind: Kind,
}

/// The decision when no rule matches: yes under `Reject`, no under `Allow`.
pub open spec fn default_for(kind: Kind) -> bool {
    kind == Kind::Reject
}

/// The decision for a batch, given whether a rule matched it.
pub open spec fn decision(kind: Kind, matched: bool) -> bool {
    if matched {
        kind == Kind::Allow
    } else {
        default_for(kind)
    }
}

impl Config {
    /// The decision when no rule matches.
    pub fn default_authorization(&self) -> (r: bool)
        ensures
            r == default_for(self.kind),
    {
        match self.kind {
            Kind::Allow => false,
            Kind::Reject => true,
        }
    }

    /// The response when no rule matches: a refusal under `Allow`, an
    /// annotated success under `Reject`.
    pub fn default_response(&self) -> (r: Result<Response, AuthorizationError>)
        ensures
            r is Ok <==> self.kind == Kind::Reject,
            r is Err ==> r->Err_0 is Unauthorized,
            r is Ok ==> {
                &&& dispatches_nothing(r->Ok_0)
                &&& r->Ok_0.attributes@.len() == 2
                &&& r->Ok_0.attributes@[0].0@ == "allowed"@
                &&& r->Ok_0.attributes@[0].1@ == "true"@
                &&& r->Ok_0.attributes@[1].0@ == "reason"@
                &&& r->Ok_0.attributes@[1].1@ == "No authorizations rejected the request. Allowing."@
            },
    {
        proof {
            reveal_strlit("allowed");
            reveal_strlit("true");
            reveal_strlit("reason");
            reveal_strlit("No authorizations rejected the request. Allowing.");
        }
        match self.kind {
            Kind::Allow => Err(AuthorizationError::Unauthorized),
            Kind::Reject => {
                let mut resp = annotated("allowed", "true".to_string());
                resp.attributes.push(
                    (
                        "reason".to_string(),
                        "No authorizations rejected the request. Allowing.".to_string(),
                    ),
                );
                Ok(resp)
            },
        }
    }
}

/// A stored rule: the requester it applies to and the pattern, as the text
/// it was given in.
pub struct Matcher {
    pub matcher: String,
    pub addr: String,
}

/// Creation names the parent and the kind.
pub struct InstantiateMsg {
    pub parent: String,
    pub kind: Kind,
}

/// The filter's own commands; `msg` is a rule's pattern as JSON text.
pub enum ExecuteMsg {
    AddAuthorization { addr: String, msg: String },
    RemoveAuthorization { addr: String, msg: String },
}

/// The filter's own queries.
pub enum QueryMsg {
    GetAuthorizations { sender: String },
}

/// The rules stored for one requester, in the order they were added.
pub struct AuthorizationsResponse {
    pub authorizations: Vec<Matcher>,
}

/// A filter migrates with no settings.
#[derive(Clone, Copy, Debug, PartialEq, Eq, Structural)]
pub struct MigrateMsg {}

/// The configuration and the rules, in the order they were added.
pub struct MessageFilterState {
    pub config: Config,
    pub matchers: Vec<Matcher>,
}

/// Some rule is stored for `s`.
pub open spec fn has_rules(ms: Seq<Matcher>, s: Seq<char>) -> bool {
    exists|k: int| 0 <= k < ms.len() && #[trigger] ms[k].addr@ == s
}

/// Every action matches `p`.
pub open spec fn all_match(msgs: Seq<Value>, p: Value) -> bool {
    forall|i: int| 0 <= i < msgs.len() ==> #[trigger] matches_pattern(msgs[i], p)
}

/// The pattern of a stored rule: its text read as JSON.
pub open spec fn pattern_of(m: Matcher) -> Option<Value> {
    json_parse(m.matcher@)
}

/// The text of every rule for `s` reads as JSON.
pub open spec fn rules_parse(ms: Seq<Matcher>, s: Seq<char>) -> bool {
    forall|k: int| 0 <= k < ms.len() && ms[k].addr@ == s ==> #[trigger] pattern_of(ms[k]) is Some
}

/// The rule `k` is for `s`, has a pattern, and every action matches it.
pub open spec fn rule_matches(ms: Seq<Matcher>, k: int, s: Seq<char>, msgs: Seq<Value>) -> bool {
    &&& ms[k].addr@ == s
    &&& pattern_of(ms[k]) is Some
    &&& all_match(msgs, pattern_of(ms[k])->Some_0)
}

/// Some rule for `s` is matched by every action.
pub open spec fn some_rule_matches(ms: Seq<Matcher>, s: Seq<char>, msgs: Seq<Value>) -> bool {
    exists|k: int| 0 <= k < ms.len() && #[trigger] rule_matches(ms, k, s, msgs)
}

/// Every action was turned into its structured form.
pub open spec fn all_converted(msgs: Seq<Result<Value, String>>) -> bool {
    forall|i: int| 0 <= i < msgs.len() ==> #[trigger] msgs[i] is Ok
}

/// The structured forms of the actions.
pub open spec fn converted(msgs: Seq<Result<Value, String>>) -> Seq<Value> {
    msgs.map_values(|m: Result<Value, String>| m->Ok_0)
}

/// `msgs[j]` is the first action that could not be converted.
pub open spec fn first_failure(msgs: Seq<Result<Value, String>>, j: int) -> bool {
    &&& 0 <= j < msgs.len()
    &&& msgs[j] is Err
    &&& forall|i: int| 0 <= i < j ==> #[trigger] msgs[i] is Ok
}

/// The rule `k` is the one for `addr` with text `text`.
pub open spec fn rule_is(ms: Seq<Matcher>, k: int, addr: Seq<char>, text: Seq<char>) -> bool {
    ms[k].addr@ == addr && ms[k].matcher@ == text
}

/// `out` lists, in order, the rules of `ms` that apply to `s`.
pub open spec fn rules_of(out: Seq<Matcher>, ms: Seq<Matcher>, s: Seq<char>) -> bool
    decreases ms.len(),
{
    if ms.len() == 0 {
        out.len() == 0
    } else if ms.last().addr@ == s {
        out.len() > 0 && out.last().addr@ == s && out.last().matcher@ == ms.last().matcher@
            && rules_of(out.drop_last(), ms.drop_last(), s)
    } else {
        rules_of(out, ms.drop_last(), s)
    }
}

impl MessageFilterState {
    pub fn new(config: Config) -> (r: Self)
        ensures
            r.config == config,
            r.matchers@.len() == 0,
    {
        MessageFilterState { config, matchers: Vec::new() }
    }
}

/// Allows or rejects batches by the rules stored for their requester.
pub struct MessageFilterContract {
    pub state: MessageFilterState,
}

/// Sets up a filter with no rules.
pub fn instantiate(msg: InstantiateMsg) -> (r: (MessageFilterContract, Response))
    ensures
        r.0.state.config.parent == msg.parent,
        r.0.state.config.kind == msg.kind,
        r.0.state.matchers@.len() == 0,
        dispatches_nothing(r.1),
{
    (
        MessageFilterContract::instantiate(msg),
        annotated("action", "instantiate".to_string()),
    )
}

fn copy_matcher(m: &Matcher) -> (r: Matcher)
    ensures
        r.matcher@ == m.matcher@,
        r.addr@ == m.addr@,
{
    Matcher { matcher: m.matcher.clone(), addr: m.addr.clone() }
}

impl MessageFilterContract {
    /// A filter with parent and kind from `msg`, and no rules.
    pub fn instantiate(msg: InstantiateMsg) -> (r: Self)
        ensures
            r.state.config.parent == msg.parent,
            r.state.config.kind == msg.kind,
            r.state.matchers@.len() == 0,
    {
        MessageFilterContract {
            state: MessageFilterState::new(Config { parent: msg.parent, kind: msg.kind }),
        }
    }

    /// Whether some rule for `sender` is stored.
    fn has_rules_for(&self, sender: &String) -> (r: bool)
        ensures
            r == has_rules(self.state.matchers@, sender@),
    {
        let ms = &self.state.matchers;
        let mut k: usize = 0;
        while k < ms.len()
            invariant
                0 <= k <= ms@.len(),
                ms == &self.state.matchers,
                forall|j: int| 0 <= j < k ==> #[trigger] ms@[j].addr@ != sender@,
            decreases ms@.len() - k,
        {
            if ms[k].addr == *sender {
                assert(ms@[k as int].addr@ == sender@);
                return true;
            }
            k = k + 1;
        }
        false
    }

    /// Whether every action matches `p`.
    fn all_msgs_match(msgs: &Vec<Result<Value, String>>, p: &Value) -> (r: bool)
        requires
            all_converted(msgs@),
        ensures
            r == all_match(converted(msgs@), *p),
    {
        let ghost cs = converted(msgs@);
        let mut i: usize = 0;
        while i < msgs.len()
            invariant
                0 <= i <= msgs@.len(),
                cs == converted(msgs@),
                cs.len() == msgs@.len(),
                all_converted(msgs@),
                forall|j: int| 0 <= j < i ==> #[trigger] matches_pattern(cs[j], *p),
            decreases msgs@.len() - i,
        {
            let ok = match &msgs[i] {
                Ok(v) => deep_partial_match(v, p),
                Err(_) => false,
            };
            if !ok {
                assert(msgs@[i as int] is Ok);
                assert(cs[i as int] == msgs@[i as int]->Ok_0);
                assert(!matches_pattern(cs[i as int], *p));
                return false;
            }
            assert(cs[i as int] == msgs@[i as int]->Ok_0);
            i = i + 1;
        }
        true
    }

    /// The decision for a batch of actions, given in their structured form
    /// (or, for an action that could not be converted, the reason).
    ///
    /// With no rule for `sender` it is the default of the kind. Otherwise
    /// every action must have been converted, else the decision fails with
    /// the first reason, and the text of every rule for `sender` must read as
    /// JSON, else it fails too. Then it is `Allow` ⇒ yes, `Reject` ⇒ no when
    /// every action matches one same rule for `sender`, and the default when
    /// none does.
    pub fn is_authorized(&self, msgs: &Vec<Result<Value, String>>, sender: &String) -> (r: Result<
        bool,
        AuthorizationError<MessageFilterError>,
    >)
        ensures
            !has_rules(self.state.matchers@, sender@) ==> r == Ok::<
                bool,
                AuthorizationError<MessageFilterError>,
            >(default_for(self.state.config.kind)),
            has_rules(self.state.matchers@, sender@) ==> (r is Ok <==> all_converted(msgs@)
                && rules_parse(self.state.matchers@, sender@)),
            r is Err ==> r->Err_0 is ContractError && r->Err_0->ContractError_0 is UnauthorizedBecause,
            has_rules(self.state.matchers@, sender@) && !all_converted(msgs@) ==> exists|j: int|
                #![trigger msgs@[j]]
                first_failure(msgs@, j) && r is Err
                    && r->Err_0->ContractError_0->UnauthorizedBecause_reason@ == msgs@[j]->Err_0@,
            has_rules(self.state.matchers@, sender@) && all_converted(msgs@) && rules_parse(
                self.state.matchers@,
                sender@,
            ) ==> r == Ok::<bool, AuthorizationError<MessageFilterError>>(
                decision(
                    self.state.config.kind,
                    some_rule_matches(self.state.matchers@, sender@, converted(msgs@)),
                ),
            ),
    {
        if !self.has_rules_for(sender) {
            return Ok(self.state.config.default_authorization());
        }
        let mut i: usize = 0;
        while i < msgs.len()
            invariant
                0 <= i <= msgs@.len(),
                has_rules(self.state.matchers@, sender@),
                forall|j: int| 0 <= j < i ==> #[trigger] msgs@[j] is Ok,
            decreases msgs@.len() - i,
        {
            match &msgs[i] {
                Err(e) => {
                    assert(first_failure(msgs@, i as int));
                    return Err(
                        AuthorizationError::ContractError(
                            MessageFilterError::UnauthorizedBecause { reason: e.clone() },
                        ),
                    );
                },
                Ok(_) => {},
            }
            i = i + 1;
        }
        let ms = &self.state.matchers;
        let ghost cs = converted(msgs@);
        let mut matched = false;
        let mut k: usize = 0;
        while k < ms.len()
            invariant
                0 <= k <= ms@.len(),
                ms == &self.state.matchers,
                has_rules(self.state.matchers@, sender@),
                all_converted(msgs@),
                cs == converted(msgs@),
                forall|j: int|
                    0 <= j < k && ms@[j].addr@ == sender@ ==> #[trigger] pattern_of(ms@[j]) is Some,
                matched == exists|j: int| 0 <= j < k && #[trigger] rule_matches(ms@, j, sender@, cs),
            decreases ms@.len() - k,
        {
            if ms[k].addr == *sender {
                match parse_json(&ms[k].matcher) {
                    Err(e) => {
                        assert(!rules_parse(ms@, sender@)) by {
                            assert(ms@[k as int].addr@ == sender@);
                            assert(pattern_of(ms@[k as int]) is None);
                        }
                        return Err(
                            AuthorizationError::ContractError(
                                MessageFilterError::UnauthorizedBecause { reason: e },
                            ),
                        );
                    },
                    Ok(p) => {
                        if !matched && Self::all_msgs_match(msgs, &p) {
                            matched = true;
                            assert(rule_matches(ms@, k as int, sender@, cs));
                        }
                    },
                }
            }
            proof {
                assert forall|j: int|
                    0 <= j < k + 1 && #[trigger] rule_matches(ms@, j, sender@, cs) implies matched by {
                    if j == k as int {
                        assert(ms@[k as int].addr@ == sender@);
                    }
                }
            }
            k = k + 1;
        }
        if matched {
            match self.state.config.kind {
                Kind::Allow => Ok(true),
                Kind::Reject => Ok(false),
            }
        } else {
            Ok(self.state.config.default_authorization())
        }
    }

    /// The decision query: a failed decision answers no.
    pub fn query_authorizations(&self, msgs: &Vec<Result<Value, String>>, sender: &String) -> (r:
        IsAuthorizedResponse)
        ensures
            !has_rules(self.state.matchers@, sender@) ==> r.authorized == default_for(
                self.state.config.kind,
            ),
            has_rules(self.state.matchers@, sender@) ==> r.authorized == (all_converted(msgs@)
                && rules_parse(self.state.matchers@, sender@) && decision(
                self.state.config.kind,
                some_rule_matches(self.state.matchers@, sender@, converted(msgs@)),
            )),
    {
        let authorized = match self.is_authorized(msgs, sender) {
            Ok(b) => b,
            Err(_) => false,
        };
        IsAuthorizedResponse { authorized }
    }

    /// Adds or removes a rule. Only the parent may.
    pub fn execute_extension(&mut self, info_sender: &String, msg: ExecuteMsg) -> (r: Result<
        Response,
        AuthorizationError<MessageFilterError>,
    >)
        ensures
            final(self).state.config == old(self).state.config,
            info_sender@ != old(self).state.config.parent@ ==> r is Err && r->Err_0 is ContractError
                && r->Err_0->ContractError_0 is UnauthorizedBecause,
            r is Err ==> final(self).state.matchers@ == old(self).state.matchers@,
            info_sender@ == old(self).state.config.parent@ ==> final(self).extension_outcome(
                *old(self),
                msg,
                r,
            ),
    {
        if !(*info_sender == self.state.config.parent) {
            return Err(
                AuthorizationError::ContractError(
                    MessageFilterError::UnauthorizedBecause {
                        reason: "Only the parent can add or remove authorizations on this contract".to_string(),
                    },
                ),
            );
        }
        match msg {
            ExecuteMsg::AddAuthorization { addr, msg } => self.execute_add_authorization(addr, msg),
            ExecuteMsg::RemoveAuthorization { addr, msg } => {
                self.execute_remove_authorization(&addr, &msg)
            },
        }
    }

    /// What the parent's command `msg` does to `pre`.
    pub open spec fn extension_outcome(
        self,
        pre: Self,
        msg: ExecuteMsg,
        r: Result<Response, AuthorizationError<MessageFilterError>>,
    ) -> bool {
        match msg {
            ExecuteMsg::AddAuthorization { addr, msg } => self.add_outcome(pre, addr@, msg@, r),
            ExecuteMsg::RemoveAuthorization { addr, msg } => self.remove_outcome(
                pre,
                addr@,
                msg@,
                r,
            ),
        }
    }

    /// What adding the rule (`addr`, `text`) to `pre` gives: a failure when
    /// the text does not read as JSON, else the rule appended at the end.
    pub open spec fn add_outcome(
        self,
        pre: Self,
        addr: Seq<char>,
        text: Seq<char>,
        r: Result<Response, AuthorizationError<MessageFilterError>>,
    ) -> bool {
        if json_parse(text) is None {
            r is Err && r->Err_0 is Std && self.state.matchers@ == pre.state.matchers@
        } else {
            &&& r is Ok
            &&& dispatches_nothing(r->Ok_0)
            &&& self.state.matchers@.len() == pre.state.matchers@.len() + 1
            &&& self.state.matchers@.drop_last() == pre.state.matchers@
            &&& self.state.matchers@.last().addr@ == addr
            &&& self.state.matchers@.last().matcher@ == text
        }
    }

    /// What removing the rule (`addr`, `text`) from `pre` gives: `NotFound`
    /// when there is no such rule, else the first such rule taken out and the
    /// others kept in order.
    pub open spec fn remove_outcome(
        self,
        pre: Self,
        addr: Seq<char>,
        text: Seq<char>,
        r: Result<Response, AuthorizationError<MessageFilterError>>,
    ) -> bool {
        let ms = pre.state.matchers@;
        if exists|k: int| 0 <= k < ms.len() && #[trigger] rule_is(ms, k, addr, text) {
            &&& r is Ok
            &&& dispatches_nothing(r->Ok_0)
            &&& exists|k: int|
                #![trigger rule_is(ms, k, addr, text)]
                0 <= k < ms.len() && rule_is(ms, k, addr, text) && (forall|j: int|
                    0 <= j < k ==> !#[trigger] rule_is(ms, j, addr, text))
                    && self.state.matchers@ == ms.remove(k)
        } else {
            &&& r is Err
            &&& r->Err_0 is ContractError
            &&& r->Err_0->ContractError_0 is NotFound
            &&& self.state.matchers@ == ms
        }
    }

    fn execute_add_authorization(&mut self, authorized_addr: String, authorization_matcher: String) -> (r:
        Result<Response, AuthorizationError<MessageFilterError>>)
        ensures
            final(self).state.config == old(self).state.config,
            r is Err ==> final(self).state.matchers@ == old(self).state.matchers@,
            final(self).add_outcome(*old(self), authorized_addr@, authorization_matcher@, r),
    {
        match parse_json(&authorization_matcher) {
            Err(e) => Err(AuthorizationError::Std(e)),
            Ok(_) => {
                self.state.matchers.push(
                    Matcher { matcher: authorization_matcher, addr: authorized_addr },
                );
                proof {
                    assert(self.state.matchers@.drop_last() =~= old(self).state.matchers@);
                }
                Ok(annotated("action", "allow_message".to_string()))
            },
        }
    }

    fn execute_remove_authorization(
        &mut self,
        authorized_addr: &String,
        authorization_matcher: &String,
    ) -> (r: Result<Response, AuthorizationError<MessageFilterError>>)
        ensures
            final(self).state.config == old(self).state.config,
            r is Err ==> final(self).state.matchers@ == old(self).state.matchers@,
            final(self).remove_outcome(*old(self), authorized_addr@, authorization_matcher@, r),
    {
        let ghost ms = self.state.matchers@;
        let mut k: usize = 0;
        while k < self.state.matchers.len()
            invariant
                0 <= k <= ms.len(),
                self.state.matchers@ == ms,
                self.state.matchers@ == old(self).state.matchers@,
                self.state.config == old(self).state.config,
                forall|j: int|
                    0 <= j < k ==> !#[trigger] rule_is(
                        ms,
                        j,
                        authorized_addr@,
                        authorization_matcher@,
                    ),
            decreases ms.len() - k,
        {
            if self.state.matchers[k].addr == *authorized_addr && self.state.matchers[k].matcher
                == *authorization_matcher {
                assert(rule_is(ms, k as int, authorized_addr@, authorization_matcher@));
                self.state.matchers.remove(k);
                return Ok(annotated("action", "removed".to_string()));
            }
            k = k + 1;
        }
        Err(AuthorizationError::ContractError(MessageFilterError::NotFound))
    }

    /// The rules stored for `sender`, in the order they were added.
    pub fn query_extension(&self, msg: QueryMsg) -> (r: AuthorizationsResponse)
        ensures
            match msg {
                QueryMsg::GetAuthorizations { sender } => rules_of(
                    r.authorizations@,
                    self.state.matchers@,
                    sender@,
                ),
            },
    {
        match msg {
            QueryMsg::GetAuthorizations { sender } => {
                let ms = &self.state.matchers;
                let mut out: Vec<Matcher> = Vec::new();
                let mut k: usize = 0;
                while k < ms.len()
                    invariant
                        0 <= k <= ms@.len(),
                        rules_of(out@, ms@.subrange(0, k as int), sender@),
                    decreases ms@.len() - k,
                {
                    let ghost prev = out@;
                    if ms[k].addr == sender {
                        out.push(copy_matcher(&ms[k]));
                    }
                    proof {
                        let next = ms@.subrange(0, k + 1);
                        assert(next.drop_last() =~= ms@.subrange(0, k as int));
                        assert(next.last() == ms@[k as int]);
                        if ms@[k as int].addr@ == sender@ {
                            assert(out@.drop_last() =~= prev);
                        } else {
                            assert(out@ == prev);
                        }
                    }
                    k = k + 1;
                }
                assert(ms@.subrange(0, ms@.len() as int) =~= ms@);
                AuthorizationsResponse { authorizations: out }
            },
        }
    }

    /// A leaf: no children.
    pub fn get_sub_authorizations(&self) -> (r: Vec<String>)
        ensures
            r@.len() == 0,
    {
        Vec::new()
    }

    /// Records an executed batch: nothing to update and no child to notify.
    /// The requester may differ from the caller only when the parent relays it.
    pub fn update_authorization_state(&self, sender: &String, real_sender: &String) -> (r: Result<
        Response,
        AuthorizationError<MessageFilterError>,
    >)
        ensures
            r is Ok <==> update_permitted(sender@, real_sender@, self.state.config.parent@),
            r is Ok ==> dispatches_nothing(r->Ok_0),
            r is Err ==> r->Err_0 is Unauthorized,
    {
        match check_update_sender(sender, real_sender, &self.state.config.parent) {
            Ok(()) => Ok(empty_response()),
            Err(e) => Err(e),
        }
    }

    /// Routes a command sent by `info_sender`: an update goes to
    /// `update_authorization_state`, the filter's own commands to
    /// `execute_extension`.
    pub fn execute(&mut self, info_sender: &String, msg: AuthoriazationExecuteMsg<ExecuteMsg>) -> (r:
        Result<Response, AuthorizationError<MessageFilterError>>)
        ensures
            final(self).state.config == old(self).state.config,
            match msg {
                AuthoriazationExecuteMsg::UpdateExecutedAuthorizationState { msgs, sender } => {
                    &&& final(self).state.matchers@ == old(self).state.matchers@
                    &&& r is Ok <==> update_permitted(
                        sender@,
                        info_sender@,
                        old(self).state.config.parent@,
                    )
                    &&& r is Ok ==> dispatches_nothing(r->Ok_0)
                    &&& r is Err ==> r->Err_0 is Unauthorized
                },
                AuthoriazationExecuteMsg::Extension(m) => {
                    &&& info_sender@ != old(self).state.config.parent@ ==> r is Err && r->Err_0 is ContractError
                        && r->Err_0->ContractError_0 is UnauthorizedBecause
                    &&& r is Err ==> final(self).state.matchers@ == old(self).state.matchers@
                    &&& info_sender@ == old(self).state.config.parent@
                        ==> final(self).extension_outcome(*old(self), m, r)
                },
            },
    {
        match msg {
            AuthoriazationExecuteMsg::UpdateExecutedAuthorizationState { msgs, sender } => {
                self.update_authorization_state(&sender, info_sender)
            },
            AuthoriazationExecuteMsg::Extension(m) => self.execute_extension(info_sender, m),
        }
    }
}

} // verus!
