//! What every authorization module shares: its errors, the two entry
//! messages, the response it hands back, and the fan-out of state updates to
//! its children.
use vstd::prelude::*;

use crate::value::Value;

verus! {

/// The fixed correlation id of every dispatched child update.
pub const UPDATE_REPLY_ID: u64 = 1000;

/// The error extension of modules that add no errors of their own.
#[derive(Clone, Copy, Debug, PartialEq, Eq, Structural, Default)]
pub struct EmptyError {}

/// Why an authorization call failed.
#[derive(Debug)]
pub enum AuthorizationError<ErrorExt = EmptyError> {
    /// A failure passed through from the host (storage, transport), by its text.
    Std(String),
    /// The caller lacks the identity the operation asks for.
    Unauthorized,
    /// A failure that belongs to one module kind.
    ContractError(ErrorExt),
}

/// The extension of modules that take no commands or queries of their own.
#[derive(Clone, Copy, Debug, PartialEq, Eq, Structural, Default)]
pub struct Empty {}

/// When a dispatched child update reports back.
#[derive(Clone, Copy, Debug, PartialEq, Eq, Structural)]
pub enum ReplyOn {
    Always,
    Error,
    Success,
    Never,
}

/// One asynchronous update notice to a child: the child at `contract_addr` is
/// told that the actions went through on behalf of `sender`.
#[derive(Debug)]
pub struct ChildUpdate {
    pub id: u64,
    pub contract_addr: String,
    pub sender: String,
    pub reply_on: ReplyOn,
}

/// What a successful call hands back: annotations and the dispatched updates.
#[derive(Debug)]
pub struct Response {
    pub attributes: Vec<(String, String)>,
    pub messages: Vec<ChildUpdate>,
}

/// The answer to a decision query.
#[derive(Clone, Copy, Debug, PartialEq, Eq, Structural)]
pub struct IsAuthorizedResponse {
    pub authorized: bool,
}

/// The standard command message, with a module kind's own commands under
/// `Extension`.
#[derive(Debug)]
pub enum AuthoriazationExecuteMsg<ExecuteExt> {
    /// The actions went through on behalf of `sender`: update what depends on
    /// them, here and below.
    UpdateExecutedAuthorizationState { msgs: Vec<Value>, sender: String },
    Extension(ExecuteExt),
}

/// The standard query message, with a module kind's own queries under
/// `Extension`.
#[derive(Debug)]
pub enum AuthoriazationQueryMsg<QueryExt> {
    IsAuthorized { msgs: Vec<Value>, sender: String },
    Extension(QueryExt),
}

/// The update notice sent to `child` on behalf of `sender`.
pub open spec fn child_update(child: Seq<char>, sender: Seq<char>) -> (Seq<char>, Seq<char>, u64, ReplyOn) {
    (child, sender, UPDATE_REPLY_ID, ReplyOn::Error)
}

/// The abstract content of an update notice.
pub open spec fn update_view(u: ChildUpdate) -> (Seq<char>, Seq<char>, u64, ReplyOn) {
    (u.contract_addr@, u.sender@, u.id, u.reply_on)
}

/// The views of a list of addresses.
pub open spec fn addrs_view(v: Seq<String>) -> Seq<Seq<char>> {
    v.map_values(|s: String| s@)
}

/// `msgs` holds exactly one update notice for each of `children`, in order,
/// each on behalf of `sender`.
pub open spec fn dispatches_to(msgs: Seq<ChildUpdate>, children: Seq<Seq<char>>, sender: Seq<char>) -> bool {
    &&& msgs.len() == children.len()
    &&& forall|i: int|
        0 <= i < msgs.len() ==> #[trigger] update_view(msgs[i]) == child_update(children[i], sender)
}

/// A response that only annotates: it dispatches nothing.
pub open spec fn dispatches_nothing(r: Response) -> bool {
    r.messages@.len() == 0
}

/// An update may name a requester other than its caller only when the caller
/// is the module's privileged address.
pub open spec fn update_permitted(sender: Seq<char>, real_sender: Seq<char>, privileged: Seq<
    char,
>) -> bool {
    sender == real_sender || real_sender == privileged
}

/// Checks `update_permitted`.
pub fn check_update_sender<E>(sender: &String, real_sender: &String, privileged: &String) -> (r:
    Result<(), AuthorizationError<E>>)
    ensures
        r is Ok <==> update_permitted(sender@, real_sender@, privileged@),
        r is Err ==> r->Err_0 is Unauthorized,
{
    if *sender == *real_sender || *real_sender == *privileged {
        Ok(())
    } else {
        Err(AuthorizationError::Unauthorized)
    }
}

/// Builds one update notice per child, carrying `original_sender`, all under
/// the fixed correlation id and reporting back on failure only.
pub fn generate_child_update_msgs(children: &Vec<String>, original_sender: &String) -> (r: Vec<
    ChildUpdate,
>)
    ensures
        dispatches_to(r@, addrs_view(children@), original_sender@),
{
    let mut out: Vec<ChildUpdate> = Vec::new();
    let mut i: usize = 0;
    while i < children.len()
        invariant
            0 <= i <= children@.len(),
            out@.len() == i,
            forall|k: int|
                0 <= k < i ==> #[trigger] update_view(out@[k]) == child_update(
                    children@[k]@,
                    original_sender@,
                ),
        decreases children@.len() - i,
    {
        out.push(
            ChildUpdate {
                id: UPDATE_REPLY_ID,
                contract_addr: children[i].clone(),
                sender: original_sender.clone(),
                reply_on: ReplyOn::Error,
            },
        );
        i = i + 1;
    }
    out
}

/// An empty response.
pub fn empty_response() -> (r: Response)
    ensures
        r.attributes@.len() == 0,
        dispatches_nothing(r),
{
    Response { attributes: Vec::new(), messages: Vec::new() }
}

/// A response with one annotation and nothing dispatched.
pub fn annotated(key: &str, value: String) -> (r: Response)
    ensures
        r.attributes@.len() == 1,
        r.attributes@[0].0@ == key@,
        r.attributes@[0].1@ == value@,
        dispatches_nothing(r),
{
    let mut attributes: Vec<(String, String)> = Vec::new();
    attributes.push((key.to_string(), value));
    Response { attributes, messages: Vec::new() }
}

/// Records the outcome of one dispatched child update as an annotation on an
/// otherwise empty response. It never fails and dispatches nothing: the
/// decision that triggered the update stands whatever the child reported.
pub fn sub_message_reply<E>(result: Result<String, String>) -> (r: Result<
    Response,
    AuthorizationError<E>,
>)
    ensures
        r is Ok,
        dispatches_nothing(r->Ok_0),
        r->Ok_0.attributes@.len() == 1,
        result is Err ==> r->Ok_0.attributes@[0].0@ == "update_error"@ && r->Ok_0.attributes@[0].1@
            == result->Err_0@,
        result is Ok ==> r->Ok_0.attributes@[0].0@ == "update_success"@ && r->Ok_0.attributes@[0].1@
            == result->Ok_0@,
{
    proof {
        reveal_strlit("update_error");
        reveal_strlit("update_success");
    }
    match result {
        Err(e) => Ok(annotated("update_error", e)),
        Ok(s) => Ok(annotated("update_success", s)),
    }
}

} // verus!
