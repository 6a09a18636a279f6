use cw_authorizations::authorization::{
    AuthoriazationExecuteMsg, AuthoriazationQueryMsg, AuthorizationError, Empty, ReplyOn, UPDATE_REPLY_ID,
};
use cw_authorizations::basic::{self, BasicAuth};
use cw_authorizations::composite::ExecuteMsg as ChildMsg;
use cw_authorizations::message_filter::{
    self, ExecuteMsg as FilterMsg, Kind, MessageFilterError, QueryMsg as FilterQuery,
};
use cw_authorizations::satisfies_all;
use cw_authorizations::satisfies_any;
use cw_authorizations::value::{deep_partial_match, values_equal, Value};
use cw_authorizations::whitelist::{self, ExecuteMsg as WhitelistMsg};

fn s(x: &str) -> String {
    x.to_string()
}

fn obj(entries: Vec<(&str, Value)>) -> Value {
    Value::Object(entries.into_iter().map(|(k, v)| (k.to_string(), v)).collect())
}

fn text(x: &str) -> Value {
    Value::Str(x.to_string())
}

fn num(x: &str) -> Value {
    Value::Number(x.to_string())
}

fn filter(kind: Kind) -> message_filter::MessageFilterContract {
    message_filter::instantiate(message_filter::InstantiateMsg { parent: s("parent"), kind }).0
}

fn add_rule(f: &mut message_filter::MessageFilterContract, addr: &str, json: &str) {
    let r = f.execute_extension(
        &s("parent"),
        FilterMsg::AddAuthorization { addr: s(addr), msg: s(json) },
    );
    assert!(r.is_ok());
}

fn decide(f: &message_filter::MessageFilterContract, msgs: Vec<Value>, sender: &str) -> bool {
    let msgs: Vec<Result<Value, String>> = msgs.into_iter().map(Ok).collect();
    f.query_authorizations(&msgs, &s(sender)).authorized
}

#[test]
fn test_basic() {
    let resp = basic::instantiate(basic::InstantiateMsg {}).unwrap();
    assert_eq!(resp.attributes, vec![(s("action"), s("instantiate"))]);
    let contract = BasicAuth::new();
    let update = contract.execute(
        &s("Anyone"),
        AuthoriazationExecuteMsg::UpdateExecutedAuthorizationState { msgs: vec![], sender: s("Anyone") },
    );
    assert!(update.is_ok());
    let response = contract.query_authorizations(&vec![], &s("test"));
    assert!(response.authorized)
}

#[test]
fn basic_allows_any_batch_and_requester() {
    let contract = BasicAuth::new();
    let batch = vec![obj(vec![("bank", obj(vec![("to_address", text("a"))]))])];
    assert!(contract.is_authorized(&batch, &s("someone")).unwrap());
    assert!(contract.get_sub_authorizations().is_empty());
}

#[test]
fn basic_refuses_update_on_behalf_of_another() {
    let contract = BasicAuth::new();
    let r = contract.update_authorization_state(&vec![], &s("victim"), &s("mallory"));
    assert!(matches!(r, Err(AuthorizationError::Unauthorized)));
}

#[test]
fn whitelist_allow_then_authorized() {
    let (mut w, _) = whitelist::instantiate(whitelist::InstantiateMsg { dao: s("dao") });
    assert!(!w.is_authorized(&vec![], &s("alice")).unwrap());
    assert!(w.execute_extension(&s("dao"), WhitelistMsg::Allow { addr: s("alice") }).is_ok());
    assert!(w.is_authorized(&vec![], &s("alice")).unwrap());
    assert!(!w.is_authorized(&vec![], &s("bob")).unwrap());
    assert!(w.execute_extension(&s("dao"), WhitelistMsg::Remove { addr: s("alice") }).is_ok());
    assert!(!w.query_authorizations(&vec![], &s("alice")).authorized);
}

#[test]
fn whitelist_allow_twice_keeps_one_entry() {
    let (mut w, _) = whitelist::instantiate(whitelist::InstantiateMsg { dao: s("dao") });
    w.execute_extension(&s("dao"), WhitelistMsg::Allow { addr: s("alice") }).unwrap();
    w.execute_extension(&s("dao"), WhitelistMsg::Allow { addr: s("alice") }).unwrap();
    assert_eq!(w.state.authorized.len(), 1);
}

#[test]
fn whitelist_remove_absent_is_a_no_op() {
    let (mut w, _) = whitelist::instantiate(whitelist::InstantiateMsg { dao: s("dao") });
    w.execute_extension(&s("dao"), WhitelistMsg::Allow { addr: s("alice") }).unwrap();
    let r = w.execute_extension(&s("dao"), WhitelistMsg::Remove { addr: s("bob") });
    assert!(r.is_ok());
    assert_eq!(w.state.authorized, vec![s("alice")]);
}

#[test]
fn whitelist_rejects_non_owner() {
    let (mut w, _) = whitelist::instantiate(whitelist::InstantiateMsg { dao: s("dao") });
    let r = w.execute_extension(&s("eve"), WhitelistMsg::Allow { addr: s("eve") });
    assert!(matches!(r, Err(AuthorizationError::Unauthorized)));
    assert!(!w.is_authorized(&vec![], &s("eve")).unwrap());
}

#[test]
fn whitelist_owner_may_relay_updates() {
    let (w, _) = whitelist::instantiate(whitelist::InstantiateMsg { dao: s("dao") });
    assert!(w.update_authorization_state(&vec![], &s("alice"), &s("dao")).is_ok());
    assert!(w.update_authorization_state(&vec![], &s("alice"), &s("alice")).is_ok());
    assert!(w.update_authorization_state(&vec![], &s("alice"), &s("bob")).is_err());
}

#[test]
fn reject_filter_blocks_matching_bank_message() {
    let mut f = filter(Kind::Reject);
    let batch = vec![obj(vec![("bank", obj(vec![("to_address", text("a")), ("amount", num("5"))]))])];
    assert!(decide(&f, batch, "s"));
    add_rule(&mut f, "s", r#"{"bank":{}}"#);
    let batch = vec![obj(vec![("bank", obj(vec![("to_address", text("a")), ("amount", num("5"))]))])];
    assert!(!decide(&f, batch, "s"));
    let other = vec![obj(vec![("wasm", obj(vec![]))])];
    assert!(decide(&f, other, "s"));
}

#[test]
fn allow_filter_admits_matching_bank_message() {
    let mut f = filter(Kind::Allow);
    let batch = vec![obj(vec![("bank", obj(vec![("to_address", text("a")), ("amount", num("9"))]))])];
    assert!(!decide(&f, batch, "s"));
    add_rule(
        &mut f,
        "s",
        r#"{"bank":{"to_address":"a"}}"#,
    );
    let batch = vec![obj(vec![("bank", obj(vec![("to_address", text("a")), ("amount", num("9"))]))])];
    assert!(decide(&f, batch, "s"));
    let batch = vec![obj(vec![("bank", obj(vec![("to_address", text("b"))]))])];
    assert!(!decide(&f, batch, "s"));
    let batch = vec![obj(vec![("bank", obj(vec![("to_address", text("a"))]))])];
    assert!(!decide(&f, batch, "t"));
}

#[test]
fn filter_needs_every_action_to_match_one_rule() {
    let mut f = filter(Kind::Allow);
    add_rule(&mut f, "s", r#"{"a":{}}"#);
    add_rule(&mut f, "s", r#"{"b":{}}"#);
    let mixed = vec![obj(vec![("a", num("1"))]), obj(vec![("b", num("2"))])];
    assert!(!decide(&f, mixed, "s"));
    let both_a = vec![obj(vec![("a", num("1"))]), obj(vec![("a", num("2"))])];
    assert!(decide(&f, both_a, "s"));
    assert!(decide(&f, vec![], "s"));
}

#[test]
fn filter_conversion_failure_fails_the_decision() {
    let mut f = filter(Kind::Reject);
    let msgs: Vec<Result<Value, String>> = vec![Ok(num("1")), Err(s("bad message"))];
    assert!(f.is_authorized(&msgs, &s("s")).unwrap());
    add_rule(&mut f, "s", "{}");
    match f.is_authorized(&msgs, &s("s")) {
        Err(AuthorizationError::ContractError(MessageFilterError::UnauthorizedBecause { reason })) => {
            assert_eq!(reason, "bad message")
        }
        _ => panic!("expected a conversion failure"),
    }
    assert!(!f.query_authorizations(&msgs, &s("s")).authorized);
}

#[test]
fn filter_rejects_invalid_rule() {
    let mut f = filter(Kind::Allow);
    let r = f.execute_extension(
        &s("parent"),
        FilterMsg::AddAuthorization { addr: s("s"), msg: s("{oops") },
    );
    match r {
        Err(AuthorizationError::Std(e)) => assert!(!e.is_empty()),
        _ => panic!("expected an invalid rule"),
    }
    assert!(f.state.matchers.is_empty());
}

#[test]
fn filter_only_parent_changes_rules() {
    let mut f = filter(Kind::Allow);
    let r = f.execute_extension(
        &s("other"),
        FilterMsg::AddAuthorization { addr: s("s"), msg: s("{}") },
    );
    assert!(matches!(
        r,
        Err(AuthorizationError::ContractError(MessageFilterError::UnauthorizedBecause { .. }))
    ));
    assert!(f.state.matchers.is_empty());
}

#[test]
fn filter_remove_rule_and_not_found() {
    let mut f = filter(Kind::Allow);
    add_rule(&mut f, "s", r#"{"a":1}"#);
    add_rule(&mut f, "t", r#"{"a":1}"#);
    add_rule(&mut f, "s", r#"{"c":[1,2]}"#);
    let missing = f.execute_extension(&s("parent"), FilterMsg::RemoveAuthorization { addr: s("s"), msg: s(r#"{"a":2}"#) });
    assert!(matches!(missing, Err(AuthorizationError::ContractError(MessageFilterError::NotFound))));
    assert_eq!(f.state.matchers.len(), 3);
    let r = f.execute_extension(&s("parent"), FilterMsg::RemoveAuthorization { addr: s("s"), msg: s(r#"{"a":1}"#) });
    assert_eq!(r.unwrap().attributes, vec![(s("action"), s("removed"))]);
    let listed = f.query_extension(FilterQuery::GetAuthorizations { sender: s("s") });
    assert_eq!(listed.authorizations.len(), 1);
    assert_eq!(listed.authorizations[0].matcher, r#"{"c":[1,2]}"#);
    assert_eq!(listed.authorizations[0].addr, "s");
    let none = f.query_extension(FilterQuery::GetAuthorizations { sender: s("u") });
    assert!(none.authorizations.is_empty());
}

#[test]
fn filter_default_response_by_kind() {
    let allow = filter(Kind::Allow);
    assert!(matches!(allow.state.config.default_response(), Err(AuthorizationError::Unauthorized)));
    assert!(!allow.state.config.default_authorization());
    let reject = filter(Kind::Reject);
    let resp = reject.state.config.default_response().unwrap();
    assert_eq!(resp.attributes[0], (s("allowed"), s("true")));
    assert_eq!(
        resp.attributes[1],
        (s("reason"), s("No authorizations rejected the request. Allowing."))
    );
    assert!(reject.state.config.default_authorization());
}

#[test]
fn match_empty_pattern_is_wildcard() {
    for x in [num("1"), text("a"), Value::Null, Value::Array(vec![num("1")]), obj(vec![("k", num("2"))])] {
        assert!(deep_partial_match(&x, &obj(vec![])));
    }
}

#[test]
fn match_scalar_pattern_is_equality() {
    assert!(deep_partial_match(&num("1"), &num("1")));
    assert!(!deep_partial_match(&num("1"), &num("2")));
    assert!(!deep_partial_match(&text("1"), &num("1")));
    assert!(deep_partial_match(&Value::Bool(true), &Value::Bool(true)));
    assert!(!deep_partial_match(&Value::Null, &Value::Bool(false)));
    let arr = Value::Array(vec![num("1"), num("2")]);
    assert!(deep_partial_match(&Value::Array(vec![num("1"), num("2")]), &arr));
    assert!(!deep_partial_match(&Value::Array(vec![num("1")]), &arr));
    assert!(!deep_partial_match(&Value::Array(vec![num("2"), num("1")]), &arr));
}

#[test]
fn match_partial_objects() {
    let candidate = obj(vec![("a", num("1")), ("b", num("2"))]);
    assert!(deep_partial_match(&candidate, &obj(vec![("a", num("1"))])));
    let small = obj(vec![("a", num("1"))]);
    assert!(!deep_partial_match(&small, &obj(vec![("a", num("1")), ("b", num("2"))])));
    assert!(!deep_partial_match(&num("1"), &obj(vec![("a", num("1"))])));
    let nested = obj(vec![("x", obj(vec![("y", text("z")), ("w", num("0"))]))]);
    assert!(deep_partial_match(&nested, &obj(vec![("x", obj(vec![("y", text("z"))]))])));
    assert!(!deep_partial_match(&nested, &obj(vec![("x", obj(vec![("y", text("q"))]))])));
}

#[test]
fn values_equal_is_exact() {
    let a = obj(vec![("a", num("1")), ("b", Value::Array(vec![text("x")]))]);
    let b = obj(vec![("a", num("1")), ("b", Value::Array(vec![text("x")]))]);
    let c = obj(vec![("b", Value::Array(vec![text("x")])), ("a", num("1"))]);
    assert!(values_equal(&a, &b));
    assert!(!values_equal(&a, &c));
    assert!(!values_equal(&num("1"), &num("1.0")));
}

#[test]
fn empty_composites() {
    let (all, _) = satisfies_all::instantiate(satisfies_all::InstantiateMsg { parent: s("p"), children: vec![] });
    assert!(all.is_authorized(&vec![]).unwrap());
    let (any, _) = satisfies_any::instantiate(satisfies_any::InstantiateMsg {
        admin: s("a"),
        parent: s("p"),
        children: vec![],
    });
    assert!(!any.is_authorized(&vec![]).unwrap());
}

#[test]
fn failed_child_counts_as_no() {
    let (all, _) = satisfies_all::instantiate(satisfies_all::InstantiateMsg {
        parent: s("p"),
        children: vec![s("c1"), s("c2")],
    });
    assert!(all.is_authorized(&vec![Some(true), Some(true)]).unwrap());
    assert!(!all.is_authorized(&vec![Some(true), None]).unwrap());
    let (any, _) = satisfies_any::instantiate(satisfies_any::InstantiateMsg {
        admin: s("a"),
        parent: s("p"),
        children: vec![s("c1"), s("c2")],
    });
    assert!(any.is_authorized(&vec![None, Some(true)]).unwrap());
    assert!(!any.is_authorized(&vec![None, Some(false)]).unwrap());
    let (single, _) = satisfies_any::instantiate(satisfies_any::InstantiateMsg {
        admin: s("a"),
        parent: s("p"),
        children: vec![s("c1")],
    });
    assert!(!single.query_authorizations(&vec![None]).authorized);
}

#[test]
fn any_of_update_dispatches_to_every_child() {
    let (any, _) = satisfies_any::instantiate(satisfies_any::InstantiateMsg {
        admin: s("a"),
        parent: s("p"),
        children: vec![s("c1"), s("c2"), s("c3")],
    });
    let resp = any
        .update_authorization_state(&s("user"), &s("user"), &vec![Some(false), Some(true), None])
        .unwrap();
    assert_eq!(resp.messages.len(), 3);
    for (m, child) in resp.messages.iter().zip(["c1", "c2", "c3"]) {
        assert_eq!(m.contract_addr, child);
        assert_eq!(m.sender, "user");
        assert_eq!(m.id, UPDATE_REPLY_ID);
        assert_eq!(m.reply_on, ReplyOn::Error);
    }
    let relayed = any.update_authorization_state(&s("user"), &s("p"), &vec![Some(true), None, None]);
    assert_eq!(relayed.unwrap().messages.len(), 3);
}

#[test]
fn any_of_update_refused_when_no_child_agrees() {
    let (any, _) = satisfies_any::instantiate(satisfies_any::InstantiateMsg {
        admin: s("a"),
        parent: s("p"),
        children: vec![s("c1"), s("c2")],
    });
    let r = any.update_authorization_state(&s("user"), &s("user"), &vec![Some(false), None]);
    assert!(matches!(r, Err(AuthorizationError::Unauthorized)));
    let spoofed = any.update_authorization_state(&s("user"), &s("eve"), &vec![Some(true), Some(true)]);
    assert!(matches!(spoofed, Err(AuthorizationError::Unauthorized)));
}

#[test]
fn failing_child_reply_is_only_recorded() {
    let r = satisfies_any::reply(UPDATE_REPLY_ID, Err(s("child exploded"))).unwrap();
    assert_eq!(r.attributes, vec![(s("update_error"), s("child exploded"))]);
    assert!(r.messages.is_empty());
    let ok = satisfies_any::reply(UPDATE_REPLY_ID, Ok(s("done"))).unwrap();
    assert_eq!(ok.attributes, vec![(s("update_success"), s("done"))]);
    match satisfies_any::reply(7, Ok(s("done"))) {
        Err(AuthorizationError::Std(e)) => assert_eq!(e, "Unknown reply id: 7"),
        _ => panic!("expected an unknown reply id"),
    }
}

#[test]
fn all_of_update_needs_parent_and_notifies_children() {
    let (all, _) = satisfies_all::instantiate(satisfies_all::InstantiateMsg {
        parent: s("p"),
        children: vec![s("c1"), s("c2"), s("c1")],
    });
    assert_eq!(all.get_sub_authorizations(), vec![s("c1"), s("c2")]);
    let resp = all.update_authorization_state(&s("user"), &s("p")).unwrap();
    assert_eq!(resp.messages.len(), 2);
    assert_eq!(resp.messages[1].contract_addr, "c2");
    assert_eq!(resp.messages[1].sender, "user");
    assert!(matches!(all.update_authorization_state(&s("user"), &s("user")), Err(AuthorizationError::Unauthorized)));
}

#[test]
fn composite_children_managed_by_admin_only() {
    let (mut any, _) = satisfies_any::instantiate(satisfies_any::InstantiateMsg {
        admin: s("a"),
        parent: s("p"),
        children: vec![],
    });
    assert!(any.execute_extension(&s("p"), ChildMsg::AddChild { addr: s("c1") }).is_err());
    assert!(any.execute_extension(&s("a"), ChildMsg::AddChild { addr: s("c1") }).is_ok());
    assert!(any.execute_extension(&s("a"), ChildMsg::AddChild { addr: s("c1") }).is_ok());
    assert_eq!(any.get_sub_authorizations(), vec![s("c1")]);
    assert!(any.execute_extension(&s("a"), ChildMsg::RemoveChild { addr: s("c9") }).is_ok());
    assert!(any.execute_extension(&s("a"), ChildMsg::RemoveChild { addr: s("c1") }).is_ok());
    assert!(any.get_sub_authorizations().is_empty());

    let (mut all, _) = satisfies_all::instantiate(satisfies_all::InstantiateMsg { parent: s("p"), children: vec![] });
    assert!(all.execute_extension(&s("x"), ChildMsg::AddChild { addr: s("c1") }).is_err());
    assert!(all.execute_extension(&s("p"), ChildMsg::AddChild { addr: s("c1") }).is_ok());
    assert_eq!(all.get_sub_authorizations(), vec![s("c1")]);
}

#[test]
fn all_of_update_without_children_dispatches_nothing() {
    let (all, _) = satisfies_all::instantiate(satisfies_all::InstantiateMsg { parent: s("p"), children: vec![] });
    let resp = all.update_authorization_state(&s("user"), &s("p")).unwrap();
    assert!(resp.messages.is_empty());
}

#[test]
fn any_of_without_children_refuses_updates() {
    let (any, _) = satisfies_any::instantiate(satisfies_any::InstantiateMsg {
        admin: s("a"),
        parent: s("p"),
        children: vec![],
    });
    let r = any.update_authorization_state(&s("user"), &s("user"), &vec![]);
    assert!(matches!(r, Err(AuthorizationError::Unauthorized)));
}

#[test]
fn filter_update_needs_requester_or_parent() {
    let f = filter(Kind::Allow);
    assert!(f.update_authorization_state(&s("user"), &s("user")).is_ok());
    assert!(f.update_authorization_state(&s("user"), &s("parent")).is_ok());
    let r = f.update_authorization_state(&s("user"), &s("eve"));
    assert!(matches!(r, Err(AuthorizationError::Unauthorized)));
    assert!(f.get_sub_authorizations().is_empty());
}

#[test]
fn query_routing() {
    let basic = BasicAuth::new();
    let q = AuthoriazationQueryMsg::IsAuthorized { msgs: vec![], sender: s("x") };
    assert_eq!(basic.query(q).map(|r| r.authorized), Some(true));
    assert!(basic.query(AuthoriazationQueryMsg::Extension(Empty {})).is_none());

    let (mut w, _) = whitelist::instantiate(whitelist::InstantiateMsg { dao: s("dao") });
    w.execute_extension(&s("dao"), WhitelistMsg::Allow { addr: s("x") }).unwrap();
    let q = AuthoriazationQueryMsg::IsAuthorized { msgs: vec![], sender: s("x") };
    assert_eq!(w.query(q).map(|r| r.authorized), Some(true));
    let q = AuthoriazationQueryMsg::IsAuthorized { msgs: vec![], sender: s("y") };
    assert_eq!(w.query(q).map(|r| r.authorized), Some(false));

    let (any, _) = satisfies_any::instantiate(satisfies_any::InstantiateMsg {
        admin: s("a"),
        parent: s("p"),
        children: vec![s("c1"), s("c2")],
    });
    let q = AuthoriazationQueryMsg::IsAuthorized { msgs: vec![], sender: s("x") };
    assert_eq!(any.query(q, &vec![Some(false), Some(true)]).map(|r| r.authorized), Some(true));
    let (all, _) = satisfies_all::instantiate(satisfies_all::InstantiateMsg {
        parent: s("p"),
        children: vec![s("c1"), s("c2")],
    });
    let q = AuthoriazationQueryMsg::IsAuthorized { msgs: vec![], sender: s("x") };
    assert_eq!(all.query(q, &vec![Some(false), Some(true)]).map(|r| r.authorized), Some(false));
}

#[test]
fn filter_rule_patterns_are_read_as_json() {
    let mut f = filter(Kind::Allow);
    add_rule(&mut f, "s", r#"{"wasm":{"execute":{"contract_addr":"c","funds":[]}}}"#);
    let batch = vec![obj(vec![(
        "wasm",
        obj(vec![(
            "execute",
            obj(vec![
                ("contract_addr", text("c")),
                ("funds", Value::Array(vec![])),
                ("msg", text("e30=")),
            ]),
        )]),
    )])];
    assert!(decide(&f, batch, "s"));
    let other = vec![obj(vec![("wasm", obj(vec![("execute", obj(vec![("contract_addr", text("d"))]))]))])];
    assert!(!decide(&f, other, "s"));
    add_rule(&mut f, "n", "7");
    assert!(decide(&f, vec![num("7")], "n"));
    assert!(!decide(&f, vec![num("8")], "n"));
    assert!(!decide(&f, vec![text("7")], "n"));
}

#[test]
fn filter_stored_rule_that_is_not_json_answers_no() {
    let mut f = filter(Kind::Reject);
    f.state.matchers.push(message_filter::Matcher { matcher: s("not json"), addr: s("s") });
    let msgs: Vec<Result<Value, String>> = vec![Ok(num("1"))];
    match f.is_authorized(&msgs, &s("s")) {
        Err(AuthorizationError::ContractError(MessageFilterError::UnauthorizedBecause { .. })) => {}
        _ => panic!("expected the rule text to be refused"),
    }
    assert!(!f.query_authorizations(&msgs, &s("s")).authorized);
}

#[test]
fn routers_apply_commands_and_dispatch() {
    let (mut any, _) = satisfies_any::instantiate(satisfies_any::InstantiateMsg {
        admin: s("a"),
        parent: s("p"),
        children: vec![s("c1")],
    });
    let r = any.execute(&s("a"), AuthoriazationExecuteMsg::Extension(ChildMsg::AddChild { addr: s("c2") }), &vec![None]);
    assert!(r.unwrap().messages.is_empty());
    let update = AuthoriazationExecuteMsg::UpdateExecutedAuthorizationState { msgs: vec![], sender: s("u") };
    let resp = any.execute(&s("u"), update, &vec![Some(true), None]).unwrap();
    let targets: Vec<&str> = resp.messages.iter().map(|m| m.contract_addr.as_str()).collect();
    assert_eq!(targets, vec!["c1", "c2"]);

    let (mut all, _) = satisfies_all::instantiate(satisfies_all::InstantiateMsg { parent: s("p"), children: vec![] });
    all.execute(&s("p"), AuthoriazationExecuteMsg::Extension(ChildMsg::AddChild { addr: s("c9") })).unwrap();
    let update = AuthoriazationExecuteMsg::UpdateExecutedAuthorizationState { msgs: vec![], sender: s("u") };
    let resp = all.execute(&s("p"), update).unwrap();
    assert_eq!(resp.messages.len(), 1);
    assert_eq!(resp.messages[0].contract_addr, "c9");
    assert_eq!(resp.messages[0].sender, "u");

    let (mut w, _) = whitelist::instantiate(whitelist::InstantiateMsg { dao: s("dao") });
    w.execute(&s("dao"), AuthoriazationExecuteMsg::Extension(WhitelistMsg::Allow { addr: s("x") })).unwrap();
    assert!(w.is_authorized(&vec![], &s("x")).unwrap());

    let mut f = filter(Kind::Allow);
    let add = FilterMsg::AddAuthorization { addr: s("s"), msg: s("{}") };
    f.execute(&s("parent"), AuthoriazationExecuteMsg::Extension(add)).unwrap();
    assert_eq!(f.state.matchers.len(), 1);
}
