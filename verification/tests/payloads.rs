use webhook_receiver::api::error::{ApiError, Cause, FaultKind, JsonCause};
use webhook_receiver::forgejo;
use webhook_receiver::github;
use webhook_receiver::json::{
    get_flag, get_integer, get_list, get_optional_flag, get_optional_string, get_present,
    get_required, get_string, read_document,
};

const FORGEJO_PUSH: &str = r#"{
    "before": "0000000000000000000000000000000000000000",
    "after": "9c3f1e2d",
    "ref": "refs/heads/main",
    "compare_url": "https://forge.example/o/r/compare/a...b",
    "repository": {
        "name": "r",
        "full_name": "o/r",
        "owner": {"id": 7, "username": "o"}
    },
    "pusher": {"id": 9, "username": "alice"},
    "commits": []
}"#;

const GITHUB_PUSH: &str = r#"{
    "before": "0000000000000000000000000000000000000000",
    "after": "9c3f1e2d",
    "ref": "refs/heads/main",
    "compare": "https://github.example/o/r/compare/a...b",
    "created": false,
    "deleted": false,
    "forced": true,
    "repository": {
        "name": "r",
        "full_name": "o/r",
        "owner": {"type": "Organization", "id": 7, "login": "o", "description": null}
    },
    "pusher": {"name": "alice", "email": "alice@example.org"},
    "commits": [
        {
            "distinct": true,
            "id": "9c3f1e2d",
            "message": "fix",
            "timestamp": "2024-01-01T00:00:00Z",
            "tree_id": "77aa",
            "url": "https://github.example/o/r/commit/9c3f1e2d"
        }
    ],
    "sender": {"type": "Bot", "id": 1, "login": "dependabot[bot]"}
}"#;

fn fault_of(err: ApiError) -> (FaultKind, String) {
    match err {
        ApiError::JsonError(json) => match json.source {
            JsonCause::Schema(fault) => (fault.kind, fault.field),
            other => panic!("no schema fault: {:?}", other),
        },
        other => panic!("no JSON error: {:?}", other),
    }
}

#[test]
fn single_members_are_read_by_kind() {
    let v = read_document(br#"{"s": "text", "n": -5, "b": true, "l": [1, 2], "z": null}"#).unwrap();
    assert_eq!(get_string(&v, "s").unwrap(), "text");
    assert_eq!(get_integer(&v, "n").unwrap(), -5);
    assert!(get_flag(&v, "b").unwrap());
    assert_eq!(get_list(&v, "l").unwrap().len(), 2);
    assert!(get_required(&v, "z").unwrap().is_null());
    assert!(get_present(&v, "z").is_none());
    assert!(get_present(&v, "absent").is_none());
    assert!(get_present(&v, "s").is_some());
    assert_eq!(get_optional_string(&v, "s").unwrap().as_deref(), Some("text"));
    assert_eq!(get_optional_string(&v, "z").unwrap(), None);
    assert_eq!(get_optional_string(&v, "absent").unwrap(), None);
    assert_eq!(get_optional_flag(&v, "b").unwrap(), Some(true));
    assert_eq!(get_optional_flag(&v, "z").unwrap(), None);
}

#[test]
fn single_members_report_their_faults() {
    let v = read_document(br#"{"s": "text", "n": 1.5, "big": 9223372036854775808, "z": null}"#)
        .unwrap();
    let missing = get_string(&v, "absent").unwrap_err();
    assert_eq!((missing.kind, missing.field.as_str()), (FaultKind::Missing, "absent"));
    let mismatch = get_integer(&v, "s").unwrap_err();
    assert_eq!((mismatch.kind, mismatch.field.as_str()), (FaultKind::Mismatch, "s"));
    assert_eq!(get_integer(&v, "n").unwrap_err().kind, FaultKind::Mismatch);
    assert_eq!(get_integer(&v, "big").unwrap_err().kind, FaultKind::Mismatch);
    assert_eq!(get_string(&v, "z").unwrap_err().kind, FaultKind::Mismatch);
    assert_eq!(get_flag(&v, "s").unwrap_err().kind, FaultKind::Mismatch);
    assert_eq!(get_list(&v, "s").unwrap_err().kind, FaultKind::Mismatch);
    assert_eq!(get_optional_string(&v, "n").unwrap_err().kind, FaultKind::Mismatch);
    assert_eq!(get_optional_flag(&v, "s").unwrap_err().kind, FaultKind::Mismatch);
    assert_eq!(get_required(&v, "absent").unwrap_err().kind, FaultKind::Missing);
}

#[test]
fn value_that_is_no_object_has_no_members() {
    let v = read_document(b"[1, 2, 3, 4]").unwrap();
    assert_eq!(get_string(&v, "0").unwrap_err().kind, FaultKind::Missing);
    let fault = forgejo::payload::decode_push(&v).unwrap_err();
    assert_eq!((fault.kind, fault.field.as_str()), (FaultKind::Missing, "after"));
}

#[test]
fn largest_and_smallest_integers_are_read() {
    let v = read_document(br#"{"max": 9223372036854775807, "min": -9223372036854775808}"#)
        .unwrap();
    assert_eq!(get_integer(&v, "max").unwrap(), i64::MAX);
    assert_eq!(get_integer(&v, "min").unwrap(), i64::MIN);
}

#[test]
fn forgejo_minimal_push_decodes() {
    let event = forgejo::dispatch("push", FORGEJO_PUSH.as_bytes()).unwrap();
    let push = match event {
        forgejo::VerifiedEvent::Push(push) => push,
        other => panic!("unexpected event: {:?}", other),
    };
    assert_eq!(push.before, "0000000000000000000000000000000000000000");
    assert_eq!(push.after, "9c3f1e2d");
    assert_eq!(push.git_ref, "refs/heads/main");
    assert_eq!(push.compare_url, "https://forge.example/o/r/compare/a...b");
    assert_eq!(push.base_ref, None);
    assert_eq!(push.created, None);
    assert_eq!(push.deleted, None);
    assert_eq!(push.forced, None);
    assert!(push.head_commit.is_none());
    assert_eq!(push.repository.name, "r");
    assert_eq!(push.repository.full_name, "o/r");
    assert_eq!(push.repository.owner.id, 7);
    assert_eq!(push.repository.owner.username, "o");
    assert_eq!(push.repository.description, None);
    assert_eq!(push.pusher.id, 9);
    assert_eq!(push.pusher.username, "alice");
    assert!(push.commits.is_empty());
    assert!(push.sender.is_none());
    assert!(push.organization.is_none());
}

#[test]
fn forgejo_push_with_every_member_decodes() {
    let body = br#"{
        "after": "b", "base_ref": "refs/heads/base", "before": "a", "compare_url": "u",
        "created": true, "deleted": false, "forced": false, "ref": "refs/heads/main",
        "head_commit": {"distinct": null, "id": "b", "message": "m", "timestamp": "t",
                        "tree_id": "tree", "url": "cu"},
        "repository": {"name": "r", "full_name": "o/r", "owner": {"id": 1, "username": "o"},
                       "description": "d"},
        "pusher": {"id": 2, "username": "p"},
        "commits": [
            {"id": "a1", "message": "first", "timestamp": "t1", "url": "u1"},
            {"distinct": true, "id": "a2", "message": "second", "timestamp": "t2",
             "tree_id": null, "url": "u2"}
        ],
        "sender": {"id": 3, "username": "s"},
        "organization": {"id": 4, "username": "org"},
        "unknown": {"nested": [1, 2, 3]}
    }"#;
    let v = read_document(body).unwrap();
    let push = forgejo::payload::decode_push(&v).unwrap();
    assert_eq!(push.base_ref.as_deref(), Some("refs/heads/base"));
    assert_eq!(push.created, Some(true));
    assert_eq!(push.deleted, Some(false));
    assert_eq!(push.forced, Some(false));
    let head = push.head_commit.unwrap();
    assert_eq!(head.distinct, None);
    assert_eq!(head.tree_id.as_deref(), Some("tree"));
    assert_eq!(push.repository.description.as_deref(), Some("d"));
    assert_eq!(push.commits.len(), 2);
    assert_eq!(push.commits[0].id, "a1");
    assert_eq!(push.commits[0].distinct, None);
    assert_eq!(push.commits[0].tree_id, None);
    assert_eq!(push.commits[1].id, "a2");
    assert_eq!(push.commits[1].message, "second");
    assert_eq!(push.commits[1].distinct, Some(true));
    assert_eq!(push.commits[1].tree_id, None);
    assert_eq!(push.sender.unwrap().username, "s");
    let organization = push.organization.unwrap();
    assert_eq!((organization.id, organization.username.as_str()), (4, "org"));
}

#[test]
fn forgejo_membership_decodes() {
    let body = br#"{
        "action": "added",
        "member": {"id": 5, "username": "bob"},
        "organization": {"id": 4, "username": "org"},
        "scope": "team",
        "team": {"id": 11, "slug": "core", "name": "Core", "privacy": "closed",
                 "permission": "push"}
    }"#;
    let event = forgejo::dispatch("membership", body).unwrap();
    let membership = match event {
        forgejo::VerifiedEvent::Membership(membership) => membership,
        other => panic!("unexpected event: {:?}", other),
    };
    assert_eq!(membership.action, "added");
    assert_eq!(membership.member.unwrap().username, "bob");
    assert_eq!(membership.organization.id, 4);
    assert!(membership.repository.is_none());
    assert_eq!(membership.scope, "team");
    assert!(membership.sender.is_none());
    assert_eq!(membership.team.id, 11);
    assert_eq!(membership.team.slug, "core");
    assert_eq!(membership.team.name, "Core");
    assert_eq!(membership.team.privacy, "closed");
    assert_eq!(membership.team.permission, "push");
}

#[test]
fn forgejo_first_faulty_member_is_reported() {
    let no_after = FORGEJO_PUSH.replace("\"after\": \"9c3f1e2d\",", "");
    assert_eq!(
        fault_of(forgejo::dispatch("push", no_after.as_bytes()).unwrap_err()),
        (FaultKind::Missing, "after".to_string())
    );
    let no_after_no_ref = no_after.replace("\"ref\": \"refs/heads/main\",", "");
    assert_eq!(
        fault_of(forgejo::dispatch("push", no_after_no_ref.as_bytes()).unwrap_err()),
        (FaultKind::Missing, "after".to_string())
    );
    let no_ref = FORGEJO_PUSH.replace("\"ref\": \"refs/heads/main\",", "");
    assert_eq!(
        fault_of(forgejo::dispatch("push", no_ref.as_bytes()).unwrap_err()),
        (FaultKind::Missing, "ref".to_string())
    );
    let bad_flag = FORGEJO_PUSH.replace("\"commits\": []", "\"commits\": [], \"forced\": \"no\"");
    assert_eq!(
        fault_of(forgejo::dispatch("push", bad_flag.as_bytes()).unwrap_err()),
        (FaultKind::Mismatch, "forced".to_string())
    );
    let bad_owner = FORGEJO_PUSH.replace("\"id\": 7", "\"id\": \"7\"");
    assert_eq!(
        fault_of(forgejo::dispatch("push", bad_owner.as_bytes()).unwrap_err()),
        (FaultKind::Mismatch, "id".to_string())
    );
    let no_commits = FORGEJO_PUSH.replace("\"commits\": []", "\"commits\": {}");
    assert_eq!(
        fault_of(forgejo::dispatch("push", no_commits.as_bytes()).unwrap_err()),
        (FaultKind::Mismatch, "commits".to_string())
    );
}

#[test]
fn forgejo_first_faulty_commit_is_reported() {
    let body = FORGEJO_PUSH.replace(
        "\"commits\": []",
        r#""commits": [
            {"id": "a1", "message": "m", "timestamp": "t", "url": "u"},
            {"id": "a2", "message": "m", "timestamp": "t"},
            {"id": 3, "message": "m", "timestamp": "t", "url": "u"}
        ]"#,
    );
    assert_eq!(
        fault_of(forgejo::dispatch("push", body.as_bytes()).unwrap_err()),
        (FaultKind::Missing, "url".to_string())
    );
}

#[test]
fn schema_fault_is_answered_with_422() {
    let err = forgejo::dispatch("push", b"{}").unwrap_err();
    assert_eq!(err.status(), 422);
    assert_eq!(err.to_string(), "missing field `after`");
    let err = forgejo::dispatch("push", br#"{"after": 1}"#).unwrap_err();
    assert_eq!(err.to_string(), "invalid type at field `after`");
}

#[test]
fn body_that_is_no_json_is_rejected_by_the_parser() {
    for body in [&b""[..], b"{", b"{\"after\": }", b"{} trailing", b"\xff"] {
        let err = forgejo::dispatch("push", body).unwrap_err();
        assert_eq!(err.status(), 400);
        match &err {
            ApiError::JsonError(json) => assert!(matches!(json.source, JsonCause::Rejection(_))),
            other => panic!("unexpected error: {:?}", other),
        }
        assert!(matches!(err.source(), Some(Cause::Json(JsonCause::Rejection(_)))));
        assert!(err.to_string().starts_with("Failed to parse the request body as JSON"));
        assert!(read_document(body).is_err());
    }
}

#[test]
fn github_push_decodes() {
    let event = github::dispatch("push", GITHUB_PUSH.as_bytes()).unwrap().unwrap();
    let push = match event {
        github::VerifiedEvent::Push(push) => push,
        other => panic!("unexpected event: {:?}", other),
    };
    assert_eq!(push.after, "9c3f1e2d");
    assert_eq!(push.compare, "https://github.example/o/r/compare/a...b");
    assert!(!push.created);
    assert!(!push.deleted);
    assert!(push.forced);
    assert_eq!(push.git_ref, "refs/heads/main");
    match &push.repository.owner {
        github::payload::Owner::Organization(organization) => {
            assert_eq!(organization.id, 7);
            assert_eq!(organization.login, "o");
            assert_eq!(organization.description, None);
        }
        other => panic!("unexpected owner: {:?}", other),
    }
    assert_eq!(push.pusher.name, "alice");
    assert_eq!(push.pusher.email.as_deref(), Some("alice@example.org"));
    assert_eq!(push.pusher.username, None);
    assert_eq!(push.pusher.date, None);
    assert_eq!(push.commits.len(), 1);
    assert!(push.commits[0].distinct);
    assert_eq!(push.commits[0].tree_id, "77aa");
    match push.sender {
        Some(github::payload::Sender::Bot(bot)) => {
            assert_eq!(bot.id, 1);
            assert_eq!(bot.login, "dependabot[bot]");
        }
        other => panic!("unexpected sender: {:?}", other),
    }
    assert!(push.organization.is_none());
}

#[test]
fn github_variants_are_told_apart_by_their_tag() {
    let user = read_document(br#"{"type": "User", "id": 2, "login": "u"}"#).unwrap();
    assert!(matches!(
        github::payload::decode_owner(&user),
        Ok(github::payload::Owner::User(_))
    ));
    assert!(matches!(
        github::payload::decode_sender(&user),
        Ok(github::payload::Sender::User(_))
    ));
    let bot = read_document(br#"{"type": "Bot", "id": 2, "login": "b"}"#).unwrap();
    assert!(matches!(
        github::payload::decode_sender(&bot),
        Ok(github::payload::Sender::Bot(_))
    ));
    let fault = github::payload::decode_owner(&bot).unwrap_err();
    assert_eq!((fault.kind, fault.field.as_str()), (FaultKind::UnknownVariant, "type"));
    let untagged = read_document(br#"{"id": 2, "login": "b"}"#).unwrap();
    let fault = github::payload::decode_owner(&untagged).unwrap_err();
    assert_eq!((fault.kind, fault.field.as_str()), (FaultKind::Missing, "type"));
    let numbered = read_document(br#"{"type": 1, "id": 2, "login": "b"}"#).unwrap();
    let fault = github::payload::decode_sender(&numbered).unwrap_err();
    assert_eq!((fault.kind, fault.field.as_str()), (FaultKind::Mismatch, "type"));
    let lower = read_document(br#"{"type": "user", "id": 2, "login": "b"}"#).unwrap();
    assert_eq!(
        github::payload::decode_sender(&lower).unwrap_err().kind,
        FaultKind::UnknownVariant
    );
    let incomplete = read_document(br#"{"type": "User", "id": 2}"#).unwrap();
    let fault = github::payload::decode_owner(&incomplete).unwrap_err();
    assert_eq!((fault.kind, fault.field.as_str()), (FaultKind::Missing, "login"));
}

#[test]
fn github_requires_what_forgejo_leaves_optional() {
    let body = GITHUB_PUSH.replace("\"forced\": true,", "");
    assert_eq!(
        fault_of(github::dispatch("push", body.as_bytes()).unwrap_err()),
        (FaultKind::Missing, "forced".to_string())
    );
    let body = GITHUB_PUSH.replace("\"tree_id\": \"77aa\",", "");
    assert_eq!(
        fault_of(github::dispatch("push", body.as_bytes()).unwrap_err()),
        (FaultKind::Missing, "tree_id".to_string())
    );
    let body = GITHUB_PUSH.replace("\"distinct\": true,", "\"distinct\": null,");
    assert_eq!(
        fault_of(github::dispatch("push", body.as_bytes()).unwrap_err()),
        (FaultKind::Mismatch, "distinct".to_string())
    );
}

#[test]
fn github_membership_decodes() {
    let body = br#"{
        "action": "removed",
        "member": null,
        "organization": {"id": 4, "login": "org", "description": "An org"},
        "repository": {"name": "r", "full_name": "org/r",
                       "owner": {"type": "User", "id": 8, "login": "u"}},
        "scope": "team",
        "sender": {"type": "User", "id": 8, "login": "u"},
        "team": {"id": 11, "slug": "core", "name": "Core", "privacy": "closed",
                 "permission": "pull"}
    }"#;
    let event = github::dispatch("membership", body).unwrap().unwrap();
    let membership = match event {
        github::VerifiedEvent::Membership(membership) => membership,
        other => panic!("unexpected event: {:?}", other),
    };
    assert_eq!(membership.action, "removed");
    assert!(membership.member.is_none());
    assert_eq!(membership.organization.description.as_deref(), Some("An org"));
    let repository = membership.repository.unwrap();
    assert_eq!(repository.full_name, "org/r");
    assert!(matches!(repository.owner, github::payload::Owner::User(_)));
    assert!(matches!(membership.sender, Some(github::payload::Sender::User(_))));
    assert_eq!(membership.team.permission, "pull");
}

#[test]
fn unknown_event_is_rejected_by_forgejo_and_ignored_by_github() {
    match forgejo::dispatch("issues", b"not even json").unwrap_err() {
        ApiError::UnsupportedWebhookEvent(unsupported) => assert_eq!(unsupported.event, "issues"),
        other => panic!("unexpected error: {:?}", other),
    }
    assert!(github::dispatch("issues", b"not even json").unwrap().is_none());
    assert!(forgejo::dispatch("Push", FORGEJO_PUSH.as_bytes()).is_err());
    assert!(github::dispatch("", GITHUB_PUSH.as_bytes()).unwrap().is_none());
}

#[test]
fn event_type_selects_the_schema() {
    assert_eq!(
        fault_of(forgejo::dispatch("membership", FORGEJO_PUSH.as_bytes()).unwrap_err()),
        (FaultKind::Missing, "action".to_string())
    );
    assert_eq!(
        fault_of(github::dispatch("membership", GITHUB_PUSH.as_bytes()).unwrap_err()),
        (FaultKind::Missing, "action".to_string())
    );
    assert_eq!(
        fault_of(github::dispatch("push", FORGEJO_PUSH.as_bytes()).unwrap_err()),
        (FaultKind::Missing, "compare".to_string())
    );
}
