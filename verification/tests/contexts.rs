use gateway::contexts::{
    build_context_cursor, build_file_cursor, check_listed_context, create_context_mode,
    ensure_context_owner, ensure_context_share_access, ensure_context_write_access,
    require_context_change, share_role,
    AuthUser, ContextFileEntry, ContextMode, ContextRecord, ContextsResponse, CreateContextRequest,
    CreateShareRequest, UserRole,
};
use gateway::error::GatewayError;
use gateway::files::{ContextFileRecord, FileStatus};
use gateway::uploads::FileOrigin;

fn uuid(text: &str) -> u128 {
    uuid::Uuid::parse_str(text).expect("uuid").as_u128()
}

#[test]
fn from_record_preserves_doc_id() {
    let entry = ContextFileEntry::from_record(ContextFileRecord {
        id: 1,
        context_id: 7,
        file_id: 11,
        pipeline_id: 0,
        origin: FileOrigin::Upload,
        original_name: "contract.pdf".into(),
        original_path: None,
        media_type: Some("application/pdf".into()),
        attached_at: 1_700_000_000_000_000,
        file_sha256: vec![0xAB, 0xCD],
        file_status: FileStatus::Success,
        mir_artifact_uri: Some("s3://bucket/artifact.json".into()),
        doc_id: Some(uuid("33333333-3333-3333-3333-333333333333")),
    });
    assert_eq!(entry.doc_id, Some(uuid("33333333-3333-3333-3333-333333333333")));
    assert_eq!(entry.sha256_hex, "abcd");
}

#[test]
fn builds_cursor_when_both_fields_present() {
    let ts = 1_700_000_000_000_000i64;
    let cursor = build_file_cursor(Some(ts), Some(42)).unwrap().expect("cursor expected");
    assert_eq!(cursor.context_file_id, 42);
}

#[test]
fn errors_when_cursor_fields_missing() {
    let ts = 1_700_000_000_000_000i64;
    let err = build_file_cursor(Some(ts), None).unwrap_err();
    assert!(matches!(err, GatewayError::InvalidField { .. }));
}

#[test]
fn builds_context_cursor_when_both_fields_present() {
    let ts = 1_700_000_000_000_000i64;
    let cursor = build_context_cursor(Some(ts), Some(7)).unwrap().expect("cursor expected");
    assert_eq!(cursor.id, 7);
}

#[test]
fn errors_when_context_cursor_fields_missing() {
    let ts = 1_700_000_000_000_000i64;
    let err = build_context_cursor(Some(ts), None).unwrap_err();
    assert!(matches!(err, GatewayError::InvalidField { .. }));
}

#[test]
fn cursor_ids_must_be_positive() {
    assert!(build_file_cursor(Some(5), Some(0)).is_err());
    assert!(build_context_cursor(Some(5), Some(-1)).is_err());
    assert!(build_file_cursor(None, None).unwrap().is_none());
}

fn context(owner: Option<u128>) -> ContextRecord {
    ContextRecord {
        id: 7,
        title: Some("Q4".to_string()),
        description: None,
        created_at: 10,
        updated_at: 20,
        owner_id: owner,
        files_count: None,
        mode: ContextMode::Rdf,
    }
}

#[test]
fn read_and_write_access() {
    let owner = AuthUser { id: 1, role: UserRole::User };
    let other = AuthUser { id: 2, role: UserRole::User };
    let admin = AuthUser { id: 3, role: UserRole::Admin };
    assert!(ensure_context_owner(Some(context(Some(1))), 7, &owner, false).is_ok());
    assert!(ensure_context_owner(Some(context(Some(1))), 7, &other, true).is_ok());
    assert!(matches!(
        ensure_context_owner(Some(context(Some(1))), 7, &other, false),
        Err(GatewayError::Forbidden(m)) if m == "context does not belong to the authenticated user"
    ));
    assert!(matches!(ensure_context_owner(None, 7, &owner, false), Err(GatewayError::ContextNotFound(7))));
    assert!(ensure_context_write_access(Some(context(None)), 7, &admin, None).is_ok());
    assert!(matches!(
        ensure_context_write_access(Some(context(Some(1))), 7, &other, None),
        Err(GatewayError::Forbidden(m)) if m == "write access requires context owner or admin"
    ));
}

#[test]
fn user_shares_grant_writing_but_not_share_management() {
    let owner = AuthUser { id: 1, role: UserRole::User };
    let other = AuthUser { id: 2, role: UserRole::User };
    let admin = AuthUser { id: 3, role: UserRole::Admin };
    assert!(ensure_context_write_access(Some(context(Some(1))), 7, &other, Some(UserRole::User)).is_ok());
    assert!(matches!(
        ensure_context_write_access(Some(context(Some(1))), 7, &other, Some(UserRole::Viewer)),
        Err(GatewayError::Forbidden(m)) if m == "write access requires context owner or admin"
    ));
    assert!(matches!(
        ensure_context_write_access(None, 7, &owner, None),
        Err(GatewayError::ContextNotFound(7))
    ));
    assert!(ensure_context_share_access(Some(context(Some(1))), 7, &owner).is_ok());
    assert!(ensure_context_share_access(Some(context(Some(1))), 7, &admin).is_ok());
    assert!(matches!(
        ensure_context_share_access(Some(context(Some(1))), 7, &other),
        Err(GatewayError::Forbidden(m)) if m == "write access requires context owner or admin"
    ));
    assert!(matches!(
        ensure_context_share_access(None, 8, &owner),
        Err(GatewayError::ContextNotFound(8))
    ));
}

#[test]
fn viewers_cannot_create_contexts() {
    let viewer = AuthUser { id: 1, role: UserRole::Viewer };
    let user = AuthUser { id: 1, role: UserRole::User };
    assert!(matches!(
        create_context_mode(&viewer, &CreateContextRequest { mode: None }),
        Err(GatewayError::Forbidden(m)) if m == "viewer role cannot create contexts"
    ));
    assert_eq!(create_context_mode(&user, &CreateContextRequest { mode: None }).unwrap(), ContextMode::Rdf);
    assert_eq!(
        create_context_mode(&user, &CreateContextRequest { mode: Some(ContextMode::Emb) }).unwrap(),
        ContextMode::Emb
    );
}

#[test]
fn shares_default_to_viewer_and_refuse_admin() {
    assert_eq!(share_role(&CreateShareRequest { user_id: 9, role: None }).unwrap(), UserRole::Viewer);
    assert_eq!(share_role(&CreateShareRequest { user_id: 9, role: Some(UserRole::User) }).unwrap(), UserRole::User);
    assert!(matches!(
        share_role(&CreateShareRequest { user_id: 9, role: Some(UserRole::Admin) }),
        Err(GatewayError::Forbidden(m)) if m == "cannot grant admin role"
    ));
}

#[test]
fn full_context_page_has_next_cursor() {
    let page = ContextsResponse::from_records(vec![context(Some(1)), context(Some(1))], 2);
    assert_eq!(page.contexts.len(), 2);
    let cursor = page.next_cursor.expect("cursor");
    assert_eq!(cursor.id, 7);
    assert_eq!(cursor.created_at, 10);
    assert_eq!(page.contexts[0].files_count, 0);
    let partial = ContextsResponse::from_records(vec![context(Some(1))], 2);
    assert!(partial.next_cursor.is_none());
}

#[test]
fn empty_listing_of_missing_context_is_not_found() {
    assert!(matches!(check_listed_context(0, false, 3), Err(GatewayError::ContextNotFound(3))));
    assert!(check_listed_context(0, true, 3).is_ok());
    assert!(check_listed_context(2, false, 3).is_ok());
    assert!(matches!(require_context_change::<bool>(None, 3), Err(GatewayError::ContextNotFound(3))));
    assert!(require_context_change(Some(true), 3).unwrap());
}
