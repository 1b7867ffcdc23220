use linear_api::columns::{IssueTableColumns, ProjectTableColumns, TeamTableColumns};
use linear_api::config::{resolve_token, NoTokenError, UserConfig};

#[test]
fn issue_columns() {
    assert_eq!(
        IssueTableColumns::default_list_fields(),
        vec![
            IssueTableColumns::Key,
            IssueTableColumns::Title,
            IssueTableColumns::State,
            IssueTableColumns::AssigneeDisplayName,
            IssueTableColumns::Created,
            IssueTableColumns::Updated,
        ]
    );
    assert_eq!(IssueTableColumns::default_detail_fields().len(), 7);
    assert_eq!(IssueTableColumns::Key.header(), ("Key", true));
    assert_eq!(IssueTableColumns::AssigneeDisplayName.header(), ("Assignee", false));
}

#[test]
fn project_and_team_columns() {
    assert_eq!(ProjectTableColumns::default_list_fields().len(), 5);
    assert_eq!(ProjectTableColumns::Name.header(), ("Name", true));
    assert_eq!(TeamTableColumns::default_detail_fields(), TeamTableColumns::default_list_fields());
    assert_eq!(TeamTableColumns::CreatedAt.header(), ("Created", false));
}

#[test]
fn update_token_sets_token() {
    let c = UserConfig::update_token(None, "abc".to_string());
    assert_eq!(c.token.as_deref(), Some("abc"));
    let c = UserConfig::update_token(Some(UserConfig { token: Some("old".to_string()) }), "new".to_string());
    assert_eq!(c.token.as_deref(), Some("new"));
}

#[test]
fn modify_starts_from_defaults() {
    let c = UserConfig::modify(None, |c: UserConfig| c);
    assert!(c.token.is_none());
    let c = UserConfig::modify(Some(UserConfig { token: Some("t".to_string()) }), |c: UserConfig| c);
    assert_eq!(c.token.as_deref(), Some("t"));
}

#[test]
fn token_resolution() {
    assert_eq!(resolve_token(Some("a".to_string()), Some(UserConfig { token: Some("b".to_string()) })).ok().as_deref(), Some("a"));
    assert_eq!(resolve_token(None, Some(UserConfig { token: Some("b".to_string()) })).ok().as_deref(), Some("b"));
    assert!(resolve_token(None, Some(UserConfig { token: None })).is_err());
    assert!(resolve_token(None, None).is_err());
    assert_eq!(NoTokenError.message(), "No Linear API token configured. Run 'linear login'!");
}
