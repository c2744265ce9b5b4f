use segment::user::User;

#[test]
fn identity_with_both_ids_shows_the_user_id() {
    let user = User::Both { user_id: "u-1".to_owned(), anonymous_id: "a-1".to_owned() };
    assert_eq!(user.to_string(), "u-1");
}
