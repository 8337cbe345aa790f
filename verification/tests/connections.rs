use tempo::api_error::Error;
use tempo::documents::UserRelation;
use tempo::tempo::connections::{ConnectionError, PendingConnections};
use tempo::tempo::users::{check_relation_edit, post_relation_outcome};

#[test]
fn a_callback_id_names_its_user_once() {
    let mut pending = PendingConnections::new();
    let ann = pending.register("ann");
    let bob = pending.register("bob");
    assert_ne!(ann, bob);
    assert_eq!(pending.take(ann).as_deref(), Some("ann"));
    assert_eq!(pending.take(ann), None);
    assert_eq!(pending.callback_user(bob).ok().as_deref(), Some("bob"));
    assert!(matches!(pending.callback_user(bob), Err(ConnectionError::InvalidCallbackId)));
}

#[test]
fn users_edit_only_their_own_connections() {
    assert!(check_relation_edit("ann", "ann", UserRelation::Connections).is_ok());
    assert!(matches!(check_relation_edit("bob", "ann", UserRelation::Connections), Err(Error::Unauthorized(None))));
    match check_relation_edit("ann", "ann", UserRelation::Scrobbles) {
        Err(Error::BadRequest(Some(m))) => assert_eq!(m, "Users can only edit connection relationships"),
        _ => panic!("only connections can be edited"),
    }
    assert!(matches!(post_relation_outcome(true), Err(Error::NotModified)));
    assert!(post_relation_outcome(false).is_ok());
}
