use agpu::runtime::{CancellationToken, Router};

#[test]
fn cancellation_token_not_cancelled_initially() {
    let token = CancellationToken::new();
    assert!(!token.is_cancelled());
}

#[test]
fn cancellation_token_cancel() {
    let token = CancellationToken::new();
    token.cancel();
    assert!(token.is_cancelled());
}

#[test]
fn cancellation_token_clone_shares_state() {
    let token = CancellationToken::new();
    let clone = token.clone();
    token.cancel();
    assert!(clone.is_cancelled());
}

#[test]
fn cancellation_token_default() {
    let token = CancellationToken::default();
    assert!(!token.is_cancelled());
}

#[test]
fn router_basic_navigation() {
    let mut router = Router::new("/");
    assert_eq!(router.current(), "/");
    router.navigate("/about");
    assert_eq!(router.current(), "/about");
    assert!(router.back());
    assert_eq!(router.current(), "/");
}

#[test]
fn router_pattern_matching() {
    let router = Router::new("/users/42");
    let params = router.matches("/users/:id").unwrap();
    assert_eq!(params.len(), 1);
    assert_eq!(params[0].0, "id");
    assert_eq!(params[0].1, "42");

    assert!(router.matches("/posts/:id").is_none());
}

#[test]
fn router_history_depth() {
    let mut router = Router::new("/");
    assert_eq!(router.history_len(), 1);
    router.navigate("/a");
    assert_eq!(router.history_len(), 2);
    router.navigate("/b");
    assert_eq!(router.history_len(), 3);
    router.back();
    assert_eq!(router.history_len(), 2);
}

#[test]
fn router_back_undoes_navigate() {
    let mut router = Router::new("/home");
    router.navigate("/x");
    let depth = router.history_len();
    router.navigate("/y");
    assert!(router.back());
    assert_eq!(router.current(), "/x");
    assert_eq!(router.history_len(), depth);
}

#[test]
fn router_back_on_empty_history_fails() {
    let mut router = Router::new("/");
    assert!(router.back()); // the initial route is on the history too
    assert_eq!(router.current(), "/");
    assert_eq!(router.history_len(), 0);
    assert!(!router.back());
    assert_eq!(router.current(), "/");
    assert_eq!(router.history_len(), 0);
}

#[test]
fn router_matches_several_params_in_order() {
    let router = Router::new("/users/7/posts/99");
    let params = router.matches("/users/:uid/posts/:pid").unwrap();
    assert_eq!(params, vec![("uid".to_string(), "7".to_string()), ("pid".to_string(), "99".to_string())]);
    assert!(router.matches("/users/:uid/posts").is_none());
    assert!(router.matches("/users/:uid/comments/:pid").is_none());
}

#[test]
fn router_matches_itself_and_literals() {
    let router = Router::new("/a/b//c");
    assert_eq!(router.matches("/a/b//c"), Some(vec![]));
    assert!(router.matches("/a/b/c").is_none());
    let root = Router::new("/");
    assert_eq!(root.matches("/"), Some(vec![]));
    assert_eq!(root.matches("/:page"), Some(vec![("page".to_string(), "".to_string())]));
    let empty = Router::new("");
    assert_eq!(empty.matches(":x"), Some(vec![("x".to_string(), "".to_string())]));
    assert!(empty.matches("/").is_none());
}

#[test]
fn router_clone_is_independent() {
    let mut router = Router::new("/");
    router.navigate("/a");
    let mut copy = router.clone();
    assert_eq!(copy.current(), "/a");
    assert_eq!(copy.history_len(), 2);
    copy.navigate("/b");
    assert_eq!(router.current(), "/a");
    assert_eq!(router.history_len(), 2);
    assert!(copy.back());
    assert_eq!(copy.current(), "/a");
}
