use vegar::routes::{routes, Handler, Method};

#[test]
fn route_table() {
    let t = routes();
    assert_eq!(t.len(), 21);
    assert_eq!(t[0].path, "id-photo/login");
    assert_eq!(t[0].method, Method::Post);
    assert!(!t[0].login_required);
    let update = t.iter().find(|r| r.handler == Handler::UpdateIdPhoto).unwrap();
    assert_eq!(update.path, "id-photo/update-photo");
    assert_eq!(update.max_body, Some(512 * 1024));
    let me: Vec<Method> = t.iter().filter(|r| r.path == "user/me").map(|r| r.method).collect();
    assert_eq!(me, vec![Method::Patch, Method::Get]);
    let delete = t.iter().find(|r| r.handler == Handler::DeletePhoto).unwrap();
    assert_eq!(delete.method, Method::Delete);
}

#[test]
fn only_public_routes_skip_login() {
    let public = [Handler::MiniappLogin, Handler::PhotoItemList, Handler::PhotoItem, Handler::GetVideoUnit, Handler::Register];
    for r in routes() {
        assert_eq!(r.login_required, !public.contains(&r.handler), "{}", r.path);
        assert_eq!(r.max_body.is_some(), r.handler == Handler::UpdateIdPhoto);
    }
}
