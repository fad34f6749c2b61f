//! The route table of the service: the path and method of each endpoint,
//! whether it needs a logged-in user, and the body limit it sets. The
//! application mounts the handlers on these routes.

use vstd::prelude::*;

verus! {

/// HTTP methods that the service answers.
#[derive(Clone, Copy, Debug, PartialEq, Eq)]
pub enum Method {
    Get,
    Post,
    Patch,
    Delete,
}

/// The endpoints of the service.
#[derive(Clone, Copy, Debug, PartialEq, Eq)]
pub enum Handler {
    MiniappLogin,
    UpdateUserAvatar,
    UpdateUserNickname,
    Upload,
    PhotoItemList,
    PhotoItem,
    PhotoList,
    PhotoDetail,
    CreateIdPhoto,
    UpdateIdPhoto,
    CreatePhotoItem,
    GetVideoUnit,
    DownloadPhoto,
    DeletePhoto,
    Colourize,
    GenerateLayoutPhoto,
    Matting,
    Cartoon,
    Register,
    UpdateUser,
    Me,
}

/// A route: path, method, endpoint, whether a logged-in user is needed,
/// and the largest request body accepted (when limited).
#[derive(Clone, Copy, Debug)]
pub struct Route {
    pub path: &'static str,
    pub method: Method,
    pub handler: Handler,
    pub login_required: bool,
    pub max_body: Option<u64>,
}

/// A route with its path as text.
pub struct RouteView {
    pub path: Seq<char>,
    pub method: Method,
    pub handler: Handler,
    pub login_required: bool,
    pub max_body: Option<u64>,
}

pub open spec fn route_view(
    path: Seq<char>,
    method: Method,
    handler: Handler,
    login_required: bool,
    max_body: Option<u64>,
) -> RouteView {
    RouteView { path, method, handler, login_required, max_body }
}

pub open spec fn route_of(r: Route) -> RouteView {
    route_view(r.path@, r.method, r.handler, r.login_required, r.max_body)
}

/// The routes of the service, in the order they are mounted.
pub open spec fn route_table() -> Seq<RouteView> {
    seq![
        route_view("id-photo/login"@, Method::Post, Handler::MiniappLogin, false, None),
        route_view("id-photo/update-avatar"@, Method::Post, Handler::UpdateUserAvatar, true, None),
        route_view("id-photo/update-nickname"@, Method::Post, Handler::UpdateUserNickname, true, None),
        route_view("id-photo/upload"@, Method::Post, Handler::Upload, true, None),
        route_view("id-photo/spec-list"@, Method::Get, Handler::PhotoItemList, false, None),
        route_view("id-photo/spec-detail"@, Method::Get, Handler::PhotoItem, false, None),
        route_view("id-photo/photo-list"@, Method::Get, Handler::PhotoList, true, None),
        route_view("id-photo/photo-detail"@, Method::Get, Handler::PhotoDetail, true, None),
        route_view("id-photo/create-id-photo"@, Method::Post, Handler::CreateIdPhoto, true, None),
        route_view("id-photo/update-photo"@, Method::Post, Handler::UpdateIdPhoto, true, Some(524288u64)),
        route_view("id-photo/create-photo-spec"@, Method::Post, Handler::CreatePhotoItem, true, None),
        route_view("id-photo/get-video-unit"@, Method::Get, Handler::GetVideoUnit, false, None),
        route_view("id-photo/download-photo"@, Method::Post, Handler::DownloadPhoto, true, None),
        route_view("id-photo/delete-photo"@, Method::Delete, Handler::DeletePhoto, true, None),
        route_view("id-photo/colourize"@, Method::Post, Handler::Colourize, true, None),
        route_view("id-photo/generate-layout-photo"@, Method::Post, Handler::GenerateLayoutPhoto, true, None),
        route_view("id-photo/matting"@, Method::Post, Handler::Matting, true, None),
        route_view("id-photo/cartoon"@, Method::Post, Handler::Cartoon, true, None),
        route_view("user/register"@, Method::Post, Handler::Register, false, None),
        route_view("user/me"@, Method::Patch, Handler::UpdateUser, true, None),
        route_view("user/me"@, Method::Get, Handler::Me, true, None),
    ]
}

/// The endpoints open to anyone: logging in, registering, and reading
/// the photo specifications and the video unit.
pub open spec fn is_public(h: Handler) -> bool {
    h is MiniappLogin || h is PhotoItemList || h is PhotoItem || h is GetVideoUnit || h is Register
}

/// Whether `path` and `method` name the endpoint `h`: each endpoint is
/// reached by the path that spells its name under `id-photo/` or `user/`
/// (the user's own record by `user/me`, read with GET and changed with
/// PATCH).
pub open spec fn names_endpoint(path: Seq<char>, method: Method, h: Handler) -> bool {
    match h {
        Handler::MiniappLogin => path == "id-photo/login"@,
        Handler::UpdateUserAvatar => path == "id-photo/update-avatar"@,
        Handler::UpdateUserNickname => path == "id-photo/update-nickname"@,
        Handler::Upload => path == "id-photo/upload"@,
        Handler::PhotoItemList => path == "id-photo/spec-list"@,
        Handler::PhotoItem => path == "id-photo/spec-detail"@,
        Handler::PhotoList => path == "id-photo/photo-list"@,
        Handler::PhotoDetail => path == "id-photo/photo-detail"@,
        Handler::CreateIdPhoto => path == "id-photo/create-id-photo"@,
        Handler::UpdateIdPhoto => path == "id-photo/update-photo"@,
        Handler::CreatePhotoItem => path == "id-photo/create-photo-spec"@,
        Handler::GetVideoUnit => path == "id-photo/get-video-unit"@,
        Handler::DownloadPhoto => path == "id-photo/download-photo"@,
        Handler::DeletePhoto => path == "id-photo/delete-photo"@,
        Handler::Colourize => path == "id-photo/colourize"@,
        Handler::GenerateLayoutPhoto => path == "id-photo/generate-layout-photo"@,
        Handler::Matting => path == "id-photo/matting"@,
        Handler::Cartoon => path == "id-photo/cartoon"@,
        Handler::Register => path == "user/register"@,
        Handler::UpdateUser => path == "user/me"@ && method is Patch,
        Handler::Me => path == "user/me"@ && method is Get,
    }
}

/// Law: every route of the table leads to the endpoint its path names.
pub proof fn lemma_routes_named_by_path()
    ensures
        forall|i: int|
            0 <= i < route_table().len() ==> names_endpoint(
                (#[trigger] route_table()[i]).path,
                route_table()[i].method,
                route_table()[i].handler,
            ),
{
    let t = route_table();
    assert forall|i: int| 0 <= i < t.len() implies names_endpoint(
        (#[trigger] t[i]).path,
        t[i].method,
        t[i].handler,
    ) by {
        if i == 0 {} else if i == 1 {} else if i == 2 {} else if i == 3 {} else if i == 4 {}
        else if i == 5 {} else if i == 6 {} else if i == 7 {} else if i == 8 {} else if i == 9 {}
        else if i == 10 {} else if i == 11 {} else if i == 12 {} else if i == 13 {}
        else if i == 14 {} else if i == 15 {} else if i == 16 {} else if i == 17 {}
        else if i == 18 {} else if i == 19 {} else {}
    }
}

/// The route table.
pub fn routes() -> (t: Vec<Route>)
    ensures
        t@.map_values(|r: Route| route_of(r)) == route_table(),
        forall|i: int|
            0 <= i < t@.len() ==> names_endpoint(
                (#[trigger] t@[i]).path@,
                t@[i].method,
                t@[i].handler,
            ),
{
    let t = vec![
        Route { path: "id-photo/login", method: Method::Post, handler: Handler::MiniappLogin, login_required: false, max_body: None },
        Route { path: "id-photo/update-avatar", method: Method::Post, handler: Handler::UpdateUserAvatar, login_required: true, max_body: None },
        Route { path: "id-photo/update-nickname", method: Method::Post, handler: Handler::UpdateUserNickname, login_required: true, max_body: None },
        Route { path: "id-photo/upload", method: Method::Post, handler: Handler::Upload, login_required: true, max_body: None },
        Route { path: "id-photo/spec-list", method: Method::Get, handler: Handler::PhotoItemList, login_required: false, max_body: None },
        Route { path: "id-photo/spec-detail", method: Method::Get, handler: Handler::PhotoItem, login_required: false, max_body: None },
        Route { path: "id-photo/photo-list", method: Method::Get, handler: Handler::PhotoList, login_required: true, max_body: None },
        Route { path: "id-photo/photo-detail", method: Method::Get, handler: Handler::PhotoDetail, login_required: true, max_body: None },
        Route { path: "id-photo/create-id-photo", method: Method::Post, handler: Handler::CreateIdPhoto, login_required: true, max_body: None },
        Route { path: "id-photo/update-photo", method: Method::Post, handler: Handler::UpdateIdPhoto, login_required: true, max_body: Some(524288u64) },
        Route { path: "id-photo/create-photo-spec", method: Method::Post, handler: Handler::CreatePhotoItem, login_required: true, max_body: None },
        Route { path: "id-photo/get-video-unit", method: Method::Get, handler: Handler::GetVideoUnit, login_required: false, max_body: None },
        Route { path: "id-photo/download-photo", method: Method::Post, handler: Handler::DownloadPhoto, login_required: true, max_body: None },
        Route { path: "id-photo/delete-photo", method: Method::Delete, handler: Handler::DeletePhoto, login_required: true, max_body: None },
        Route { path: "id-photo/colourize", method: Method::Post, handler: Handler::Colourize, login_required: true, max_body: None },
        Route { path: "id-photo/generate-layout-photo", method: Method::Post, handler: Handler::GenerateLayoutPhoto, login_required: true, max_body: None },
        Route { path: "id-photo/matting", method: Method::Post, handler: Handler::Matting, login_required: true, max_body: None },
        Route { path: "id-photo/cartoon", method: Method::Post, handler: Handler::Cartoon, login_required: true, max_body: None },
        Route { path: "user/register", method: Method::Post, handler: Handler::Register, login_required: false, max_body: None },
        Route { path: "user/me", method: Method::Patch, handler: Handler::UpdateUser, login_required: true, max_body: None },
        Route { path: "user/me", method: Method::Get, handler: Handler::Me, login_required: true, max_body: None },
    ];
    assert(t@.map_values(|r: Route| route_of(r)) =~= route_table());
    proof {
        lemma_routes_named_by_path();
        assert forall|i: int| 0 <= i < t@.len() implies names_endpoint(
            (#[trigger] t@[i]).path@,
            t@[i].method,
            t@[i].handler,
        ) by {
            assert(route_of(t@[i]) == route_table()[i]);
        }
    }
    t
}

/// Law: a route needs a logged-in user exactly when its endpoint is not
/// one of the public ones.
pub proof fn lemma_login_required_unless_public(i: int)
    requires
        0 <= i < route_table().len(),
    ensures
        route_table()[i].login_required <==> !is_public(route_table()[i].handler),
{
}

/// Law: the only route with a body limit is the photo update, limited to
/// 512 KiB.
pub proof fn lemma_body_limit(i: int)
    requires
        0 <= i < route_table().len(),
    ensures
        route_table()[i].max_body is Some <==> route_table()[i].handler is UpdateIdPhoto,
        route_table()[i].max_body is Some ==> route_table()[i].max_body->0 == 512 * 1024,
{
}

} // verus!
