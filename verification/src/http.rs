//! The HTTP side of the Brokenithm service: which bundled asset, if any, a
//! request is answered with, and when a request becomes a WebSocket session.

use vstd::prelude::*;
use vstd::string::StrSliceExecFns;
use vstd::string::StringExecFns;
use crate::protocol::BrokenithmSpec;
use crate::text::str_eq;
use crate::text::text_view;

verus! {

/// What the service does with one HTTP request.
#[derive(Clone, Debug, PartialEq, Eq)]
pub enum Route {
    /// Answer with the not-found response.
    NotFound,
    /// Answer with the bundled asset of this name and content type.
    Asset { name: String, content_type: String },
    /// Upgrade the connection to a WebSocket session.
    Upgrade,
}

/// A route with its texts as sequences of characters.
pub enum RouteView {
    NotFound,
    Asset { name: Seq<char>, content_type: Seq<char> },
    Upgrade,
}

impl View for Route {
    type V = RouteView;

    open spec fn view(&self) -> RouteView {
        match *self {
            Route::NotFound => RouteView::NotFound,
            Route::Asset { name, content_type } => RouteView::Asset {
                name: name@,
                content_type: content_type@,
            },
            Route::Upgrade => RouteView::Upgrade,
        }
    }
}

/// The content type of a bundled asset, by its exact name; nothing for a
/// name that is not bundled.
pub open spec fn content_type_of(name: Seq<char>) -> Option<Seq<char>> {
    if name == "app.js"@ {
        Some("text/javascript"@)
    } else if name == "config.js"@ {
        Some("text/javascript"@)
    } else if name == "index-ns.html"@ {
        Some("text/html"@)
    } else if name == "index-go.html"@ {
        Some("text/html"@)
    } else if name == "index.html"@ {
        Some("text/html"@)
    } else if name == "handtracker.html"@ {
        Some("text/html"@)
    } else if name == "styles.css"@ {
        Some("text/css"@)
    } else if name == "mediapipe-hands-min.js"@ {
        Some("text/javascript"@)
    } else if name == "lib/tasks-vision/vision_bundle.mjs"@ {
        Some("text/javascript"@)
    } else if name == "lib/tasks-vision/wasm/vision_wasm_internal.js"@ {
        Some("text/javascript"@)
    } else if name == "lib/tasks-vision/wasm/vision_wasm_nosimd_internal.js"@ {
        Some("text/javascript"@)
    } else if name == "favicon.ico"@ {
        Some("image/x-icon"@)
    } else if name == "icon.png"@ {
        Some("image/png"@)
    } else if name == "lib/tasks-vision/wasm/vision_wasm_internal.wasm"@ {
        Some("application/wasm"@)
    } else if name == "lib/tasks-vision/wasm/vision_wasm_nosimd_internal.wasm"@ {
        Some("application/wasm"@)
    } else if name == "lib/hand-landmarker_float_16/hand_landmarker.task"@ {
        Some("application/octet-stream"@)
    } else {
        None
    }
}

/// The landing page of a layout.
pub open spec fn landing_page_of(layout: BrokenithmSpec) -> Seq<char> {
    match layout {
        BrokenithmSpec::Basic => "index.html"@,
        BrokenithmSpec::GroundOnly => "index-go.html"@,
        BrokenithmSpec::Nostalgia => "index-ns.html"@,
        BrokenithmSpec::HandTracking => "handtracker.html"@,
    }
}

/// The asset that a request path asks for: the layout's landing page for
/// `/` and `/index.html`, else the path without its first character.
pub open spec fn asset_name_of(path: Seq<char>, layout: BrokenithmSpec) -> Seq<char> {
    if path == "/"@ || path == "/index.html"@ {
        landing_page_of(layout)
    } else {
        path.subrange(1, path.len() as int)
    }
}

/// The route of a request, from its method, its path, whether it carries an
/// upgrade header, and the layout.
pub open spec fn route_of(
    method: Seq<char>,
    path: Seq<char>,
    has_upgrade: bool,
    layout: BrokenithmSpec,
) -> RouteView {
    if method != "GET"@ {
        RouteView::NotFound
    } else if has_upgrade {
        if path == "/ws"@ {
            RouteView::Upgrade
        } else {
            RouteView::NotFound
        }
    } else if path.len() == 0 {
        RouteView::NotFound
    } else {
        match content_type_of(asset_name_of(path, layout)) {
            Some(content_type) => RouteView::Asset {
                name: asset_name_of(path, layout),
                content_type,
            },
            None => RouteView::NotFound,
        }
    }
}

/// Looks a bundled asset up by its exact name and gives its content type.
pub fn content_type(name: &str) -> (found: Option<&'static str>)
    ensures
        text_view(found) == content_type_of(name@),
{
    if str_eq(name, "app.js") {
        Some("text/javascript")
    } else if str_eq(name, "config.js") {
        Some("text/javascript")
    } else if str_eq(name, "index-ns.html") {
        Some("text/html")
    } else if str_eq(name, "index-go.html") {
        Some("text/html")
    } else if str_eq(name, "index.html") {
        Some("text/html")
    } else if str_eq(name, "handtracker.html") {
        Some("text/html")
    } else if str_eq(name, "styles.css") {
        Some("text/css")
    } else if str_eq(name, "mediapipe-hands-min.js") {
        Some("text/javascript")
    } else if str_eq(name, "lib/tasks-vision/vision_bundle.mjs") {
        Some("text/javascript")
    } else if str_eq(name, "lib/tasks-vision/wasm/vision_wasm_internal.js") {
        Some("text/javascript")
    } else if str_eq(name, "lib/tasks-vision/wasm/vision_wasm_nosimd_internal.js") {
        Some("text/javascript")
    } else if str_eq(name, "favicon.ico") {
        Some("image/x-icon")
    } else if str_eq(name, "icon.png") {
        Some("image/png")
    } else if str_eq(name, "lib/tasks-vision/wasm/vision_wasm_internal.wasm") {
        Some("application/wasm")
    } else if str_eq(name, "lib/tasks-vision/wasm/vision_wasm_nosimd_internal.wasm") {
        Some("application/wasm")
    } else if str_eq(name, "lib/hand-landmarker_float_16/hand_landmarker.task") {
        Some("application/octet-stream")
    } else {
        None
    }
}

/// The name of the landing page that a layout selects.
pub fn landing_page(layout: BrokenithmSpec) -> (name: &'static str)
    ensures
        name@ == landing_page_of(layout),
{
    match layout {
        BrokenithmSpec::Basic => "index.html",
        BrokenithmSpec::GroundOnly => "index-go.html",
        BrokenithmSpec::Nostalgia => "index-ns.html",
        BrokenithmSpec::HandTracking => "handtracker.html",
    }
}

/// Routes one request. Only `GET` is served. A request with an upgrade
/// header becomes a session on `/ws` and is not found elsewhere. Any other
/// request is answered with the bundled asset that its path names, `/` and
/// `/index.html` standing for the layout's landing page, or is not found.
pub fn route(method: &str, path: &str, has_upgrade: bool, layout: BrokenithmSpec) -> (chosen: Route)
    ensures
        chosen@ == route_of(method@, path@, has_upgrade, layout),
{
    if !str_eq(method, "GET") {
        return Route::NotFound;
    }
    if has_upgrade {
        if str_eq(path, "/ws") {
            return Route::Upgrade;
        }
        return Route::NotFound;
    }
    let n: usize = path.unicode_len();
    if n == 0 {
        return Route::NotFound;
    }
    let name: &str = if str_eq(path, "/") || str_eq(path, "/index.html") {
        landing_page(layout)
    } else {
        path.substring_char(1, n)
    };
    match content_type(name) {
        Some(kind) => Route::Asset {
            name: String::from_str(name),
            content_type: String::from_str(kind),
        },
        None => Route::NotFound,
    }
}

/// Whatever is served is a bundled asset, with the content type that the
/// bundle gives it.
pub proof fn served_assets_are_bundled(
    method: Seq<char>,
    path: Seq<char>,
    has_upgrade: bool,
    layout: BrokenithmSpec,
)
    ensures
        match route_of(method, path, has_upgrade, layout) {
            RouteView::Asset { name, content_type } => content_type_of(name) == Some(content_type),
            _ => true,
        },
{
}

/// Every layout's landing page is bundled as an HTML page, so a plain `GET`
/// of `/` or of `/index.html` is always served.
pub proof fn landing_page_is_served(path: Seq<char>, layout: BrokenithmSpec)
    requires
        path == "/"@ || path == "/index.html"@,
    ensures
        route_of("GET"@, path, false, layout) == (RouteView::Asset {
            name: landing_page_of(layout),
            content_type: "text/html"@,
        }),
{
    reveal_strlit("/");
    reveal_strlit("/index.html");
    reveal_strlit("app.js");
    reveal_strlit("config.js");
    reveal_strlit("index-ns.html");
    reveal_strlit("index-go.html");
    reveal_strlit("index.html");
    reveal_strlit("handtracker.html");
    assert(path.len() > 0);
    let name = landing_page_of(layout);
    assert(name.len() >= 10);
    assert("index-ns.html"@[6] == 'n');
    assert("index-go.html"@[6] == 'g');
    assert("index-ns.html"@ != "index-go.html"@);
}

/// Two different layouts have different landing pages.
pub proof fn landing_pages_differ(first: BrokenithmSpec, second: BrokenithmSpec)
    requires
        first != second,
    ensures
        landing_page_of(first) != landing_page_of(second),
{
    reveal_strlit("index-ns.html");
    reveal_strlit("index-go.html");
    reveal_strlit("index.html");
    reveal_strlit("handtracker.html");
    assert("index-ns.html"@[6] == 'n');
    assert("index-go.html"@[6] == 'g');
    assert("index.html"@.len() == 10);
    assert("handtracker.html"@.len() == 16);
    assert("index-ns.html"@.len() == 13);
}

/// A request that is not a `GET` is never served, whatever else it holds.
pub proof fn only_get_is_served(
    method: Seq<char>,
    path: Seq<char>,
    has_upgrade: bool,
    layout: BrokenithmSpec,
)
    requires
        method != "GET"@,
    ensures
        route_of(method, path, has_upgrade, layout) == RouteView::NotFound,
{
}

/// A session is opened for exactly one kind of request: a `GET` of `/ws`
/// that carries an upgrade header.
pub proof fn upgrade_only_on_ws(
    method: Seq<char>,
    path: Seq<char>,
    has_upgrade: bool,
    layout: BrokenithmSpec,
)
    ensures
        route_of(method, path, has_upgrade, layout) == RouteView::Upgrade <==> (method == "GET"@
            && has_upgrade && path == "/ws"@),
{
}

} // verus!
