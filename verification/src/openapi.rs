//! The routes of the utoipa plugin: where the OpenAPI document and its
//! visualizer are served, and the configurations it refuses.

use vstd::prelude::*;

verus! {

/// The plugin's OpenAPI settings: where the document is served, and where
/// the visualizer is mounted.
pub struct UtoipaConfig {
    /// Path of the OpenAPI JSON document.
    pub path: String,
    /// Path of the OpenAPI visualizer.
    pub visualizer_path: String,
}

/// The visualizers compiled into the plugin, one switch per visualizer.
#[derive(Debug, Clone, Copy, PartialEq, Eq)]
pub struct VisualizerFeatures {
    pub rapidoc: bool,
    pub redoc: bool,
    pub scalar: bool,
    pub swagger_ui: bool,
}

/// A visualizer mounted by the plugin, with the paths it is given.
pub enum VisualizerMount {
    /// RapiDoc serves the document at `spec_path` and itself at `ui_path`.
    RapiDoc { spec_path: String, ui_path: String },
    /// Redoc serves itself, with the document inlined, at `ui_path`.
    Redoc { ui_path: String },
    /// Scalar serves itself, with the document inlined, at `ui_path`.
    Scalar { ui_path: String },
    /// Swagger UI serves itself at `ui_path` and the document at `spec_path`.
    SwaggerUi { ui_path: String, spec_path: String },
}

/// The routes that the plugin adds to the application.
pub struct OpenApiRoutes {
    /// Path of a plain JSON route for the document, where no visualizer
    /// serves the document itself.
    pub json_path: Option<String>,
    /// The visualizer, where one is compiled in.
    pub visualizer: Option<VisualizerMount>,
}

/// A configuration the plugin refuses to start with.
#[derive(Debug, Clone, Copy, PartialEq, Eq)]
pub enum UtoipaSetupError {
    /// More than one visualizer is compiled in.
    MultipleVisualizers,
    /// The document path and the visualizer path are the same.
    PathCollision,
    /// Swagger UI would be mounted on the root path.
    SwaggerUiOnRoot,
}

/// The utoipa plugin: serves the application's OpenAPI document.
pub struct UtoipaPlugin;

/// The number of visualizers switched on.
pub open spec fn visualizer_count(f: VisualizerFeatures) -> int {
    (if f.rapidoc { 1int } else { 0int }) + (if f.redoc { 1int } else { 0int }) + (if f.scalar {
        1int
    } else {
        0int
    }) + (if f.swagger_ui { 1int } else { 0int })
}

/// `true` for the root path, empty or `/`.
pub open spec fn is_root_path(p: Seq<char>) -> bool {
    p.len() == 0 || p == seq!['/']
}

/// The error the plugin stops with, checked in this order, or `None` when
/// the configuration is accepted.
pub open spec fn spec_setup_error(path: Seq<char>, visualizer_path: Seq<char>, f: VisualizerFeatures) -> Option<UtoipaSetupError> {
    if visualizer_count(f) > 1 {
        Some(UtoipaSetupError::MultipleVisualizers)
    } else if visualizer_count(f) == 1 && path == visualizer_path {
        Some(UtoipaSetupError::PathCollision)
    } else if f.swagger_ui && is_root_path(visualizer_path) {
        Some(UtoipaSetupError::SwaggerUiOnRoot)
    } else {
        None
    }
}

/// `true` when `m` is the mount of the one visualizer switched on in `f`,
/// with the paths of the configuration.
pub open spec fn is_mount_for(m: VisualizerMount, path: Seq<char>, visualizer_path: Seq<char>, f: VisualizerFeatures) -> bool {
    match m {
        VisualizerMount::RapiDoc { spec_path, ui_path } => f.rapidoc && spec_path@ == path && ui_path@
            == visualizer_path,
        VisualizerMount::Redoc { ui_path } => f.redoc && ui_path@ == visualizer_path,
        VisualizerMount::Scalar { ui_path } => f.scalar && ui_path@ == visualizer_path,
        VisualizerMount::SwaggerUi { ui_path, spec_path } => f.swagger_ui && ui_path@
            == visualizer_path && spec_path@ == path,
    }
}

/// `true` when `routes` are the routes for an accepted configuration: a JSON
/// route at the document path unless RapiDoc or Swagger UI serves the
/// document, and the mount of the visualizer switched on, if any.
pub open spec fn is_routes_for(routes: OpenApiRoutes, path: Seq<char>, visualizer_path: Seq<char>, f: VisualizerFeatures) -> bool {
    &&& (routes.json_path is Some <==> !f.rapidoc && !f.swagger_ui)
    &&& (routes.json_path matches Some(p) ==> p@ == path)
    &&& (routes.visualizer is Some <==> visualizer_count(f) == 1)
    &&& (routes.visualizer matches Some(m) ==> is_mount_for(m, path, visualizer_path, f))
}

/// `true` when two or more visualizers are switched on.
pub open spec fn at_least_two_visualizers(f: VisualizerFeatures) -> bool {
    ||| f.rapidoc && (f.redoc || f.scalar || f.swagger_ui)
    ||| f.redoc && (f.scalar || f.swagger_ui)
    ||| f.scalar && f.swagger_ui
}

/// `true` when exactly one visualizer is switched on.
pub open spec fn exactly_one_visualizer(f: VisualizerFeatures) -> bool {
    (f.rapidoc || f.redoc || f.scalar || f.swagger_ui) && !at_least_two_visualizers(f)
}

/// The plugin starts with at most one visualizer: whenever two or more are
/// switched on, it refuses with `MultipleVisualizers`, whatever the paths.
pub proof fn lemma_several_visualizers_refused(path: Seq<char>, visualizer_path: Seq<char>, f: VisualizerFeatures)
    requires
        at_least_two_visualizers(f),
    ensures
        spec_setup_error(path, visualizer_path, f) == Some(UtoipaSetupError::MultipleVisualizers),
{
}

/// A visualizer never shares the document's path: with exactly one
/// visualizer, whichever it is, equal paths are refused with `PathCollision`.
pub proof fn lemma_colliding_paths_refused(path: Seq<char>, f: VisualizerFeatures)
    requires
        exactly_one_visualizer(f),
    ensures
        spec_setup_error(path, path, f) == Some(UtoipaSetupError::PathCollision),
{
}

/// Only Swagger UI is kept off the root, and only the root itself (empty or
/// `/`) counts: with exactly one visualizer and distinct paths, the setup is
/// accepted unless that visualizer is Swagger UI at `""` or `/`.
pub proof fn lemma_single_visualizer_accepted(path: Seq<char>, visualizer_path: Seq<char>, f: VisualizerFeatures)
    requires
        exactly_one_visualizer(f),
        path != visualizer_path,
    ensures
        spec_setup_error(path, visualizer_path, f) is None <==> !(f.swagger_ui && (
        visualizer_path.len() == 0 || visualizer_path == seq!['/'])),
        spec_setup_error(path, visualizer_path, f) is Some ==> spec_setup_error(
            path,
            visualizer_path,
            f,
        ) == Some(UtoipaSetupError::SwaggerUiOnRoot),
{
}

/// An accepted setup mounts a visualizer only on its own path, away from the
/// document, and mounts at most one.
pub proof fn lemma_accepted_routes_keep_paths_apart(
    routes: OpenApiRoutes,
    path: Seq<char>,
    visualizer_path: Seq<char>,
    f: VisualizerFeatures,
)
    requires
        spec_setup_error(path, visualizer_path, f) is None,
        is_routes_for(routes, path, visualizer_path, f),
    ensures
        !at_least_two_visualizers(f),
        routes.visualizer is Some ==> path != visualizer_path,
        routes.visualizer matches Some(m) ==> match m {
            VisualizerMount::RapiDoc { ui_path, .. } => ui_path@ == visualizer_path,
            VisualizerMount::Redoc { ui_path } => ui_path@ == visualizer_path,
            VisualizerMount::Scalar { ui_path } => ui_path@ == visualizer_path,
            VisualizerMount::SwaggerUi { ui_path, .. } => ui_path@ == visualizer_path
                && visualizer_path.len() != 0 && visualizer_path != seq!['/'],
        },
{
}

/// A copy of a string.
fn copy_string(s: &String) -> (r: String)
    ensures
        r@ == s@,
{
    s.clone()
}

/// `true` when `p` is the root path, empty or `/`.
fn root_path(p: &String) -> (b: bool)
    ensures
        b == is_root_path(p@),
{
    let s = p.as_str();
    if s.is_empty() {
        true
    } else if s.unicode_len() == 1 {
        if s.get_char(0) == '/' {
            assert(s@ =~= seq!['/']);
            true
        } else {
            assert(seq!['/'][0] == '/');
            false
        }
    } else {
        false
    }
}

impl UtoipaPlugin {
    /// The routes that the plugin adds for `config` with the visualizers of
    /// `features`, or the reason it refuses to start.
    pub fn routes(config: &UtoipaConfig, features: VisualizerFeatures) -> (r: Result<
        OpenApiRoutes,
        UtoipaSetupError,
    >)
        ensures
            match spec_setup_error(config.path@, config.visualizer_path@, features) {
                Some(e) => r == Err::<OpenApiRoutes, UtoipaSetupError>(e),
                None => r matches Ok(routes) && is_routes_for(
                    routes,
                    config.path@,
                    config.visualizer_path@,
                    features,
                ),
            },
            at_least_two_visualizers(features) ==> r == Err::<OpenApiRoutes, UtoipaSetupError>(
                UtoipaSetupError::MultipleVisualizers,
            ),
            exactly_one_visualizer(features) && config.path@ == config.visualizer_path@ ==> r
                == Err::<OpenApiRoutes, UtoipaSetupError>(UtoipaSetupError::PathCollision),
            r matches Ok(routes) ==> !at_least_two_visualizers(features),
            r matches Ok(routes) && routes.visualizer is Some ==> config.path@
                != config.visualizer_path@,
            r == Err::<OpenApiRoutes, UtoipaSetupError>(UtoipaSetupError::SwaggerUiOnRoot)
                ==> features.swagger_ui && (config.visualizer_path@.len() == 0
                || config.visualizer_path@ == seq!['/']),
            exactly_one_visualizer(features) && !features.swagger_ui && config.path@
                != config.visualizer_path@ ==> r is Ok,
            exactly_one_visualizer(features) && features.swagger_ui && config.path@
                != config.visualizer_path@ && config.visualizer_path@.len() != 0
                && config.visualizer_path@ != seq!['/'] ==> r is Ok,
    {
        let count: u8 = (if features.rapidoc { 1u8 } else { 0u8 }) + (if features.redoc {
            1u8
        } else {
            0u8
        }) + (if features.scalar { 1u8 } else { 0u8 }) + (if features.swagger_ui {
            1u8
        } else {
            0u8
        });
        if count > 1 {
            return Err(UtoipaSetupError::MultipleVisualizers);
        }
        let json_path = if !features.rapidoc && !features.swagger_ui {
            Some(copy_string(&config.path))
        } else {
            None
        };
        if count == 1 && config.path == config.visualizer_path {
            return Err(UtoipaSetupError::PathCollision);
        }
        let visualizer = if features.rapidoc {
            Some(
                VisualizerMount::RapiDoc {
                    spec_path: copy_string(&config.path),
                    ui_path: copy_string(&config.visualizer_path),
                },
            )
        } else if features.redoc {
            Some(VisualizerMount::Redoc { ui_path: copy_string(&config.visualizer_path) })
        } else if features.scalar {
            Some(VisualizerMount::Scalar { ui_path: copy_string(&config.visualizer_path) })
        } else if features.swagger_ui {
            if root_path(&config.visualizer_path) {
                return Err(UtoipaSetupError::SwaggerUiOnRoot);
            }
            Some(
                VisualizerMount::SwaggerUi {
                    ui_path: copy_string(&config.visualizer_path),
                    spec_path: copy_string(&config.path),
                },
            )
        } else {
            None
        };
        Ok(OpenApiRoutes { json_path, visualizer })
    }
}

} // verus!
