use summer_sa_token::openapi::{
    UtoipaConfig, UtoipaPlugin, UtoipaSetupError, VisualizerFeatures, VisualizerMount,
};

fn config(path: &str, visualizer_path: &str) -> UtoipaConfig {
    UtoipaConfig {
        path: path.to_string(),
        visualizer_path: visualizer_path.to_string(),
    }
}

const NONE: VisualizerFeatures = VisualizerFeatures {
    rapidoc: false,
    redoc: false,
    scalar: false,
    swagger_ui: false,
};

#[test]
fn without_visualizer_only_the_document_is_served() {
    let routes = UtoipaPlugin::routes(&config("/openapi.json", "/openapi.json"), NONE)
        .ok()
        .unwrap();
    assert_eq!(routes.json_path, Some("/openapi.json".to_string()));
    assert!(routes.visualizer.is_none());
}

#[test]
fn two_visualizers_are_refused() {
    let features = VisualizerFeatures { redoc: true, scalar: true, ..NONE };
    assert_eq!(
        UtoipaPlugin::routes(&config("/a", "/b"), features).err(),
        Some(UtoipaSetupError::MultipleVisualizers)
    );
}

#[test]
fn colliding_paths_are_refused() {
    let features = VisualizerFeatures { scalar: true, ..NONE };
    assert_eq!(
        UtoipaPlugin::routes(&config("/docs", "/docs"), features).err(),
        Some(UtoipaSetupError::PathCollision)
    );
}

#[test]
fn swagger_ui_is_not_mounted_on_root() {
    let features = VisualizerFeatures { swagger_ui: true, ..NONE };
    assert_eq!(
        UtoipaPlugin::routes(&config("/openapi.json", "/"), features).err(),
        Some(UtoipaSetupError::SwaggerUiOnRoot)
    );
    assert_eq!(
        UtoipaPlugin::routes(&config("/openapi.json", ""), features).err(),
        Some(UtoipaSetupError::SwaggerUiOnRoot)
    );
    // The collision is reported before the root.
    assert_eq!(
        UtoipaPlugin::routes(&config("/", "/"), features).err(),
        Some(UtoipaSetupError::PathCollision)
    );
}

#[test]
fn swagger_ui_serves_the_document_itself() {
    let features = VisualizerFeatures { swagger_ui: true, ..NONE };
    let routes = UtoipaPlugin::routes(&config("/openapi.json", "/swagger"), features)
        .ok()
        .unwrap();
    assert!(routes.json_path.is_none());
    match routes.visualizer {
        Some(VisualizerMount::SwaggerUi { ui_path, spec_path }) => {
            assert_eq!(ui_path, "/swagger");
            assert_eq!(spec_path, "/openapi.json");
        }
        _ => panic!("expected Swagger UI"),
    }
}

#[test]
fn redoc_keeps_the_json_route() {
    let features = VisualizerFeatures { redoc: true, ..NONE };
    let routes = UtoipaPlugin::routes(&config("/openapi.json", "/redoc"), features)
        .ok()
        .unwrap();
    assert_eq!(routes.json_path, Some("/openapi.json".to_string()));
    match routes.visualizer {
        Some(VisualizerMount::Redoc { ui_path }) => assert_eq!(ui_path, "/redoc"),
        _ => panic!("expected Redoc"),
    }
}

#[test]
fn rapidoc_serves_the_document_itself() {
    let features = VisualizerFeatures { rapidoc: true, ..NONE };
    let routes = UtoipaPlugin::routes(&config("/openapi.json", "/rapidoc"), features)
        .ok()
        .unwrap();
    assert!(routes.json_path.is_none());
    match routes.visualizer {
        Some(VisualizerMount::RapiDoc { spec_path, ui_path }) => {
            assert_eq!(spec_path, "/openapi.json");
            assert_eq!(ui_path, "/rapidoc");
        }
        _ => panic!("expected RapiDoc"),
    }
}

#[test]
fn scalar_may_be_mounted_on_root() {
    let features = VisualizerFeatures { scalar: true, ..NONE };
    let routes = UtoipaPlugin::routes(&config("/openapi.json", "/"), features)
        .ok()
        .unwrap();
    assert_eq!(routes.json_path, Some("/openapi.json".to_string()));
    assert!(matches!(routes.visualizer, Some(VisualizerMount::Scalar { .. })));
}
