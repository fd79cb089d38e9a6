use spice_runtime::model::load_params;
use spice_runtime::model::path;
use spice_runtime::model::run_query;
use spice_runtime::model::source;
use spice_runtime::model::version;
use spice_runtime::model::Error;
use spice_runtime::modelsource::Error as SourceError;
use spice_runtime::modelsource::Local;

#[test]
fn the_source_of_a_model_reference() {
    assert_eq!(source("spiceai:taxi/models/drive:latest"), "spiceai");
    assert_eq!(source("file:/tmp/model.onnx"), "localhost");
    assert_eq!(source("file:model.onnx"), "spiceai");
    assert_eq!(source("taxi/models/drive"), "spiceai");
    assert_eq!(source(""), "spiceai");
}

#[test]
fn the_path_of_a_model_reference() {
    assert_eq!(path("spiceai:taxi/models/drive:latest"), "taxi/models/drive:latest");
    assert_eq!(path("spiceai:"), "");
    assert_eq!(path("file:/tmp/model.onnx"), "file:/tmp/model.onnx");
    assert_eq!(path("taxi/models/drive"), "taxi/models/drive");
    assert_eq!(path(""), "");
}

#[test]
fn the_version_of_a_model_reference() {
    assert_eq!(version("spiceai:taxi/models/drive:latest"), "latest");
    assert_eq!(version("spiceai:taxi/models/drive"), "taxi/models/drive");
    assert_eq!(version("spiceai:taxi:"), "");
    assert_eq!(version("file:/tmp/model.onnx"), "/tmp/model.onnx");
    assert_eq!(version("a:b:c"), "c");
    assert_eq!(version(""), "");
}

#[test]
fn a_model_is_pulled_with_its_name_and_path() {
    let params = load_params("drive", "spiceai:taxi/models/drive:latest", true).unwrap();
    let got: Vec<(String, String)> = params.into_iter().map(|p| (p.key, p.value)).collect();
    assert_eq!(
        got,
        vec![
            ("name".to_string(), "drive".to_string()),
            ("path".to_string(), "taxi/models/drive:latest".to_string()),
            ("from".to_string(), "taxi/models/drive:latest".to_string()),
        ]
    );
    assert!(matches!(
        load_params("drive", "spiceai:x", false),
        Err(Error::UnableToLoadRequiredSecrets)
    ));
}

#[test]
fn a_model_runs_on_its_first_dataset() {
    let datasets = vec!["trips".to_string(), "fares".to_string()];
    assert_eq!(run_query(&datasets), "select * from datafusion.public.trips order by ts asc");
}

#[test]
fn a_local_model_needs_a_name_and_a_place() {
    let local = Local {};
    assert_eq!(local.required_name(Some("drive".to_string())).unwrap(), "drive");
    match local.required_name(None) {
        Err(SourceError::UnableToLoadConfig { reason }) => assert_eq!(reason, "Name is required"),
        Ok(_) => panic!("accepted a model without a name"),
    }
    assert_eq!(local.pull(Some("file:/tmp/model.onnx".to_string())).unwrap(), "/tmp/model.onnx");
    assert_eq!(local.pull(Some("file:file:m".to_string())).unwrap(), "m");
    assert_eq!(local.pull(Some("/tmp/model.onnx".to_string())).unwrap(), "/tmp/model.onnx");
    match local.pull(None) {
        Err(SourceError::UnableToLoadConfig { reason }) => assert_eq!(reason, "From is required"),
        Ok(_) => panic!("accepted a model without a place"),
    }
}
