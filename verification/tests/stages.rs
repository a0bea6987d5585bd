use gateway::jobs::{JobEngine, JobStage, JobStageResponse};
use serde_json::Value;

fn encode(stage: &JobStageResponse) -> Value {
    let mut map = serde_json::Map::new();
    map.insert("engine".to_string(), Value::String(stage.engine.wire_name().to_string()));
    map.insert("value".to_string(), Value::String(stage.value.clone()));
    Value::Object(map)
}

fn expected(engine: &str, value: &str) -> Value {
    let mut map = serde_json::Map::new();
    map.insert("engine".to_string(), Value::String(engine.to_string()));
    map.insert("value".to_string(), Value::String(value.to_string()));
    Value::Object(map)
}

#[test]
fn serializes_mir_stage_as_tagged_object() {
    let stage = JobStageResponse::from_stage(JobStage::Mir("completed".to_string()));
    assert_eq!(encode(&stage), expected("mir", "completed"));
}

#[test]
fn serializes_rdf_stage_as_tagged_object() {
    let stage = JobStageResponse::from_stage(JobStage::Rdf("information_extraction".to_string()));
    assert_eq!(encode(&stage), expected("rdf", "information_extraction"));
}

#[test]
fn serializes_ingest_stage_as_tagged_object() {
    let stage = JobStageResponse::from_stage(JobStage::Ingest("queued".to_string()));
    assert_eq!(encode(&stage), expected("ingest", "queued"));
}

#[test]
fn conditions_stage_belongs_to_conditions_engine() {
    let stage = JobStageResponse::from_stage(JobStage::Conditions("queued".to_string()));
    assert_eq!(stage.engine, JobEngine::Conditions);
    assert_eq!(stage.engine.wire_name(), "conditions");
}
