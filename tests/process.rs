use opentelemetry::{Array, Key, StringValue, Value};
use process_resource_detector::process::lossy_arguments;
use process_resource_detector::ProcessResourceDetector;
use std::time::Duration;

fn raw(args: &[&str]) -> Vec<Vec<u8>> {
    args.iter().map(|a| a.as_bytes().to_vec()).collect()
}

fn strings(items: &[&str]) -> Value {
    let values: Vec<StringValue> = items.iter().map(|s| StringValue::from(s.to_string())).collect();
    Value::Array(Array::String(values))
}

#[test]
fn test_processor_resource_detector() {
    let resource = ProcessResourceDetector.detect(raw(&["app"]), 42, Duration::from_secs(0));
    assert_eq!(resource.len(), 2);
}

#[test]
fn detect_reports_arguments_and_pid() {
    let args = raw(&["cmd/otecol", "--config=config.yaml"]);
    let resource = ProcessResourceDetector.detect(args, 1234, Duration::from_secs(1));
    assert_eq!(resource.len(), 2);
    assert_eq!(
        resource.get(Key::new("process.command_args")),
        Some(strings(&["cmd/otecol", "--config=config.yaml"]))
    );
    assert_eq!(resource.get(Key::new("process.pid")), Some(Value::I64(1234)));
}

#[test]
fn detect_with_no_arguments() {
    let resource = ProcessResourceDetector.detect(Vec::new(), 7, Duration::from_secs(0));
    assert_eq!(resource.len(), 2);
    assert_eq!(resource.get(Key::new("process.command_args")), Some(strings(&[])));
    assert_eq!(resource.get(Key::new("process.pid")), Some(Value::I64(7)));
}

#[test]
fn detect_widens_largest_pid() {
    let resource = ProcessResourceDetector.detect(raw(&["x"]), u32::MAX, Duration::from_secs(0));
    assert_eq!(resource.get(Key::new("process.pid")), Some(Value::I64(4294967295)));
}

#[test]
fn detect_twice_gives_same_attributes() {
    let first = ProcessResourceDetector.detect(raw(&["app", "-v"]), 99, Duration::from_secs(0));
    let second = ProcessResourceDetector.detect(raw(&["app", "-v"]), 99, Duration::from_secs(0));
    assert_eq!(first, second);
    assert_eq!(first.get(Key::new("process.pid")), second.get(Key::new("process.pid")));
}

#[test]
fn detect_ignores_timeout() {
    let quick = ProcessResourceDetector.detect(raw(&["app"]), 5, Duration::from_secs(0));
    let slow = ProcessResourceDetector.detect(raw(&["app"]), 5, Duration::from_secs(3600));
    assert_eq!(quick, slow);
}

#[test]
fn detect_replaces_invalid_bytes() {
    let args = vec![b"ok".to_vec(), vec![0x66, 0xff, 0x6f]];
    let resource = ProcessResourceDetector.detect(args, 3, Duration::from_secs(0));
    assert_eq!(resource.len(), 2);
    assert_eq!(
        resource.get(Key::new("process.command_args")),
        Some(strings(&["ok", "f\u{FFFD}o"]))
    );
}

#[test]
fn resource_from_text_keeps_arguments() {
    let args = vec!["a b".to_string(), "é".to_string()];
    let resource = ProcessResourceDetector.resource_from_text(args, 11);
    assert_eq!(resource.len(), 2);
    assert_eq!(resource.get(Key::new("process.command_args")), Some(strings(&["a b", "é"])));
    assert_eq!(resource.get(Key::new("process.pid")), Some(Value::I64(11)));
}

#[test]
fn lossy_arguments_decodes_each_argument() {
    let args = vec![b"plain".to_vec(), Vec::new(), vec![0xc3, 0xa9], vec![0xc3]];
    let texts = lossy_arguments(&args);
    assert_eq!(texts, vec!["plain".to_string(), String::new(), "é".to_string(), "\u{FFFD}".to_string()]);
}
