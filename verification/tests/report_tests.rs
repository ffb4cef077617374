use tf_smi::format::TensorShape;
use tf_smi::report::device_lines;
use tf_smi::report::graph_report;
use tf_smi::report::report_op;
use tf_smi::report::Device;
use tf_smi::report::OpInfo;
use tf_smi::report::Opts;

fn sample_ops() -> Vec<OpInfo> {
    vec![
        OpInfo {
            name: Some("input".to_string()),
            shape: Some(TensorShape::UnknownRank),
            dtype: Some("float32".to_string()),
        },
        OpInfo {
            name: Some("output".to_string()),
            shape: Some(TensorShape::Dims(vec![None, Some(10)])),
            dtype: Some("float32".to_string()),
        },
    ]
}

#[test]
fn report_with_shape_and_type() {
    let opts = Opts { report_shape: true, report_type: true };
    let (lines, failed) = graph_report(&sample_ops(), &opts);
    assert_eq!(
        lines,
        vec![
            "input",
            "   shape: -1",
            "   type: float32",
            "output",
            "   shape: -1, 10",
            "   type: float32",
        ]
    );
    assert!(failed.is_empty());
}

#[test]
fn report_names_only() {
    let opts = Opts { report_shape: false, report_type: false };
    let (lines, failed) = graph_report(&sample_ops(), &opts);
    assert_eq!(lines, vec!["input", "output"]);
    assert!(failed.is_empty());
}

#[test]
fn report_op_shape_only() {
    let op = OpInfo {
        name: Some("output".to_string()),
        shape: Some(TensorShape::Dims(vec![Some(1), Some(2)])),
        dtype: Some("int64".to_string()),
    };
    let opts = Opts { report_shape: true, report_type: false };
    let lines = report_op(&op, &opts).unwrap();
    assert_eq!(lines, vec!["output", "   shape: 1, 2"]);
}

#[test]
fn report_op_absent_attributes_are_skipped() {
    let op = OpInfo { name: Some("bare".to_string()), shape: None, dtype: None };
    let opts = Opts { report_shape: true, report_type: true };
    let lines = report_op(&op, &opts).unwrap();
    assert_eq!(lines, vec!["bare"]);
}

#[test]
fn report_op_undecodable_name_is_an_error() {
    let op = OpInfo {
        name: None,
        shape: Some(TensorShape::UnknownRank),
        dtype: Some("float32".to_string()),
    };
    let opts = Opts { report_shape: true, report_type: true };
    assert!(report_op(&op, &opts).is_err());
}

#[test]
fn graph_report_skips_undecodable_and_goes_on() {
    let ops = vec![
        OpInfo { name: Some("first".to_string()), shape: None, dtype: None },
        OpInfo { name: None, shape: None, dtype: None },
        OpInfo { name: Some("last".to_string()), shape: None, dtype: None },
    ];
    let opts = Opts { report_shape: false, report_type: false };
    let (lines, failed) = graph_report(&ops, &opts);
    assert_eq!(lines, vec!["first", "last"]);
    assert_eq!(failed, vec![1]);
}

#[test]
fn device_lines_type_then_name_in_order() {
    let devices = vec![
        Device { device_type: "CPU".to_string(), name: "/device:CPU:0".to_string() },
        Device { device_type: "GPU".to_string(), name: "/device:GPU:0".to_string() },
    ];
    let lines = device_lines(&devices);
    assert_eq!(lines, vec!["CPU", "/device:CPU:0", "GPU", "/device:GPU:0"]);
}
