use intel_mac_parity::compute_offload::{device_report, RuntimeProbe, CPU_DEVICE, OFFLOAD_DEVICE};

const TAIL: [&str; 3] = [
    "",
    "[Compute] Direct GPU compute via wgpu (Layer 3) is available without OpenVINO.",
    "[Compute] For AI inference, use OpenVINO Python or C++ bindings.",
];

#[test]
fn device_strings() {
    assert_eq!(OFFLOAD_DEVICE, "MULTI:GPU,NPU");
    assert_eq!(CPU_DEVICE, "CPU");
}

#[test]
fn everything_present() {
    let r = device_report("0x7d55\n", true, RuntimeProbe::Initialized, "");
    let mut expected = vec![
        "[Compute] Available compute hardware:",
        "  ✓ Intel Arc Graphics (Meteor Lake-P) detected",
        "  ✓ Intel AI Boost NPU detected",
        "  ✓ OpenVINO runtime loaded successfully",
    ];
    expected.extend(TAIL);
    assert_eq!(r, expected);
}

#[test]
fn nothing_present() {
    let r = device_report("", false, RuntimeProbe::InitFailed, "/usr/lib");
    let mut expected = vec![
        "[Compute] Available compute hardware:",
        "  ✗ Intel Arc GPU not detected",
        "  ✗ Intel NPU not detected",
        "  ✗ OpenVINO runtime failed to initialize",
        "    Install: download from https://storage.openvinotoolkit.org/",
        "    Then:  export LD_LIBRARY_PATH=/path/to/openvino/runtime/lib/intel64",
    ];
    expected.extend(TAIL);
    assert_eq!(r, expected);
}

#[test]
fn aborted_runtime_with_library_on_path() {
    let r = device_report("x", true, RuntimeProbe::Aborted, "/opt/intel/openvino_2024/runtime/lib/intel64");
    assert_eq!(r[3], "  ⚠ OpenVINO library found but API version mismatch");
    assert_eq!(r[7], "      or use OpenVINO via Python/C++ bindings directly.");
    assert_eq!(r.len(), 11);
}

#[test]
fn aborted_runtime_without_library() {
    let r = device_report("x", false, RuntimeProbe::Aborted, "");
    assert_eq!(r[3], "  ✗ OpenVINO runtime not available");
    assert_eq!(r[4], "    Install: download from https://storage.openvinotoolkit.org/");
    assert_eq!(r.len(), 9);
}
