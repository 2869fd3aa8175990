//! Compute offload: the inference targets handed to OpenVINO and the device
//! report that says which of the Arc GPU, the AI Boost NPU and the OpenVINO
//! runtime were found, with the guidance printed for what is missing.

use vstd::prelude::*;
use crate::text::{has_substring, str_contains, str_views};

verus! {

/// OpenVINO device string for offloading to the Arc GPU and the NPU together.
pub const OFFLOAD_DEVICE: &'static str = "MULTI:GPU,NPU";

/// OpenVINO device string for the CPU-only fallback.
pub const CPU_DEVICE: &'static str = "CPU";

/// What happened when the OpenVINO runtime was started.
#[derive(Debug, Clone, Copy, PartialEq, Eq, Structural)]
pub enum RuntimeProbe {
    /// The runtime initialized.
    Initialized,
    /// The runtime returned an initialization error.
    InitFailed,
    /// The runtime aborted while loading (a library API mismatch or a missing library).
    Aborted,
}

/// Guidance for installing the OpenVINO runtime.
pub open spec fn install_help() -> Seq<Seq<char>> {
    seq!["    Install: download from https://storage.openvinotoolkit.org/"@, "    Then:  export LD_LIBRARY_PATH=/path/to/openvino/runtime/lib/intel64"@]
}

/// The lines that report the OpenVINO runtime's state.
pub open spec fn runtime_report(runtime: RuntimeProbe, library_path: Seq<char>) -> Seq<Seq<char>> {
    match runtime {
        RuntimeProbe::Initialized => seq!["  ✓ OpenVINO runtime loaded successfully"@],
        RuntimeProbe::InitFailed => seq!["  ✗ OpenVINO runtime failed to initialize"@] + install_help(),
        RuntimeProbe::Aborted => if has_substring(library_path, "openvino"@) {
            seq!["  ⚠ OpenVINO library found but API version mismatch"@, "    The openvino Rust crate v0.6 uses the legacy IE C API,"@, "    but your OpenVINO 2024 runtime exports the 2.0 API."@, "    → Fix: Update to openvino crate v0.7+ when available,"@, "      or use OpenVINO via Python/C++ bindings directly."@]
        } else {
            seq!["  ✗ OpenVINO runtime not available"@] + install_help()
        },
    }
}

/// The full device report: the GPU counts as present when its PCI device file
/// had any content, the library as present when the library path mentions `openvino`.
pub open spec fn device_report_lines(
    gpu_device: Seq<char>,
    npu_present: bool,
    runtime: RuntimeProbe,
    library_path: Seq<char>,
) -> Seq<Seq<char>> {
    seq!["[Compute] Available compute hardware:"@]
        + seq![if gpu_device.len() > 0 {
            "  ✓ Intel Arc Graphics (Meteor Lake-P) detected"@
        } else {
            "  ✗ Intel Arc GPU not detected"@
        }]
        + seq![if npu_present {
            "  ✓ Intel AI Boost NPU detected"@
        } else {
            "  ✗ Intel NPU not detected"@
        }]
        + runtime_report(runtime, library_path)
        + seq![""@, "[Compute] Direct GPU compute via wgpu (Layer 3) is available without OpenVINO."@, "[Compute] For AI inference, use OpenVINO Python or C++ bindings."@]
}

/// The GPU line reports the Arc GPU as detected exactly when its PCI device file
/// had content, whatever the NPU probe found; the NPU line reports the NPU as
/// detected exactly when its PCI node exists, whatever the GPU file held.
pub proof fn lemma_device_lines_follow_their_own_probe(
    gpu_device: Seq<char>,
    other_gpu_device: Seq<char>,
    npu_present: bool,
    other_npu_present: bool,
    runtime: RuntimeProbe,
    library_path: Seq<char>,
)
    ensures
        device_report_lines(gpu_device, npu_present, runtime, library_path)[1] == device_report_lines(
            gpu_device,
            other_npu_present,
            runtime,
            library_path,
        )[1],
        device_report_lines(gpu_device, npu_present, runtime, library_path)[2] == device_report_lines(
            other_gpu_device,
            npu_present,
            runtime,
            library_path,
        )[2],
        (device_report_lines(gpu_device, npu_present, runtime, library_path)[1]
            == "  ✓ Intel Arc Graphics (Meteor Lake-P) detected"@) == (gpu_device.len() > 0),
        (device_report_lines(gpu_device, npu_present, runtime, library_path)[2]
            == "  ✓ Intel AI Boost NPU detected"@) == npu_present,
{
    reveal_strlit("  ✓ Intel Arc Graphics (Meteor Lake-P) detected");
    reveal_strlit("  ✗ Intel Arc GPU not detected");
    reveal_strlit("  ✓ Intel AI Boost NPU detected");
    reveal_strlit("  ✗ Intel NPU not detected");
    assert("  ✓ Intel Arc Graphics (Meteor Lake-P) detected"@.len() != "  ✗ Intel Arc GPU not detected"@.len());
    assert("  ✓ Intel AI Boost NPU detected"@.len() != "  ✗ Intel NPU not detected"@.len());
}

/// The runtime line right after the two hardware lines says: loaded exactly when
/// the runtime initialized; failed to initialize exactly when it returned an
/// error; a library/API mismatch exactly when it aborted while the library path
/// mentions `openvino`; not available exactly when it aborted otherwise. The
/// report always opens with its heading and closes with the direct-compute note.
pub proof fn lemma_runtime_line_follows_probe(
    gpu_device: Seq<char>,
    npu_present: bool,
    runtime: RuntimeProbe,
    library_path: Seq<char>,
)
    ensures
        ({
            let lines = device_report_lines(gpu_device, npu_present, runtime, library_path);
            &&& lines.len() >= 7
            &&& lines[0] == "[Compute] Available compute hardware:"@
            &&& (lines[3] == "  ✓ OpenVINO runtime loaded successfully"@) == (runtime == RuntimeProbe::Initialized)
            &&& (lines[3] == "  ✗ OpenVINO runtime failed to initialize"@) == (runtime == RuntimeProbe::InitFailed)
            &&& (lines[3] == "  ⚠ OpenVINO library found but API version mismatch"@) == (runtime == RuntimeProbe::Aborted && has_substring(
                library_path,
                "openvino"@,
            ))
            &&& (lines[3] == "  ✗ OpenVINO runtime not available"@) == (runtime == RuntimeProbe::Aborted && !has_substring(
                library_path,
                "openvino"@,
            ))
            &&& lines[lines.len() - 1] == "[Compute] For AI inference, use OpenVINO Python or C++ bindings."@
        }),
{
    reveal_strlit("  ✓ OpenVINO runtime loaded successfully");
    reveal_strlit("  ✗ OpenVINO runtime failed to initialize");
    reveal_strlit("  ⚠ OpenVINO library found but API version mismatch");
    reveal_strlit("  ✗ OpenVINO runtime not available");
    assert("  ✓ OpenVINO runtime loaded successfully"@.len() != "  ✗ OpenVINO runtime failed to initialize"@.len());
    assert("  ✓ OpenVINO runtime loaded successfully"@.len() != "  ⚠ OpenVINO library found but API version mismatch"@.len());
    assert("  ✓ OpenVINO runtime loaded successfully"@.len() != "  ✗ OpenVINO runtime not available"@.len());
    assert("  ✗ OpenVINO runtime failed to initialize"@.len() != "  ⚠ OpenVINO library found but API version mismatch"@.len());
    assert("  ✗ OpenVINO runtime failed to initialize"@.len() != "  ✗ OpenVINO runtime not available"@.len());
    assert("  ⚠ OpenVINO library found but API version mismatch"@.len() != "  ✗ OpenVINO runtime not available"@.len());
}

fn push_install_help(lines: &mut Vec<&'static str>)
    ensures
        str_views(final(lines)@) == str_views(old(lines)@) + install_help(),
{
    let ghost before = lines@;
    lines.push("    Install: download from https://storage.openvinotoolkit.org/");
    lines.push("    Then:  export LD_LIBRARY_PATH=/path/to/openvino/runtime/lib/intel64");
    assert(str_views(lines@) =~= str_views(before) + install_help());
}

/// Reports the available compute devices and the OpenVINO runtime's state,
/// one line per entry, from the contents of the GPU's PCI device file (empty when
/// unreadable), whether the NPU's PCI node exists, how the runtime probe ended,
/// and the dynamic library search path.
pub fn device_report(
    gpu_device: &str,
    npu_present: bool,
    runtime: RuntimeProbe,
    library_path: &str,
) -> (lines: Vec<&'static str>)
    ensures
        str_views(lines@) == device_report_lines(gpu_device@, npu_present, runtime, library_path@),
{
    let library_found = str_contains(library_path, "openvino");
    let mut lines: Vec<&'static str> = Vec::new();
    lines.push("[Compute] Available compute hardware:");
    if gpu_device.unicode_len() > 0 {
        lines.push("  ✓ Intel Arc Graphics (Meteor Lake-P) detected");
    } else {
        lines.push("  ✗ Intel Arc GPU not detected");
    }
    if npu_present {
        lines.push("  ✓ Intel AI Boost NPU detected");
    } else {
        lines.push("  ✗ Intel NPU not detected");
    }
    let ghost head = lines@;
    match runtime {
        RuntimeProbe::Initialized => {
            lines.push("  ✓ OpenVINO runtime loaded successfully");
        },
        RuntimeProbe::InitFailed => {
            lines.push("  ✗ OpenVINO runtime failed to initialize");
            push_install_help(&mut lines);
        },
        RuntimeProbe::Aborted => {
            if library_found {
                lines.push("  ⚠ OpenVINO library found but API version mismatch");
                lines.push("    The openvino Rust crate v0.6 uses the legacy IE C API,");
                lines.push("    but your OpenVINO 2024 runtime exports the 2.0 API.");
                lines.push("    → Fix: Update to openvino crate v0.7+ when available,");
                lines.push("      or use OpenVINO via Python/C++ bindings directly.");
            } else {
                lines.push("  ✗ OpenVINO runtime not available");
                push_install_help(&mut lines);
            }
        },
    }
    assert(str_views(lines@) =~= str_views(head) + runtime_report(runtime, library_path@));
    let ghost mid = lines@;
    lines.push("");
    lines.push("[Compute] Direct GPU compute via wgpu (Layer 3) is available without OpenVINO.");
    lines.push("[Compute] For AI inference, use OpenVINO Python or C++ bindings.");
    assert(str_views(lines@) =~= str_views(mid) + seq![""@, "[Compute] Direct GPU compute via wgpu (Layer 3) is available without OpenVINO."@, "[Compute] For AI inference, use OpenVINO Python or C++ bindings."@]);
    assert(str_views(lines@) =~= device_report_lines(gpu_device@, npu_present, runtime, library_path@));
    lines
}

} // verus!
