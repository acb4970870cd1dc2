use buildforge::command::{classify_tool_exit, extract_command, go_build_command, javac_command, ToolKind};
use buildforge::errors::{ConfigError, ToolError};
use buildforge::toolchain::{acquire_steps, go_suffix, java_suffix, plan_go_acquisition, plan_java_acquisition, resolve_toolchain_source, AcquireAction, ToolchainSource};

#[test]
fn go_suffix_table() {
    assert_eq!(go_suffix("linux", "x86"), Some("linux".to_string()));
    assert_eq!(go_suffix("linux", "x86_64"), Some("linux".to_string()));
    assert_eq!(go_suffix("macos", "x86"), Some(".darwin-amd64".to_string()));
    assert_eq!(go_suffix("macos", "x86_64"), Some(".darwin-amd64".to_string()));
    assert_eq!(go_suffix("macos", "aarch64"), Some(".darwin-amd64".to_string()));
    assert_eq!(go_suffix("windows", "x86"), Some("mingw-x86".to_string()));
    assert_eq!(go_suffix("windows", "x86_64"), Some("mingw".to_string()));
    assert_eq!(go_suffix("linux", "aarch64"), None);
    assert_eq!(go_suffix("freebsd", "x86_64"), None);
}

#[test]
fn java_suffix_table() {
    assert_eq!(java_suffix("linux", "x86_64"), Some("linux".to_string()));
    assert_eq!(java_suffix("macos", "aarch64"), Some("_macos-x64_bin".to_string()));
    assert_eq!(java_suffix("windows", "x86"), Some("windows-x86_bin".to_string()));
    assert_eq!(java_suffix("windows", "x86_64"), Some("windows-x64_bin".to_string()));
    assert_eq!(java_suffix("solaris", "sparc"), None);
}

#[test]
fn go_plan_paths_and_url() {
    let plan = plan_go_acquisition("linux", "x86_64", "/work/out").unwrap();
    assert_eq!(plan.dir, "/work/out/go");
    assert_eq!(plan.archive_path, "/work/out/go/go.tar.gz");
    assert_eq!(plan.marker_path, "/work/out/go/bin/go");
    assert_eq!(plan.url, "https://dl.google.com/go/go1.21.0linux.tar.gz");
}

#[test]
fn go_plan_macos_url_uses_darwin_suffix() {
    let plan = plan_go_acquisition("macos", "aarch64", "/o").unwrap();
    assert_eq!(plan.url, "https://dl.google.com/go/go1.21.0.darwin-amd64.tar.gz");
}

#[test]
fn java_plan_paths_and_fixed_url() {
    let plan = plan_java_acquisition("linux", "x86_64", "/work/out").unwrap();
    assert_eq!(plan.dir, "/work/out/java");
    assert_eq!(plan.archive_path, "/work/out/java/openjdk-11.0.2.tar.gz");
    assert_eq!(plan.marker_path, "/work/out/java/jdk-11.0.2.jdk");
    assert_eq!(
        plan.url,
        "https://download.java.net/java/GA/jdk11/9/GPL/openjdk-11.0.2_osx-x64_bin.tar.gz"
    );
}

#[test]
fn java_marker_lies_deeper_on_macos() {
    let plan = plan_java_acquisition("macos", "x86_64", "/work/out").unwrap();
    assert_eq!(
        plan.marker_path,
        "/work/out/java/jdk-11.0.2.jdk/Contents/Home"
    );
}

#[test]
fn unsupported_platform_fails_before_any_activity() {
    let err = plan_go_acquisition("plan9", "mips", "/work/out").unwrap_err();
    assert_eq!(
        err,
        ConfigError::UnsupportedPlatform {
            os: "plan9".to_string(),
            arch: "mips".to_string()
        }
    );
    let err = plan_java_acquisition("linux", "riscv64", "/work/out").unwrap_err();
    assert_eq!(
        err,
        ConfigError::UnsupportedPlatform {
            os: "linux".to_string(),
            arch: "riscv64".to_string()
        }
    );
}

#[test]
fn fresh_acquisition_downloads_then_extracts() {
    let plan = plan_go_acquisition("linux", "x86_64", "/work/out").unwrap();
    let steps = acquire_steps(&plan, false, false);
    assert_eq!(steps.len(), 2);
    match &steps[0] {
        AcquireAction::Download { url, dest } => {
            assert_eq!(url, "https://dl.google.com/go/go1.21.0linux.tar.gz");
            assert_eq!(dest, "/work/out/go/go.tar.gz");
        }
        other => panic!("expected a download first, got {:?}", other),
    }
    match &steps[1] {
        AcquireAction::Extract { archive, dest_dir } => {
            assert_eq!(archive, "/work/out/go/go.tar.gz");
            assert_eq!(dest_dir, "/work/out/go");
        }
        other => panic!("expected an extraction second, got {:?}", other),
    }
}

#[test]
fn second_acquisition_is_a_no_op() {
    let plan = plan_go_acquisition("linux", "x86_64", "/work/out").unwrap();
    let first = acquire_steps(&plan, false, false);
    assert_eq!(first.len(), 2);
    // After the first run both witnesses exist; the second run plans nothing
    // and resolves to the same directory.
    let second = acquire_steps(&plan, true, true);
    assert_eq!(second.len(), 0);
    assert_eq!(plan.dir, "/work/out/go");
}

#[test]
fn present_archive_skips_the_download() {
    let plan = plan_go_acquisition("linux", "x86_64", "/work/out").unwrap();
    let steps = acquire_steps(&plan, true, false);
    assert_eq!(steps.len(), 1);
    assert!(matches!(&steps[0], AcquireAction::Extract { .. }));
}

#[test]
fn present_marker_skips_the_extraction() {
    let plan = plan_go_acquisition("linux", "x86_64", "/work/out").unwrap();
    let steps = acquire_steps(&plan, false, true);
    assert_eq!(steps.len(), 1);
    assert!(matches!(&steps[0], AcquireAction::Download { .. }));
}

#[test]
fn override_variable_short_circuits_acquisition() {
    let r = resolve_toolchain_source(Some("/opt/custom/go".to_string()));
    assert!(matches!(r, ToolchainSource::Preset(p) if p == "/opt/custom/go"));
    let r = resolve_toolchain_source(None);
    assert!(matches!(r, ToolchainSource::Acquire));
}

#[test]
fn extract_command_shape() {
    let c = extract_command("/work/out/go/go.tar.gz", "/work/out/go");
    assert_eq!(c.program, "tar");
    assert_eq!(
        c.args,
        vec!["-xf", "/work/out/go/go.tar.gz", "--strip-components", "1"]
    );
    assert!(c.env.is_empty());
    assert_eq!(c.current_dir.as_deref(), Some("/work/out/go"));
}

#[test]
fn go_build_command_shape() {
    let c = go_build_command("/work/out/go", "/work/out", "jacobin/src");
    assert_eq!(c.program, "/work/out/go/bin/go");
    assert_eq!(c.args, vec!["build", "-o", "/work/out", "./..."]);
    assert_eq!(
        c.env,
        vec![
            ("GOOS".to_string(), "wasip1".to_string()),
            ("GOARCH".to_string(), "wasm".to_string())
        ]
    );
    assert_eq!(c.current_dir.as_deref(), Some("jacobin/src"));
}

#[test]
fn javac_command_shape() {
    let c = javac_command("/work/out/java/jdk-11.0.2.jdk", "./tests/Hello.java");
    assert_eq!(c.program, "/work/out/java/jdk-11.0.2.jdk/bin/javac");
    assert_eq!(c.args, vec!["./tests/Hello.java"]);
    assert!(c.env.is_empty());
    assert!(c.current_dir.is_none());
}

#[test]
fn tool_exit_classification() {
    assert_eq!(
        classify_tool_exit(ToolKind::Extractor, true, String::new()),
        Ok(())
    );
    assert_eq!(
        classify_tool_exit(ToolKind::Extractor, false, "tar: broken".to_string()),
        Err(ToolError::ExtractionError {
            stderr: "tar: broken".to_string()
        })
    );
    assert_eq!(
        classify_tool_exit(ToolKind::Compiler, false, "syntax error".to_string()),
        Err(ToolError::CompilationError {
            stderr: "syntax error".to_string()
        })
    );
}
