use slang_cli::compile::{compile_outcome, CompileError, CompileShaderOptions};
use slang_cli::stage::Stage;

#[test]
fn full_request_arguments() {
    let options = CompileShaderOptions {
        stage: Some(Stage::Vertex),
        profile: Some("spirv_1_6"),
        entry_point: Some("vertexMain"),
        target: Some("spirv"),
        file: "test-shaders/bindless_triangle.slang",
    };
    assert_eq!(
        options.arguments(),
        vec![
            "-stage",
            "vertex",
            "-profile",
            "spirv_1_6",
            "-entry",
            "vertexMain",
            "-target",
            "spirv",
            "test-shaders/bindless_triangle.slang",
        ]
    );
}

#[test]
fn bare_request_arguments() {
    let options = CompileShaderOptions {
        stage: None,
        profile: None,
        entry_point: None,
        target: None,
        file: "a.slang",
    };
    assert_eq!(options.arguments(), vec!["a.slang"]);
}

#[test]
fn partial_request_arguments() {
    let options = CompileShaderOptions {
        stage: Some(Stage::ClosestHit),
        profile: None,
        entry_point: None,
        target: Some("hlsl"),
        file: "rt.slang",
    };
    assert_eq!(options.arguments(), vec!["-stage", "closesthit", "-target", "hlsl", "rt.slang"]);
}

#[test]
fn success_returns_stdout_unchanged() {
    let out = vec![0x03u8, 0x02, 0x23, 0x07, 0xff];
    assert_eq!(compile_outcome(true, out.clone(), b"warning: ignored".to_vec()), Ok(out));
}

#[test]
fn failure_returns_stderr_text() {
    let stderr = "missing.slang(0): error 1: cannot open file 'missing.slang'.\n";
    assert_eq!(
        compile_outcome(false, Vec::new(), stderr.as_bytes().to_vec()),
        Err(CompileError { message: stderr.to_string() })
    );
    let accented = "erreur: fichier « é » introuvable";
    assert_eq!(
        compile_outcome(false, vec![1, 2, 3], accented.as_bytes().to_vec()),
        Err(CompileError { message: accented.to_string() })
    );
}
