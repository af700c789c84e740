use codex::cli::app_server::{app_server_codegen_args, AppServerCodegenRequest};

fn strings(v: &[&str]) -> Vec<String> {
    v.iter().map(|s| s.to_string()).collect()
}

#[test]
fn codegen_args_plain_json_schema() {
    let request = AppServerCodegenRequest::json_schema("/out");
    assert_eq!(
        app_server_codegen_args(&request),
        strings(&["app-server", "generate-json-schema", "--out", "/out"])
    );
}

#[test]
fn codegen_args_carry_overrides_and_prettier() {
    let request = AppServerCodegenRequest::typescript("gen")
        .experimental(true)
        .config_override("model", "gpt-5")
        .profile("ci")
        .oss(true)
        .enable_feature("alpha")
        .disable_feature("beta")
        .search(true)
        .prettier("/usr/bin/prettier");
    assert_eq!(
        app_server_codegen_args(&request),
        strings(&[
            "app-server",
            "generate-ts",
            "--out",
            "gen",
            "--experimental",
            "--config",
            "model=gpt-5",
            "--profile",
            "ci",
            "--oss",
            "--enable",
            "alpha",
            "--disable",
            "beta",
            "--search",
            "--prettier",
            "/usr/bin/prettier",
        ])
    );
}
