use skia_safe::pipeline::gn_args;
use skia_safe::pipeline::link_libs;
use skia_safe::pipeline::parse_target;
use skia_safe::pipeline::str_ends_with;
use skia_safe::pipeline::str_eq;
use skia_safe::pipeline::str_starts_with;
use skia_safe::pipeline::BuildConfig;
use skia_safe::pipeline::Decl;
use skia_safe::pipeline::DeclGenerator;
use skia_safe::pipeline::DeclKind;
use skia_safe::pipeline::Pipeline;
use skia_safe::pipeline::Stage;
use skia_safe::pipeline::generate_text;
use skia_safe::pipeline::split_string;

fn default_config() -> BuildConfig {
    BuildConfig {
        skia_release: true,
        keep_inline_functions: true,
        vulkan: false,
        svg: true,
        animation: false,
        dng: false,
        particles: false,
        on_windows: false,
        force_build_libs: false,
    }
}

#[test]
fn string_helpers() {
    assert!(str_eq("abc", "abc"));
    assert!(!str_eq("abc", "abd"));
    assert!(!str_eq("abc", "ab"));
    assert!(str_starts_with("C_SkFont_destruct", "C_"));
    assert!(!str_starts_with("SkFont", "C_"));
    assert!(str_ends_with("SaveLayerFlags", "Flags"));
    assert!(!str_ends_with("Flag", "Flags"));
}

#[test]
fn splitting_targets() {
    let parts = split_string("x86_64-unknown-linux-gnu", '-');
    assert_eq!(parts.len(), 4);
    assert_eq!(parts[0], "x86_64");
    assert_eq!(parts[3], "gnu");
    let empties = split_string("a--b", '-');
    assert_eq!(empties.len(), 3);
    assert_eq!(empties[1], "");
}

#[test]
fn parsing_targets() {
    let t = parse_target("x86_64-unknown-linux-gnu").unwrap();
    assert_eq!(t.arch, "x86_64");
    assert_eq!(t.vendor, "unknown");
    assert_eq!(t.os, "linux");
    assert_eq!(t.abi.as_deref(), Some("gnu"));
    let short = parse_target("x86_64-linux");
    assert!(short.is_none());
    let mac = parse_target("aarch64-apple-darwin").unwrap();
    assert!(mac.abi.is_none());
}

#[test]
fn linkage_resolves_known_tuples_only() {
    let linux = parse_target("x86_64-unknown-linux-gnu").unwrap();
    let l = link_libs(&linux).unwrap();
    assert_eq!(
        l.libs,
        vec!["stdc++", "bz2", "GL", "fontconfig", "freetype"]
    );
    assert!(!l.force_build_libs);
    let mac = parse_target("aarch64-apple-darwin").unwrap();
    let m = link_libs(&mac).unwrap();
    assert_eq!(m.libs[0], "c++");
    assert!(m.force_build_libs);
    let win = parse_target("x86_64-pc-windows-msvc").unwrap();
    let w = link_libs(&win).unwrap();
    assert_eq!(w.libs.len(), 6);
    let odd = parse_target("wasm32-unknown-emscripten").unwrap();
    assert!(link_libs(&odd).is_none());
}

#[test]
fn build_arguments_follow_the_configuration() {
    let args = gn_args(&default_config());
    assert_eq!(args[0].0, "is_official_build");
    assert_eq!(args[0].1, "true");
    assert_eq!(args[1].0, "skia_use_expat");
    assert_eq!(args[1].1, "true");
    assert_eq!(args[12].0, "cc");
    assert_eq!(args[12].1, "\"clang\"");
    let last = args.last().unwrap();
    assert_eq!(last.0, "extra_cflags");
    assert_eq!(last.1, "[\"-fno-inline-functions\"]");
}

#[test]
fn windows_arguments_switch_the_flags() {
    let mut c = default_config();
    c.on_windows = true;
    let args = gn_args(&c);
    let last = args.last().unwrap();
    assert_eq!(last.1, "[\"/MD\",\"/Ob0\"]");
    assert!(args.iter().any(|a| a.0 == "clang_win"));
    let mut v = default_config();
    v.vulkan = true;
    v.keep_inline_functions = false;
    let args = gn_args(&v);
    let last = args.last().unwrap();
    assert_eq!(last.0, "skia_enable_spirv_validation");
    assert!(args.iter().any(|a| a.0 == "skia_use_vulkan" && a.1 == "true"));
}

fn decl(name: &str, kind: DeclKind) -> Decl {
    Decl { name: name.to_string(), kind }
}

#[test]
fn the_filter_keeps_the_allow_list_and_drops_the_deny_list() {
    let decls = vec![
        decl("C_SkFont_destruct", DeclKind::Function),
        decl("SkSecretInternal", DeclKind::Function),
        decl("SkColorFilter_asComponentTable", DeclKind::Function),
        decl("SkRGBToHSV", DeclKind::Function),
        decl("SkDashPathEffect", DeclKind::Type),
        decl("SkUnknownType", DeclKind::Type),
        decl("SK_ColorRED", DeclKind::Var),
        decl("kSomethingElse", DeclKind::Var),
        decl("GrGLBackendState", DeclKind::Type),
    ];
    let text = generate_text(&decls);
    assert_eq!(
        text,
        "C_SkFont_destruct\nSkRGBToHSV\nSkDashPathEffect\nSK_ColorRED\nconst GrGLBackendState\n"
    );
}

#[test]
fn generation_is_idempotent_over_unchanged_inputs() {
    let decls = vec![
        decl("C_SkCanvas_delete", DeclKind::Function),
        decl("SkCubicMap", DeclKind::Type),
    ];
    let mut generator = DeclGenerator::new();
    let first = generator.run(&decls);
    let second = generator.run(&decls);
    assert_eq!(first, second);
    let changed = vec![decl("C_SkCanvas_delete", DeclKind::Function)];
    let third = generator.run(&changed);
    assert_eq!(third, "C_SkCanvas_delete\n");
}

#[test]
fn the_pipeline_walks_its_stages_in_order() {
    let mut p = Pipeline::new();
    assert_eq!(p.current_stage(), Some(Stage::Provision));
    p.report(0, String::new());
    assert_eq!(p.current_stage(), Some(Stage::Configure));
    p.report(0, String::new());
    p.report(0, String::new());
    assert_eq!(p.current_stage(), Some(Stage::GenerateDeclarations));
    p.report(0, String::new());
    assert_eq!(p.current_stage(), Some(Stage::Emit));
    p.report(0, String::new());
    assert_eq!(p.current_stage(), None);
}

#[test]
fn a_failed_stage_is_fatal() {
    let mut p = Pipeline::new();
    p.report(0, String::new());
    p.report(1, "generator exploded".to_string());
    assert_eq!(p.current_stage(), None);
    p.report(0, String::new());
    assert_eq!(p.current_stage(), None);
}
