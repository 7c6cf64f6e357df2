use eval_stack::compile::{
    compile_error_message, compile_plan, has_file_name, join_path, last_component,
    source_file_name, Language,
};

#[test]
fn c_compiles_with_the_fixed_flags() {
    let plan = compile_plan(Language::C, "/ws", "/src/main.c", "/ws/out", "/home/u");
    assert!(plan.copy_source_to.is_none());
    let cmd = plan.command.expect("C has a compile step");
    assert_eq!(cmd.program, "cc");
    assert_eq!(
        cmd.args,
        vec!["-O2", "-w", "-std=c17", "/src/main.c", "-lm", "-o", "/ws/out"]
    );
}

#[test]
fn cpp_compiles_with_the_fixed_flags() {
    let plan = compile_plan(Language::CPP, "/ws", "/src/main.cpp", "/ws/out", "/home/u");
    assert!(plan.copy_source_to.is_none());
    let cmd = plan.command.expect("C++ has a compile step");
    assert_eq!(cmd.program, "c++");
    assert_eq!(
        cmd.args,
        vec!["-O2", "-w", "-std=c++20", "/src/main.cpp", "-lm", "-o", "/ws/out"]
    );
}

#[test]
fn rust_uses_the_stable_toolchain_under_home() {
    let plan = compile_plan(Language::Rust, "/ws", "/src/main.rs", "/ws/out", "/home/u");
    assert!(plan.copy_source_to.is_none());
    let cmd = plan.command.expect("Rust has a compile step");
    assert_eq!(
        cmd.program,
        "/home/u/.rustup/toolchains/stable-x86_64-unknown-linux-gnu/bin/rustc"
    );
    assert_eq!(
        cmd.args,
        vec![
            "--edition=2021",
            "/src/main.rs",
            "-C",
            "embed-bitcode=no",
            "-C",
            "opt-level=2",
            "-o",
            "/ws/out",
        ]
    );
}

#[test]
fn python_is_byte_compiled_as_validation() {
    let plan = compile_plan(Language::Python, "/ws", "/src/main.py", "/ws/out", "/home/u");
    let cmd = plan.command.expect("Python validates by byte-compiling");
    assert_eq!(cmd.program, "python3");
    assert_eq!(cmd.args, vec!["-m", "py_compile", "/src/main.py"]);
}

#[test]
fn javascript_has_no_compile_step() {
    let plan = compile_plan(Language::NodeJs, "/ws", "/src/main.js", "/ws/out", "/home/u");
    assert!(plan.command.is_none());
    assert!(plan.copy_source_to.is_none());
}

#[test]
fn go_builds_to_the_artifact() {
    let plan = compile_plan(Language::Golang, "/ws", "/src/main.go", "/ws/out", "/home/u");
    let cmd = plan.command.expect("Go has a compile step");
    assert_eq!(cmd.program, "go");
    assert_eq!(cmd.args, vec!["build", "-o", "/ws/out", "/src/main.go"]);
}

#[test]
fn java_copies_misnamed_sources_to_main_java() {
    let plan = compile_plan(Language::Java, "/ws", "/src/solution.java", "/ws/out", "/home/u");
    assert_eq!(plan.copy_source_to.as_deref(), Some("/ws/Main.java"));
    let cmd = plan.command.expect("Java has a compile step");
    assert_eq!(cmd.program, "javac");
    assert_eq!(cmd.args, vec!["/ws/Main.java"]);
}

#[test]
fn java_keeps_a_source_already_named_main_java() {
    let plan = compile_plan(Language::Java, "/ws", "/src/Main.java", "/ws/out", "/home/u");
    assert!(plan.copy_source_to.is_none());
    let cmd = plan.command.expect("Java has a compile step");
    assert_eq!(cmd.args, vec!["/ws/Main.java"]);
}

#[test]
fn path_helpers() {
    assert_eq!(join_path("/ws", "out"), "/ws/out");
    assert_eq!(join_path("/ws", "test.out"), "/ws/test.out");
    assert_eq!(last_component(&b"/a/b/c.txt".to_vec()), b"c.txt".to_vec());
    assert_eq!(last_component(&b"plain".to_vec()), b"plain".to_vec());
    assert_eq!(last_component(&b"dir/".to_vec()), b"".to_vec());
    assert!(has_file_name("/src/Main.java", "Main.java"));
    assert!(!has_file_name("/src/NotMain.java", "Main.java"));
    assert!(!has_file_name("/src/main.java", "Main.java"));
}

#[test]
fn compile_error_message_carries_the_diagnostics() {
    let message = compile_error_message("error[E0599]: no method named `frob`");
    assert_eq!(
        message,
        "Failed to compile source code: error[E0599]: no method named `frob`"
    );
}

#[test]
fn source_file_names_per_language() {
    assert_eq!(source_file_name(Language::C), "main.c");
    assert_eq!(source_file_name(Language::CPP), "main.cpp");
    assert_eq!(source_file_name(Language::Java), "Main.java");
    assert_eq!(source_file_name(Language::Python), "main.py");
    assert_eq!(source_file_name(Language::Rust), "main.rs");
    assert_eq!(source_file_name(Language::NodeJs), "main.js");
    assert_eq!(source_file_name(Language::Golang), "main.go");
}

#[test]
fn default_language_is_rust() {
    assert!(matches!(Language::default(), Language::Rust));
}
