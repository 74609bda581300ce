use fixlang::compile_unit::CompileUnit;
use fixlang::configuration::{
    CTypeSizes, CommandLineOptions, Configuration, CpuFeatures, DiagnosticsConfig, ExtraCommand,
    FixOptimizationLevel, LinkType, Linkage, LlvmOptimizationLevel, SubCommand, ValgrindTool,
};
use fixlang::hash::md5_hex;
use fixlang::misc::{
    error_exit_with_src, error_exit_with_srcs, temporary_source_name, temporary_source_path,
};
use fixlang::expr::Span;
use fixlang::name::FullName;

fn sizes() -> CTypeSizes {
    CTypeSizes {
        char: 8,
        short: 16,
        int: 32,
        long: 64,
        long_long: 64,
        size_t: 64,
        float: 32,
        double: 64,
    }
}

fn md5_of(data: &str) -> String {
    format!("{:x}", md5::compute(data))
}

#[test]
fn md5_in_hexadecimal() {
    assert_eq!(md5_hex(""), "d41d8cd98f00b204e9800998ecf8427e");
    assert_eq!(md5_hex("abc"), "900150983cd24fb0d6963f7d28e17f72");
    assert_eq!(md5_hex("fix"), md5_of("fix"));
}

#[test]
fn subcommands_decide_what_runs() {
    assert!(SubCommand::Build.build_binary());
    assert!(SubCommand::Run.build_binary());
    assert!(!SubCommand::Docs.build_binary());
    assert!(SubCommand::Test.use_test_files());
    assert!(!SubCommand::Run.use_test_files());
    assert!(!SubCommand::Docs.typecheck());
    let diag = SubCommand::Diagnostics(DiagnosticsConfig { files: vec![] });
    assert!(diag.typecheck());
    assert!(!diag.build_binary());
    assert!(SubCommand::Build.run_preliminary_commands());
}

#[test]
fn optimization_level_names() {
    for l in [
        FixOptimizationLevel::NoOptimization,
        FixOptimizationLevel::Minimum,
        FixOptimizationLevel::Separated,
        FixOptimizationLevel::Default,
    ] {
        let name = l.to_string();
        assert_eq!(FixOptimizationLevel::from_str(&name).map(|m| m.to_string()), Some(name));
    }
    assert_eq!(FixOptimizationLevel::NoOptimization.to_string(), "none");
    assert!(FixOptimizationLevel::from_str("fast").is_none());
}

#[test]
fn a_fresh_configuration() {
    let c = Configuration::new(SubCommand::Build, sizes());
    assert!(matches!(c.fix_opt_level, FixOptimizationLevel::Default));
    assert!(!c.separate_compilation());
    assert!(matches!(c.external_if_separated(), Linkage::Internal));
    assert!(matches!(c.get_llvm_opt_level(), LlvmOptimizationLevel::Default));
    assert_eq!(c.get_output_executable_file_path(false), "a.out");
    assert_eq!(c.get_output_executable_file_path(true), "a.exe");
    assert_eq!(c.get_output_llvm_ir_path(false, "main").unwrap(), "main.ll");
    assert_eq!(c.get_output_llvm_ir_path(true, "main").unwrap(), "main_optimized.ll");
    assert!(c.linked_libraries.is_empty());
}

#[test]
fn output_paths_beside_the_output_file() {
    let mut c = Configuration::new(SubCommand::Build, sizes());
    c.out_file_path = Some("out/prog".to_string());
    assert_eq!(c.get_output_executable_file_path(false), "out/prog");
    assert_eq!(c.get_output_llvm_ir_path(false, "main").unwrap(), "out/prog_main.ll");
    assert_eq!(c.get_output_llvm_ir_path(true, "u1").unwrap(), "out/prog_u1_optimized.ll");
    c.out_file_path = Some("..".to_string());
    assert_eq!(
        c.get_output_llvm_ir_path(false, "main").err(),
        Some("Invalid output file path: `..`".to_string())
    );
}

#[test]
fn settings_and_what_follows_from_them() {
    let mut c = Configuration::new(SubCommand::Run, sizes());
    c.set_threaded();
    assert!(c.threaded);
    assert_eq!(c.linked_libraries.len(), 1);
    assert_eq!(c.linked_libraries[0].0, "pthread");
    assert!(matches!(c.linked_libraries[0].1, LinkType::Dynamic));
    c.add_dyanmic_library("m");
    assert_eq!(c.linked_libraries[1].0, "m");
    c.set_debug_info();
    assert!(c.debug_info);
    assert!(matches!(c.fix_opt_level, FixOptimizationLevel::NoOptimization));
    assert!(matches!(c.get_llvm_opt_level(), LlvmOptimizationLevel::Zero));
    assert!(c.separate_compilation());
    assert!(matches!(c.external_if_separated(), Linkage::External));
    c.set_fix_opt_level(FixOptimizationLevel::Minimum);
    assert!(matches!(c.get_llvm_opt_level(), LlvmOptimizationLevel::Less));
    c.set_sanitize_memory();
    assert!(c.sanitize_memory);
}

#[test]
fn valgrind_settings() {
    let mut c = Configuration::new(SubCommand::Run, sizes());
    assert_eq!(c.valgrind_command().err(), Some("Valgrind tool is not specified.".to_string()));
    let mut f = CpuFeatures { avx512: true };
    c.edit_features(&mut f);
    assert!(f.avx512);
    c.set_valgrind(ValgrindTool::MemCheck);
    assert_eq!(
        c.valgrind_command().unwrap(),
        vec![
            "valgrind",
            "--error-exitcode=1",
            "--suppressions=valgrind.supp",
            "--tool=memcheck",
            "--leak-check=yes"
        ]
    );
    c.edit_features(&mut f);
    assert!(!f.avx512);
}

#[test]
fn c_type_sizes() {
    let s = sizes();
    assert_eq!(
        s.to_string(),
        "char: 8, short: 16, int: 32, long: 64, long long: 64, size_t: 64, float: 32, double: 64"
    );
    let types = s.get_c_types();
    assert_eq!(types.len(), 13);
    assert_eq!(types[0], ("CChar", "I", 8));
    assert_eq!(types[10], ("CSizeT", "U", 64));
    assert_eq!(types[12], ("CDouble", "F", 64));
}

#[test]
fn c_type_sizes_from_the_checking_program() {
    let out = "8\n16\n32\n64\n64\n64\n32\n64\n";
    let s = CTypeSizes::from_gcc_output(out).unwrap();
    assert_eq!(s.to_string(), sizes().to_string());
    let s = CTypeSizes::from_gcc_output("8\r\n16\r\n32\r\n32\r\n64\r\n32\r\n32\r\n64").unwrap();
    assert_eq!(s.long, 32);
    assert_eq!(s.double, 64);
    assert!(CTypeSizes::from_gcc_output("8\n16\n32\n").is_none());
    assert!(CTypeSizes::from_gcc_output("8\n16\n32\n64\nx\n64\n32\n64\n").is_none());
}

#[test]
fn object_generation_hash_covers_the_settings() {
    let c = Configuration::new(SubCommand::Build, sizes());
    let data = format!("falsedefaultfalsefalse{}2024-01-01", sizes().to_string());
    assert_eq!(c.object_generation_hash("2024-01-01"), md5_of(&data));
    let mut d = Configuration::new(SubCommand::Build, sizes());
    d.set_sanitize_memory();
    assert_ne!(c.object_generation_hash("t"), d.object_generation_hash("t"));
}

#[test]
fn extra_command_results() {
    let com = ExtraCommand {
        work_dir: ".".to_string(),
        command: vec!["make".to_string(), "all".to_string()],
    };
    assert_eq!(com.command_line(), "make all");
    assert!(com.check_status(true, Some(0)).is_ok());
    assert_eq!(
        com.check_status(false, Some(2)).err(),
        Some("Command \"make all\" failed with exit code 2.".to_string())
    );
    assert_eq!(
        com.check_status(false, None).err(),
        Some("Command \"make all\" failed with exit code -1.".to_string())
    );
    assert_eq!(
        com.start_failure("not found"),
        "Failed to run command \"make all\": not found"
    );
}

#[test]
fn error_messages_with_sources() {
    assert_eq!(error_exit_with_src("bad", &None), "bad\n");
    assert_eq!(error_exit_with_src("bad", &Some(Span { start: 1, end: 4 })), "bad\n\n1..4");
    let a = Some(Span { start: 1, end: 4 });
    let b = None;
    let c = Some(Span { start: 10, end: 12 });
    assert_eq!(error_exit_with_srcs("bad", &[&a, &b, &c]), "bad\n\n1..4\n10..12");
    assert_eq!(error_exit_with_srcs("bad", &[]), "bad\n");
}

#[test]
fn temporary_source_files() {
    assert_eq!(temporary_source_name("main.fix", "abc"), "main.fix.abc.fix");
    assert_eq!(
        temporary_source_path("main.fix", "abc"),
        ".fixlang/intermediate/main.fix.abc.fix"
    );
}

#[test]
fn compilation_units_are_named_by_their_symbols() {
    let c = Configuration::new(SubCommand::Build, sizes());
    let symbols = vec![
        FullName::from_strs(&["Main"], "main"),
        FullName::from_strs(&["Std", "Array"], "fill"),
    ];
    let hashes = vec![
        ("Std".to_string(), "h1".to_string()),
        ("Main".to_string(), "h2".to_string()),
    ];
    let unit = CompileUnit::new(&symbols, &hashes, &c, "t", false);
    let data = format!("{}Main::mainh2Std::Array::fillh1", c.object_generation_hash("t"));
    let hash = md5_of(&data);
    assert_eq!(unit.obj_path(), format!(".fixlang/intermediate/units/{}.o", hash));
    assert!(!unit.is_cached());
    assert_eq!(unit.symbols().len(), 2);
    assert!(CompileUnit::is_cached_among(&symbols, &hashes, &c, "t", &vec![hash.clone()]));
    assert!(!CompileUnit::is_cached_among(&symbols, &hashes, &c, "t", &vec!["x".to_string()]));
    let mut unit = unit;
    unit.set_unit_hash("abc".to_string());
    assert_eq!(unit.obj_path(), ".fixlang/intermediate/units/abc.o");
    assert_eq!(
        unit.to_string(),
        "CompileUnit(hash = abc, symbols[0] = Main::main, symbols[-1] = Std::Array::fill, is_cached = false)"
    );
    let empty = CompileUnit::new(&[], &hashes, &c, "t", true);
    assert_eq!(
        empty.to_string(),
        format!("CompileUnit(hash = {}, symbols[0] = N/A, symbols[-1] = N/A, is_cached = true)", md5_of(&c.object_generation_hash("t")))
    );
}

#[test]
fn command_line_options_over_a_configuration() {
    let mut c = Configuration::new(SubCommand::Build, sizes());
    c.apply_command_line(CommandLineOptions {
        source_files: vec!["main.fix".to_string()],
        out_file_path: Some("prog".to_string()),
        linked_libraries: vec![("abc".to_string(), LinkType::Static)],
        library_search_paths: vec!["lib".to_string()],
        emit_llvm: true,
        threaded: true,
        debug_info: true,
        opt_level: None,
        verbose: false,
        max_cu_size: 20,
    });
    assert_eq!(c.source_files, vec!["main.fix".to_string()]);
    assert_eq!(c.out_file_path, Some("prog".to_string()));
    let libs: Vec<String> = c.linked_libraries.iter().map(|l| l.0.clone()).collect();
    assert_eq!(libs, vec!["abc".to_string(), "pthread".to_string()]);
    assert!(matches!(c.linked_libraries[0].1, LinkType::Static));
    assert_eq!(c.library_search_paths, vec!["lib".to_string()]);
    assert!(c.emit_llvm && c.threaded && c.debug_info && !c.verbose);
    assert!(matches!(c.fix_opt_level, FixOptimizationLevel::NoOptimization));
    assert_eq!(c.max_cu_size, 20);

    // An optimization level given explicitly wins over the one debugging implies.
    let mut c = Configuration::new(SubCommand::Build, sizes());
    c.apply_command_line(CommandLineOptions {
        source_files: vec![],
        out_file_path: None,
        linked_libraries: vec![],
        library_search_paths: vec![],
        emit_llvm: false,
        threaded: false,
        debug_info: true,
        opt_level: Some(FixOptimizationLevel::Separated),
        verbose: true,
        max_cu_size: 500,
    });
    assert!(matches!(c.fix_opt_level, FixOptimizationLevel::Separated));
    assert!(c.debug_info && c.verbose);
    assert!(c.linked_libraries.is_empty());
}
