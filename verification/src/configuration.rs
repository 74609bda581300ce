//! The configuration of a build: what the `fix` command was asked to do, and the
//! decisions that follow from it.

use crate::builtin::bool_str;
use crate::decimal::{dec_str, i32_to_string, int_str, parse_usize, parse_usize_spec, u64_to_string};
use crate::lines::{lines, lines_of};
use crate::hash::{lower_hex, md5_digest_of, md5_hex};
use crate::name::{copy_string, join, join_strings, strings_view};
use crate::path::{path_file_name, path_file_name_of, path_with_file_name, path_with_file_name_of};
use vstd::prelude::*;

verus! {

pub const OPTIMIZATION_LEVEL_NONE: &'static str = "none";

pub const OPTIMIZATION_LEVEL_MINIMUM: &'static str = "minimum";

pub const OPTIMIZATION_LEVEL_SEPARATED: &'static str = "separated";

pub const OPTIMIZATION_LEVEL_DEFAULT: &'static str = "default";

/// The default maximum size of a compilation unit.
pub const DEFAULT_COMPILATION_UNIT_MAX_SIZE: usize = 500;

/// How a library is linked.
#[derive(Clone, Copy)]
pub enum LinkType {
    Static,
    Dynamic,
}

/// The tool with which `run` runs the program under valgrind.
#[derive(Clone, Copy)]
pub enum ValgrindTool {
    NoTool,
    MemCheck,
}

/// The subcommands of the `fix` command.
pub enum SubCommand {
    Build,
    Run,
    Test,
    Diagnostics(DiagnosticsConfig),
    Docs,
}

/// The configuration of the diagnostics subcommand: its target source files.
pub struct DiagnosticsConfig {
    pub files: Vec<String>,
}

impl SubCommand {
    /// Whether the preliminary commands run before the build.
    pub fn run_preliminary_commands(&self) -> (r: bool)
        ensures
            r == (self is Build || self is Run || self is Test),
    {
        match self {
            SubCommand::Build => true,
            SubCommand::Run => true,
            SubCommand::Test => true,
            SubCommand::Diagnostics(_) => false,
            SubCommand::Docs => false,
        }
    }

    /// Whether a program binary is built.
    pub fn build_binary(&self) -> (r: bool)
        ensures
            r == (self is Build || self is Run || self is Test),
    {
        match self {
            SubCommand::Build => true,
            SubCommand::Run => true,
            SubCommand::Test => true,
            SubCommand::Diagnostics(_) => false,
            SubCommand::Docs => false,
        }
    }

    /// Whether the test files are used.
    pub fn use_test_files(&self) -> (r: bool)
        ensures
            r == (self is Test || self is Diagnostics || self is Docs),
    {
        match self {
            SubCommand::Build => false,
            SubCommand::Run => false,
            SubCommand::Test => true,
            SubCommand::Diagnostics(_) => true,
            SubCommand::Docs => true,
        }
    }

    /// Whether the program is type checked.
    pub fn typecheck(&self) -> (r: bool)
        ensures
            r == !(self is Docs),
    {
        match self {
            SubCommand::Build => true,
            SubCommand::Run => true,
            SubCommand::Test => true,
            SubCommand::Diagnostics(_) => true,
            SubCommand::Docs => false,
        }
    }
}

/// A command run before the build, in a working directory.
pub struct ExtraCommand {
    pub work_dir: String,
    pub command: Vec<String>,
}

/// A command line: its words with a space between each two.
pub open spec fn command_line_of(command: Seq<String>) -> Seq<char> {
    join(strings_view(command), seq![' '])
}

/// The error when a command could not be started, for the reason `reason`.
pub open spec fn start_failure_of(command: Seq<String>, reason: Seq<char>) -> Seq<char> {
    "Failed to run command \""@ + command_line_of(command) + "\": "@ + reason
}

/// The error when a command ended with the exit code `code`, or was stopped by a signal
/// (`None`), which is reported as the code -1.
pub open spec fn exit_failure_of(command: Seq<String>, code: Option<i32>) -> Seq<char> {
    let c: int = match code {
        Some(c) => c as int,
        None => -1,
    };
    "Command \""@ + command_line_of(command) + "\" failed with exit code "@ + int_str(c) + seq!['.']
}

impl ExtraCommand {
    /// The command line, as it is shown in messages.
    pub fn command_line(&self) -> (r: String)
        ensures
            r@ == command_line_of(self.command@),
    {
        proof {
            reveal_strlit(" ");
            assert(" "@ =~= seq![' ']);
        }
        join_strings(&self.command, " ")
    }

    /// The error when the command could not be started, for the reason `reason`.
    pub fn start_failure(&self, reason: &str) -> (r: String)
        ensures
            r@ == start_failure_of(self.command@, reason@),
    {
        let mut r = String::from_str("Failed to run command \"");
        r.append(self.command_line().as_str());
        r.append("\": ");
        r.append(reason);
        r
    }

    /// What running the command comes to, given whether it succeeded and its exit code:
    /// nothing on success, else the error.
    pub fn check_status(&self, success: bool, code: Option<i32>) -> (r: Result<(), String>)
        ensures
            r is Ok <==> success,
            r matches Err(e) ==> e@ == exit_failure_of(self.command@, code),
    {
        if success {
            return Ok(());
        }
        let c: i32 = match code {
            Some(c) => c,
            None => -1,
        };
        let mut r = String::from_str("Command \"");
        r.append(self.command_line().as_str());
        r.append("\" failed with exit code ");
        r.append(i32_to_string(c).as_str());
        r.append(".");
        proof {
            reveal_strlit(".");
        }
        Err(r)
    }
}

/// The optimization levels of Fix.
#[derive(Clone, Copy)]
pub enum FixOptimizationLevel {
    /// For debugging; skips even tail call optimization.
    NoOptimization,
    /// For fast compilation.
    Minimum,
    /// Almost all optimizations but LLVM's link time optimization.
    Separated,
    /// For fast execution.
    Default,
}

/// The name of an optimization level.
pub open spec fn opt_level_str(l: FixOptimizationLevel) -> Seq<char> {
    match l {
        FixOptimizationLevel::NoOptimization => "none"@,
        FixOptimizationLevel::Minimum => "minimum"@,
        FixOptimizationLevel::Separated => "separated"@,
        FixOptimizationLevel::Default => "default"@,
    }
}

/// The optimization level that a name names.
pub open spec fn opt_level_of(s: Seq<char>) -> Option<FixOptimizationLevel> {
    if s == "none"@ {
        Some(FixOptimizationLevel::NoOptimization)
    } else if s == "minimum"@ {
        Some(FixOptimizationLevel::Minimum)
    } else if s == "separated"@ {
        Some(FixOptimizationLevel::Separated)
    } else if s == "default"@ {
        Some(FixOptimizationLevel::Default)
    } else {
        None
    }
}

impl FixOptimizationLevel {
    pub fn from_str(opt_level: &str) -> (r: Option<Self>)
        ensures
            r == opt_level_of(opt_level@),
    {
        let s = String::from_str(opt_level);
        if s == String::from_str(OPTIMIZATION_LEVEL_NONE) {
            Some(FixOptimizationLevel::NoOptimization)
        } else if s == String::from_str(OPTIMIZATION_LEVEL_MINIMUM) {
            Some(FixOptimizationLevel::Minimum)
        } else if s == String::from_str(OPTIMIZATION_LEVEL_SEPARATED) {
            Some(FixOptimizationLevel::Separated)
        } else if s == String::from_str(OPTIMIZATION_LEVEL_DEFAULT) {
            Some(FixOptimizationLevel::Default)
        } else {
            None
        }
    }

    /// The name of the level, as it is written on the command line.
    pub fn to_string(&self) -> (r: String)
        ensures
            r@ == opt_level_str(*self),
    {
        match self {
            FixOptimizationLevel::NoOptimization => String::from_str(OPTIMIZATION_LEVEL_NONE),
            FixOptimizationLevel::Minimum => String::from_str(OPTIMIZATION_LEVEL_MINIMUM),
            FixOptimizationLevel::Separated => String::from_str(OPTIMIZATION_LEVEL_SEPARATED),
            FixOptimizationLevel::Default => String::from_str(OPTIMIZATION_LEVEL_DEFAULT),
        }
    }
}

/// Reading back the name of a level gives the level.
pub proof fn lemma_opt_level_round_trip(l: FixOptimizationLevel)
    ensures
        opt_level_of(opt_level_str(l)) == Some(l),
{
    reveal_strlit("none");
    reveal_strlit("minimum");
    reveal_strlit("separated");
    reveal_strlit("default");
    assert("minimum"@.len() != "none"@.len());
    assert("separated"@.len() != "none"@.len());
    assert("separated"@.len() != "minimum"@.len());
    assert("default"@.len() != "none"@.len());
    assert("default"@.len() != "separated"@.len());
    assert("default"@[0] != "minimum"@[0]);
}

/// The optimization levels of LLVM.
#[derive(Clone, Copy)]
pub enum LlvmOptimizationLevel {
    Zero,
    Less,
    Default,
    Aggressive,
}

/// The linkage of a symbol.
#[derive(Clone, Copy)]
pub enum Linkage {
    External,
    Internal,
}

/// The CPU features the code is generated for.
pub struct CpuFeatures {
    pub avx512: bool,
}

impl CpuFeatures {
    pub fn disable_avx512(&mut self)
        ensures
            !final(self).avx512,
    {
        self.avx512 = false;
    }
}

/// The sizes, in bits, of the C types.
#[derive(Clone, Copy)]
pub struct CTypeSizes {
    pub char: usize,
    pub short: usize,
    pub int: usize,
    pub long: usize,
    pub long_long: usize,
    pub size_t: usize,
    pub float: usize,
    pub double: usize,
}

/// How the sizes are listed in the hash of the configuration.
pub open spec fn c_type_sizes_str(s: CTypeSizes) -> Seq<char> {
    "char: "@ + dec_str(s.char as nat) + ", short: "@ + dec_str(s.short as nat) + ", int: "@
        + dec_str(s.int as nat) + ", long: "@ + dec_str(s.long as nat) + ", long long: "@
        + dec_str(s.long_long as nat) + ", size_t: "@ + dec_str(s.size_t as nat) + ", float: "@
        + dec_str(s.float as nat) + ", double: "@ + dec_str(s.double as nat)
}

/// The C types that Fix names, each with its signedness class (`I`, `U` or `F`) and size.
pub open spec fn c_types_spec(s: CTypeSizes) -> Seq<(Seq<char>, Seq<char>, usize)> {
    seq![
        ("CChar"@, "I"@, s.char),
        ("CUnsignedChar"@, "U"@, s.char),
        ("CShort"@, "I"@, s.short),
        ("CUnsignedShort"@, "U"@, s.short),
        ("CInt"@, "I"@, s.int),
        ("CUnsignedInt"@, "U"@, s.int),
        ("CLong"@, "I"@, s.long),
        ("CUnsignedLong"@, "U"@, s.long),
        ("CLongLong"@, "I"@, s.long_long),
        ("CUnsignedLongLong"@, "U"@, s.long_long),
        ("CSizeT"@, "U"@, s.size_t),
        ("CFloat"@, "F"@, s.float),
        ("CDouble"@, "F"@, s.double),
    ]
}

/// The sizes that the size-checking C program printed as `output`: the first eight lines,
/// each a number of bits, for `char`, `short`, `int`, `long`, `long long`, `size_t`, `float`
/// and `double`; `None` if there are fewer lines or one is not a number.
pub open spec fn c_type_sizes_from_output(output: Seq<char>) -> Option<CTypeSizes> {
    let ls = lines_of(output);
    if ls.len() >= 8 && forall|k: int| 0 <= k < 8 ==> (#[trigger] parse_usize_spec(ls[k])) is Some {
        Some(
            CTypeSizes {
                char: parse_usize_spec(ls[0]).unwrap(),
                short: parse_usize_spec(ls[1]).unwrap(),
                int: parse_usize_spec(ls[2]).unwrap(),
                long: parse_usize_spec(ls[3]).unwrap(),
                long_long: parse_usize_spec(ls[4]).unwrap(),
                size_t: parse_usize_spec(ls[5]).unwrap(),
                float: parse_usize_spec(ls[6]).unwrap(),
                double: parse_usize_spec(ls[7]).unwrap(),
            },
        )
    } else {
        None
    }
}

impl CTypeSizes {
    /// Reads the sizes from what the size-checking C program printed.
    pub fn from_gcc_output(output: &str) -> (r: Option<CTypeSizes>)
        ensures
            r == c_type_sizes_from_output(output@),
    {
        let ls = lines(output);
        let ghost lv = strings_view(ls@);
        if ls.len() < 8 {
            return None;
        }
        let mut vals: Vec<usize> = Vec::new();
        let mut k: usize = 0;
        while k < 8
            invariant
                k <= 8,
                ls@.len() >= 8,
                lv == strings_view(ls@),
                lv == lines_of(output@),
                vals@.len() == k,
                forall|j: int| 0 <= j < k ==> parse_usize_spec(lv[j]) == Some(#[trigger] vals@[j]),
            decreases 8 - k,
        {
            match parse_usize(ls[k].as_str()) {
                Some(v) => {
                    vals.push(v);
                },
                None => {
                    assert(parse_usize_spec(lv[k as int]) is None);
                    return None;
                },
            }
            k = k + 1;
        }
        assert(forall|j: int| 0 <= j < 8 ==> (#[trigger] parse_usize_spec(lv[j])) is Some) by {
            assert forall|j: int| 0 <= j < 8 implies (#[trigger] parse_usize_spec(lv[j])) is Some by {
                assert(parse_usize_spec(lv[j]) == Some(vals@[j]));
            }
        }
        Some(
            CTypeSizes {
                char: vals[0],
                short: vals[1],
                int: vals[2],
                long: vals[3],
                long_long: vals[4],
                size_t: vals[5],
                float: vals[6],
                double: vals[7],
            },
        )
    }

    pub fn get_c_types(&self) -> (r: Vec<(&'static str, &'static str, usize)>)
        ensures
            r@.map_values(|t: (&str, &str, usize)| (t.0@, t.1@, t.2)) == c_types_spec(*self),
    {
        let mut r: Vec<(&'static str, &'static str, usize)> = Vec::new();
        r.push(("CChar", "I", self.char));
        r.push(("CUnsignedChar", "U", self.char));
        r.push(("CShort", "I", self.short));
        r.push(("CUnsignedShort", "U", self.short));
        r.push(("CInt", "I", self.int));
        r.push(("CUnsignedInt", "U", self.int));
        r.push(("CLong", "I", self.long));
        r.push(("CUnsignedLong", "U", self.long));
        r.push(("CLongLong", "I", self.long_long));
        r.push(("CUnsignedLongLong", "U", self.long_long));
        r.push(("CSizeT", "U", self.size_t));
        r.push(("CFloat", "F", self.float));
        r.push(("CDouble", "F", self.double));
        assert(r@.map_values(|t: (&str, &str, usize)| (t.0@, t.1@, t.2)) =~= c_types_spec(*self));
        r
    }

    pub fn to_string(&self) -> (r: String)
        ensures
            r@ == c_type_sizes_str(*self),
    {
        let mut r = String::from_str("char: ");
        r.append(u64_to_string(self.char as u64).as_str());
        r.append(", short: ");
        r.append(u64_to_string(self.short as u64).as_str());
        r.append(", int: ");
        r.append(u64_to_string(self.int as u64).as_str());
        r.append(", long: ");
        r.append(u64_to_string(self.long as u64).as_str());
        r.append(", long long: ");
        r.append(u64_to_string(self.long_long as u64).as_str());
        r.append(", size_t: ");
        r.append(u64_to_string(self.size_t as u64).as_str());
        r.append(", float: ");
        r.append(u64_to_string(self.float as u64).as_str());
        r.append(", double: ");
        r.append(u64_to_string(self.double as u64).as_str());
        r
    }
}

/// The options of the `build` and `run` subcommands, as given on the command line.
pub struct CommandLineOptions {
    /// The source files to compile and link.
    pub source_files: Vec<String>,
    /// The output file.
    pub out_file_path: Option<String>,
    /// Libraries to link, statically or dynamically.
    pub linked_libraries: Vec<(String, LinkType)>,
    /// Library search paths.
    pub library_search_paths: Vec<String>,
    /// Whether LLVM IR is emitted.
    pub emit_llvm: bool,
    /// Whether threads are used.
    pub threaded: bool,
    /// Whether debug information is generated.
    pub debug_info: bool,
    /// The optimization level, when given.
    pub opt_level: Option<FixOptimizationLevel>,
    /// Whether messages are verbose.
    pub verbose: bool,
    /// The maximum size of a compilation unit.
    pub max_cu_size: usize,
}

/// The configuration of a build.
pub struct Configuration {
    /// Source files.
    pub source_files: Vec<String>,
    /// Object files to be linked.
    pub object_files: Vec<String>,
    /// Whether the memory sanitizer runs.
    pub sanitize_memory: bool,
    /// Fix's optimization level.
    pub fix_opt_level: FixOptimizationLevel,
    /// Linked libraries.
    pub linked_libraries: Vec<(String, LinkType)>,
    /// Library search paths.
    pub library_search_paths: Vec<String>,
    /// Whether debug information is generated.
    pub debug_info: bool,
    /// Whether LLVM IR is emitted.
    pub emit_llvm: bool,
    /// The output file.
    pub out_file_path: Option<String>,
    /// Whether threads are used; set with `set_threaded`, which also links pthread.
    pub threaded: bool,
    /// Macros defined in the runtime.
    pub runtime_c_macro: Vec<String>,
    /// Whether the time of each build step is shown.
    pub show_build_times: bool,
    /// Verbose mode.
    pub verbose: bool,
    /// The maximum size of a compilation unit.
    pub max_cu_size: usize,
    /// The valgrind tool of `run`.
    pub valgrind_tool: ValgrindTool,
    /// The sizes of the C types.
    pub c_type_sizes: CTypeSizes,
    /// The subcommand of the `fix` command.
    pub subcommand: SubCommand,
    /// Commands run before the build.
    pub extra_commands: Vec<ExtraCommand>,
}

/// The abstract linked libraries.
pub open spec fn libraries_view(v: Seq<(String, LinkType)>) -> Seq<(Seq<char>, LinkType)> {
    v.map_values(|l: (String, LinkType)| (l.0@, l.1))
}

/// A fresh configuration: default optimization, nothing else on.
pub open spec fn is_fresh_config(c: Configuration, subcommand: SubCommand, sizes: CTypeSizes) -> bool {
    &&& c.subcommand == subcommand
    &&& c.source_files@.len() == 0
    &&& c.object_files@.len() == 0
    &&& !c.sanitize_memory
    &&& c.fix_opt_level is Default
    &&& c.linked_libraries@.len() == 0
    &&& !c.debug_info
    &&& !c.emit_llvm
    &&& c.out_file_path is None
    &&& !c.threaded
    &&& c.runtime_c_macro@.len() == 0
    &&& !c.show_build_times
    &&& !c.verbose
    &&& c.max_cu_size == DEFAULT_COMPILATION_UNIT_MAX_SIZE
    &&& c.valgrind_tool is NoTool
    &&& c.library_search_paths@.len() == 0
    &&& c.c_type_sizes == sizes
    &&& c.extra_commands@.len() == 0
}

/// The path of the LLVM IR file of a unit when no output file is given.
pub open spec fn default_ir_path(optimized: bool, unit_name: Seq<char>) -> Seq<char> {
    unit_name + if optimized {
        "_optimized.ll"@
    } else {
        ".ll"@
    }
}

/// The message when the output path has no file name.
pub open spec fn invalid_output_path_msg(path: Seq<char>) -> Seq<char> {
    "Invalid output file path: `"@ + path + "`"@
}

/// The data whose hash names the object files of a configuration.
pub open spec fn object_generation_data(c: Configuration, build_time: Seq<char>) -> Seq<char> {
    bool_str(c.sanitize_memory) + opt_level_str(c.fix_opt_level) + bool_str(c.debug_info)
        + bool_str(c.threaded) + c_type_sizes_str(c.c_type_sizes) + build_time
}

fn bool_to_string(b: bool) -> (r: String)
    ensures
        r@ == bool_str(b),
{
    if b {
        String::from_str("true")
    } else {
        String::from_str("false")
    }
}

impl Configuration {
    /// A fresh configuration for the subcommand, with the given sizes of the C types.
    pub fn new(subcommand: SubCommand, c_type_sizes: CTypeSizes) -> (r: Self)
        ensures
            is_fresh_config(r, subcommand, c_type_sizes),
    {
        Configuration {
            subcommand,
            source_files: Vec::new(),
            object_files: Vec::new(),
            sanitize_memory: false,
            fix_opt_level: FixOptimizationLevel::Default,
            linked_libraries: Vec::new(),
            debug_info: false,
            emit_llvm: false,
            out_file_path: None,
            threaded: false,
            runtime_c_macro: Vec::new(),
            show_build_times: false,
            verbose: false,
            max_cu_size: DEFAULT_COMPILATION_UNIT_MAX_SIZE,
            valgrind_tool: ValgrindTool::NoTool,
            library_search_paths: Vec::new(),
            c_type_sizes,
            extra_commands: Vec::new(),
        }
    }

    /// The configuration of a release build.
    pub fn release_mode(subcommand: SubCommand, c_type_sizes: CTypeSizes) -> (r: Configuration)
        ensures
            is_fresh_config(r, subcommand, c_type_sizes),
    {
        Self::new(subcommand, c_type_sizes)
    }

    /// The configuration for developing the compiler: `run` under memcheck.
    pub fn develop_compiler_mode(c_type_sizes: CTypeSizes) -> (r: Configuration)
        ensures
            is_fresh_config(
                Configuration { valgrind_tool: ValgrindTool::NoTool, ..r },
                SubCommand::Run,
                c_type_sizes,
            ),
            r.valgrind_tool is MemCheck,
    {
        let mut config = Self::new(SubCommand::Run, c_type_sizes);
        config.set_valgrind(ValgrindTool::MemCheck);
        config
    }

    pub fn set_valgrind(&mut self, tool: ValgrindTool)
        ensures
            *final(self) == (Configuration { valgrind_tool: tool, ..*old(self) }),
    {
        self.valgrind_tool = tool;
    }

    /// Links the dynamic library `name`, i.e. `lib{name}.so`.
    pub fn add_dyanmic_library(&mut self, name: &str)
        ensures
            libraries_view(final(self).linked_libraries@) == libraries_view(
                old(self).linked_libraries@,
            ).push((name@, LinkType::Dynamic)),
            *final(self) == (Configuration {
                linked_libraries: final(self).linked_libraries,
                ..*old(self)
            }),
    {
        let ghost before = libraries_view(self.linked_libraries@);
        self.linked_libraries.push((String::from_str(name), LinkType::Dynamic));
        assert(libraries_view(self.linked_libraries@) =~= before.push((name@, LinkType::Dynamic)));
    }

    /// The path of the LLVM IR file of a unit: beside the output file when one is given;
    /// an error when the output path has no file name.
    pub fn get_output_llvm_ir_path(&self, optimized: bool, unit_name: &str) -> (r: Result<
        String,
        String,
    >)
        ensures
            match self.out_file_path {
                None => r matches Ok(p) && p@ == default_ir_path(optimized, unit_name@),
                Some(out) => match path_file_name_of(out@) {
                    None => r matches Err(m) && m@ == invalid_output_path_msg(out@),
                    Some(f) => r matches Ok(p) && p@ == path_with_file_name_of(
                        out@,
                        f + "_"@ + default_ir_path(optimized, unit_name@),
                    ),
                },
            },
    {
        match &self.out_file_path {
            None => {
                let mut p = String::from_str(unit_name);
                if optimized {
                    p.append("_optimized.ll");
                } else {
                    p.append(".ll");
                }
                Ok(p)
            },
            Some(out_file_path) => {
                let file_name = path_file_name(out_file_path.as_str());
                match file_name {
                    None => {
                        let mut m = String::from_str("Invalid output file path: `");
                        m.append(out_file_path.as_str());
                        m.append("`");
                        Err(m)
                    },
                    Some(file_name) => {
                        let mut f = file_name;
                        f.append("_");
                        f.append(unit_name);
                        if optimized {
                            f.append("_optimized.ll");
                        } else {
                            f.append(".ll");
                        }
                        assert(f@ =~= file_name@ + "_"@ + default_ir_path(optimized, unit_name@));
                        Ok(path_with_file_name(out_file_path.as_str(), f.as_str()))
                    },
                }
            },
        }
    }

    /// The path of the executable: the output file when one is given, else `a.out`
    /// (`a.exe` on Windows).
    pub fn get_output_executable_file_path(&self, is_windows: bool) -> (r: String)
        ensures
            r@ == match self.out_file_path {
                Some(p) => p@,
                None => if is_windows {
                    "a.exe"@
                } else {
                    "a.out"@
                },
            },
    {
        match &self.out_file_path {
            None => if !is_windows {
                String::from_str("a.out")
            } else {
                String::from_str("a.exe")
            },
            Some(out_file_path) => copy_string(out_file_path),
        }
    }

    /// Turns threads on and links pthread.
    pub fn set_threaded(&mut self)
        ensures
            final(self).threaded,
            libraries_view(final(self).linked_libraries@) == libraries_view(
                old(self).linked_libraries@,
            ).push(("pthread"@, LinkType::Dynamic)),
            *final(self) == (Configuration {
                threaded: true,
                linked_libraries: final(self).linked_libraries,
                ..*old(self)
            }),
    {
        self.threaded = true;
        self.add_dyanmic_library("pthread");
    }

    pub fn set_sanitize_memory(&mut self)
        ensures
            *final(self) == (Configuration { sanitize_memory: true, ..*old(self) }),
    {
        self.sanitize_memory = true;
    }

    /// Turns debug information on, which also turns optimization off.
    pub fn set_debug_info(&mut self)
        ensures
            *final(self) == (Configuration {
                debug_info: true,
                fix_opt_level: FixOptimizationLevel::NoOptimization,
                ..*old(self)
            }),
    {
        self.debug_info = true;
        self.set_fix_opt_level(FixOptimizationLevel::NoOptimization);
    }

    pub fn set_fix_opt_level(&mut self, level: FixOptimizationLevel)
        ensures
            *final(self) == (Configuration { fix_opt_level: level, ..*old(self) }),
    {
        self.fix_opt_level = level;
    }

    /// The LLVM optimization level that Fix's level calls for.
    pub fn get_llvm_opt_level(&self) -> (r: LlvmOptimizationLevel)
        ensures
            r == match self.fix_opt_level {
                FixOptimizationLevel::NoOptimization => LlvmOptimizationLevel::Zero,
                FixOptimizationLevel::Minimum => LlvmOptimizationLevel::Less,
                FixOptimizationLevel::Separated => LlvmOptimizationLevel::Default,
                FixOptimizationLevel::Default => LlvmOptimizationLevel::Default,
            },
    {
        match self.fix_opt_level {
            FixOptimizationLevel::NoOptimization => LlvmOptimizationLevel::Zero,
            FixOptimizationLevel::Minimum => LlvmOptimizationLevel::Less,
            FixOptimizationLevel::Separated => LlvmOptimizationLevel::Default,
            FixOptimizationLevel::Default => LlvmOptimizationLevel::Default,
        }
    }

    /// Whether the uncurrying optimization runs: at the levels `separated` and `default`.
    pub fn perform_uncurry_optimization(&self) -> (r: bool)
        ensures
            r == (self.fix_opt_level is Separated || self.fix_opt_level is Default),
    {
        match self.fix_opt_level {
            FixOptimizationLevel::NoOptimization => false,
            FixOptimizationLevel::Minimum => false,
            FixOptimizationLevel::Separated => true,
            FixOptimizationLevel::Default => true,
        }
    }

    /// Whether the borrowing optimization runs: at the levels `separated` and `default`.
    pub fn perform_borrowing_optimization(&self) -> (r: bool)
        ensures
            r == (self.fix_opt_level is Separated || self.fix_opt_level is Default),
    {
        match self.fix_opt_level {
            FixOptimizationLevel::NoOptimization => false,
            FixOptimizationLevel::Minimum => false,
            FixOptimizationLevel::Separated => true,
            FixOptimizationLevel::Default => true,
        }
    }

    /// The hash of what affects the generated objects: the settings, the sizes of the C
    /// types, and the build time of the compiler.
    pub fn object_generation_hash(&self, build_time: &str) -> (r: String)
        ensures
            r@ == lower_hex(md5_digest_of(object_generation_data(*self, build_time@))),
    {
        let mut data = String::new();
        data.append(bool_to_string(self.sanitize_memory).as_str());
        data.append(self.fix_opt_level.to_string().as_str());
        data.append(bool_to_string(self.debug_info).as_str());
        data.append(bool_to_string(self.threaded).as_str());
        data.append(self.c_type_sizes.to_string().as_str());
        data.append(build_time);
        assert(data@ =~= object_generation_data(*self, build_time@));
        md5_hex(data.as_str())
    }

    /// Whether compilation is separate: at every level but `default`.
    pub fn separate_compilation(&self) -> (r: bool)
        ensures
            r == !(self.fix_opt_level is Default),
    {
        match self.fix_opt_level {
            FixOptimizationLevel::Default => false,
            _ => true,
        }
    }

    /// Disables AVX-512 when the program runs under valgrind, which does not support it.
    pub fn edit_features(&self, features: &mut CpuFeatures)
        ensures
            final(features).avx512 == (old(features).avx512 && self.valgrind_tool is NoTool),
    {
        match self.valgrind_tool {
            ValgrindTool::NoTool => {},
            _ => {
                features.disable_avx512();
            },
        }
    }

    /// The valgrind command line: the program and its arguments; an error when no tool is set.
    pub fn valgrind_command(&self) -> (r: Result<Vec<String>, String>)
        ensures
            self.valgrind_tool is NoTool ==> (r matches Err(m) && m@
                == "Valgrind tool is not specified."@),
            self.valgrind_tool is MemCheck ==> (r matches Ok(v) && strings_view(v@) == seq![
                "valgrind"@,
                "--error-exitcode=1"@,
                "--suppressions=valgrind.supp"@,
                "--tool=memcheck"@,
                "--leak-check=yes"@,
            ]),
    {
        match self.valgrind_tool {
            ValgrindTool::NoTool => Err(String::from_str("Valgrind tool is not specified.")),
            ValgrindTool::MemCheck => {
                let mut com: Vec<String> = Vec::new();
                com.push(String::from_str("valgrind"));
                // Valgrind returns 1 when it detects an error.
                com.push(String::from_str("--error-exitcode=1"));
                com.push(String::from_str("--suppressions=valgrind.supp"));
                // Memory leaks are errors.
                com.push(String::from_str("--tool=memcheck"));
                com.push(String::from_str("--leak-check=yes"));
                assert(strings_view(com@) =~= seq![
                    "valgrind"@,
                    "--error-exitcode=1"@,
                    "--suppressions=valgrind.supp"@,
                    "--tool=memcheck"@,
                    "--leak-check=yes"@,
                ]);
                Ok(com)
            },
        }
    }

    /// Applies the options given on the command line, over what the configuration holds:
    /// files, libraries and search paths are added; threads, debug information and verbosity
    /// are turned on when asked; an optimization level given explicitly overrides the one that
    /// debug information implies.
    pub fn apply_command_line(&mut self, opts: CommandLineOptions)
        ensures
            strings_view(final(self).source_files@) == strings_view(old(self).source_files@)
                + strings_view(opts.source_files@),
            final(self).out_file_path == opts.out_file_path,
            libraries_view(final(self).linked_libraries@) == libraries_view(
                old(self).linked_libraries@,
            ) + libraries_view(opts.linked_libraries@) + (if opts.threaded {
                seq![("pthread"@, LinkType::Dynamic)]
            } else {
                Seq::empty()
            }),
            strings_view(final(self).library_search_paths@) == strings_view(
                old(self).library_search_paths@,
            ) + strings_view(opts.library_search_paths@),
            final(self).emit_llvm == opts.emit_llvm,
            final(self).threaded == (old(self).threaded || opts.threaded),
            final(self).debug_info == (old(self).debug_info || opts.debug_info),
            final(self).fix_opt_level == match opts.opt_level {
                Some(l) => l,
                None => if opts.debug_info {
                    FixOptimizationLevel::NoOptimization
                } else {
                    old(self).fix_opt_level
                },
            },
            final(self).verbose == (old(self).verbose || opts.verbose),
            final(self).max_cu_size == opts.max_cu_size,
            *final(self) == (Configuration {
                source_files: final(self).source_files,
                out_file_path: final(self).out_file_path,
                linked_libraries: final(self).linked_libraries,
                library_search_paths: final(self).library_search_paths,
                emit_llvm: final(self).emit_llvm,
                threaded: final(self).threaded,
                debug_info: final(self).debug_info,
                fix_opt_level: final(self).fix_opt_level,
                verbose: final(self).verbose,
                max_cu_size: final(self).max_cu_size,
                ..*old(self)
            }),
    {
        let CommandLineOptions {
            source_files,
            out_file_path,
            linked_libraries,
            library_search_paths,
            emit_llvm,
            threaded,
            debug_info,
            opt_level,
            verbose,
            max_cu_size,
        } = opts;
        let mut source_files = source_files;
        let mut linked_libraries = linked_libraries;
        let mut library_search_paths = library_search_paths;
        let ghost sources0 = self.source_files@;
        let ghost libs0 = self.linked_libraries@;
        let ghost paths0 = self.library_search_paths@;
        let ghost new_sources = source_files@;
        let ghost new_libs = linked_libraries@;
        let ghost new_paths = library_search_paths@;
        self.source_files.append(&mut source_files);
        assert(strings_view(self.source_files@) =~= strings_view(sources0) + strings_view(
            new_sources,
        ));
        self.out_file_path = out_file_path;
        self.linked_libraries.append(&mut linked_libraries);
        assert(libraries_view(self.linked_libraries@) =~= libraries_view(libs0) + libraries_view(
            new_libs,
        ));
        self.library_search_paths.append(&mut library_search_paths);
        assert(strings_view(self.library_search_paths@) =~= strings_view(paths0) + strings_view(
            new_paths,
        ));
        self.emit_llvm = emit_llvm;
        if threaded {
            self.set_threaded();
        } else {
            assert(libraries_view(self.linked_libraries@) =~= libraries_view(self.linked_libraries@)
                + Seq::<(Seq<char>, LinkType)>::empty());
        }
        if debug_info {
            self.set_debug_info();
        }
        match opt_level {
            Some(l) => self.set_fix_opt_level(l),
            None => {},
        }
        if verbose {
            self.verbose = true;
        }
        self.max_cu_size = max_cu_size;
    }

    /// The linkage of generated symbols: external when compilation is separate.
    pub fn external_if_separated(&self) -> (r: Linkage)
        ensures
            r == if !(self.fix_opt_level is Default) {
                Linkage::External
            } else {
                Linkage::Internal
            },
    {
        if self.separate_compilation() {
            Linkage::External
        } else {
            Linkage::Internal
        }
    }
}

/// The first character of `true` and of `false` tells them apart.
proof fn lemma_bool_str_head(b: bool)
    ensures
        bool_str(b).len() > 0,
        bool_str(b)[0] == (if b { 't' } else { 'f' }),
{
    reveal_strlit("true");
    reveal_strlit("false");
}

/// The first character of the name of a level tells the levels apart.
proof fn lemma_opt_level_str_head(l: FixOptimizationLevel)
    ensures
        opt_level_str(l).len() > 0,
        opt_level_str(l)[0] == match l {
            FixOptimizationLevel::NoOptimization => 'n',
            FixOptimizationLevel::Minimum => 'm',
            FixOptimizationLevel::Separated => 's',
            FixOptimizationLevel::Default => 'd',
        },
{
    reveal_strlit("none");
    reveal_strlit("minimum");
    reveal_strlit("separated");
    reveal_strlit("default");
}

proof fn lemma_data_shape(c: Configuration, build_time: Seq<char>)
    ensures
        object_generation_data(c, build_time) == bool_str(c.sanitize_memory) + (opt_level_str(
            c.fix_opt_level,
        ) + (bool_str(c.debug_info) + (bool_str(c.threaded) + (c_type_sizes_str(c.c_type_sizes)
            + build_time)))),
{
    lemma_concat_right(
        bool_str(c.sanitize_memory),
        opt_level_str(c.fix_opt_level),
        bool_str(c.debug_info),
        bool_str(c.threaded),
        c_type_sizes_str(c.c_type_sizes),
        build_time,
    );
}

proof fn lemma_concat_right(
    a: Seq<char>,
    o: Seq<char>,
    g: Seq<char>,
    t: Seq<char>,
    z: Seq<char>,
    b: Seq<char>,
)
    ensures
        a + o + g + t + z + b == a + (o + (g + (t + (z + b)))),
{
    assert(a + o + g + t + z + b =~= a + (o + (g + (t + (z + b)))));
}

/// Of two equal concatenations, a front part whose first character differs cannot differ; one
/// of the same length gives the same rest.
proof fn lemma_peel(x1: Seq<char>, y1: Seq<char>, x2: Seq<char>, y2: Seq<char>)
    requires
        x1 + y1 == x2 + y2,
        x1.len() > 0,
        x2.len() > 0,
    ensures
        x1[0] == x2[0],
        x1.len() == x2.len() ==> x1 == x2 && y1 == y2,
{
    assert((x1 + y1)[0] == x1[0]);
    assert((x2 + y2)[0] == x2[0]);
    if x1.len() == x2.len() {
        assert(x1 =~= (x1 + y1).subrange(0, x1.len() as int));
        assert(x2 =~= (x2 + y2).subrange(0, x2.len() as int));
        assert(y1 =~= (x1 + y1).subrange(x1.len() as int, (x1 + y1).len() as int));
        assert(y2 =~= (x2 + y2).subrange(x2.len() as int, (x2 + y2).len() as int));
    }
}

/// Configurations whose hashed data are equal agree on every setting that affects the
/// generated objects: memory sanitizing, the optimization level, debug information and
/// threads. So two builds that differ in any of these never share an object file.
pub proof fn lemma_object_generation_data_distinguishes(
    c1: Configuration,
    c2: Configuration,
    build_time1: Seq<char>,
    build_time2: Seq<char>,
)
    requires
        object_generation_data(c1, build_time1) == object_generation_data(c2, build_time2),
    ensures
        c1.sanitize_memory == c2.sanitize_memory,
        c1.fix_opt_level == c2.fix_opt_level,
        c1.debug_info == c2.debug_info,
        c1.threaded == c2.threaded,
{
    let a1 = bool_str(c1.sanitize_memory);
    let a2 = bool_str(c2.sanitize_memory);
    let o1 = opt_level_str(c1.fix_opt_level);
    let o2 = opt_level_str(c2.fix_opt_level);
    let g1 = bool_str(c1.debug_info);
    let g2 = bool_str(c2.debug_info);
    let t1 = bool_str(c1.threaded);
    let t2 = bool_str(c2.threaded);
    let r1 = c_type_sizes_str(c1.c_type_sizes) + build_time1;
    let r2 = c_type_sizes_str(c2.c_type_sizes) + build_time2;
    lemma_data_shape(c1, build_time1);
    lemma_data_shape(c2, build_time2);
    lemma_bool_str_head(c1.sanitize_memory);
    lemma_bool_str_head(c2.sanitize_memory);
    lemma_peel(a1, o1 + (g1 + (t1 + r1)), a2, o2 + (g2 + (t2 + r2)));
    assert(c1.sanitize_memory == c2.sanitize_memory);
    lemma_opt_level_str_head(c1.fix_opt_level);
    lemma_opt_level_str_head(c2.fix_opt_level);
    lemma_peel(o1, g1 + (t1 + r1), o2, g2 + (t2 + r2));
    assert(c1.fix_opt_level == c2.fix_opt_level);
    lemma_bool_str_head(c1.debug_info);
    lemma_bool_str_head(c2.debug_info);
    lemma_peel(g1, t1 + r1, g2, t2 + r2);
    assert(c1.debug_info == c2.debug_info);
    lemma_bool_str_head(c1.threaded);
    lemma_bool_str_head(c2.threaded);
    lemma_peel(t1, r1, t2, r2);
}

} // verus!
