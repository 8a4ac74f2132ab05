//! The decisions of the GNA device demo: reading its command line, choosing
//! where the native library comes from, planning a stress run, and laying
//! out the affine model's operands in device memory.
use vstd::prelude::*;
use crate::text::{parse_unsigned, parse_unsigned_exec, starts_with_char, str_eq};

verus! {

/// How many inferences a stress run makes when none is given.
pub const DEFAULT_STRESS_ITERATIONS: usize = 1000;

/// How long one inference request is waited for, in milliseconds.
pub const INFERENCE_WAIT_MS: u32 = 1000;

/// What the demo's command line asks for.
pub struct DemoOptions {
    /// A library file or directory given by `--dll` or as a bare argument.
    pub dll_path: Option<String>,
    /// An environment variable that names the library, given by `--env`.
    pub env_var: Option<String>,
    /// Whether a stress run was asked for.
    pub stress: bool,
    /// The number of stress iterations.
    pub iterations: Option<usize>,
    /// The length of a stress run, in seconds.
    pub duration: Option<u64>,
    /// The stress-test queue depth, at least 1.
    pub concurrency: usize,
}

/// The options of the demo, with texts as character sequences.
pub struct DemoOptionsModel {
    pub dll_path: Option<Seq<char>>,
    pub env_var: Option<Seq<char>>,
    pub stress: bool,
    pub iterations: Option<usize>,
    pub duration: Option<u64>,
    pub concurrency: usize,
}

/// The characters of an optional text.
pub open spec fn opt_text(s: Option<String>) -> Option<Seq<char>> {
    match s {
        Some(t) => Some(t@),
        None => None,
    }
}

impl View for DemoOptions {
    type V = DemoOptionsModel;

    open spec fn view(&self) -> DemoOptionsModel {
        DemoOptionsModel {
            dll_path: opt_text(self.dll_path),
            env_var: opt_text(self.env_var),
            stress: self.stress,
            iterations: self.iterations,
            duration: self.duration,
            concurrency: self.concurrency,
        }
    }
}

/// A command line the demo refuses.
#[derive(Debug, Clone, Copy, PartialEq, Eq, Structural)]
pub enum CliError {
    /// `--dll` is the last argument.
    MissingDllPath,
    /// `--env` is the last argument.
    MissingEnvVar,
    /// `--duration` is not followed by a number of seconds.
    InvalidDuration,
    /// `--concurrency` is not followed by a number.
    InvalidConcurrency,
}

/// The message the demo prints for a refused command line.
pub open spec fn cli_error_text(e: CliError) -> Seq<char> {
    match e {
        CliError::MissingDllPath => "Error: --dll requires a path argument."@,
        CliError::MissingEnvVar => "Error: --env requires an environment variable name."@,
        CliError::InvalidDuration => "Error: --duration requires integer seconds."@,
        CliError::InvalidConcurrency => "Error: --concurrency requires a positive integer."@,
    }
}

impl CliError {
    /// The message the demo prints for this error.
    pub fn message(&self) -> (res: &'static str)
        ensures
            res@ == cli_error_text(*self),
    {
        match self {
            CliError::MissingDllPath => "Error: --dll requires a path argument.",
            CliError::MissingEnvVar => "Error: --env requires an environment variable name.",
            CliError::InvalidDuration => "Error: --duration requires integer seconds.",
            CliError::InvalidConcurrency => "Error: --concurrency requires a positive integer.",
        }
    }
}

/// What the demo does after reading its command line.
pub enum CliCommand {
    /// Run with these options.
    Run(DemoOptions),
    /// Print the usage text.
    Help,
    /// Report this unknown option, then print the usage text.
    UnknownOption(String),
    /// Report this error.
    Invalid(CliError),
}

/// What the demo does after reading its command line, with texts as
/// character sequences.
pub enum CliCommandModel {
    Run(DemoOptionsModel),
    Help,
    UnknownOption(Seq<char>),
    Invalid(CliError),
}

impl View for CliCommand {
    type V = CliCommandModel;

    open spec fn view(&self) -> CliCommandModel {
        match self {
            CliCommand::Run(o) => CliCommandModel::Run(o@),
            CliCommand::Help => CliCommandModel::Help,
            CliCommand::UnknownOption(s) => CliCommandModel::UnknownOption(s@),
            CliCommand::Invalid(e) => CliCommandModel::Invalid(*e),
        }
    }
}

/// The options before any argument is read: no library given, no stress
/// run, a queue depth of 1.
pub open spec fn default_options() -> DemoOptionsModel {
    DemoOptionsModel {
        dll_path: None,
        env_var: None,
        stress: false,
        iterations: None,
        duration: None,
        concurrency: 1,
    }
}

/// The value an option takes: the argument after index `i`, if any.
pub open spec fn arg_after(args: Seq<Seq<char>>, i: nat) -> Option<Seq<char>> {
    if i + 1 < args.len() {
        Some(args[i + 1 as int])
    } else {
        None
    }
}

/// The stress iteration count that `--stress` followed by `next` sets: the
/// number `next` reads as, else the default.
pub open spec fn stress_iterations(next: Option<Seq<char>>) -> usize {
    match next {
        Some(v) => match parse_unsigned(v, usize::MAX as nat) {
            Some(k) => k as usize,
            None => DEFAULT_STRESS_ITERATIONS,
        },
        None => DEFAULT_STRESS_ITERATIONS,
    }
}

/// Reads the arguments from index `i` on, the options read so far being `o`.
/// `--dll`, `--env`, `--stress`, `--duration` and `--concurrency` take the
/// next argument as their value (`--stress` takes it whether or not it is a
/// number); `--help` and `-h` stop with the usage text; any other argument
/// that starts with `-` is an unknown option; any other argument is a library
/// path.
pub open spec fn parse_args_from(args: Seq<Seq<char>>, i: nat, o: DemoOptionsModel) -> CliCommandModel
    decreases args.len() + 1 - i,
{
    if i >= args.len() {
        CliCommandModel::Run(o)
    } else {
        let arg = args[i as int];
        let next = arg_after(args, i);
        if arg == "--dll"@ {
            match next {
                Some(v) => parse_args_from(
                    args,
                    i + 2,
                    DemoOptionsModel { dll_path: Some(v), ..o },
                ),
                None => CliCommandModel::Invalid(CliError::MissingDllPath),
            }
        } else if arg == "--env"@ {
            match next {
                Some(v) => parse_args_from(
                    args,
                    i + 2,
                    DemoOptionsModel { env_var: Some(v), ..o },
                ),
                None => CliCommandModel::Invalid(CliError::MissingEnvVar),
            }
        } else if arg == "--stress"@ {
            parse_args_from(
                args,
                i + 2,
                DemoOptionsModel { stress: true, iterations: Some(stress_iterations(next)), ..o },
            )
        } else if arg == "--duration"@ {
            match next {
                Some(v) => match parse_unsigned(v, u64::MAX as nat) {
                    Some(k) => parse_args_from(
                        args,
                        i + 2,
                        DemoOptionsModel { stress: true, duration: Some(k as u64), ..o },
                    ),
                    None => CliCommandModel::Invalid(CliError::InvalidDuration),
                },
                None => CliCommandModel::Invalid(CliError::InvalidDuration),
            }
        } else if arg == "--concurrency"@ {
            match next {
                Some(v) => match parse_unsigned(v, usize::MAX as nat) {
                    Some(k) => parse_args_from(
                        args,
                        i + 2,
                        DemoOptionsModel {
                            concurrency: if k == 0 {
                                1
                            } else {
                                k as usize
                            },
                            ..o
                        },
                    ),
                    None => CliCommandModel::Invalid(CliError::InvalidConcurrency),
                },
                None => CliCommandModel::Invalid(CliError::InvalidConcurrency),
            }
        } else if arg == "--help"@ || arg == "-h"@ {
            CliCommandModel::Help
        } else if arg.len() > 0 && arg[0] == '-' {
            CliCommandModel::UnknownOption(arg)
        } else {
            parse_args_from(args, i + 1, DemoOptionsModel { dll_path: Some(arg), ..o })
        }
    }
}

/// The characters of each argument.
pub open spec fn arg_texts(args: Seq<String>) -> Seq<Seq<char>> {
    args.map_values(|s: String| s@)
}

/// Reads the demo's arguments (the program name left out).
pub fn parse_args(args: &Vec<String>) -> (res: CliCommand)
    ensures
        res@ == parse_args_from(arg_texts(args@), 0, default_options()),
{
    let ghost texts = arg_texts(args@);
    let n = args.len();
    let mut o = DemoOptions {
        dll_path: None,
        env_var: None,
        stress: false,
        iterations: None,
        duration: None,
        concurrency: 1,
    };
    let mut i: usize = 0;
    assert(o@ == default_options());
    while i < n
        invariant
            n == args@.len(),
            texts == arg_texts(args@),
            texts.len() == n,
            i <= n,
            parse_args_from(texts, 0, default_options()) == parse_args_from(texts, i as nat, o@),
        decreases n - i,
    {
        let ghost i0 = i as nat;
        let arg = args[i].as_str();
        assert(texts[i as int] == args@[i as int]@);
        let has_next = i + 1 < n;
        proof {
            if has_next {
                assert(texts[i + 1] == args@[i + 1]@);
            }
        }
        if str_eq(arg, "--dll") {
            if has_next {
                o.dll_path = Some(args[i + 1].clone());
                i = i + 2;
            } else {
                return CliCommand::Invalid(CliError::MissingDllPath);
            }
        } else if str_eq(arg, "--env") {
            if has_next {
                o.env_var = Some(args[i + 1].clone());
                i = i + 2;
            } else {
                return CliCommand::Invalid(CliError::MissingEnvVar);
            }
        } else if str_eq(arg, "--stress") {
            let mut count = DEFAULT_STRESS_ITERATIONS;
            if has_next {
                if let Some(k) = parse_unsigned_exec(args[i + 1].as_str(), usize::MAX as u64) {
                    count = k as usize;
                }
            }
            assert(usize::MAX as u64 == usize::MAX);
            assert(count == stress_iterations(arg_after(texts, i0)));
            o.stress = true;
            o.iterations = Some(count);
            proof {
                if !has_next {
                    assert(parse_args_from(texts, i0 + 2, o@) == CliCommandModel::Run(o@));
                    assert(parse_args_from(texts, n as nat, o@) == CliCommandModel::Run(o@));
                }
            }
            i = if has_next {
                i + 2
            } else {
                n
            };
        } else if str_eq(arg, "--duration") {
            if !has_next {
                return CliCommand::Invalid(CliError::InvalidDuration);
            }
            match parse_unsigned_exec(args[i + 1].as_str(), u64::MAX) {
                Some(k) => {
                    o.stress = true;
                    o.duration = Some(k);
                    i = i + 2;
                },
                None => {
                    return CliCommand::Invalid(CliError::InvalidDuration);
                },
            }
        } else if str_eq(arg, "--concurrency") {
            if !has_next {
                return CliCommand::Invalid(CliError::InvalidConcurrency);
            }
            match parse_unsigned_exec(args[i + 1].as_str(), usize::MAX as u64) {
                Some(k) => {
                    o.concurrency = if k == 0 {
                        1
                    } else {
                        k as usize
                    };
                    i = i + 2;
                },
                None => {
                    return CliCommand::Invalid(CliError::InvalidConcurrency);
                },
            }
        } else if str_eq(arg, "--help") || str_eq(arg, "-h") {
            return CliCommand::Help;
        } else if starts_with_char(arg, '-') {
            return CliCommand::UnknownOption(args[i].clone());
        } else {
            o.dll_path = Some(args[i].clone());
            i = i + 1;
        }
    }
    CliCommand::Run(o)
}

/// Options are consistent when the queue depth is at least 1 and a stress
/// run is asked for exactly when an iteration count or a duration is given.
pub open spec fn options_consistent(o: DemoOptionsModel) -> bool {
    &&& o.concurrency >= 1
    &&& o.stress == (o.iterations is Some || o.duration is Some)
}

/// Reading arguments keeps options consistent.
pub proof fn lemma_parse_args_from_consistent(args: Seq<Seq<char>>, i: nat, o: DemoOptionsModel)
    requires
        options_consistent(o),
    ensures
        parse_args_from(args, i, o) matches CliCommandModel::Run(r) ==> options_consistent(r),
    decreases args.len() + 1 - i,
{
    if i < args.len() {
        let arg = args[i as int];
        let next = arg_after(args, i);
        if arg == "--dll"@ {
            if next is Some {
                lemma_parse_args_from_consistent(args, i + 2, DemoOptionsModel { dll_path: next, ..o });
            }
        } else if arg == "--env"@ {
            if next is Some {
                lemma_parse_args_from_consistent(args, i + 2, DemoOptionsModel { env_var: next, ..o });
            }
        } else if arg == "--stress"@ {
            lemma_parse_args_from_consistent(
                args,
                i + 2,
                DemoOptionsModel { stress: true, iterations: Some(stress_iterations(next)), ..o },
            );
        } else if arg == "--duration"@ {
            if next is Some {
                if let Some(k) = parse_unsigned(next->0, u64::MAX as nat) {
                    lemma_parse_args_from_consistent(
                        args,
                        i + 2,
                        DemoOptionsModel { stress: true, duration: Some(k as u64), ..o },
                    );
                }
            }
        } else if arg == "--concurrency"@ {
            if next is Some {
                if let Some(k) = parse_unsigned(next->0, usize::MAX as nat) {
                    lemma_parse_args_from_consistent(
                        args,
                        i + 2,
                        DemoOptionsModel {
                            concurrency: if k == 0 {
                                1
                            } else {
                                k as usize
                            },
                            ..o
                        },
                    );
                }
            }
        } else if arg == "--help"@ || arg == "-h"@ {
        } else if arg.len() > 0 && arg[0] == '-' {
        } else {
            lemma_parse_args_from_consistent(args, i + 1, DemoOptionsModel { dll_path: Some(arg), ..o });
        }
    }
}

/// Whatever the command line, options that the demo runs with have a queue
/// depth of at least 1, and ask for a stress run exactly when they give an
/// iteration count or a duration.
pub proof fn lemma_parsed_options_consistent(args: Seq<Seq<char>>)
    ensures
        parse_args_from(args, 0, default_options()) matches CliCommandModel::Run(r)
            ==> options_consistent(r),
{
    lemma_parse_args_from_consistent(args, 0, default_options());
}

/// The demo's usage text for the program name `program`, one line per
/// option, each line ending with a newline.
pub open spec fn usage_text_spec(program: Seq<char>) -> Seq<char> {
    "Usage: "@ + program + " [OPTIONS]\n"@ + "\n"@ + "Options:\n"@
        + "  --dll <PATH>               Load DLL directly from a file or directory\n"@
        + "  --env <VAR_NAME>           Load DLL from an environment variable\n"@
        + "  --stress [ITERATIONS]      Run stress test (default: 1000 iterations)\n"@
        + "  --duration <SECS>          Run stress test for a duration\n"@
        + "  --concurrency <N>          Stress-test queue depth (default: 1)\n"@
        + "  --help, -h                 Show this help message\n"@ + "\n"@
        + "Without options, GNA_LIB_PATH, GNA_LIB_DIR, the current directory, and\n"@
        + "the system library search path are checked in that order.\n"@
}

/// The demo's usage text for the program name `program`.
pub fn usage_text(program: &str) -> (res: String)
    ensures
        res@ == usage_text_spec(program@),
{
    let mut s = String::from_str("Usage: ");
    s.append(program);
    s.append(" [OPTIONS]\n");
    s.append("\n");
    s.append("Options:\n");
    s.append("  --dll <PATH>               Load DLL directly from a file or directory\n");
    s.append("  --env <VAR_NAME>           Load DLL from an environment variable\n");
    s.append("  --stress [ITERATIONS]      Run stress test (default: 1000 iterations)\n");
    s.append("  --duration <SECS>          Run stress test for a duration\n");
    s.append("  --concurrency <N>          Stress-test queue depth (default: 1)\n");
    s.append("  --help, -h                 Show this help message\n");
    s.append("\n");
    s.append("Without options, GNA_LIB_PATH, GNA_LIB_DIR, the current directory, and\n");
    s.append("the system library search path are checked in that order.\n");
    s
}

/// Where the native library is loaded from.
pub enum LibrarySource {
    /// A file or directory.
    Path(String),
    /// The file named by an environment variable.
    EnvVar(String),
    /// The default search: GNA_LIB_PATH, GNA_LIB_DIR, the current directory,
    /// then the system library search path.
    Default,
}

/// Where the native library is loaded from, with texts as character sequences.
pub enum LibrarySourceModel {
    Path(Seq<char>),
    EnvVar(Seq<char>),
    Default,
}

impl View for LibrarySource {
    type V = LibrarySourceModel;

    open spec fn view(&self) -> LibrarySourceModel {
        match self {
            LibrarySource::Path(p) => LibrarySourceModel::Path(p@),
            LibrarySource::EnvVar(v) => LibrarySourceModel::EnvVar(v@),
            LibrarySource::Default => LibrarySourceModel::Default,
        }
    }
}

/// A given path comes first, then a given environment variable, then the
/// default search.
pub open spec fn library_source_of(o: DemoOptionsModel) -> LibrarySourceModel {
    match o.dll_path {
        Some(p) => LibrarySourceModel::Path(p),
        None => match o.env_var {
            Some(v) => LibrarySourceModel::EnvVar(v),
            None => LibrarySourceModel::Default,
        },
    }
}

/// Chooses where the library is loaded from: a given path first, else a
/// given environment variable, else the default search.
pub fn library_source(options: &DemoOptions) -> (res: LibrarySource)
    ensures
        res@ == library_source_of(options@),
{
    match &options.dll_path {
        Some(p) => LibrarySource::Path(p.clone()),
        None => match &options.env_var {
            Some(v) => LibrarySource::EnvVar(v.clone()),
            None => LibrarySource::Default,
        },
    }
}

/// How long a stress run goes on.
#[derive(Debug, Clone, Copy, PartialEq, Eq, Structural)]
pub enum StressLimit {
    /// For this many seconds, with the iteration count as given, if any.
    ForDuration { seconds: u64, iterations: Option<usize> },
    /// For this many iterations.
    Iterations(usize),
}

/// A stress run lasts the given duration (keeping the given iteration
/// count, if any) when a duration is given, else the given iteration count,
/// else the default iteration count.
pub fn stress_limit(iterations: Option<usize>, duration: Option<u64>) -> (res: StressLimit)
    ensures
        duration is Some ==> res == (StressLimit::ForDuration { seconds: duration->0, iterations }),
        duration is None ==> res == StressLimit::Iterations(
            if iterations is Some {
                iterations->0
            } else {
                DEFAULT_STRESS_ITERATIONS
            },
        ),
{
    match duration {
        Some(seconds) => StressLimit::ForDuration { seconds, iterations },
        None => StressLimit::Iterations(
            match iterations {
                Some(k) => k,
                None => DEFAULT_STRESS_ITERATIONS,
            },
        ),
    }
}

/// Input width of the demo's fully connected affine layer.
pub const MODEL_WIDTH: u32 = 16;

/// Output height of the demo's fully connected affine layer.
pub const MODEL_HEIGHT: u32 = 16;

/// Batch size of the demo's model.
pub const MODEL_BATCH: u32 = 1;

/// Size of the device memory allocated for the model, in bytes.
pub const MODEL_MEMORY_BYTES: usize = 64 * 1024;

/// The element type of a tensor in the model memory.
#[derive(Debug, Clone, Copy, PartialEq, Eq, Structural)]
pub enum TensorDataType {
    /// 16-bit signed integers.
    Int16,
    /// 32-bit signed integers.
    Int32,
}

/// The size of one element of the type, in bytes.
pub open spec fn data_type_bytes(t: TensorDataType) -> int {
    match t {
        TensorDataType::Int16 => 2,
        TensorDataType::Int32 => 4,
    }
}

/// A row-major tensor placed in the model's device memory.
#[derive(Debug, Clone, Copy, PartialEq, Eq, Structural)]
pub struct TensorRegion {
    /// Byte offset of the tensor from the start of the model memory.
    pub offset: usize,
    pub rows: u32,
    pub cols: u32,
    /// The element type.
    pub data_type: TensorDataType,
    /// Size of one element in bytes (2 for `i16`, 4 for `i32`).
    pub element_bytes: usize,
}

/// The number of bytes a region spans.
pub open spec fn region_bytes(r: TensorRegion) -> int {
    r.rows * r.cols * r.element_bytes
}

/// Whether two regions share no byte.
pub open spec fn regions_disjoint(a: TensorRegion, b: TensorRegion) -> bool {
    a.offset + region_bytes(a) <= b.offset || b.offset + region_bytes(b) <= a.offset
}

/// Whether a region lies inside memory of `total` bytes, aligned to its element size.
pub open spec fn region_placed(r: TensorRegion, total: int) -> bool {
    &&& r.element_bytes == data_type_bytes(r.data_type)
    &&& r.offset % r.element_bytes == 0
    &&& r.offset + region_bytes(r) <= total
}

/// Where the affine layer's operands lie in the model memory.
#[derive(Debug, Clone, Copy, PartialEq, Eq, Structural)]
pub struct ModelLayout {
    /// The input vector, `i16`, width by batch.
    pub inputs: TensorRegion,
    /// The output vector, `i32`, height by batch.
    pub outputs: TensorRegion,
    /// The weight matrix, `i16`, height by width.
    pub weights: TensorRegion,
    /// The bias vector, `i32`, height.
    pub biases: TensorRegion,
    /// Whether an activation function follows the affine layer.
    pub activation: bool,
}

/// Whether a layout is sound: every region lies, aligned, in the model
/// memory; no two regions overlap; and the shapes agree with
/// `outputs = weights * inputs + biases`.
pub open spec fn layout_sound(l: ModelLayout) -> bool {
    &&& region_placed(l.inputs, MODEL_MEMORY_BYTES as int)
    &&& region_placed(l.outputs, MODEL_MEMORY_BYTES as int)
    &&& region_placed(l.weights, MODEL_MEMORY_BYTES as int)
    &&& region_placed(l.biases, MODEL_MEMORY_BYTES as int)
    &&& regions_disjoint(l.inputs, l.outputs)
    &&& regions_disjoint(l.inputs, l.weights)
    &&& regions_disjoint(l.inputs, l.biases)
    &&& regions_disjoint(l.outputs, l.weights)
    &&& regions_disjoint(l.outputs, l.biases)
    &&& regions_disjoint(l.weights, l.biases)
    &&& l.weights.cols == l.inputs.rows
    &&& l.weights.rows == l.outputs.rows
    &&& l.inputs.cols == l.outputs.cols
    &&& l.biases.rows == l.outputs.rows
    &&& l.biases.cols == 1
}

/// The demo's model layout: a single fully connected affine layer with no
/// activation; `i16` inputs at byte 0, `i32` outputs at 4096, `i16` weights
/// at 8192, `i32` biases at 12288. It is sound.
pub fn model_layout() -> (res: ModelLayout)
    ensures
        res.inputs == (TensorRegion { offset: 0, rows: MODEL_WIDTH, cols: MODEL_BATCH, data_type: TensorDataType::Int16, element_bytes: 2 }),
        res.outputs == (TensorRegion { offset: 4096, rows: MODEL_HEIGHT, cols: MODEL_BATCH, data_type: TensorDataType::Int32, element_bytes: 4 }),
        res.weights == (TensorRegion { offset: 8192, rows: MODEL_HEIGHT, cols: MODEL_WIDTH, data_type: TensorDataType::Int16, element_bytes: 2 }),
        res.biases == (TensorRegion { offset: 12288, rows: MODEL_HEIGHT, cols: 1, data_type: TensorDataType::Int32, element_bytes: 4 }),
        !res.activation,
        layout_sound(res),
{
    let res = ModelLayout {
        inputs: TensorRegion { offset: 0, rows: MODEL_WIDTH, cols: MODEL_BATCH, data_type: TensorDataType::Int16, element_bytes: 2 },
        outputs: TensorRegion { offset: 4096, rows: MODEL_HEIGHT, cols: MODEL_BATCH, data_type: TensorDataType::Int32, element_bytes: 4 },
        weights: TensorRegion { offset: 8192, rows: MODEL_HEIGHT, cols: MODEL_WIDTH, data_type: TensorDataType::Int16, element_bytes: 2 },
        biases: TensorRegion { offset: 12288, rows: MODEL_HEIGHT, cols: 1, data_type: TensorDataType::Int32, element_bytes: 4 },
        activation: false,
    };
    assert(MODEL_WIDTH == 16 && MODEL_HEIGHT == 16 && MODEL_BATCH == 1);
    assert(16u32 * 1u32 * 2usize == 32);
    assert(16u32 * 16u32 * 2usize == 512);
    assert(region_bytes(res.inputs) == 32);
    assert(region_bytes(res.outputs) == 64);
    assert(region_bytes(res.weights) == 512);
    assert(region_bytes(res.biases) == 64);
    res
}

/// The operation of the model whose operands the request binds: its only layer.
pub const MODEL_OPERATION_INDEX: u32 = 0;

/// The operand index of the inputs in the affine layer.
pub const INPUT_OPERAND_INDEX: u32 = 0;

/// The operand index of the outputs in the affine layer.
pub const OUTPUT_OPERAND_INDEX: u32 = 1;

/// How a request is accelerated.
#[derive(Debug, Clone, Copy, PartialEq, Eq, Structural)]
pub enum AccelerationMode {
    /// The device chooses the best mode available.
    Auto,
}

/// The acceleration mode the demo asks for: automatic.
pub fn demo_acceleration_mode() -> (res: AccelerationMode)
    ensures
        res == AccelerationMode::Auto,
{
    AccelerationMode::Auto
}

/// The values the demo loads into the model memory: every input and weight
/// 1, every bias 0, and every output cleared to 0 before the run.
pub struct ModelOperands {
    pub inputs: Vec<i16>,
    pub outputs: Vec<i32>,
    pub weights: Vec<i16>,
    pub biases: Vec<i32>,
}

/// The demo's operand values, one per element of the layout's regions.
pub fn model_operands() -> (res: ModelOperands)
    ensures
        res.inputs@.len() == MODEL_WIDTH * MODEL_BATCH,
        res.weights@.len() == MODEL_WIDTH * MODEL_HEIGHT,
        res.biases@.len() == MODEL_HEIGHT,
        res.outputs@.len() == MODEL_HEIGHT * MODEL_BATCH,
        forall|i: int| 0 <= i < res.inputs@.len() ==> #[trigger] res.inputs@[i] == 1,
        forall|i: int| 0 <= i < res.outputs@.len() ==> #[trigger] res.outputs@[i] == 0,
        forall|i: int| 0 <= i < res.weights@.len() ==> #[trigger] res.weights@[i] == 1,
        forall|i: int| 0 <= i < res.biases@.len() ==> #[trigger] res.biases@[i] == 0,
{
    let mut inputs: Vec<i16> = Vec::new();
    let mut weights: Vec<i16> = Vec::new();
    let mut biases: Vec<i32> = Vec::new();
    let mut outputs: Vec<i32> = Vec::new();
    let n_outputs = (MODEL_HEIGHT * MODEL_BATCH) as usize;
    let n_inputs = (MODEL_WIDTH * MODEL_BATCH) as usize;
    let n_weights = (MODEL_WIDTH * MODEL_HEIGHT) as usize;
    let n_biases = MODEL_HEIGHT as usize;
    for _i in 0..n_inputs
        invariant
            forall|j: int| 0 <= j < inputs@.len() ==> #[trigger] inputs@[j] == 1,
            inputs@.len() == _i,
    {
        inputs.push(1);
    }
    for _i in 0..n_weights
        invariant
            forall|j: int| 0 <= j < weights@.len() ==> #[trigger] weights@[j] == 1,
            weights@.len() == _i,
    {
        weights.push(1);
    }
    for _i in 0..n_biases
        invariant
            forall|j: int| 0 <= j < biases@.len() ==> #[trigger] biases@[j] == 0,
            biases@.len() == _i,
    {
        biases.push(0);
    }
    for _i in 0..n_outputs
        invariant
            forall|j: int| 0 <= j < outputs@.len() ==> #[trigger] outputs@[j] == 0,
            outputs@.len() == _i,
    {
        outputs.push(0);
    }
    ModelOperands { inputs, outputs, weights, biases }
}

/// The dot product of two sequences of `i16`, over the first `n` positions.
pub open spec fn dot(a: Seq<i16>, b: Seq<i16>, n: nat) -> int
    decreases n,
{
    if n == 0 {
        0
    } else {
        dot(a, b, (n - 1) as nat) + a[n - 1] * b[n - 1]
    }
}

/// Output `row` of the fully connected affine layer: the dot product of
/// weight row `row` (row-major, `MODEL_WIDTH` wide) with the inputs, plus
/// the row's bias.
pub open spec fn affine_output(weights: Seq<i16>, inputs: Seq<i16>, biases: Seq<i32>, row: int) -> int {
    dot(weights.subrange(row * MODEL_WIDTH, row * MODEL_WIDTH + MODEL_WIDTH), inputs, MODEL_WIDTH as nat)
        + biases[row]
}

/// The dot product of `n` ones with `n` ones is `n`.
pub proof fn lemma_dot_of_ones(a: Seq<i16>, b: Seq<i16>, n: nat)
    requires
        n <= a.len(),
        n <= b.len(),
        forall|i: int| 0 <= i < n ==> #[trigger] a[i] == 1,
        forall|i: int| 0 <= i < n ==> #[trigger] b[i] == 1,
    ensures
        dot(a, b, n) == n,
    decreases n,
{
    if n > 0 {
        lemma_dot_of_ones(a, b, (n - 1) as nat);
        assert(a[n - 1] == 1 && b[n - 1] == 1);
    }
}

/// With the demo's operands (every input and weight 1, every bias 0), every
/// output of the affine layer is `MODEL_WIDTH`, that is 16.
pub proof fn lemma_demo_outputs(weights: Seq<i16>, inputs: Seq<i16>, biases: Seq<i32>)
    requires
        weights.len() == MODEL_WIDTH * MODEL_HEIGHT,
        inputs.len() == MODEL_WIDTH * MODEL_BATCH,
        biases.len() == MODEL_HEIGHT,
        forall|i: int| 0 <= i < weights.len() ==> #[trigger] weights[i] == 1,
        forall|i: int| 0 <= i < inputs.len() ==> #[trigger] inputs[i] == 1,
        forall|i: int| 0 <= i < biases.len() ==> #[trigger] biases[i] == 0,
    ensures
        forall|row: int| 0 <= row < MODEL_HEIGHT ==> #[trigger] affine_output(weights, inputs, biases, row) == 16,
{
    assert forall|row: int| 0 <= row < MODEL_HEIGHT implies #[trigger] affine_output(
        weights,
        inputs,
        biases,
        row,
    ) == 16 by {
        let w = weights.subrange(row * MODEL_WIDTH, row * MODEL_WIDTH + MODEL_WIDTH);
        assert(row * MODEL_WIDTH + MODEL_WIDTH <= MODEL_WIDTH * MODEL_HEIGHT) by (nonlinear_arith)
            requires
                0 <= row < MODEL_HEIGHT,
                MODEL_WIDTH == 16,
                MODEL_HEIGHT == 16,
        ;
        assert forall|i: int| 0 <= i < MODEL_WIDTH implies #[trigger] w[i] == 1 by {
            assert(w[i] == weights[row * MODEL_WIDTH + i]);
        }
        lemma_dot_of_ones(w, inputs, MODEL_WIDTH as nat);
    }
}

/// The device calls of a demo run, in the order they are made.
#[derive(Debug, Clone, Copy, PartialEq, Eq, Structural)]
pub enum DemoStep {
    /// Allocate the model memory.
    AllocateMemory,
    /// Build the affine model in that memory.
    BuildModel,
    /// Create the request configuration for the model.
    CreateRequest,
    /// Point the request's input operand at the inputs.
    SetInputBuffer,
    /// Point the request's output operand at the outputs.
    SetOutputBuffer,
    /// Ask for automatic acceleration.
    SetAccelerationMode,
    /// Run the stress test and print its summary.
    RunStress,
    /// Turn on the performance counter.
    EnablePerformanceCounter,
    /// Enqueue one inference request.
    Enqueue,
    /// Wait for that request.
    Wait,
    /// Read and print the performance statistics.
    ReadStats,
    /// Read and print the outputs.
    ReadOutputs,
}

/// A failed device call that ends the run.
#[derive(Debug, Clone, Copy, PartialEq, Eq, Structural)]
pub enum DemoFailure {
    AllocateMemory,
    BuildModel,
    CreateRequest,
    SetInputBuffer,
    SetOutputBuffer,
    StressTest,
    Enqueue,
    Wait,
}

/// The message printed, before the device's own error, when a run fails.
pub open spec fn demo_failure_text(f: DemoFailure) -> Seq<char> {
    match f {
        DemoFailure::AllocateMemory => "Failed to allocate model memory"@,
        DemoFailure::BuildModel => "Failed to compile model"@,
        DemoFailure::CreateRequest => "Failed to create request config"@,
        DemoFailure::SetInputBuffer => "Failed to set input buffer"@,
        DemoFailure::SetOutputBuffer => "Failed to set output buffer"@,
        DemoFailure::StressTest => "Stress test failed"@,
        DemoFailure::Enqueue => "Enqueue failed"@,
        DemoFailure::Wait => "Inference failed / timed out"@,
    }
}

impl DemoFailure {
    /// The message printed, before the device's own error, for this failure.
    pub fn message(&self) -> (res: &'static str)
        ensures
            res@ == demo_failure_text(*self),
    {
        match self {
            DemoFailure::AllocateMemory => "Failed to allocate model memory",
            DemoFailure::BuildModel => "Failed to compile model",
            DemoFailure::CreateRequest => "Failed to create request config",
            DemoFailure::SetInputBuffer => "Failed to set input buffer",
            DemoFailure::SetOutputBuffer => "Failed to set output buffer",
            DemoFailure::StressTest => "Stress test failed",
            DemoFailure::Enqueue => "Enqueue failed",
            DemoFailure::Wait => "Inference failed / timed out",
        }
    }
}

/// The message printed, before the device's own error, when the performance
/// counter cannot be turned on; the run goes on.
pub fn performance_counter_notice() -> (res: &'static str)
    ensures
        res@ == "Performance counter unavailable"@,
{
    "Performance counter unavailable"
}

/// What the demo does after a device call.
#[derive(Debug, Clone, Copy, PartialEq, Eq, Structural)]
pub enum DemoTransition {
    /// Make this call next.
    Next(DemoStep),
    /// Report that the performance counter is unavailable, then make this call.
    NoticeThenNext(DemoStep),
    /// Report this failure and end the run.
    Stop(DemoFailure),
    /// The run is over.
    Finish,
}

/// Whether a failure of this call ends the run.
pub open spec fn step_is_required(step: DemoStep) -> bool {
    match step {
        DemoStep::SetAccelerationMode
        | DemoStep::EnablePerformanceCounter
        | DemoStep::ReadStats
        | DemoStep::ReadOutputs => false,
        _ => true,
    }
}

/// The failure reported when a required call fails.
pub open spec fn step_failure(step: DemoStep) -> DemoFailure {
    match step {
        DemoStep::AllocateMemory => DemoFailure::AllocateMemory,
        DemoStep::BuildModel => DemoFailure::BuildModel,
        DemoStep::CreateRequest => DemoFailure::CreateRequest,
        DemoStep::SetInputBuffer => DemoFailure::SetInputBuffer,
        DemoStep::SetOutputBuffer => DemoFailure::SetOutputBuffer,
        DemoStep::RunStress => DemoFailure::StressTest,
        DemoStep::Enqueue => DemoFailure::Enqueue,
        _ => DemoFailure::Wait,
    }
}

/// The call after `step` when it succeeds (or may fail): the request is set
/// up, then a stress run goes to the stress test while a single run turns on
/// the performance counter, enqueues, waits, and reads statistics and
/// outputs. `None` after the last call of either run.
pub open spec fn step_successor(step: DemoStep, stress: bool) -> Option<DemoStep> {
    match step {
        DemoStep::AllocateMemory => Some(DemoStep::BuildModel),
        DemoStep::BuildModel => Some(DemoStep::CreateRequest),
        DemoStep::CreateRequest => Some(DemoStep::SetInputBuffer),
        DemoStep::SetInputBuffer => Some(DemoStep::SetOutputBuffer),
        DemoStep::SetOutputBuffer => Some(DemoStep::SetAccelerationMode),
        DemoStep::SetAccelerationMode => if stress {
            Some(DemoStep::RunStress)
        } else {
            Some(DemoStep::EnablePerformanceCounter)
        },
        DemoStep::RunStress => None,
        DemoStep::EnablePerformanceCounter => Some(DemoStep::Enqueue),
        DemoStep::Enqueue => Some(DemoStep::Wait),
        DemoStep::Wait => Some(DemoStep::ReadStats),
        DemoStep::ReadStats => Some(DemoStep::ReadOutputs),
        DemoStep::ReadOutputs => None,
    }
}

/// What follows the call `step`, which succeeded when `succeeded`: a failed
/// required call stops the run with its failure; a failed performance counter
/// is reported before the run goes on; otherwise the next call of the run is
/// made, and the run finishes after its last call.
pub open spec fn demo_transition(step: DemoStep, succeeded: bool, stress: bool) -> DemoTransition {
    if !succeeded && step_is_required(step) {
        DemoTransition::Stop(step_failure(step))
    } else if !succeeded && step == DemoStep::EnablePerformanceCounter {
        DemoTransition::NoticeThenNext(DemoStep::Enqueue)
    } else {
        match step_successor(step, stress) {
            Some(n) => DemoTransition::Next(n),
            None => DemoTransition::Finish,
        }
    }
}

/// The first call of a demo run.
pub fn first_demo_step() -> (res: DemoStep)
    ensures
        res == DemoStep::AllocateMemory,
{
    DemoStep::AllocateMemory
}

/// Decides what follows the call `step`, which succeeded when `succeeded`:
/// a failed required call (or a failed stress test) stops the run with its
/// message; a failed acceleration mode or statistics read is passed over; a
/// failed performance counter is reported and the run goes on; otherwise the
/// next call of the run is made, and the run finishes after its last call.
pub fn next_demo_transition(step: DemoStep, succeeded: bool, stress: bool) -> (res: DemoTransition)
    ensures
        res == demo_transition(step, succeeded, stress),
{
    match step {
        DemoStep::AllocateMemory => if succeeded {
            DemoTransition::Next(DemoStep::BuildModel)
        } else {
            DemoTransition::Stop(DemoFailure::AllocateMemory)
        },
        DemoStep::BuildModel => if succeeded {
            DemoTransition::Next(DemoStep::CreateRequest)
        } else {
            DemoTransition::Stop(DemoFailure::BuildModel)
        },
        DemoStep::CreateRequest => if succeeded {
            DemoTransition::Next(DemoStep::SetInputBuffer)
        } else {
            DemoTransition::Stop(DemoFailure::CreateRequest)
        },
        DemoStep::SetInputBuffer => if succeeded {
            DemoTransition::Next(DemoStep::SetOutputBuffer)
        } else {
            DemoTransition::Stop(DemoFailure::SetInputBuffer)
        },
        DemoStep::SetOutputBuffer => if succeeded {
            DemoTransition::Next(DemoStep::SetAccelerationMode)
        } else {
            DemoTransition::Stop(DemoFailure::SetOutputBuffer)
        },
        DemoStep::SetAccelerationMode => if stress {
            DemoTransition::Next(DemoStep::RunStress)
        } else {
            DemoTransition::Next(DemoStep::EnablePerformanceCounter)
        },
        DemoStep::RunStress => if succeeded {
            DemoTransition::Finish
        } else {
            DemoTransition::Stop(DemoFailure::StressTest)
        },
        DemoStep::EnablePerformanceCounter => if succeeded {
            DemoTransition::Next(DemoStep::Enqueue)
        } else {
            DemoTransition::NoticeThenNext(DemoStep::Enqueue)
        },
        DemoStep::Enqueue => if succeeded {
            DemoTransition::Next(DemoStep::Wait)
        } else {
            DemoTransition::Stop(DemoFailure::Enqueue)
        },
        DemoStep::Wait => if succeeded {
            DemoTransition::Next(DemoStep::ReadStats)
        } else {
            DemoTransition::Stop(DemoFailure::Wait)
        },
        DemoStep::ReadStats => DemoTransition::Next(DemoStep::ReadOutputs),
        DemoStep::ReadOutputs => DemoTransition::Finish,
    }
}

/// The position of a call in its run.
pub open spec fn step_rank(step: DemoStep) -> nat {
    match step {
        DemoStep::AllocateMemory => 0,
        DemoStep::BuildModel => 1,
        DemoStep::CreateRequest => 2,
        DemoStep::SetInputBuffer => 3,
        DemoStep::SetOutputBuffer => 4,
        DemoStep::SetAccelerationMode => 5,
        DemoStep::RunStress => 6,
        DemoStep::EnablePerformanceCounter => 6,
        DemoStep::Enqueue => 7,
        DemoStep::Wait => 8,
        DemoStep::ReadStats => 9,
        DemoStep::ReadOutputs => 10,
    }
}

/// Whether a call belongs to a run: a stress run makes the set-up calls and
/// the stress test; a single run makes the set-up calls and the rest, but no
/// stress test.
pub open spec fn step_in_run(step: DemoStep, stress: bool) -> bool {
    if stress {
        step_rank(step) <= 5 || step == DemoStep::RunStress
    } else {
        step != DemoStep::RunStress
    }
}

/// A run starts with its first call, each transition leads to a later call
/// of the same run (so every run ends), and in particular a stress run never
/// enqueues or waits for a single inference, while a single run never runs
/// the stress test.
pub proof fn lemma_demo_run_shape(step: DemoStep, succeeded: bool, stress: bool)
    requires
        step_in_run(step, stress),
    ensures
        step_in_run(DemoStep::AllocateMemory, stress),
        demo_transition(step, succeeded, stress) matches DemoTransition::Next(n)
            ==> step_in_run(n, stress) && step_rank(n) > step_rank(step),
        demo_transition(step, succeeded, stress) matches DemoTransition::NoticeThenNext(n)
            ==> step_in_run(n, stress) && step_rank(n) > step_rank(step),
        stress ==> !step_in_run(DemoStep::Enqueue, stress) && !step_in_run(DemoStep::Wait, stress),
        !stress ==> !step_in_run(DemoStep::RunStress, stress),
{
}

/// Each option changes only its own fields, and reading goes on after its
/// value: for options `o` and an argument at `i` followed by a value `v`,
/// `--dll v` sets only the path, `--env v` only the variable, `--stress v`
/// only the stress flag and iteration count, `--duration v` (a number `k`)
/// only the stress flag and the duration, `--concurrency v` (a number `k`)
/// only the queue depth, and a bare argument only the path.
pub proof fn lemma_parse_option_updates(args: Seq<Seq<char>>, i: nat, o: DemoOptionsModel)
    requires
        i + 1 < args.len(),
    ensures
        args[i as int] == "--dll"@ ==> parse_args_from(args, i, o) == parse_args_from(
            args,
            i + 2,
            DemoOptionsModel {
                dll_path: Some(args[i + 1 as int]),
                env_var: o.env_var,
                stress: o.stress,
                iterations: o.iterations,
                duration: o.duration,
                concurrency: o.concurrency,
            },
        ),
        args[i as int] == "--env"@ ==> parse_args_from(args, i, o) == parse_args_from(
            args,
            i + 2,
            DemoOptionsModel {
                dll_path: o.dll_path,
                env_var: Some(args[i + 1 as int]),
                stress: o.stress,
                iterations: o.iterations,
                duration: o.duration,
                concurrency: o.concurrency,
            },
        ),
        args[i as int] == "--stress"@ ==> parse_args_from(args, i, o) == parse_args_from(
            args,
            i + 2,
            DemoOptionsModel {
                dll_path: o.dll_path,
                env_var: o.env_var,
                stress: true,
                iterations: Some(
                    match parse_unsigned(args[i + 1 as int], usize::MAX as nat) {
                        Some(k) => k as usize,
                        None => 1000usize,
                    },
                ),
                duration: o.duration,
                concurrency: o.concurrency,
            },
        ),
        args[i as int] == "--duration"@ && parse_unsigned(args[i + 1 as int], u64::MAX as nat) is Some
            ==> parse_args_from(args, i, o) == parse_args_from(
            args,
            i + 2,
            DemoOptionsModel {
                dll_path: o.dll_path,
                env_var: o.env_var,
                stress: true,
                iterations: o.iterations,
                duration: Some(parse_unsigned(args[i + 1 as int], u64::MAX as nat)->0 as u64),
                concurrency: o.concurrency,
            },
        ),
        args[i as int] == "--concurrency"@ && parse_unsigned(args[i + 1 as int], usize::MAX as nat) is Some
            ==> parse_args_from(args, i, o) == parse_args_from(
            args,
            i + 2,
            DemoOptionsModel {
                dll_path: o.dll_path,
                env_var: o.env_var,
                stress: o.stress,
                iterations: o.iterations,
                duration: o.duration,
                concurrency: if parse_unsigned(args[i + 1 as int], usize::MAX as nat)->0 == 0 {
                    1usize
                } else {
                    parse_unsigned(args[i + 1 as int], usize::MAX as nat)->0 as usize
                },
            },
        ),
        args[i as int].len() > 0 && args[i as int][0] != '-' ==> parse_args_from(args, i, o)
            == parse_args_from(
            args,
            i + 1,
            DemoOptionsModel {
                dll_path: Some(args[i as int]),
                env_var: o.env_var,
                stress: o.stress,
                iterations: o.iterations,
                duration: o.duration,
                concurrency: o.concurrency,
            },
        ),
{
    reveal_strlit("--dll");
    reveal_strlit("--env");
    reveal_strlit("--stress");
    reveal_strlit("--duration");
    reveal_strlit("--concurrency");
    reveal_strlit("--help");
    reveal_strlit("-h");
    assert("--env"@[2] != "--dll"@[2]);
}

/// The last argument, if it is a `--stress`, `--dll` or `--env` without a
/// value, ends reading as the options say: `--stress` with the default count
/// and the other fields unchanged, the others refused.
pub proof fn lemma_parse_option_without_value(args: Seq<Seq<char>>, o: DemoOptionsModel)
    requires
        args.len() >= 1,
    ensures
        ({
            let i = (args.len() - 1) as nat;
            &&& args[i as int] == "--stress"@ ==> parse_args_from(args, i, o) == CliCommandModel::Run(
                DemoOptionsModel {
                    dll_path: o.dll_path,
                    env_var: o.env_var,
                    stress: true,
                    iterations: Some(1000usize),
                    duration: o.duration,
                    concurrency: o.concurrency,
                },
            )
            &&& args[i as int] == "--dll"@ ==> parse_args_from(args, i, o) == CliCommandModel::Invalid(
                CliError::MissingDllPath,
            )
            &&& args[i as int] == "--env"@ ==> parse_args_from(args, i, o) == CliCommandModel::Invalid(
                CliError::MissingEnvVar,
            )
        }),
{
    reveal_strlit("--dll");
    reveal_strlit("--env");
    reveal_strlit("--stress");
    let i = (args.len() - 1) as nat;
    assert(arg_after(args, i) is None);
    assert("--env"@[2] != "--dll"@[2]);
    if args[i as int] == "--stress"@ {
        assert(parse_args_from(args, i + 2, DemoOptionsModel { stress: true, iterations: Some(1000usize), ..o })
            == CliCommandModel::Run(DemoOptionsModel { stress: true, iterations: Some(1000usize), ..o }));
    }
}

/// A given library path always wins, whatever the environment variable; an
/// environment variable is used only when no path is given; the default
/// search only when neither is given.
pub proof fn lemma_library_source_priority(o: DemoOptionsModel)
    ensures
        o.dll_path is Some ==> library_source_of(o) == LibrarySourceModel::Path(o.dll_path->0),
        o.dll_path is None && o.env_var is Some ==> library_source_of(o) == LibrarySourceModel::EnvVar(
            o.env_var->0,
        ),
        o.dll_path is None && o.env_var is None ==> library_source_of(o) == LibrarySourceModel::Default,
        library_source_of(o) is EnvVar ==> o.dll_path is None,
        library_source_of(o) is Default ==> o.dll_path is None && o.env_var is None,
{
}

/// What follows the program name in the usage text: the same for every name.
pub open spec fn usage_tail() -> Seq<char> {
    " [OPTIONS]\n"@ + "\n"@ + "Options:\n"@
        + "  --dll <PATH>               Load DLL directly from a file or directory\n"@
        + "  --env <VAR_NAME>           Load DLL from an environment variable\n"@
        + "  --stress [ITERATIONS]      Run stress test (default: 1000 iterations)\n"@
        + "  --duration <SECS>          Run stress test for a duration\n"@
        + "  --concurrency <N>          Stress-test queue depth (default: 1)\n"@
        + "  --help, -h                 Show this help message\n"@ + "\n"@
        + "Without options, GNA_LIB_PATH, GNA_LIB_DIR, the current directory, and\n"@
        + "the system library search path are checked in that order.\n"@
}

/// The usage text begins with "Usage: ", then exactly the program name, then
/// " [OPTIONS]" and a newline; the rest does not depend on the name, so two
/// names give the same text only when they are the same name.
pub proof fn lemma_usage_text_names_program(p: Seq<char>, q: Seq<char>)
    ensures
        usage_text_spec(p).len() >= 7 + p.len() as int + 11,
        usage_text_spec(p).subrange(0, 7) == seq!['U', 's', 'a', 'g', 'e', ':', ' '],
        usage_text_spec(p).subrange(7, 7 + p.len() as int) == p,
        usage_text_spec(p).subrange(7 + p.len() as int, 7 + p.len() as int + 11) == seq![
            ' ', '[', 'O', 'P', 'T', 'I', 'O', 'N', 'S', ']', '\n'
        ],
        usage_text_spec(p).len() - p.len() == usage_text_spec(q).len() - q.len(),
        usage_text_spec(p) == usage_text_spec(q) ==> p == q,
{
    lemma_usage_text_split(p);
    lemma_usage_text_split(q);
    let t = usage_tail();
    let u = usage_text_spec(p);
    assert(u.subrange(0, 7) =~= seq!['U', 's', 'a', 'g', 'e', ':', ' ']);
    assert(u.subrange(7, 7 + p.len() as int) =~= p);
    assert(u.subrange(7 + p.len() as int, 7 + p.len() as int + 11) =~= t.subrange(0, 11));
    if usage_text_spec(p) == usage_text_spec(q) {
        assert(p.len() == q.len());
        assert(p =~= usage_text_spec(q).subrange(7, 7 + q.len() as int));
    }
}

/// The usage text is "Usage: ", the name, and the tail.
proof fn lemma_usage_text_split(p: Seq<char>)
    ensures
        usage_text_spec(p) =~= seq!['U', 's', 'a', 'g', 'e', ':', ' '] + p + usage_tail(),
        usage_tail().len() >= 11,
        usage_tail().subrange(0, 11) =~= seq![' ', '[', 'O', 'P', 'T', 'I', 'O', 'N', 'S', ']', '\n'],
{
    reveal_strlit("Usage: ");
    reveal_strlit(" [OPTIONS]\n");
    assert(usage_text_spec(p) =~= "Usage: "@ + p + usage_tail());
}

/// A failed call that the run needs ends the run with that call's own
/// failure, in a single run and a stress run alike; a failed acceleration
/// mode, statistics read or output read does not end it, and a failed
/// performance counter is reported before the run enqueues.
pub proof fn lemma_failed_call_stops_run(stress: bool)
    ensures
        demo_transition(DemoStep::AllocateMemory, false, stress) == DemoTransition::Stop(
            DemoFailure::AllocateMemory,
        ),
        demo_transition(DemoStep::BuildModel, false, stress) == DemoTransition::Stop(DemoFailure::BuildModel),
        demo_transition(DemoStep::CreateRequest, false, stress) == DemoTransition::Stop(
            DemoFailure::CreateRequest,
        ),
        demo_transition(DemoStep::SetInputBuffer, false, stress) == DemoTransition::Stop(
            DemoFailure::SetInputBuffer,
        ),
        demo_transition(DemoStep::SetOutputBuffer, false, stress) == DemoTransition::Stop(
            DemoFailure::SetOutputBuffer,
        ),
        demo_transition(DemoStep::RunStress, false, stress) == DemoTransition::Stop(DemoFailure::StressTest),
        demo_transition(DemoStep::Enqueue, false, stress) == DemoTransition::Stop(DemoFailure::Enqueue),
        demo_transition(DemoStep::Wait, false, stress) == DemoTransition::Stop(DemoFailure::Wait),
        demo_transition(DemoStep::EnablePerformanceCounter, false, stress) == DemoTransition::NoticeThenNext(
            DemoStep::Enqueue,
        ),
        demo_transition(DemoStep::SetAccelerationMode, false, stress) == demo_transition(
            DemoStep::SetAccelerationMode,
            true,
            stress,
        ),
        demo_transition(DemoStep::ReadStats, false, stress) == DemoTransition::Next(DemoStep::ReadOutputs),
        demo_transition(DemoStep::ReadOutputs, false, stress) == DemoTransition::Finish,
        forall|step: DemoStep| #[trigger]
            demo_transition(step, false, stress) is Stop ==> demo_transition(step, true, stress) !is Stop,
{
}

} // verus!
