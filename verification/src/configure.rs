use vstd::prelude::*;
use vstd::string::*;

use crate::errors::ConfigureError;

verus! {

/// The cross-compilation environment, derived from the SDK root by fixed
/// relative joins and consumed within the configuration stage only.
pub struct BuildEnvironment {
    pub compiler_path: String,
    pub archiver_path: String,
    pub sysroot_path: String,
    pub link_search_path: String,
    pub extra_defines: Vec<Define>,
}

/// Derives the build environment from an extracted SDK root. Every path is
/// the root joined with a fixed relative path, and the extra defines are the
/// fixed ones of this build.
pub fn derive_build_environment(sdk_root: &str) -> (env: BuildEnvironment)
    ensures
        env.compiler_path@ == sdk_root@ + "/bin/clang"@,
        env.archiver_path@ == sdk_root@ + "/bin/ar"@,
        env.sysroot_path@ == sdk_root@ + "/share/wasi-sysroot"@,
        env.link_search_path@ == sdk_root@ + "/share/wasi-sysroot/lib/wasm32-wasi"@,
        standard_defines(env.extra_defines@),
{
    let mut compiler_path = String::from_str(sdk_root);
    compiler_path.append("/bin/clang");
    let mut archiver_path = String::from_str(sdk_root);
    archiver_path.append("/bin/ar");
    let mut sysroot_path = String::from_str(sdk_root);
    sysroot_path.append("/share/wasi-sysroot");
    let mut link_search_path = String::from_str(sdk_root);
    link_search_path.append("/share/wasi-sysroot/lib/wasm32-wasi");
    BuildEnvironment {
        compiler_path,
        archiver_path,
        sysroot_path,
        link_search_path,
        extra_defines: compile_defines(),
    }
}

/// Exactly which declarations get bound and which files get compiled: a
/// small, hand-specified unit.
pub struct SourceUnit {
    pub header_names: Vec<String>,
    pub source_names: Vec<String>,
    pub symbol_allowlist: Vec<String>,
}

/// The fixed source unit this build compiles: one header, one source file,
/// and the two symbols that may produce bindings.
pub fn default_source_unit() -> (unit: SourceUnit)
    ensures
        unit.source_names@.len() == 1,
        unit.source_names@[0]@ == "repro.c"@,
        unit.header_names@.len() == 1,
        unit.header_names@[0]@ == "repro.h"@,
        unit.symbol_allowlist@.len() == 2,
        unit.symbol_allowlist@[0]@ == "Fallible_func"@,
        unit.symbol_allowlist@[1]@ == "Print"@,
{
    let mut header_names: Vec<String> = Vec::new();
    header_names.push(String::from_str("repro.h"));
    let mut source_names: Vec<String> = Vec::new();
    source_names.push(String::from_str("repro.c"));
    let mut symbol_allowlist: Vec<String> = Vec::new();
    symbol_allowlist.push(String::from_str("Fallible_func"));
    symbol_allowlist.push(String::from_str("Print"));
    SourceUnit { header_names, source_names, symbol_allowlist }
}

/// The alternate implementation body that the variant override selects in
/// place of the primary source file.
pub fn variant_source_name() -> (r: String)
    ensures
        r@ == "repro_no_printf.c"@,
{
    String::from_str("repro_no_printf.c")
}

/// One staging operation: copy the file named `source_name` from the fixed
/// source directory to `dest_name` in the build-output directory.
pub struct StageOp {
    pub source_name: String,
    pub dest_name: String,
}

/// The abstract content of a staging operation.
pub ghost struct StageOpView {
    pub source_name: Seq<char>,
    pub dest_name: Seq<char>,
}

impl View for StageOp {
    type V = StageOpView;

    open spec fn view(&self) -> StageOpView {
        StageOpView { source_name: self.source_name@, dest_name: self.dest_name@ }
    }
}

/// The build-output directory after a sequence of staging operations ran in
/// order, each copying a file's contents from the source directory. A later
/// copy to the same destination overwrites an earlier one.
pub open spec fn apply_stage_ops(
    source_dir: Map<Seq<char>, Seq<char>>,
    dest_dir: Map<Seq<char>, Seq<char>>,
    ops: Seq<StageOpView>,
) -> Map<Seq<char>, Seq<char>>
    decreases ops.len(),
{
    if ops.len() == 0 {
        dest_dir
    } else {
        apply_stage_ops(
            source_dir,
            dest_dir.insert(ops[0].dest_name, source_dir[ops[0].source_name]),
            ops.drop_first(),
        )
    }
}

/// Builds the staging plan: every declared source file, then every declared
/// header, each copied under its own name; when a variant file is selected,
/// one final operation copies the variant onto the primary (first) source
/// file, overwriting whatever was staged there before.
pub fn staging_ops(unit: &SourceUnit, variant: Option<&String>) -> (ops: Vec<StageOp>)
    requires
        variant is Some ==> unit.source_names@.len() >= 1,
    ensures
        ops@.len() == unit.source_names@.len() + unit.header_names@.len() + (
        if variant is Some {
            1 as int
        } else {
            0 as int
        }),
        forall|i: int|
            0 <= i < unit.source_names@.len() ==> (#[trigger] ops@[i])@.source_name
                == unit.source_names@[i]@ && ops@[i]@.dest_name == unit.source_names@[i]@,
        forall|i: int|
            0 <= i < unit.header_names@.len() ==> (#[trigger] ops@[unit.source_names@.len()
                + i])@.source_name == unit.header_names@[i]@ && ops@[unit.source_names@.len()
                + i]@.dest_name == unit.header_names@[i]@,
        (variant matches Some(v) ==> ops@.last()@.source_name == v@ && ops@.last()@.dest_name
            == unit.source_names@[0]@),
{
    let mut ops: Vec<StageOp> = Vec::new();
    let mut i: usize = 0;
    while i < unit.source_names.len()
        invariant
            0 <= i <= unit.source_names@.len(),
            ops@.len() == i,
            forall|j: int|
                0 <= j < i ==> (#[trigger] ops@[j])@.source_name == unit.source_names@[j]@
                    && ops@[j]@.dest_name == unit.source_names@[j]@,
        decreases unit.source_names@.len() - i,
    {
        let name = unit.source_names[i].clone();
        let dest = unit.source_names[i].clone();
        ops.push(StageOp { source_name: name, dest_name: dest });
        i = i + 1;
    }
    let mut k: usize = 0;
    while k < unit.header_names.len()
        invariant
            0 <= k <= unit.header_names@.len(),
            ops@.len() == unit.source_names@.len() + k,
            forall|j: int|
                0 <= j < unit.source_names@.len() ==> (#[trigger] ops@[j])@.source_name
                    == unit.source_names@[j]@ && ops@[j]@.dest_name == unit.source_names@[j]@,
            forall|j: int|
                0 <= j < k ==> (#[trigger] ops@[unit.source_names@.len() + j])@.source_name
                    == unit.header_names@[j]@ && ops@[unit.source_names@.len() + j]@.dest_name
                    == unit.header_names@[j]@,
        decreases unit.header_names@.len() - k,
    {
        let name = unit.header_names[k].clone();
        let dest = unit.header_names[k].clone();
        ops.push(StageOp { source_name: name, dest_name: dest });
        k = k + 1;
    }
    match variant {
        Some(v) => {
            let variant_name = v.clone();
            let primary = unit.source_names[0].clone();
            ops.push(StageOp { source_name: variant_name, dest_name: primary });
        },
        None => {},
    }
    ops
}

/// Staging is last-writer-wins: when the final operation of a plan copies
/// the variant file onto the primary source file, the staged primary's
/// contents equal the variant's contents exactly, whatever earlier
/// operations staged there.
pub proof fn lemma_variant_selection_overrides(
    source_dir: Map<Seq<char>, Seq<char>>,
    dest_dir: Map<Seq<char>, Seq<char>>,
    ops: Seq<StageOpView>,
    primary: Seq<char>,
    variant: Seq<char>,
)
    requires
        ops.len() >= 1,
        ops.last().dest_name == primary,
        ops.last().source_name == variant,
    ensures
        apply_stage_ops(source_dir, dest_dir, ops).contains_key(primary),
        apply_stage_ops(source_dir, dest_dir, ops)[primary] == source_dir[variant],
    decreases ops.len(),
{
    if ops.len() == 1 {
        assert(ops[0] == ops.last());
        let stepped = dest_dir.insert(primary, source_dir[variant]);
        assert(apply_stage_ops(source_dir, dest_dir, ops) == apply_stage_ops(
            source_dir,
            stepped,
            ops.drop_first(),
        ));
        assert(apply_stage_ops(source_dir, stepped, ops.drop_first()) == stepped);
    } else {
        let stepped = dest_dir.insert(ops[0].dest_name, source_dir[ops[0].source_name]);
        assert(ops.drop_first().last() == ops.last());
        lemma_variant_selection_overrides(source_dir, stepped, ops.drop_first(), primary, variant);
    }
}

/// One preprocessor definition handed to the C compiler.
pub struct Define {
    pub name: String,
    pub value: Option<String>,
}

/// The fixed preprocessor definitions of the compilation step: a version
/// string, feature toggles, and numeric-environment constants.
pub open spec fn standard_defines(defines: Seq<Define>) -> bool {
    &&& defines.len() == 7
    &&& defines[0].name@ == "_GNU_SOURCE"@ && defines[0].value is None
    &&& defines[1].name@ == "CONFIG_VERSION"@ && (defines[1].value matches Some(v) && v@
        == "\"2020-01-19\""@)
    &&& defines[2].name@ == "CONFIG_BIGNUM"@ && defines[2].value is None
    &&& defines[3].name@ == "EMSCRIPTEN"@ && (defines[3].value matches Some(v) && v@ == "1"@)
    &&& defines[4].name@ == "FE_DOWNWARD"@ && (defines[4].value matches Some(v) && v@ == "0"@)
    &&& defines[5].name@ == "FE_UPWARD"@ && (defines[5].value matches Some(v) && v@ == "0"@)
    &&& defines[6].name@ == "NDEBUG"@ && (defines[6].value matches Some(v) && v@ == "true"@)
}

/// Builds the fixed preprocessor definitions.
pub fn compile_defines() -> (defines: Vec<Define>)
    ensures
        standard_defines(defines@),
{
    let mut defines: Vec<Define> = Vec::new();
    defines.push(Define { name: String::from_str("_GNU_SOURCE"), value: None });
    defines.push(
        Define {
            name: String::from_str("CONFIG_VERSION"),
            value: Some(String::from_str("\"2020-01-19\"")),
        },
    );
    defines.push(Define { name: String::from_str("CONFIG_BIGNUM"), value: None });
    defines.push(
        Define { name: String::from_str("EMSCRIPTEN"), value: Some(String::from_str("1")) },
    );
    defines.push(
        Define { name: String::from_str("FE_DOWNWARD"), value: Some(String::from_str("0")) },
    );
    defines.push(
        Define { name: String::from_str("FE_UPWARD"), value: Some(String::from_str("0")) },
    );
    defines.push(
        Define { name: String::from_str("NDEBUG"), value: Some(String::from_str("true")) },
    );
    defines
}

/// Everything the binding generator is invoked with: the target triple, the
/// sysroot flag, the header it reads, and the allow-list that restricts
/// which declarations produce bindings.
pub struct BindingInvocation {
    pub target_arg: String,
    pub sysroot_arg: String,
    pub header_name: String,
    pub symbol_allowlist: Vec<String>,
}

/// Assembles the binding-generator invocation. The allow-list is taken from
/// the source unit unchanged, so no symbol outside it can produce a binding.
pub fn binding_invocation(
    env: &BuildEnvironment,
    unit: &SourceUnit,
    target_triple: &str,
) -> (inv: BindingInvocation)
    requires
        unit.header_names@.len() >= 1,
    ensures
        inv.target_arg@ == "--target="@ + target_triple@,
        inv.sysroot_arg@ == "--sysroot="@ + env.sysroot_path@,
        inv.header_name@ == unit.header_names@[0]@,
        inv.symbol_allowlist@.len() == unit.symbol_allowlist@.len(),
        forall|i: int|
            0 <= i < unit.symbol_allowlist@.len() ==> (#[trigger] inv.symbol_allowlist@[i])@
                == unit.symbol_allowlist@[i]@,
{
    let mut target_arg = String::from_str("--target=");
    target_arg.append(target_triple);
    let mut sysroot_arg = String::from_str("--sysroot=");
    sysroot_arg.append(env.sysroot_path.as_str());
    let header_name = unit.header_names[0].clone();
    let mut symbol_allowlist: Vec<String> = Vec::new();
    let mut i: usize = 0;
    while i < unit.symbol_allowlist.len()
        invariant
            0 <= i <= unit.symbol_allowlist@.len(),
            symbol_allowlist@.len() == i,
            forall|j: int|
                0 <= j < i ==> (#[trigger] symbol_allowlist@[j])@ == unit.symbol_allowlist@[j]@,
        decreases unit.symbol_allowlist@.len() - i,
    {
        symbol_allowlist.push(unit.symbol_allowlist[i].clone());
        i = i + 1;
    }
    BindingInvocation { target_arg, sysroot_arg, header_name, symbol_allowlist }
}

/// Everything the C compiler is invoked with: the staged source files, the
/// fixed defines, the sysroot flag, the one suppressed warning class, and
/// the name of the static archive it produces.
pub struct CompileInvocation {
    pub source_names: Vec<String>,
    pub defines: Vec<Define>,
    pub sysroot_arg: String,
    pub suppressed_warning: String,
    pub archive_name: String,
}

/// Assembles the compiler invocation from the source unit and the build
/// environment.
pub fn compile_invocation(env: &BuildEnvironment, unit: &SourceUnit) -> (inv: CompileInvocation)
    ensures
        inv.source_names@.len() == unit.source_names@.len(),
        forall|i: int|
            0 <= i < unit.source_names@.len() ==> (#[trigger] inv.source_names@[i])@
                == unit.source_names@[i]@,
        standard_defines(inv.defines@),
        inv.sysroot_arg@ == "--sysroot="@ + env.sysroot_path@,
        inv.suppressed_warning@ == "-Wno-implicit-const-int-float-conversion"@,
        inv.archive_name@ == "librepro.a"@,
{
    let mut source_names: Vec<String> = Vec::new();
    let mut i: usize = 0;
    while i < unit.source_names.len()
        invariant
            0 <= i <= unit.source_names@.len(),
            source_names@.len() == i,
            forall|j: int|
                0 <= j < i ==> (#[trigger] source_names@[j])@ == unit.source_names@[j]@,
        decreases unit.source_names@.len() - i,
    {
        source_names.push(unit.source_names[i].clone());
        i = i + 1;
    }
    let mut sysroot_arg = String::from_str("--sysroot=");
    sysroot_arg.append(env.sysroot_path.as_str());
    CompileInvocation {
        source_names,
        defines: compile_defines(),
        sysroot_arg,
        suppressed_warning: String::from_str("-Wno-implicit-const-int-float-conversion"),
        archive_name: String::from_str("librepro.a"),
    }
}

/// Turns the observed outcomes of the two build steps into the
/// configurator's result. Binding generation runs first; when it fails the
/// compiler is never reached, and a failure of either aborts the whole flow
/// with no partial artifact.
pub fn configure_outcome(
    bindings_generated: bool,
    compile_succeeded: bool,
) -> (r: Result<(), ConfigureError>)
    ensures
        (bindings_generated && compile_succeeded) <==> r is Ok,
        !bindings_generated ==> r == Err::<(), ConfigureError>(
            ConfigureError::BindingGenerationFailed,
        ),
        (bindings_generated && !compile_succeeded) ==> r == Err::<(), ConfigureError>(
            ConfigureError::CompilationFailed,
        ),
{
    if !bindings_generated {
        Err(ConfigureError::BindingGenerationFailed)
    } else if !compile_succeeded {
        Err(ConfigureError::CompilationFailed)
    } else {
        Ok(())
    }
}

} // verus!
