//! The source-derived client configurations compared by the parity
//! probe, the raw kernel activation modes, and the summary of a live run.

use vstd::prelude::*;

use crate::text::str_eq;

verus! {

/// One researched Automation client configuration.
#[derive(Debug, Clone, Copy, PartialEq, Eq, Structural)]
pub enum ParityMode {
    RustBaseline,
    Pywin32Dynamic,
    Pywin32Generated,
    ComtypesDynamic,
    ComtypesGenerated,
}

/// The kebab-case identifier of a mode.
pub open spec fn mode_id(mode: ParityMode) -> Seq<char> {
    match mode {
        ParityMode::RustBaseline => "rust-baseline"@,
        ParityMode::Pywin32Dynamic => "pywin32-dynamic"@,
        ParityMode::Pywin32Generated => "pywin32-generated"@,
        ParityMode::ComtypesDynamic => "comtypes-dynamic"@,
        ParityMode::ComtypesGenerated => "comtypes-generated"@,
    }
}

/// The mode whose identifier is `value`, if any.
pub open spec fn mode_named(value: Seq<char>) -> Option<ParityMode> {
    if value == "rust-baseline"@ {
        Some(ParityMode::RustBaseline)
    } else if value == "pywin32-dynamic"@ {
        Some(ParityMode::Pywin32Dynamic)
    } else if value == "pywin32-generated"@ {
        Some(ParityMode::Pywin32Generated)
    } else if value == "comtypes-dynamic"@ {
        Some(ParityMode::ComtypesDynamic)
    } else if value == "comtypes-generated"@ {
        Some(ParityMode::ComtypesGenerated)
    } else {
        None
    }
}

pub open spec fn parse_error_message() -> Seq<char> {
    "parity mode must be rust-baseline, pywin32-dynamic, pywin32-generated, comtypes-dynamic, or comtypes-generated"@
}

impl ParityMode {
    /// Reads a mode from its identifier.
    pub fn parse(value: &str) -> (r: Result<Self, String>)
        ensures
            match r {
                Ok(m) => mode_named(value@) == Some(m),
                Err(e) => mode_named(value@) is None && e@ == parse_error_message(),
            },
    {
        if str_eq(value, "rust-baseline") {
            Ok(ParityMode::RustBaseline)
        } else if str_eq(value, "pywin32-dynamic") {
            Ok(ParityMode::Pywin32Dynamic)
        } else if str_eq(value, "pywin32-generated") {
            Ok(ParityMode::Pywin32Generated)
        } else if str_eq(value, "comtypes-dynamic") {
            Ok(ParityMode::ComtypesDynamic)
        } else if str_eq(value, "comtypes-generated") {
            Ok(ParityMode::ComtypesGenerated)
        } else {
            Err(String::from_str(
                "parity mode must be rust-baseline, pywin32-dynamic, pywin32-generated, comtypes-dynamic, or comtypes-generated",
            ))
        }
    }

    /// The identifier of the mode.
    pub fn id(self) -> (s: &'static str)
        ensures
            s@ == mode_id(self),
    {
        match self {
            ParityMode::RustBaseline => "rust-baseline",
            ParityMode::Pywin32Dynamic => "pywin32-dynamic",
            ParityMode::Pywin32Generated => "pywin32-generated",
            ParityMode::ComtypesDynamic => "comtypes-dynamic",
            ParityMode::ComtypesGenerated => "comtypes-generated",
        }
    }

    /// Every mode, in declaration order.
    pub fn all() -> (v: Vec<ParityMode>)
        ensures
            v@ == seq![
                ParityMode::RustBaseline,
                ParityMode::Pywin32Dynamic,
                ParityMode::Pywin32Generated,
                ParityMode::ComtypesDynamic,
                ParityMode::ComtypesGenerated,
            ],
    {
        let mut v = Vec::new();
        v.push(ParityMode::RustBaseline);
        v.push(ParityMode::Pywin32Dynamic);
        v.push(ParityMode::Pywin32Generated);
        v.push(ParityMode::ComtypesDynamic);
        v.push(ParityMode::ComtypesGenerated);
        v
    }
}

/// Parsing a mode's identifier gives the mode back, and distinct modes have
/// distinct identifiers.
pub proof fn lemma_mode_id_round_trip(mode: ParityMode, other: ParityMode)
    ensures
        mode_named(mode_id(mode)) == Some(mode),
        mode_id(mode) == mode_id(other) ==> mode == other,
{
    reveal_strlit("rust-baseline");
    reveal_strlit("pywin32-dynamic");
    reveal_strlit("pywin32-generated");
    reveal_strlit("comtypes-dynamic");
    reveal_strlit("comtypes-generated");
    // The identifiers have pairwise distinct lengths.
    assert("rust-baseline"@.len() == 13);
    assert("pywin32-dynamic"@.len() == 15);
    assert("pywin32-generated"@.len() == 17);
    assert("comtypes-dynamic"@.len() == 16);
    assert("comtypes-generated"@.len() == 18);
}

/// How one configuration activates Excel, resolves DISPIDs and invokes.
#[derive(Debug, Clone, Copy, PartialEq, Eq)]
pub struct ParityConfiguration {
    pub mode: ParityMode,
    pub activation_api: &'static str,
    pub clsctx: &'static str,
    pub requested_iid: &'static str,
    pub com_initialization: &'static str,
    pub get_ids_of_names_lcid: u32,
    pub invoke_lcid: u32,
    pub dispid_source: &'static str,
    pub invoke_strategy: &'static str,
    pub argument_omission_policy: &'static str,
    pub pu_arg_err_initialization: &'static str,
    pub result_requested: bool,
    pub type_info_probing: &'static str,
    pub dual_interface_handling: &'static str,
    pub returned_object_wrapping_policy: &'static str,
    pub source_justification: &'static str,
}

/// A configuration with its texts as character sequences.
pub struct ParityConfigurationView {
    pub mode: ParityMode,
    pub activation_api: Seq<char>,
    pub clsctx: Seq<char>,
    pub requested_iid: Seq<char>,
    pub com_initialization: Seq<char>,
    pub get_ids_of_names_lcid: u32,
    pub invoke_lcid: u32,
    pub dispid_source: Seq<char>,
    pub invoke_strategy: Seq<char>,
    pub argument_omission_policy: Seq<char>,
    pub pu_arg_err_initialization: Seq<char>,
    pub result_requested: bool,
    pub type_info_probing: Seq<char>,
    pub dual_interface_handling: Seq<char>,
    pub returned_object_wrapping_policy: Seq<char>,
    pub source_justification: Seq<char>,
}

impl View for ParityConfiguration {
    type V = ParityConfigurationView;

    open spec fn view(&self) -> ParityConfigurationView {
        ParityConfigurationView {
            mode: self.mode,
            activation_api: self.activation_api@,
            clsctx: self.clsctx@,
            requested_iid: self.requested_iid@,
            com_initialization: self.com_initialization@,
            get_ids_of_names_lcid: self.get_ids_of_names_lcid,
            invoke_lcid: self.invoke_lcid,
            dispid_source: self.dispid_source@,
            invoke_strategy: self.invoke_strategy@,
            argument_omission_policy: self.argument_omission_policy@,
            pu_arg_err_initialization: self.pu_arg_err_initialization@,
            result_requested: self.result_requested,
            type_info_probing: self.type_info_probing@,
            dual_interface_handling: self.dual_interface_handling@,
            returned_object_wrapping_policy: self.returned_object_wrapping_policy@,
            source_justification: self.source_justification@,
        }
    }
}

/// The configuration of each mode, as text.
pub open spec fn configuration_view(mode: ParityMode) -> ParityConfigurationView {
    match mode {
        ParityMode::RustBaseline => ParityConfigurationView {
            mode,
            activation_api: "CoCreateInstance"@,
            clsctx: "CLSCTX_LOCAL_SERVER"@,
            requested_iid: "IID_IDispatch"@,
            com_initialization: "CoInitializeEx(COINIT_APARTMENTTHREADED)"@,
            get_ids_of_names_lcid: 0x0400,
            invoke_lcid: 0x0400,
            dispid_source: "installed typelib DISPID plus GetIDsOfNames verification"@,
            invoke_strategy: "raw IDispatch::Invoke"@,
            argument_omission_policy: "zero omitted arguments use cArgs=0 with null argument pointers"@,
            pu_arg_err_initialization: "UINT_MAX sentinel"@,
            result_requested: true,
            type_info_probing: "record type-info availability only"@,
            dual_interface_handling: "not selected; raw IDispatch path"@,
            returned_object_wrapping_policy: "clone IDispatch from VT_DISPATCH before VariantClear"@,
            source_justification: "preserved Prompt 05B baseline for comparison"@,
        },
        ParityMode::Pywin32Dynamic => ParityConfigurationView {
            mode,
            activation_api: "CoCreateInstanceEx"@,
            clsctx: "CLSCTX_SERVER"@,
            requested_iid: "IID_IDispatch"@,
            com_initialization: "CoInitializeEx(COINIT_APARTMENTTHREADED)"@,
            get_ids_of_names_lcid: 0,
            invoke_lcid: 0,
            dispid_source: "GetIDsOfNames(LCID=0) verified against installed typelib"@,
            invoke_strategy: "raw IDispatch::Invoke; pywin32 CDispatch can select typed helpers when descriptors are available"@,
            argument_omission_policy: "zero omitted arguments use cArgs=0 with null argument pointers"@,
            pu_arg_err_initialization: "UINT_MAX sentinel"@,
            result_requested: true,
            type_info_probing: "GetTypeInfoCount/GetTypeInfo recorded; dynamic wrapper mode remains distinct from typed helper selection"@,
            dual_interface_handling: "not selected by the raw dynamic parity call"@,
            returned_object_wrapping_policy: "clone IDispatch from VT_DISPATCH before VariantClear"@,
            source_justification: "pywin32 311 b311 DispatchEx, dynamic.CDispatch, and PyIDispatch source reconciliation"@,
        },
        ParityMode::Pywin32Generated => ParityConfigurationView {
            mode,
            activation_api: "CoCreateInstance"@,
            clsctx: "CLSCTX_SERVER"@,
            requested_iid: "IID_IDispatch"@,
            com_initialization: "CoInitializeEx(COINIT_APARTMENTTHREADED)"@,
            get_ids_of_names_lcid: 0,
            invoke_lcid: 0,
            dispid_source: "installed typelib descriptors plus GetIDsOfNames(LCID=0) verification"@,
            invoke_strategy: "raw IDispatch::Invoke with generated-descriptor parity recorded; no hand-emitted InvokeTypes ABI"@,
            argument_omission_policy: "trailing optional omission is distinct from VT_ERROR/DISP_E_PARAMNOTFOUND"@,
            pu_arg_err_initialization: "UINT_MAX sentinel"@,
            result_requested: true,
            type_info_probing: "GetTypeInfoCount/GetTypeInfo recorded before raw fallback"@,
            dual_interface_handling: "not selected; no generated Rust wrapper is introduced"@,
            returned_object_wrapping_policy: "clone IDispatch from VT_DISPATCH before VariantClear"@,
            source_justification: "pywin32 makepy InvokeTypes and generated-property source evidence; bounded Rust fallback avoids inventing descriptors"@,
        },
        ParityMode::ComtypesDynamic => ParityConfigurationView {
            mode,
            activation_api: "CoCreateInstance"@,
            clsctx: "CLSCTX_SERVER"@,
            requested_iid: "IID_IDispatch"@,
            com_initialization: "CoInitializeEx(COINIT_APARTMENTTHREADED)"@,
            get_ids_of_names_lcid: 0,
            invoke_lcid: 0,
            dispid_source: "GetIDsOfNames(LCID=0) verified against installed typelib"@,
            invoke_strategy: "raw IDispatch::Invoke matching the terminal lazybind _invoke call"@,
            argument_omission_policy: "zero omitted arguments use cArgs=0 with null argument pointers"@,
            pu_arg_err_initialization: "UINT_MAX sentinel"@,
            result_requested: true,
            type_info_probing: "GetTypeInfoCount/GetTypeInfo recorded; comtypes lazybind ITypeComp binding is not reimplemented"@,
            dual_interface_handling: "not selected by the raw dynamic parity call"@,
            returned_object_wrapping_policy: "clone IDispatch from VT_DISPATCH before VariantClear"@,
            source_justification: "comtypes 1.4.16 lazybind and automation._invoke source evidence"@,
        },
        ParityMode::ComtypesGenerated => ParityConfigurationView {
            mode,
            activation_api: "CoCreateInstance"@,
            clsctx: "CLSCTX_SERVER"@,
            requested_iid: "IID_IDispatch"@,
            com_initialization: "CoInitializeEx(COINIT_APARTMENTTHREADED)"@,
            get_ids_of_names_lcid: 0,
            invoke_lcid: 0,
            dispid_source: "installed typelib descriptors plus GetIDsOfNames(LCID=0) verification"@,
            invoke_strategy: "raw IDispatch fallback; generated vtable call is deliberately not hand-written"@,
            argument_omission_policy: "zero omitted arguments use cArgs=0 with null argument pointers"@,
            pu_arg_err_initialization: "UINT_MAX sentinel"@,
            result_requested: true,
            type_info_probing: "GetTypeInfoCount/GetTypeInfo and dual-interface availability recorded"@,
            dual_interface_handling: "blocked: no generated Rust Excel bindings are available, so no vtable layout is improvised"@,
            returned_object_wrapping_policy: "clone IDispatch from VT_DISPATCH before VariantClear"@,
            source_justification: "comtypes 1.4.16 tlbparser dual-interface source evidence and Prompt 04 typelib metadata"@,
        },
    }
}

pub fn parity_configuration(mode: ParityMode) -> (c: ParityConfiguration)
    ensures
        c@ == configuration_view(mode),
{
    match mode {
        ParityMode::RustBaseline => ParityConfiguration {
            mode,
            activation_api: "CoCreateInstance",
            clsctx: "CLSCTX_LOCAL_SERVER",
            requested_iid: "IID_IDispatch",
            com_initialization: "CoInitializeEx(COINIT_APARTMENTTHREADED)",
            get_ids_of_names_lcid: 0x0400,
            invoke_lcid: 0x0400,
            dispid_source: "installed typelib DISPID plus GetIDsOfNames verification",
            invoke_strategy: "raw IDispatch::Invoke",
            argument_omission_policy: "zero omitted arguments use cArgs=0 with null argument pointers",
            pu_arg_err_initialization: "UINT_MAX sentinel",
            result_requested: true,
            type_info_probing: "record type-info availability only",
            dual_interface_handling: "not selected; raw IDispatch path",
            returned_object_wrapping_policy: "clone IDispatch from VT_DISPATCH before VariantClear",
            source_justification: "preserved Prompt 05B baseline for comparison",
        },
        ParityMode::Pywin32Dynamic => ParityConfiguration {
            mode,
            activation_api: "CoCreateInstanceEx",
            clsctx: "CLSCTX_SERVER",
            requested_iid: "IID_IDispatch",
            com_initialization: "CoInitializeEx(COINIT_APARTMENTTHREADED)",
            get_ids_of_names_lcid: 0,
            invoke_lcid: 0,
            dispid_source: "GetIDsOfNames(LCID=0) verified against installed typelib",
            invoke_strategy: "raw IDispatch::Invoke; pywin32 CDispatch can select typed helpers when descriptors are available",
            argument_omission_policy: "zero omitted arguments use cArgs=0 with null argument pointers",
            pu_arg_err_initialization: "UINT_MAX sentinel",
            result_requested: true,
            type_info_probing: "GetTypeInfoCount/GetTypeInfo recorded; dynamic wrapper mode remains distinct from typed helper selection",
            dual_interface_handling: "not selected by the raw dynamic parity call",
            returned_object_wrapping_policy: "clone IDispatch from VT_DISPATCH before VariantClear",
            source_justification: "pywin32 311 b311 DispatchEx, dynamic.CDispatch, and PyIDispatch source reconciliation",
        },
        ParityMode::Pywin32Generated => ParityConfiguration {
            mode,
            activation_api: "CoCreateInstance",
            clsctx: "CLSCTX_SERVER",
            requested_iid: "IID_IDispatch",
            com_initialization: "CoInitializeEx(COINIT_APARTMENTTHREADED)",
            get_ids_of_names_lcid: 0,
            invoke_lcid: 0,
            dispid_source: "installed typelib descriptors plus GetIDsOfNames(LCID=0) verification",
            invoke_strategy: "raw IDispatch::Invoke with generated-descriptor parity recorded; no hand-emitted InvokeTypes ABI",
            argument_omission_policy: "trailing optional omission is distinct from VT_ERROR/DISP_E_PARAMNOTFOUND",
            pu_arg_err_initialization: "UINT_MAX sentinel",
            result_requested: true,
            type_info_probing: "GetTypeInfoCount/GetTypeInfo recorded before raw fallback",
            dual_interface_handling: "not selected; no generated Rust wrapper is introduced",
            returned_object_wrapping_policy: "clone IDispatch from VT_DISPATCH before VariantClear",
            source_justification: "pywin32 makepy InvokeTypes and generated-property source evidence; bounded Rust fallback avoids inventing descriptors",
        },
        ParityMode::ComtypesDynamic => ParityConfiguration {
            mode,
            activation_api: "CoCreateInstance",
            clsctx: "CLSCTX_SERVER",
            requested_iid: "IID_IDispatch",
            com_initialization: "CoInitializeEx(COINIT_APARTMENTTHREADED)",
            get_ids_of_names_lcid: 0,
            invoke_lcid: 0,
            dispid_source: "GetIDsOfNames(LCID=0) verified against installed typelib",
            invoke_strategy: "raw IDispatch::Invoke matching the terminal lazybind _invoke call",
            argument_omission_policy: "zero omitted arguments use cArgs=0 with null argument pointers",
            pu_arg_err_initialization: "UINT_MAX sentinel",
            result_requested: true,
            type_info_probing: "GetTypeInfoCount/GetTypeInfo recorded; comtypes lazybind ITypeComp binding is not reimplemented",
            dual_interface_handling: "not selected by the raw dynamic parity call",
            returned_object_wrapping_policy: "clone IDispatch from VT_DISPATCH before VariantClear",
            source_justification: "comtypes 1.4.16 lazybind and automation._invoke source evidence",
        },
        ParityMode::ComtypesGenerated => ParityConfiguration {
            mode,
            activation_api: "CoCreateInstance",
            clsctx: "CLSCTX_SERVER",
            requested_iid: "IID_IDispatch",
            com_initialization: "CoInitializeEx(COINIT_APARTMENTTHREADED)",
            get_ids_of_names_lcid: 0,
            invoke_lcid: 0,
            dispid_source: "installed typelib descriptors plus GetIDsOfNames(LCID=0) verification",
            invoke_strategy: "raw IDispatch fallback; generated vtable call is deliberately not hand-written",
            argument_omission_policy: "zero omitted arguments use cArgs=0 with null argument pointers",
            pu_arg_err_initialization: "UINT_MAX sentinel",
            result_requested: true,
            type_info_probing: "GetTypeInfoCount/GetTypeInfo and dual-interface availability recorded",
            dual_interface_handling: "blocked: no generated Rust Excel bindings are available, so no vtable layout is improvised",
            returned_object_wrapping_policy: "clone IDispatch from VT_DISPATCH before VariantClear",
            source_justification: "comtypes 1.4.16 tlbparser dual-interface source evidence and Prompt 04 typelib metadata",
        },
    }
}

/// Counts of one live run.
#[derive(Debug, Clone, Copy, PartialEq, Eq, Structural)]
pub struct LiveSummary {
    pub observations: usize,
    pub completed_cases: usize,
    pub inconclusive_cases: usize,
}

/// An activation mode of the raw kernel.
#[derive(Debug, Clone, Copy, PartialEq, Eq, Structural)]
pub enum Mode {
    L,
    S,
    X,
}

/// The modes that a kernel-mode argument selects.
pub open spec fn kernel_modes_named(value: Seq<char>) -> Option<Seq<Mode>> {
    if value == "L"@ || value == "l"@ {
        Some(seq![Mode::L])
    } else if value == "S"@ || value == "s"@ {
        Some(seq![Mode::S])
    } else if value == "X"@ || value == "x"@ {
        Some(seq![Mode::X])
    } else if value == "all"@ {
        Some(seq![Mode::L, Mode::S, Mode::X])
    } else {
        None
    }
}

pub open spec fn kernel_mode_id(mode: Mode) -> Seq<char> {
    match mode {
        Mode::L => "L"@,
        Mode::S => "S"@,
        Mode::X => "X"@,
    }
}

pub open spec fn kernel_mode_activation(mode: Mode) -> Seq<char> {
    match mode {
        Mode::L => "CoCreateInstance(CLSCTX_LOCAL_SERVER), LCID 0x0400"@,
        Mode::S => "CoCreateInstance(CLSCTX_SERVER), LCID 0"@,
        Mode::X => "CoCreateInstanceEx(CLSCTX_SERVER), LCID 0"@,
    }
}

impl Mode {
    /// Reads `L`, `S`, `X` (either case) or `all`.
    pub fn parse(value: &str) -> (r: Result<Vec<Self>, String>)
        ensures
            match r {
                Ok(v) => kernel_modes_named(value@) == Some(v@),
                Err(e) => kernel_modes_named(value@) is None && e@
                    == "kernel mode must be L, S, X, or all"@,
            },
    {
        let mut v = Vec::new();
        if str_eq(value, "L") || str_eq(value, "l") {
            v.push(Mode::L);
        } else if str_eq(value, "S") || str_eq(value, "s") {
            v.push(Mode::S);
        } else if str_eq(value, "X") || str_eq(value, "x") {
            v.push(Mode::X);
        } else if str_eq(value, "all") {
            v.push(Mode::L);
            v.push(Mode::S);
            v.push(Mode::X);
        } else {
            return Err(String::from_str("kernel mode must be L, S, X, or all"));
        }
        Ok(v)
    }

    pub fn id(self) -> (s: &'static str)
        ensures
            s@ == kernel_mode_id(self),
    {
        match self {
            Mode::L => "L",
            Mode::S => "S",
            Mode::X => "X",
        }
    }

    /// How the mode creates Excel and which LCID it invokes with.
    pub fn activation(self) -> (s: &'static str)
        ensures
            s@ == kernel_mode_activation(self),
    {
        match self {
            Mode::L => "CoCreateInstance(CLSCTX_LOCAL_SERVER), LCID 0x0400",
            Mode::S => "CoCreateInstance(CLSCTX_SERVER), LCID 0",
            Mode::X => "CoCreateInstanceEx(CLSCTX_SERVER), LCID 0",
        }
    }
}

} // verus!
