//! The table of operations that the host understands.

use vstd::prelude::*;

verus! {

/// An operation of the host, selected by its wire code.
///
/// The set is closed: the plugin never sends a code that is not listed here.
#[derive(Clone, Copy, Debug, PartialEq, Eq, Structural)]
pub enum VlType {
    GetVBProject,
    SetVBProject,
    GetFileName,
    IsNativeCompilation,
    ClearAllBuffers,
    GetCompiler,
    IsPacked,
    SetStackCheckBoxValue,
    SetAnalyzerCheckBoxValue,
    GetVBFormName,
    SetVBFormName,
    GetVBForm,
    SetVBForm,
    GetVBFormCount,
    GetSubMain,
    SetSubMain,
    GetModuleName,
    SetModuleName,
    GetModule,
    SetModule,
    GetModuleStringReferences,
    SetModuleStringReferences,
    SetModuleCount,
    GetModuleFunctionName,
    SetModuleFunctionName,
    GetModuleFunctionAddress,
    SetModuleFunctionAddress,
    GetModuleFunction,
    SetModuleFunction,
    GetModuleFunctionStrRef,
    SetModuleFunctionStrRef,
    GetModuleFunctionCount,
    GetActiveText,
    SetActiveText,
    GetActiveDisasmText,
    SetActiveDisasmText,
    SetActiveTextLine,
    GetActiveModuleCoordinats,
    GetVBDecompilerPath,
    GetModuleFunctionCode,
    SetStatusBarText,
    GetFrxIconCount,
    GetFrxIconOffset,
    GetFrxIconSize,
    GetModuleFunctionDisasm,
    SetModuleFunctionDisasm,
    UpdateAll,
}

impl VlType {
    /// The signed 32-bit code that stands for the operation on the wire.
    pub open spec fn spec_code(self) -> i32 {
        match self {
            VlType::GetVBProject => 1,
            VlType::SetVBProject => 2,
            VlType::GetFileName => 3,
            VlType::IsNativeCompilation => 4,
            VlType::ClearAllBuffers => 5,
            VlType::GetCompiler => 6,
            VlType::IsPacked => 7,
            VlType::SetStackCheckBoxValue => 8,
            VlType::SetAnalyzerCheckBoxValue => 9,
            VlType::GetVBFormName => 10,
            VlType::SetVBFormName => 11,
            VlType::GetVBForm => 12,
            VlType::SetVBForm => 13,
            VlType::GetVBFormCount => 14,
            VlType::GetSubMain => 20,
            VlType::SetSubMain => 21,
            VlType::GetModuleName => 30,
            VlType::SetModuleName => 31,
            VlType::GetModule => 32,
            VlType::SetModule => 33,
            VlType::GetModuleStringReferences => 34,
            VlType::SetModuleStringReferences => 35,
            VlType::SetModuleCount => 36,
            VlType::GetModuleFunctionName => 40,
            VlType::SetModuleFunctionName => 41,
            VlType::GetModuleFunctionAddress => 42,
            VlType::SetModuleFunctionAddress => 43,
            VlType::GetModuleFunction => 44,
            VlType::SetModuleFunction => 45,
            VlType::GetModuleFunctionStrRef => 46,
            VlType::SetModuleFunctionStrRef => 47,
            VlType::GetModuleFunctionCount => 48,
            VlType::GetActiveText => 50,
            VlType::SetActiveText => 51,
            VlType::GetActiveDisasmText => 52,
            VlType::SetActiveDisasmText => 53,
            VlType::SetActiveTextLine => 54,
            VlType::GetActiveModuleCoordinats => 55,
            VlType::GetVBDecompilerPath => 56,
            VlType::GetModuleFunctionCode => 57,
            VlType::SetStatusBarText => 58,
            VlType::GetFrxIconCount => 60,
            VlType::GetFrxIconOffset => 61,
            VlType::GetFrxIconSize => 62,
            VlType::GetModuleFunctionDisasm => 70,
            VlType::SetModuleFunctionDisasm => 71,
            VlType::UpdateAll => 100,
        }
    }

    /// The wire code of the operation.
    #[verifier::when_used_as_spec(spec_code)]
    pub fn code(self) -> (code: i32)
        ensures
            code == self.spec_code(),
    {
        match self {
            VlType::GetVBProject => 1,
            VlType::SetVBProject => 2,
            VlType::GetFileName => 3,
            VlType::IsNativeCompilation => 4,
            VlType::ClearAllBuffers => 5,
            VlType::GetCompiler => 6,
            VlType::IsPacked => 7,
            VlType::SetStackCheckBoxValue => 8,
            VlType::SetAnalyzerCheckBoxValue => 9,
            VlType::GetVBFormName => 10,
            VlType::SetVBFormName => 11,
            VlType::GetVBForm => 12,
            VlType::SetVBForm => 13,
            VlType::GetVBFormCount => 14,
            VlType::GetSubMain => 20,
            VlType::SetSubMain => 21,
            VlType::GetModuleName => 30,
            VlType::SetModuleName => 31,
            VlType::GetModule => 32,
            VlType::SetModule => 33,
            VlType::GetModuleStringReferences => 34,
            VlType::SetModuleStringReferences => 35,
            VlType::SetModuleCount => 36,
            VlType::GetModuleFunctionName => 40,
            VlType::SetModuleFunctionName => 41,
            VlType::GetModuleFunctionAddress => 42,
            VlType::SetModuleFunctionAddress => 43,
            VlType::GetModuleFunction => 44,
            VlType::SetModuleFunction => 45,
            VlType::GetModuleFunctionStrRef => 46,
            VlType::SetModuleFunctionStrRef => 47,
            VlType::GetModuleFunctionCount => 48,
            VlType::GetActiveText => 50,
            VlType::SetActiveText => 51,
            VlType::GetActiveDisasmText => 52,
            VlType::SetActiveDisasmText => 53,
            VlType::SetActiveTextLine => 54,
            VlType::GetActiveModuleCoordinats => 55,
            VlType::GetVBDecompilerPath => 56,
            VlType::GetModuleFunctionCode => 57,
            VlType::SetStatusBarText => 58,
            VlType::GetFrxIconCount => 60,
            VlType::GetFrxIconOffset => 61,
            VlType::GetFrxIconSize => 62,
            VlType::GetModuleFunctionDisasm => 70,
            VlType::SetModuleFunctionDisasm => 71,
            VlType::UpdateAll => 100,
        }
    }
}

/// No two operations share a wire code, and every code lies between 1 and 100.
pub proof fn lemma_codes_distinct(a: VlType, b: VlType)
    ensures
        a.code() == b.code() ==> a == b,
        1 <= a.code() <= 100,
{
}

} // verus!
