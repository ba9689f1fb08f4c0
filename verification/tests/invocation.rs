use excel_com_range_probe::codec::{encode_argument, AutomationArgument};
use excel_com_range_probe::frame::{
    cleanup_record, dispid_matches, format_dispatch_flags, interpret_arg_err, name_for_subject,
    normalize_evidence_text, pu_arg_err_index, ArgumentOrder, FrameParams, InvocationFrame,
    DISPATCH_METHOD, DISPATCH_PROPERTYGET, DISPATCH_PROPERTYPUT, DISPATCH_PROPERTYPUTREF,
    DISPID_PROPERTYPUT,
};
use excel_com_range_probe::geometry::{logical_row_column, validate_matrix_shape};
use excel_com_range_probe::scode::{error_code_record, hresult_fields, DISP_E_PARAMNOTFOUND};
use excel_com_range_probe::value::ConversionPolicy;
use excel_com_range_probe::variant::{
    scalar_value, vartype_name, RawVariant, ScalarValue, VT_ARRAY, VT_BOOL, VT_CY, VT_EMPTY, VT_I4,
    VT_NULL, VT_R8, VT_VARIANT,
};

#[test]
fn vartype_format_retains_modifiers_and_unknown_values() {
    assert_eq!(vartype_name(VT_ARRAY | VT_VARIANT), "VT_ARRAY|VT_VARIANT (0x200C)");
    assert_eq!(vartype_name(0x7777), "VT_ARRAY|VT_BYREF|VT_UNKNOWN_RAW (0x7777)");
}

#[test]
fn logical_mapping_is_row_major_for_recorded_preview_order() {
    assert_eq!(logical_row_column(3, 0), (0, 0));
    assert_eq!(logical_row_column(3, 4), (1, 1));
}

#[test]
fn raw_excel_error_codes_preserve_both_signednesses() {
    let value = error_code_record(2042);
    assert_eq!(value.signed_i32, 2042);
    assert_eq!(value.unsigned_u32, 2042);
    let missing = error_code_record(DISP_E_PARAMNOTFOUND);
    assert_eq!(missing.unsigned_u32, 0x8002_0004_u32);
}

#[test]
fn scalar_extraction_preserves_unknown_tag() {
    let value = RawVariant::error(2042);
    assert_eq!(scalar_value(&value).kind(), "error");
    let unknown = RawVariant::empty();
    assert_eq!(scalar_value(&unknown).kind(), "empty");
}

#[test]
fn scalar_extraction_reads_each_payload() {
    assert_eq!(scalar_value(&RawVariant::scalar(VT_I4, 0xFFFF_FFFE)), ScalarValue::I4(-2));
    assert_eq!(scalar_value(&RawVariant::scalar(VT_NULL, 0)).kind(), "null");
    let bits = 1.5f64.to_bits();
    assert_eq!(scalar_value(&RawVariant::scalar(VT_R8, bits)), ScalarValue::R8(bits));
    assert_eq!(scalar_value(&RawVariant::scalar(VT_CY, 1_234_500)), ScalarValue::Currency(1_234_500));
    assert_eq!(scalar_value(&RawVariant::scalar(VT_BOOL, 0xFFFF)), ScalarValue::Bool(-1));
    match scalar_value(&RawVariant::error(-2146826246)) {
        ScalarValue::Error(e) => {
            assert_eq!(e.signed_i32, -2146826246);
            assert_eq!(e.unsigned_u32, 0x800A_07FA);
        }
        other => panic!("unexpected {:?}", other),
    }
    let text: Vec<u16> = "Grüße".encode_utf16().collect();
    assert_eq!(scalar_value(&RawVariant::bstr(text.clone())), ScalarValue::Bstr(text));
    let unknown = scalar_value(&RawVariant::scalar(0x7777, 1));
    assert_eq!(unknown, ScalarValue::Unknown(0x7777));
    assert_eq!(unknown.kind(), "unknown");
}

#[test]
fn matrix_shape_validation_rejects_mismatch_before_allocation() {
    assert!(validate_matrix_shape(2, 2, 4).is_ok());
    assert!(validate_matrix_shape(2, 2, 3).is_err());
}

#[test]
fn zero_argument_frame_uses_null_pointers() {
    let frame: InvocationFrame<i32> = InvocationFrame::positional(Vec::new());
    let params = frame.params();
    assert_eq!(params.c_args, 0);
    assert_eq!(params.c_named_args, 0);
    assert!(params.rgvarg_is_null);
    assert!(params.rgdispid_named_args_is_null);
}

#[test]
fn one_and_many_positional_arguments_are_reversed() {
    let frame = InvocationFrame::positional(vec![1_i32, 2_i32]);
    let params = frame.params();
    assert_eq!(params.c_args, 2);
    assert_eq!(frame.arguments[0], 2);
    assert_eq!(frame.arguments[1], 1);
}

#[test]
fn named_arguments_lead_the_reverse_positional_layout() {
    let frame = InvocationFrame::with_named(vec![(77, 9_i32)], vec![1_i32, 2_i32]);
    assert_eq!(frame.named_dispids, vec![77]);
    assert_eq!(frame.arguments[0], 9);
    assert_eq!(frame.arguments[1], 2);
    assert_eq!(frame.arguments[2], 1);
}

#[test]
fn flags_hresult_exceptions_and_argerr_have_stable_diagnostics() {
    assert_eq!(
        format_dispatch_flags(DISPATCH_METHOD | DISPATCH_PROPERTYGET),
        "DISPATCH_METHOD | DISPATCH_PROPERTYGET (0x0003)"
    );
    assert_eq!(hresult_fields(0x8002_0004_u32 as i32).facility, 2);
    assert_eq!(hresult_fields(0x8002_0004_u32 as i32).code, 4);
    assert_eq!(hresult_fields(0x800A_03EC_u32 as i32).hex, "0x800A03EC");
    assert_eq!(pu_arg_err_index(3), Some(3));
    assert!(pu_arg_err_index(u32::MAX).is_none());
}

#[test]
fn audit_comparison_and_result_initialization_are_explicit() {
    assert_eq!(dispid_matches(181, Some(181)), Some(true));
    assert_eq!(dispid_matches(181, Some(180)), Some(false));
    assert!(dispid_matches(181, None).is_none());
    assert_eq!(vartype_name(VT_EMPTY), "VT_EMPTY (0x0000)");
}

#[test]
fn frame_diagnostic_serialization_omits_pointer_values() {
    let frame = InvocationFrame::property_put(42_i32);
    assert_eq!(
        frame.params(),
        FrameParams {
            c_args: 1,
            c_named_args: 1,
            rgvarg_is_null: false,
            rgdispid_named_args_is_null: false,
        }
    );
}

#[test]
fn property_put_and_property_put_ref_use_the_propertyput_named_dispid() {
    let put = InvocationFrame::property_put(42_i32);
    let put_ref = InvocationFrame::property_put_ref(0_i32);
    assert_eq!(put.named_dispids, vec![DISPID_PROPERTYPUT]);
    assert_eq!(put_ref.named_dispids, vec![DISPID_PROPERTYPUT]);
    assert!(put_ref.argument_order.text().contains("DISPATCH_PROPERTYPUTREF"));
    assert!(format_dispatch_flags(DISPATCH_PROPERTYPUTREF).contains("DISPATCH_PROPERTYPUTREF"));
}

#[test]
fn optional_argument_encodings_remain_distinct() {
    let omitted: InvocationFrame<i32> = InvocationFrame::positional(Vec::new());
    let missing = encode_argument(&AutomationArgument::Missing, &ConversionPolicy::strict()).unwrap();
    assert_eq!(omitted.params().c_args, 0);
    assert_eq!(vartype_name(missing.vt), "VT_ERROR (0x000A)");
    assert_eq!(vartype_name(VT_EMPTY), "VT_EMPTY (0x0000)");
    assert_eq!(vartype_name(VT_NULL), "VT_NULL (0x0001)");
}

#[test]
fn zero_argument_exception_does_not_map_argerr_to_a_source_parameter() {
    let normalized = interpret_arg_err(0, 0x8002_0009_u32 as i32, 0);
    assert!(!normalized.applicable);
    assert!(normalized.source_parameter_index.is_none());
    assert!(normalized.zero_argument_exception);
}

#[test]
fn cleanup_record_never_claims_forced_termination() {
    let cleanup = cleanup_record(true, true, true);
    assert!(cleanup.workbook_closed);
    assert!(cleanup.excel_quit_requested);
    assert!(cleanup.process_exited);
    assert!(!cleanup.forced_termination);
}

#[test]
fn argument_errors_map_physical_to_source_order() {
    let type_mismatch = interpret_arg_err(0, 0x8002_0005_u32 as i32, 3);
    assert!(type_mismatch.applicable);
    assert_eq!(type_mismatch.physical_rgvarg_index, Some(0));
    assert_eq!(type_mismatch.source_parameter_index, Some(2));
    let sentinel = interpret_arg_err(u32::MAX, 0x8002_0004_u32 as i32, 3);
    assert_eq!(sentinel.raw_value, None);
    assert_eq!(sentinel.physical_rgvarg_index, None);
    assert_eq!(sentinel.source_parameter_index, None);
}

#[test]
fn flags_without_known_bits_are_named_none() {
    assert_eq!(format_dispatch_flags(0), "none (0x0000)");
    assert_eq!(
        format_dispatch_flags(DISPATCH_PROPERTYPUT | DISPATCH_PROPERTYPUTREF | 0x10),
        "DISPATCH_PROPERTYPUT | DISPATCH_PROPERTYPUTREF (0x001C)"
    );
}

#[test]
fn argument_order_sentences_are_fixed() {
    let frame = InvocationFrame::with_named(Vec::new(), vec![1_i32]);
    assert_eq!(frame.argument_order, ArgumentOrder::NamedThenReversed);
    assert_eq!(
        ArgumentOrder::PositionalReversed.text(),
        "positional arguments reversed into rgvarg"
    );
}

#[test]
fn evidence_text_repairs_known_mojibake() {
    assert_eq!(normalize_evidence_text("a â€¢ b â†’ c"), "a • b → c");
    assert_eq!(normalize_evidence_text("x\u{FFFD}y ï¿½"), "x[replacement-character]y [replacement-character]");
    assert_eq!(normalize_evidence_text("plain"), "plain");
}

#[test]
fn audited_subjects_name_their_members() {
    assert_eq!(name_for_subject("Excel.Range.Value2"), Some("Value2"));
    assert_eq!(name_for_subject("Excel.Range.HasFormula"), Some("HasFormula"));
    assert_eq!(name_for_subject("Excel.Range.Address"), None);
}

#[test]
fn shape_mismatch_message_is_exact() {
    assert_eq!(
        validate_matrix_shape(2, 3, 5),
        Err("matrix shape 2x3 requires 6 values, received 5".to_owned())
    );
    assert_eq!(logical_row_column(0, 5), (5, 0));
}
