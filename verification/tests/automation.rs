use excel_com_range_probe::codec::{
    decode_safearray, decode_variant, encode_argument, encode_safearray, encode_variant,
    AutomationArgument, EXCEL_CELL_STRING_LIMIT,
};
use excel_com_range_probe::scode::{
    ExcelError, ExcelErrorKind, DISP_E_PARAMNOTFOUND, SCODE_DIV0, SCODE_NAME, SCODE_NOT_AVAILABLE,
    SCODE_NULL, SCODE_NUM, SCODE_REF, SCODE_VALUE,
};
use excel_com_range_probe::value::{
    AutomationArray, AutomationValue, ConversionError, ConversionPolicy, Currency,
    DateWritePolicy, OaDate,
};
use excel_com_range_probe::variant::{
    RawSafeArray, RawVariant, SafeArrayDimension, VT_ARRAY_VARIANT, VT_ERROR, VT_I4, VT_I8, VT_R8,
    VT_VARIANT,
};

fn strict() -> ConversionPolicy {
    ConversionPolicy::default()
}

fn round_trip(value: AutomationValue) -> AutomationValue {
    let policy = strict();
    let raw = encode_variant(&value, &policy).expect("encode");
    decode_variant(&raw, &policy).expect("decode")
}

fn number(value: f64) -> AutomationValue {
    AutomationValue::Number(value.to_bits())
}

fn i4(value: i32) -> RawVariant {
    RawVariant::scalar(VT_I4, value as u32 as u64)
}

#[test]
fn standard_errors_are_exact_signed_scodes() {
    let expected = [
        (ExcelError(SCODE_NULL), 0x800A_07D0_u32, ExcelErrorKind::Null),
        (ExcelError(SCODE_DIV0), 0x800A_07D7, ExcelErrorKind::Div0),
        (ExcelError(SCODE_VALUE), 0x800A_07DF, ExcelErrorKind::Value),
        (ExcelError(SCODE_REF), 0x800A_07E7, ExcelErrorKind::Ref),
        (ExcelError(SCODE_NAME), 0x800A_07ED, ExcelErrorKind::Name),
        (ExcelError(SCODE_NUM), 0x800A_07F4, ExcelErrorKind::Num),
        (ExcelError(SCODE_NOT_AVAILABLE), 0x800A_07FA, ExcelErrorKind::NotAvailable),
    ];
    for (error, bits, kind) in expected {
        assert_eq!(error.scode() as u32, bits);
        assert_eq!(error.kind(), kind);
        assert_eq!(round_trip(AutomationValue::Error(error)), AutomationValue::Error(error));
    }
}

#[test]
fn unknown_negative_scode_round_trips_but_short_excel_number_cannot_write() {
    let unknown = ExcelError::from_scode(0x8123_4567_u32 as i32);
    assert_eq!(unknown.kind(), ExcelErrorKind::Other(unknown.scode()));
    assert_eq!(round_trip(AutomationValue::Error(unknown)), AutomationValue::Error(unknown));
    assert!(matches!(
        encode_variant(&AutomationValue::Error(ExcelError::from_scode(2042)), &strict()),
        Err(ConversionError::InvalidExcelErrorScode)
    ));
}

#[test]
fn scalar_round_trips_preserve_distinctions_and_unicode() {
    let cases = vec![
        AutomationValue::Empty,
        AutomationValue::Null,
        AutomationValue::Bool(false),
        AutomationValue::Bool(true),
        number(0.0),
        number(-0.0),
        number(-42.5),
        AutomationValue::Text(String::new()),
        AutomationValue::Text("Grüße Ω 😀".to_owned()),
        AutomationValue::Date(OaDate::new(45_292.5_f64.to_bits()).unwrap()),
        AutomationValue::Currency(Currency::from_scaled(0)),
        AutomationValue::Currency(Currency::from_scaled(-1_234_500)),
    ];
    for value in cases {
        assert_eq!(round_trip(value.clone()), value);
    }
}

#[test]
fn finite_number_property_samples_round_trip_bitwise() {
    for bits in [0_u64, 1, 0x8000_0000_0000_0000, 0x3ff0_0000_0000_0000, 0xc05e_d000_0000_0000] {
        let value = f64::from_bits(bits);
        if value.is_finite() {
            assert_eq!(round_trip(number(value)), number(value));
        }
    }
}

#[test]
fn strict_policy_rejects_lossy_and_unsafe_scalars() {
    for value in [f64::NAN, f64::INFINITY, f64::NEG_INFINITY] {
        assert!(matches!(
            encode_variant(&number(value), &strict()),
            Err(ConversionError::NonFiniteNumber)
        ));
    }
    assert!(matches!(
        encode_variant(&AutomationValue::Text("left\0right".to_owned()), &strict()),
        Err(ConversionError::EmbeddedNul)
    ));
    let too_long = "x".repeat(EXCEL_CELL_STRING_LIMIT + 1);
    assert!(matches!(
        encode_variant(&AutomationValue::Text(too_long), &strict()),
        Err(ConversionError::StringTooLong)
    ));
    assert_eq!(
        decode_variant(&RawVariant::scalar(VT_I8, 9_007_199_254_740_993_i64 as u64), &strict()),
        Err(ConversionError::NumericPrecisionLoss)
    );
}

#[test]
fn dates_have_explicit_negative_date_policy() {
    let negative = AutomationValue::Date(OaDate::new((-1.25_f64).to_bits()).unwrap());
    assert!(matches!(
        encode_variant(&negative, &strict()),
        Err(ConversionError::InvalidDateForPolicy)
    ));
    let policy = ConversionPolicy { date_write: DateWritePolicy::Value2Serial, ..strict() };
    let encoded = encode_variant(&negative, &policy).unwrap();
    assert_eq!(encoded.vt, VT_R8);
    assert_eq!(decode_variant(&encoded, &policy), Ok(number(-1.25)));
}

#[test]
fn currency_is_exact_and_checked() {
    assert_eq!(Currency::from_decimal_parts(123, 4500).unwrap().scaled(), 1_234_500);
    assert_eq!(Currency::from_decimal_parts(-123, 4500).unwrap().scaled(), -1_234_500);
    assert_eq!(Currency::from_decimal_parts(i64::MAX, 1), Err(ConversionError::CurrencyOverflow));
    for scaled in [-1_i64, 0, 1, i64::MAX, i64::MIN] {
        assert_eq!(
            round_trip(AutomationValue::Currency(Currency::from_scaled(scaled))),
            AutomationValue::Currency(Currency::from_scaled(scaled))
        );
    }
}

#[test]
fn rectangular_array_accessors_and_shape_policy_are_exact() {
    let mut values = AutomationArray::from_rows(vec![
        vec![number(1.0), number(2.0)],
        vec![number(3.0), number(4.0)],
    ])
    .unwrap();
    assert_eq!(values.rows(), 2);
    assert_eq!(values.columns(), 2);
    assert_eq!(values.len(), 4);
    assert!(!values.is_empty());
    assert_eq!(values.get(1, 0), Some(&number(3.0)));
    assert!(values.set(0, 1, number(20.0)));
    assert_eq!(values.values()[1], number(20.0));
    assert!(matches!(
        strict().shape.validate(&values, 1, 4),
        Err(ConversionError::ShapeMismatch { .. })
    ));
    assert_eq!(
        AutomationArray::from_rows(vec![vec![AutomationValue::Empty], vec![]]),
        Err(ConversionError::InvalidElementCount)
    );
}

#[test]
fn safearray_round_trips_mixed_values_in_row_major_order() {
    let values = AutomationArray::from_rows(vec![
        vec![AutomationValue::Empty, AutomationValue::Null, AutomationValue::Bool(true)],
        vec![
            AutomationValue::Text("Ω".to_owned()),
            AutomationValue::Error(ExcelError(SCODE_NOT_AVAILABLE)),
            AutomationValue::Currency(Currency::from_scaled(12_345)),
        ],
    ])
    .unwrap();
    let decoded = round_trip(AutomationValue::Array(values.clone()));
    assert_eq!(decoded, AutomationValue::Array(values));
}

fn dimension(physical: u32, lower: i32, count: u32) -> SafeArrayDimension {
    SafeArrayDimension {
        physical_dimension: physical,
        lower_bound: lower,
        upper_bound: lower + count as i32 - 1,
        element_count: count,
    }
}

#[test]
fn rank_one_array_is_rejected_and_non_one_bounds_decode() {
    let vector = RawVariant {
        vt: VT_ARRAY_VARIANT,
        bits: 0,
        text: Vec::new(),
        array: Some(RawSafeArray {
            rank: 1,
            dimensions: vec![dimension(1, -4, 2)],
            element_vartype: Some(VT_VARIANT),
            elements: vec![i4(1), i4(2)],
        }),
    };
    assert_eq!(
        decode_safearray(&vector, &strict()),
        Err(ConversionError::UnsupportedSafeArrayRank { rank: 1 })
    );
    let owner = RawVariant {
        vt: VT_ARRAY_VARIANT,
        bits: 0,
        text: Vec::new(),
        array: Some(RawSafeArray {
            rank: 2,
            dimensions: vec![dimension(1, 7, 2), dimension(2, -3, 2)],
            element_vartype: Some(VT_VARIANT),
            elements: vec![i4(1), i4(2), i4(3), i4(4)],
        }),
    };
    assert_eq!(
        decode_safearray(&owner, &strict()),
        Ok(AutomationArray::from_rows(vec![
            vec![number(1.0), number(2.0)],
            vec![number(3.0), number(4.0)],
        ])
        .unwrap())
    );
}

#[test]
fn array_failure_identifies_element_and_nested_arrays_are_not_allowed() {
    let nested = AutomationArray::row(vec![AutomationValue::Empty]).unwrap();
    let array = AutomationArray::row(vec![AutomationValue::Array(nested)]).unwrap();
    assert!(matches!(
        encode_safearray(&array, &strict()),
        Err(ConversionError::SafeArrayElementFailed { row: 0, column: 0 })
    ));
}

#[test]
fn missing_is_not_an_excel_error() {
    let missing = encode_argument(&AutomationArgument::Missing, &strict()).unwrap();
    let error = encode_argument(
        &AutomationArgument::Value(AutomationValue::Error(ExcelError(SCODE_NOT_AVAILABLE))),
        &strict(),
    )
    .unwrap();
    assert_eq!(missing.vt, VT_ERROR);
    assert_eq!(missing.error_scode(), Some(DISP_E_PARAMNOTFOUND));
    assert_eq!(error.vt, VT_ERROR);
    assert_eq!(error.error_scode(), Some(ExcelError(SCODE_NOT_AVAILABLE).scode()));
}

#[test]
fn excel_numbers_come_only_from_excel_facility_scodes() {
    assert_eq!(ExcelError(SCODE_NOT_AVAILABLE).excel_number(), Some(2042));
    assert_eq!(ExcelError(SCODE_NULL).excel_number(), Some(2000));
    assert_eq!(ExcelError::from_scode(2042).excel_number(), None);
    assert_eq!(ExcelError::from_scode(DISP_E_PARAMNOTFOUND).excel_number(), None);
}

#[test]
fn array_values_come_back_in_row_major_order() {
    let array = AutomationArray::new(
        2,
        2,
        vec![
            AutomationValue::Text("a".to_owned()),
            AutomationValue::Empty,
            AutomationValue::Bool(true),
            AutomationValue::Null,
        ],
    )
    .unwrap();
    assert_eq!(
        array.into_values(),
        vec![
            AutomationValue::Text("a".to_owned()),
            AutomationValue::Empty,
            AutomationValue::Bool(true),
            AutomationValue::Null,
        ]
    );
}

#[test]
fn i4_payload_is_read_only_from_vt_i4() {
    assert_eq!(RawVariant::scalar(VT_I4, 0xFFFF_FFD6).i4_value(), Some(-42));
    assert_eq!(RawVariant::scalar(VT_R8, 42).i4_value(), None);
}
