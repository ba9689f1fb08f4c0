//! The `DISPPARAMS` call frame of one `IDispatch::Invoke` and the copied
//! diagnostics that describe a call without recording pointer values.

use vstd::prelude::*;

use crate::text::{
    hex_digits, join_strs, joined, push_char, push_hex, push_str, replace_spec, replace_text,
    str_eq,
};

verus! {

/// The named DISPID that marks the value of a property assignment.
pub const DISPID_PROPERTYPUT: i32 = -3i32;

pub const DISPATCH_METHOD: u16 = 1u16;

pub const DISPATCH_PROPERTYGET: u16 = 2u16;

pub const DISPATCH_PROPERTYPUT: u16 = 4u16;

pub const DISPATCH_PROPERTYPUTREF: u16 = 8u16;

/// How the logical arguments were laid out in `rgvarg`.
#[derive(Debug, Clone, Copy, PartialEq, Eq, Structural)]
pub enum ArgumentOrder {
    PositionalReversed,
    PropertyPut,
    PropertyPutRef,
    NamedThenReversed,
}

impl ArgumentOrder {
    pub open spec fn text_spec(self) -> Seq<char> {
        match self {
            ArgumentOrder::PositionalReversed => "positional arguments reversed into rgvarg"@,
            ArgumentOrder::PropertyPut =>
                "property value is rgvarg[0] and paired with DISPID_PROPERTYPUT"@,
            ArgumentOrder::PropertyPutRef =>
                "property reference is rgvarg[0] and paired with DISPID_PROPERTYPUT for DISPATCH_PROPERTYPUTREF"@,
            ArgumentOrder::NamedThenReversed =>
                "named values lead rgvarg in named-DISPID order; positional values follow in reverse order"@,
        }
    }

    /// The sentence recorded with the frame.
    pub fn text(self) -> (s: &'static str)
        ensures
            s@ == self.text_spec(),
    {
        match self {
            ArgumentOrder::PositionalReversed => "positional arguments reversed into rgvarg",
            ArgumentOrder::PropertyPut =>
                "property value is rgvarg[0] and paired with DISPID_PROPERTYPUT",
            ArgumentOrder::PropertyPutRef =>
                "property reference is rgvarg[0] and paired with DISPID_PROPERTYPUT for DISPATCH_PROPERTYPUTREF",
            ArgumentOrder::NamedThenReversed =>
                "named values lead rgvarg in named-DISPID order; positional values follow in reverse order",
        }
    }
}

/// The argument storage of one call: `arguments` is `rgvarg` in physical
/// order and `named_dispids` is `rgdispidNamedArgs`.
pub struct InvocationFrame<A> {
    pub arguments: Vec<A>,
    pub named_dispids: Vec<i32>,
    pub argument_order: ArgumentOrder,
}

/// The counts and pointer nullness that a frame hands to `Invoke`.
#[derive(Debug, Clone, Copy, PartialEq, Eq, Structural)]
pub struct FrameParams {
    pub c_args: u32,
    pub c_named_args: u32,
    pub rgvarg_is_null: bool,
    pub rgdispid_named_args_is_null: bool,
}

/// A length as the `u32` count field holds it, `u32::MAX` when it does not fit.
pub open spec fn saturated_count(n: nat) -> u32 {
    if n <= u32::MAX {
        n as u32
    } else {
        u32::MAX
    }
}

fn count_of(n: usize) -> (c: u32)
    ensures
        c == saturated_count(n as nat),
{
    if n <= 0xFFFF_FFFFusize {
        n as u32
    } else {
        u32::MAX
    }
}

/// Moves the items of `v` into a new vector in reverse order.
fn reversed<A>(v: Vec<A>) -> (r: Vec<A>)
    ensures
        r@ == v@.reverse(),
{
    let ghost original = v@;
    let mut source = v;
    let mut r: Vec<A> = Vec::new();
    while source.len() > 0
        invariant
            source@.len() + r@.len() == original.len(),
            source@ == original.subrange(0, source@.len() as int),
            forall|k: int|
                0 <= k < r@.len() ==> #[trigger] r@[k] == original[original.len() - 1 - k],
        decreases source.len(),
    {
        let x = source.pop().unwrap();
        r.push(x);
    }
    assert(r@ =~= original.reverse());
    r
}

impl<A> InvocationFrame<A> {
    /// Positional arguments, reversed into `rgvarg`, with no named DISPID.
    pub fn positional(arguments: Vec<A>) -> (f: Self)
        ensures
            f.arguments@ == arguments@.reverse(),
            f.named_dispids@ == Seq::<i32>::empty(),
            f.argument_order == ArgumentOrder::PositionalReversed,
    {
        InvocationFrame {
            arguments: reversed(arguments),
            named_dispids: Vec::new(),
            argument_order: ArgumentOrder::PositionalReversed,
        }
    }

    /// A property assignment: the value is `rgvarg[0]`, named `DISPID_PROPERTYPUT`.
    pub fn property_put(value: A) -> (f: Self)
        ensures
            f.arguments@ == seq![value],
            f.named_dispids@ == seq![DISPID_PROPERTYPUT],
            f.argument_order == ArgumentOrder::PropertyPut,
    {
        let mut arguments = Vec::new();
        arguments.push(value);
        let mut named_dispids = Vec::new();
        named_dispids.push(DISPID_PROPERTYPUT);
        InvocationFrame { arguments, named_dispids, argument_order: ArgumentOrder::PropertyPut }
    }

    /// A by-reference property assignment, laid out as `property_put`.
    pub fn property_put_ref(value: A) -> (f: Self)
        ensures
            f.arguments@ == seq![value],
            f.named_dispids@ == seq![DISPID_PROPERTYPUT],
            f.argument_order == ArgumentOrder::PropertyPutRef,
    {
        let mut arguments = Vec::new();
        arguments.push(value);
        let mut named_dispids = Vec::new();
        named_dispids.push(DISPID_PROPERTYPUT);
        InvocationFrame { arguments, named_dispids, argument_order: ArgumentOrder::PropertyPutRef }
    }

    /// Named arguments first, in their given order, then the positional
    /// arguments reversed.
    pub fn with_named(named: Vec<(i32, A)>, positional: Vec<A>) -> (f: Self)
        ensures
            f.named_dispids@ == named@.map_values(|p: (i32, A)| p.0),
            f.arguments@ == named@.map_values(|p: (i32, A)| p.1) + positional@.reverse(),
            f.argument_order == ArgumentOrder::NamedThenReversed,
    {
        let ghost given = named@;
        let backwards = reversed(named);
        let mut pending = backwards;
        let mut arguments: Vec<A> = Vec::new();
        let mut named_dispids: Vec<i32> = Vec::new();
        while pending.len() > 0
            invariant
                pending@.len() + arguments@.len() == given.len(),
                arguments@.len() == named_dispids@.len(),
                pending@ == given.reverse().subrange(0, pending@.len() as int),
                forall|k: int|
                    0 <= k < arguments@.len() ==> #[trigger] arguments@[k] == given[k].1,
                forall|k: int|
                    0 <= k < named_dispids@.len() ==> #[trigger] named_dispids@[k] == given[k].0,
            decreases pending.len(),
        {
            let (dispid, value) = pending.pop().unwrap();
            named_dispids.push(dispid);
            arguments.push(value);
        }
        assert(named_dispids@ =~= given.map_values(|p: (i32, A)| p.0));
        assert(arguments@ =~= given.map_values(|p: (i32, A)| p.1));
        let ghost front = arguments@;
        let mut tail = reversed(positional);
        arguments.append(&mut tail);
        InvocationFrame { arguments, named_dispids, argument_order: ArgumentOrder::NamedThenReversed }
    }

    /// The `DISPPARAMS` counts; an empty vector is passed as a null pointer.
    pub fn params(&self) -> (p: FrameParams)
        ensures
            p.c_args == saturated_count(self.arguments@.len()),
            p.c_named_args == saturated_count(self.named_dispids@.len()),
            p.rgvarg_is_null == (self.arguments@.len() == 0),
            p.rgdispid_named_args_is_null == (self.named_dispids@.len() == 0),
    {
        FrameParams {
            c_args: count_of(self.arguments.len()),
            c_named_args: count_of(self.named_dispids.len()),
            rgvarg_is_null: self.arguments.len() == 0,
            rgdispid_named_args_is_null: self.named_dispids.len() == 0,
        }
    }
}

/// The flag names present in `flags`, in the order METHOD, PROPERTYGET,
/// PROPERTYPUT, PROPERTYPUTREF; `none` when there is none.
pub open spec fn dispatch_flag_names(flags: u16) -> Seq<Seq<char>> {
    let all = (if flags & DISPATCH_METHOD != 0 {
        seq!["DISPATCH_METHOD"@]
    } else {
        Seq::empty()
    }) + (if flags & DISPATCH_PROPERTYGET != 0 {
        seq!["DISPATCH_PROPERTYGET"@]
    } else {
        Seq::empty()
    }) + (if flags & DISPATCH_PROPERTYPUT != 0 {
        seq!["DISPATCH_PROPERTYPUT"@]
    } else {
        Seq::empty()
    }) + (if flags & DISPATCH_PROPERTYPUTREF != 0 {
        seq!["DISPATCH_PROPERTYPUTREF"@]
    } else {
        Seq::empty()
    });
    if all.len() == 0 {
        seq!["none"@]
    } else {
        all
    }
}

/// `NAME | NAME (0xHHHH)`.
pub open spec fn dispatch_flags_text(flags: u16) -> Seq<char> {
    joined(dispatch_flag_names(flags), " | "@) + " (0x"@ + hex_digits(flags as nat, 4, true)
        + ")"@
}

pub fn format_dispatch_flags(flags: u16) -> (s: String)
    ensures
        s@ == dispatch_flags_text(flags),
{
    let mut names: Vec<&str> = Vec::new();
    let ghost mut expected: Seq<Seq<char>> = Seq::empty();
    if flags & DISPATCH_METHOD != 0 {
        names.push("DISPATCH_METHOD");
    }
    if flags & DISPATCH_PROPERTYGET != 0 {
        names.push("DISPATCH_PROPERTYGET");
    }
    if flags & DISPATCH_PROPERTYPUT != 0 {
        names.push("DISPATCH_PROPERTYPUT");
    }
    if flags & DISPATCH_PROPERTYPUTREF != 0 {
        names.push("DISPATCH_PROPERTYPUTREF");
    }
    if names.len() == 0 {
        names.push("none");
    }
    assert(names@.map_values(|p: &str| p@) =~= dispatch_flag_names(flags));
    let mut s = join_strs(&names, " | ");
    push_str(&mut s, " (0x");
    push_hex(&mut s, flags as u128, 4, true);
    push_char(&mut s, ')');
    proof {
        reveal_strlit(")");
    }
    assert(s@ =~= dispatch_flags_text(flags));
    s
}

/// `puArgErr` as the diagnostics record it: `None` for the `UINT_MAX`
/// sentinel, else the physical `rgvarg` index.
pub fn pu_arg_err_index(value: u32) -> (r: Option<u32>)
    ensures
        r == (if value == u32::MAX {
            None
        } else {
            Some(value)
        }),
{
    if value == u32::MAX {
        None
    } else {
        Some(value)
    }
}

pub const DISP_E_EXCEPTION: i32 = -2147352567i32;

pub const DISP_E_PARAMNOTFOUND_CODE: i32 = -2147352572i32;

pub const DISP_E_TYPEMISMATCH_CODE: i32 = -2147352571i32;

/// What a returned `puArgErr` says about the call's logical parameters.
#[derive(Debug, Clone, Copy, PartialEq, Eq, Structural)]
pub struct ArgErrInterpretation {
    /// The raw value; `None` is the `UINT_MAX` sentinel.
    pub raw_value: Option<u32>,
    /// Only the two argument errors give `puArgErr` a meaning.
    pub applicable: bool,
    pub physical_rgvarg_index: Option<u32>,
    /// The logical (source-order) parameter, counted from zero.
    pub source_parameter_index: Option<u32>,
    /// An exception on a call without arguments: the raw value names no parameter.
    pub zero_argument_exception: bool,
}

pub open spec fn arg_err_applicable(hresult: i32) -> bool {
    hresult == DISP_E_PARAMNOTFOUND_CODE || hresult == DISP_E_TYPEMISMATCH_CODE
}

pub fn interpret_arg_err(raw: u32, hresult: i32, c_args: u32) -> (r: ArgErrInterpretation)
    ensures
        r.raw_value == (if raw == u32::MAX {
            None
        } else {
            Some(raw)
        }),
        r.applicable == arg_err_applicable(hresult),
        r.physical_rgvarg_index == (if arg_err_applicable(hresult) && raw != u32::MAX {
            Some(raw)
        } else {
            None
        }),
        r.source_parameter_index == (if arg_err_applicable(hresult) && raw < c_args {
            Some((c_args - raw - 1) as u32)
        } else {
            None
        }),
        r.zero_argument_exception == (hresult == DISP_E_EXCEPTION && c_args == 0),
{
    let applicable = hresult == DISP_E_PARAMNOTFOUND_CODE || hresult == DISP_E_TYPEMISMATCH_CODE;
    ArgErrInterpretation {
        raw_value: if raw == u32::MAX {
            None
        } else {
            Some(raw)
        },
        applicable,
        physical_rgvarg_index: if applicable && raw != u32::MAX {
            Some(raw)
        } else {
            None
        },
        source_parameter_index: if applicable && raw < c_args {
            Some(c_args - raw - 1)
        } else {
            None
        },
        zero_argument_exception: hresult == DISP_E_EXCEPTION && c_args == 0,
    }
}

/// Whether the DISPID resolved at run time agrees with the audited one;
/// `None` when none was resolved.
pub fn dispid_matches(audited: i32, runtime: Option<i32>) -> (r: Option<bool>)
    ensures
        r == (match runtime {
            Some(v) => Some(v == audited),
            None => None,
        }),
{
    match runtime {
        Some(v) => Some(v == audited),
        None => None,
    }
}

/// How an owned Excel instance was released.
#[derive(Debug, Clone, Copy, PartialEq, Eq, Structural)]
pub struct CleanupRecord {
    pub workbook_closed: bool,
    pub excel_quit_requested: bool,
    pub process_exited: bool,
    pub verification_timeout_milliseconds: u32,
    pub forced_termination: bool,
}

/// The cleanup record never claims that a process was forcibly terminated.
pub fn cleanup_record(workbook_closed: bool, quit_requested: bool, process_exited: bool) -> (r:
    CleanupRecord)
    ensures
        r.workbook_closed == workbook_closed,
        r.excel_quit_requested == quit_requested,
        r.process_exited == process_exited,
        r.verification_timeout_milliseconds == 15000,
        !r.forced_termination,
{
    CleanupRecord {
        workbook_closed,
        excel_quit_requested: quit_requested,
        process_exited,
        verification_timeout_milliseconds: 15000,
        forced_termination: false,
    }
}

/// Repairs the mojibake that Excel's exception texts are known to carry.
pub open spec fn normalized_evidence_text(t: Seq<char>) -> Seq<char> {
    replace_spec(
        replace_spec(
            replace_spec(
                replace_spec(replace_spec(t, "â€¢"@, "•"@), "â†’"@, "→"@),
                "â€™"@,
                "’"@,
            ),
            "ï¿½"@,
            "[replacement-character]"@,
        ),
        "\u{FFFD}"@,
        "[replacement-character]"@,
    )
}

pub fn normalize_evidence_text(text: &str) -> (r: String)
    ensures
        r@ == normalized_evidence_text(text@),
{
    proof {
        reveal_strlit("â€¢");
        reveal_strlit("â†’");
        reveal_strlit("â€™");
        reveal_strlit("ï¿½");
        reveal_strlit("\u{FFFD}");
    }
    let a = replace_text(text, "â€¢", "•");
    let b = replace_text(a.as_str(), "â†’", "→");
    let c = replace_text(b.as_str(), "â€™", "’");
    let d = replace_text(c.as_str(), "ï¿½", "[replacement-character]");
    replace_text(d.as_str(), "\u{FFFD}", "[replacement-character]")
}

/// The member name that an audited Range subject is invoked by.
pub open spec fn subject_member_name(subject: Seq<char>) -> Option<Seq<char>> {
    if subject == "Excel.Range.Value"@ {
        Some("Value"@)
    } else if subject == "Excel.Range.Value2"@ {
        Some("Value2"@)
    } else if subject == "Excel.Range.Formula"@ {
        Some("Formula"@)
    } else if subject == "Excel.Range.Formula2"@ {
        Some("Formula2"@)
    } else if subject == "Excel.Range.Text"@ {
        Some("Text"@)
    } else if subject == "Excel.Range.HasFormula"@ {
        Some("HasFormula"@)
    } else {
        None
    }
}

pub fn name_for_subject(subject: &str) -> (r: Option<&'static str>)
    ensures
        match r {
            Some(n) => subject_member_name(subject@) == Some(n@),
            None => subject_member_name(subject@) is None,
        },
{
    if str_eq(subject, "Excel.Range.Value") {
        Some("Value")
    } else if str_eq(subject, "Excel.Range.Value2") {
        Some("Value2")
    } else if str_eq(subject, "Excel.Range.Formula") {
        Some("Formula")
    } else if str_eq(subject, "Excel.Range.Formula2") {
        Some("Formula2")
    } else if str_eq(subject, "Excel.Range.Text") {
        Some("Text")
    } else if str_eq(subject, "Excel.Range.HasFormula") {
        Some("HasFormula")
    } else {
        None
    }
}

} // verus!
