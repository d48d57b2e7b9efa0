//! Reading the back end's JSON answers: the members the front end picks from
//! each object, and decimal integers.
use vstd::prelude::*;

verus! {

/// One member of a JSON object, read the ways the front end reads it: its
/// text if it is a string, its JSON text, its value if it is an integer that
/// fits in an `i64`, and its value if it is a boolean. A missing member reads
/// as `null`.
pub struct JsonField {
    pub text: Option<String>,
    pub rendered: String,
    pub int: Option<i64>,
    pub flag: Option<bool>,
}

/// The abstract form of a `JsonField`.
pub struct FieldView {
    pub text: Option<Seq<char>>,
    pub rendered: Seq<char>,
    pub int: Option<i64>,
    pub flag: Option<bool>,
}

impl View for JsonField {
    type V = FieldView;

    open spec fn view(&self) -> FieldView {
        FieldView { text: self.text.deep_view(), rendered: self.rendered@, int: self.int, flag: self.flag }
    }
}

/// The abstract forms of the members of one object.
pub open spec fn field_views(fs: Seq<JsonField>) -> Seq<FieldView> {
    fs.map_values(|f: JsonField| f@)
}

/// The abstract forms of the members of each object of a list.
pub open spec fn row_views(rs: Seq<Vec<JsonField>>) -> Seq<Seq<FieldView>> {
    rs.map_values(|r: Vec<JsonField>| field_views(r@))
}

/// The names of the members to pick.
pub open spec fn key_views(keys: Seq<&str>) -> Seq<Seq<char>> {
    keys.map_values(|k: &str| k@)
}

/// What `serde_json` reads from `text` as a list of values, with the members
/// `keys` of each value picked; `None` when `text` is not a JSON list.
pub uninterp spec fn json_list_fields(text: Seq<char>, keys: Seq<Seq<char>>) -> Option<Seq<Seq<FieldView>>>;

/// What `serde_json` reads from `text` as one value, with the members `keys`
/// picked; `None` when `text` is not JSON.
pub uninterp spec fn json_object_fields(text: Seq<char>, keys: Seq<Seq<char>>) -> Option<Seq<FieldView>>;

/// Reads `text` with `serde_json::from_str::<Vec<serde_json::Value>>` and
/// picks the members `keys` of each value (`value[key]`, read with `as_str`,
/// `to_string`, `as_i64` and `as_bool`).
/// Trusted: the result is `json_list_fields(text, keys)`, and each value
/// yields one field per key, in the order of `keys`; what `serde_json` reads
/// is not stated.
#[verifier::external_body]
pub(crate) fn parse_json_list(text: &str, keys: &[&str]) -> (r: Option<Vec<Vec<JsonField>>>)
    ensures
        r is Some <==> json_list_fields(text@, key_views(keys@)) is Some,
        r matches Some(rows) ==> json_list_fields(text@, key_views(keys@)) == Some(row_views(rows@)),
        r matches Some(rows) ==> forall|i: int| 0 <= i < rows.len() ==> (#[trigger] rows@[i]).len() == keys.len(),
{
    let values: Vec<serde_json::Value> = serde_json::from_str(text).ok()?;
    let pick = |v: &serde_json::Value, k: &&str| JsonField {
        text: v[*k].as_str().map(String::from),
        rendered: v[*k].to_string(),
        int: v[*k].as_i64(),
        flag: v[*k].as_bool(),
    };
    Some(values.iter().map(|v| keys.iter().map(|k| pick(v, k)).collect()).collect())
}

/// Reads `text` with `serde_json::from_str::<serde_json::Value>` and picks
/// the members `keys` (`value[key]`, read with `as_str`, `to_string`, `as_i64`
/// and `as_bool`).
/// Trusted: the result is `json_object_fields(text, keys)`, with one field per
/// key, in the order of `keys`; what `serde_json` reads is not stated.
#[verifier::external_body]
pub(crate) fn parse_json_object(text: &str, keys: &[&str]) -> (r: Option<Vec<JsonField>>)
    ensures
        r is Some <==> json_object_fields(text@, key_views(keys@)) is Some,
        r matches Some(fs) ==> json_object_fields(text@, key_views(keys@)) == Some(field_views(fs@)),
        r matches Some(fs) ==> fs.len() == keys.len(),
{
    let v: serde_json::Value = serde_json::from_str(text).ok()?;
    let pick = |k: &&str| JsonField {
        text: v[*k].as_str().map(String::from),
        rendered: v[*k].to_string(),
        int: v[*k].as_i64(),
        flag: v[*k].as_bool(),
    };
    Some(keys.iter().map(pick).collect())
}

/// The value of a run of decimal digits.
pub open spec fn digits_value(s: Seq<char>) -> int
    decreases s.len(),
{
    if s.len() == 0 {
        0
    } else {
        digits_value(s.drop_last()) * 10 + (s.last() as int - '0' as int)
    }
}

/// One or more decimal digits.
pub open spec fn all_digits(s: Seq<char>) -> bool {
    s.len() > 0 && forall|i: int| 0 <= i < s.len() ==> '0' <= #[trigger] s[i] <= '9'
}

/// The `i64` that `s` writes in decimal: an optional `+` or `-` sign, then one
/// or more digits, and a value in the range of `i64`; `None` otherwise.
pub open spec fn decimal_i64(s: Seq<char>) -> Option<i64> {
    let neg = s.len() > 0 && s[0] == '-';
    let digits = if s.len() > 0 && (s[0] == '-' || s[0] == '+') {
        s.drop_first()
    } else {
        s
    };
    let v = if neg {
        -digits_value(digits)
    } else {
        digits_value(digits)
    };
    if all_digits(digits) && i64::MIN <= v <= i64::MAX {
        Some(v as i64)
    } else {
        None
    }
}

/// Reads a decimal integer with `str::parse::<i64>`.
/// Trusted: the standard library accepts an optional sign and one or more
/// digits whose value fits in an `i64`, as `decimal_i64` states.
#[verifier::external_body]
pub(crate) fn parse_i64(s: &str) -> (r: Option<i64>)
    ensures
        r == decimal_i64(s@),
{
    s.parse::<i64>().ok()
}

} // verus!
