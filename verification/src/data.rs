//! The data model of the library: measurement values, geo positions, labels
//! and data points, together with their rendering into the platform's
//! line-oriented wire format.
use vstd::prelude::*;

verus! {

// ---------------------------------------------------------------------------
// Decimal rendering of integers.
// ---------------------------------------------------------------------------

/// The decimal digit character for `d` (0 through 9).
pub open spec fn spec_digit_char(d: int) -> char
    recommends
        0 <= d < 10,
{
    if d == 0 {
        '0'
    } else if d == 1 {
        '1'
    } else if d == 2 {
        '2'
    } else if d == 3 {
        '3'
    } else if d == 4 {
        '4'
    } else if d == 5 {
        '5'
    } else if d == 6 {
        '6'
    } else if d == 7 {
        '7'
    } else if d == 8 {
        '8'
    } else {
        '9'
    }
}

/// The standard decimal rendering of a natural number, without sign and
/// without leading zeros (except for the number 0 itself).
pub open spec fn spec_udec(n: nat) -> Seq<char>
    decreases n,
{
    if n < 10 {
        seq![spec_digit_char(n as int)]
    } else {
        spec_udec(n / 10) + seq![spec_digit_char((n % 10) as int)]
    }
}

/// The standard decimal rendering of an integer: a `-` sign for negative
/// numbers, then the digits of the magnitude.
pub open spec fn spec_idec(n: int) -> Seq<char> {
    if n < 0 {
        seq!['-'] + spec_udec((-n) as nat)
    } else {
        spec_udec(n as nat)
    }
}

/// A one-character string holding the decimal digit `d`.
fn digit_string(d: u64) -> (r: String)
    requires
        d < 10,
    ensures
        r@ == seq![spec_digit_char(d as int)],
{
    let s = if d == 0 {
        String::from_str("0")
    } else if d == 1 {
        String::from_str("1")
    } else if d == 2 {
        String::from_str("2")
    } else if d == 3 {
        String::from_str("3")
    } else if d == 4 {
        String::from_str("4")
    } else if d == 5 {
        String::from_str("5")
    } else if d == 6 {
        String::from_str("6")
    } else if d == 7 {
        String::from_str("7")
    } else if d == 8 {
        String::from_str("8")
    } else {
        String::from_str("9")
    };
    proof {
        reveal_strlit("0");
        reveal_strlit("1");
        reveal_strlit("2");
        reveal_strlit("3");
        reveal_strlit("4");
        reveal_strlit("5");
        reveal_strlit("6");
        reveal_strlit("7");
        reveal_strlit("8");
        reveal_strlit("9");
        assert(s@ =~= seq![spec_digit_char(d as int)]);
    }
    s
}

/// Renders an unsigned number in decimal.
pub fn u64_to_dec_string(n: u64) -> (r: String)
    ensures
        r@ == spec_udec(n as nat),
    decreases n,
{
    if n < 10 {
        digit_string(n)
    } else {
        let mut s = u64_to_dec_string(n / 10);
        let d = digit_string(n % 10);
        s.append(d.as_str());
        s
    }
}

/// Renders a signed number in decimal.
pub fn i64_to_dec_string(n: i64) -> (r: String)
    ensures
        r@ == spec_idec(n as int),
{
    if n >= 0 {
        u64_to_dec_string(n as u64)
    } else {
        let mag: u64 = ((-(n + 1)) as u64) + 1;
        assert(mag as int == -(n as int));
        let mut s = String::from_str("-");
        proof {
            reveal_strlit("-");
        }
        let d = u64_to_dec_string(mag);
        s.append(d.as_str());
        assert(s@ =~= spec_idec(n as int));
        s
    }
}

// ---------------------------------------------------------------------------
// Standard decimal parsing, and the round trip through it.
// ---------------------------------------------------------------------------

/// The numeric value of a decimal digit character; zero for any other
/// character.
pub open spec fn spec_char_digit_val(c: char) -> nat {
    if c == '1' {
        1
    } else if c == '2' {
        2
    } else if c == '3' {
        3
    } else if c == '4' {
        4
    } else if c == '5' {
        5
    } else if c == '6' {
        6
    } else if c == '7' {
        7
    } else if c == '8' {
        8
    } else if c == '9' {
        9
    } else {
        0
    }
}

/// Standard decimal parsing of an unsigned number: each further digit
/// scales the accumulator by ten.
pub open spec fn spec_parse_udec(s: Seq<char>) -> nat
    decreases s.len(),
{
    if s.len() == 0 {
        0
    } else {
        spec_parse_udec(s.drop_last()) * 10 + spec_char_digit_val(s.last())
    }
}

/// Standard decimal parsing of a signed number: a leading `-` negates the
/// parse of the rest.
pub open spec fn spec_parse_idec(s: Seq<char>) -> int {
    if s.len() > 0 && s[0] == '-' {
        -(spec_parse_udec(s.skip(1)) as int)
    } else {
        spec_parse_udec(s) as int
    }
}

/// The decimal rendering of a natural number is nonempty and starts with a
/// digit character.
proof fn lemma_udec_first_digit(n: nat)
    ensures
        spec_udec(n).len() >= 1,
        '0' <= spec_udec(n)[0] <= '9',
    decreases n,
{
    if n >= 10 {
        lemma_udec_first_digit(n / 10);
    }
}

/// Parsing the decimal rendering of a natural number yields it back.
pub proof fn lemma_udec_round_trip(n: nat)
    ensures
        spec_parse_udec(spec_udec(n)) == n,
    decreases n,
{
    if n < 10 {
        let s = seq![spec_digit_char(n as int)];
        assert(s.drop_last() =~= Seq::<char>::empty());
        assert(spec_parse_udec(Seq::<char>::empty()) == 0);
        assert(s.last() == spec_digit_char(n as int));
        assert(spec_parse_udec(s) == spec_char_digit_val(spec_digit_char(n as int)));
    } else {
        let a = spec_udec(n / 10);
        let d = spec_digit_char((n % 10) as int);
        assert((a + seq![d]).drop_last() =~= a);
        assert((a + seq![d]).last() == d);
        lemma_udec_round_trip(n / 10);
        assert(spec_char_digit_val(d) == n % 10);
    }
}

/// Parsing the decimal rendering of an integer yields it back.
pub proof fn lemma_idec_round_trip(n: int)
    ensures
        spec_parse_idec(spec_idec(n)) == n,
{
    if n < 0 {
        let s = seq!['-'] + spec_udec((-n) as nat);
        lemma_udec_first_digit((-n) as nat);
        assert(s[0] == '-');
        assert(s.skip(1) =~= spec_udec((-n) as nat));
        lemma_udec_round_trip((-n) as nat);
    } else {
        lemma_udec_first_digit(n as nat);
        assert(spec_idec(n)[0] != '-');
        lemma_udec_round_trip(n as nat);
    }
}

// ---------------------------------------------------------------------------
// Percent-encoding with the non-alphanumeric encode set.
// ---------------------------------------------------------------------------

/// True for the bytes of ASCII letters and digits, the bytes that the
/// non-alphanumeric encode set passes through unchanged.
pub open spec fn spec_is_alnum_byte(b: u8) -> bool {
    (48 <= b && b <= 57) || (65 <= b && b <= 90) || (97 <= b && b <= 122)
}

/// The uppercase hexadecimal digit character for `d` (0 through 15).
pub open spec fn spec_hex_digit(d: int) -> char
    recommends
        0 <= d < 16,
{
    if d < 10 {
        spec_digit_char(d)
    } else if d == 10 {
        'A'
    } else if d == 11 {
        'B'
    } else if d == 12 {
        'C'
    } else if d == 13 {
        'D'
    } else if d == 14 {
        'E'
    } else {
        'F'
    }
}

/// The `%XX` escape of one byte, with uppercase hexadecimal digits.
pub open spec fn spec_pct_byte(b: u8) -> Seq<char> {
    seq!['%', spec_hex_digit(b as int / 16), spec_hex_digit(b as int % 16)]
}

/// How one byte is percent-encoded: the byte of an ASCII letter or digit
/// stands for itself, every other byte becomes its `%XX` escape.
pub open spec fn spec_pct_encode_byte(b: u8) -> Seq<char> {
    if spec_is_alnum_byte(b) {
        seq![b as char]
    } else {
        spec_pct_byte(b)
    }
}

/// The percent-encoding of a byte sequence, byte by byte.
pub open spec fn spec_pct_encode_bytes(bs: Seq<u8>) -> Seq<char>
    decreases bs.len(),
{
    if bs.len() == 0 {
        Seq::empty()
    } else {
        spec_pct_encode_byte(bs[0]) + spec_pct_encode_bytes(bs.skip(1))
    }
}

/// True when every character of `s` is ASCII.
pub open spec fn spec_all_ascii(s: Seq<char>) -> bool {
    forall|i: int| 0 <= i < s.len() ==> ((#[trigger] s[i]) as u32) < 128
}

/// The UTF-8 bytes of a text, the form in which the percent-encoder reads
/// its input.  For an all-ASCII text these are the characters' own codes,
/// which [`spec_url_encode`] states directly; beyond ASCII the bytes are
/// named here and left abstract.
pub uninterp spec fn utf8_bytes_of(s: Seq<char>) -> Seq<u8>;

/// The bytes of an all-ASCII text: each character's own code.
pub open spec fn spec_ascii_bytes(s: Seq<char>) -> Seq<u8> {
    s.map_values(|c: char| c as u8)
}

/// The percent-encoding of a text with the non-alphanumeric encode set:
/// every byte of its UTF-8 form outside the ASCII letters and digits becomes
/// a `%XX` escape.
pub open spec fn spec_url_encode(s: Seq<char>) -> Seq<char> {
    if spec_all_ascii(s) {
        spec_pct_encode_bytes(spec_ascii_bytes(s))
    } else {
        spec_pct_encode_bytes(utf8_bytes_of(s))
    }
}

/// Relies on `percent_encoding::utf8_percent_encode` with the
/// `NON_ALPHANUMERIC` encode set: every byte of the UTF-8 form of the input
/// that is not an ASCII letter or digit is replaced by `%XX` with uppercase
/// hexadecimal digits; ASCII letters and digits pass through unchanged.
#[verifier::external_body]
pub(crate) fn url_encode(input: &str) -> (r: String)
    ensures
        r@ == spec_pct_encode_bytes(utf8_bytes_of(input@)),
        r@ == spec_url_encode(input@),
{
    let mut s = String::new();
    s.extend(percent_encoding::utf8_percent_encode(
        input,
        percent_encoding::NON_ALPHANUMERIC,
    ));
    s
}

/// The numeric value of an uppercase hexadecimal digit character; the
/// decimal digits keep their value, any other character counts zero.
pub open spec fn spec_hex_digit_val(c: char) -> nat {
    if c == 'A' {
        10
    } else if c == 'B' {
        11
    } else if c == 'C' {
        12
    } else if c == 'D' {
        13
    } else if c == 'E' {
        14
    } else if c == 'F' {
        15
    } else {
        spec_char_digit_val(c)
    }
}

/// Standard percent-decoding of text into bytes: a `%` introduces two
/// hexadecimal digits naming one byte, and any other character stands for
/// the byte with its own code.
pub open spec fn spec_pct_decode_bytes(s: Seq<char>) -> Seq<u8>
    decreases s.len(),
{
    if s.len() == 0 {
        Seq::empty()
    } else if s[0] == '%' && s.len() >= 3 {
        seq![(spec_hex_digit_val(s[1]) * 16 + spec_hex_digit_val(s[2])) as u8]
            + spec_pct_decode_bytes(s.skip(3))
    } else {
        seq![s[0] as u8] + spec_pct_decode_bytes(s.skip(1))
    }
}

/// Percent-encoding loses nothing: decoding the encoded text yields exactly
/// the bytes that went in.
pub proof fn lemma_pct_encode_bytes_invertible(bs: Seq<u8>)
    ensures
        spec_pct_decode_bytes(spec_pct_encode_bytes(bs)) == bs,
    decreases bs.len(),
{
    if bs.len() == 0 {
        assert(spec_pct_decode_bytes(spec_pct_encode_bytes(bs)) =~= bs);
    } else {
        let b = bs[0];
        let rest = spec_pct_encode_bytes(bs.skip(1));
        lemma_pct_encode_bytes_invertible(bs.skip(1));
        if spec_is_alnum_byte(b) {
            let out = seq![b as char] + rest;
            assert(spec_pct_encode_bytes(bs) == out);
            assert(out[0] == b as char);
            assert(('%' as u8) == 37 && (b as char) as u8 == b);
            assert(out[0] != '%');
            assert(out.skip(1) =~= rest);
            assert(spec_pct_decode_bytes(out) == seq![b] + spec_pct_decode_bytes(rest));
            assert(seq![b] + bs.skip(1) =~= bs);
        } else {
            let out = spec_pct_byte(b) + rest;
            assert(spec_pct_encode_bytes(bs) == out);
            assert(out.len() >= 3);
            assert(out[0] == '%' && out[1] == spec_hex_digit(b as int / 16) && out[2]
                == spec_hex_digit(b as int % 16));
            assert(spec_hex_digit_val(spec_hex_digit(b as int / 16)) == b as int / 16);
            assert(spec_hex_digit_val(spec_hex_digit(b as int % 16)) == b as int % 16);
            assert((spec_hex_digit_val(out[1]) * 16 + spec_hex_digit_val(out[2])) as u8 == b);
            assert(out.skip(3) =~= rest);
            assert(spec_pct_decode_bytes(out) == seq![b] + spec_pct_decode_bytes(rest));
            assert(seq![b] + bs.skip(1) =~= bs);
        }
    }
}

// ---------------------------------------------------------------------------
// The serialization trait.
// ---------------------------------------------------------------------------

/// A value that renders itself into its canonical wire-format fragment.
pub trait Warp10Serializable {
    /// When the value can be rendered at all; full for every type but a data
    /// point with a timestamp whose microsecond total would overflow.
    spec fn wire_wf(&self) -> bool;

    /// The fragment the value renders to.
    spec fn wire_fragment(&self) -> Seq<char>;

    /// Renders the value's wire-format fragment.
    fn warp10_serialize(&self) -> (r: String)
        requires
            self.wire_wf(),
        ensures
            r@ == self.wire_fragment(),
    ;

    /// Decides whether the value can be rendered, so that unverified callers
    /// can test [`Warp10Serializable::wire_wf`] before serializing.
    fn check_wire_wf(&self) -> (b: bool)
        ensures
            b == self.wire_wf(),
    ;
}

// ---------------------------------------------------------------------------
// Value: the closed set of measurement types.
// ---------------------------------------------------------------------------

/// A measurement value.  A double-precision reading travels as its
/// locale-independent decimal text, which is all the wire format reads of it.
#[derive(Debug, Clone)]
pub enum Value {
    Int(i32),
    Long(i64),
    Double(String),
    Boolean(bool),
    String(String),
}

/// The wire fragment of a `Value`: decimal text for the numeric variants,
/// `true`/`false` for booleans, and the text in single quotes for strings.
pub open spec fn spec_value_fragment(v: Value) -> Seq<char> {
    match v {
        Value::Int(i) => spec_idec(i as int),
        Value::Long(l) => spec_idec(l as int),
        Value::Double(d) => d@,
        Value::Boolean(b) => if b {
            seq!['t', 'r', 'u', 'e']
        } else {
            seq!['f', 'a', 'l', 's', 'e']
        },
        Value::String(s) => seq!['\''] + s@ + seq!['\''],
    }
}

/// When two measurement values are equal: same variant, equal contents.
pub open spec fn spec_value_eq(a: Value, b: Value) -> bool {
    match (a, b) {
        (Value::Int(x), Value::Int(y)) => x == y,
        (Value::Long(x), Value::Long(y)) => x == y,
        (Value::Double(x), Value::Double(y)) => x@ == y@,
        (Value::Boolean(x), Value::Boolean(y)) => x == y,
        (Value::String(x), Value::String(y)) => x@ == y@,
        _ => false,
    }
}

impl PartialEq for Value {
    /// Two values are equal when they are the same variant with equal
    /// contents.
    fn eq(&self, other: &Value) -> (r: bool) {
        match (self, other) {
            (Value::Int(x), Value::Int(y)) => *x == *y,
            (Value::Long(x), Value::Long(y)) => *x == *y,
            (Value::Double(x), Value::Double(y)) => *x == *y,
            (Value::Boolean(x), Value::Boolean(y)) => *x == *y,
            (Value::String(x), Value::String(y)) => *x == *y,
            _ => false,
        }
    }
}

impl vstd::std_specs::cmp::PartialEqSpecImpl for Value {
    open spec fn obeys_eq_spec() -> bool {
        true
    }

    open spec fn eq_spec(&self, other: &Value) -> bool {
        spec_value_eq(*self, *other)
    }
}

impl Warp10Serializable for Value {
    open spec fn wire_wf(&self) -> bool {
        true
    }

    open spec fn wire_fragment(&self) -> Seq<char> {
        spec_value_fragment(*self)
    }

    fn check_wire_wf(&self) -> (b: bool) {
        true
    }

    fn warp10_serialize(&self) -> (r: String) {
        match self {
            Value::Int(i) => i64_to_dec_string(*i as i64),
            Value::Long(l) => i64_to_dec_string(*l),
            Value::Double(d) => d.clone(),
            Value::Boolean(b) => {
                let s = if *b {
                    String::from_str("true")
                } else {
                    String::from_str("false")
                };
                proof {
                    reveal_strlit("true");
                    reveal_strlit("false");
                    assert(s@ =~= spec_value_fragment(*self));
                }
                s
            },
            Value::String(s) => {
                let mut r = String::from_str("'");
                r.append(s.as_str());
                r.append("'");
                proof {
                    reveal_strlit("'");
                    assert(r@ =~= spec_value_fragment(*self));
                }
                r
            },
        }
    }
}

impl From<i32> for Value {
    fn from(i: i32) -> (r: Value) {
        Value::Int(i)
    }
}

impl vstd::std_specs::convert::FromSpecImpl<i32> for Value {
    open spec fn obeys_from_spec() -> bool {
        true
    }

    open spec fn from_spec(i: i32) -> Value {
        Value::Int(i)
    }
}

impl From<i64> for Value {
    fn from(l: i64) -> (r: Value) {
        Value::Long(l)
    }
}

impl vstd::std_specs::convert::FromSpecImpl<i64> for Value {
    open spec fn obeys_from_spec() -> bool {
        true
    }

    open spec fn from_spec(l: i64) -> Value {
        Value::Long(l)
    }
}

impl From<bool> for Value {
    fn from(b: bool) -> (r: Value) {
        Value::Boolean(b)
    }
}

impl vstd::std_specs::convert::FromSpecImpl<bool> for Value {
    open spec fn obeys_from_spec() -> bool {
        true
    }

    open spec fn from_spec(b: bool) -> Value {
        Value::Boolean(b)
    }
}

impl From<&str> for Value {
    /// A string value from borrowed text.
    fn from(s: &str) -> (r: Value) {
        Value::String(s.to_owned())
    }
}

impl vstd::std_specs::convert::FromSpecImpl<&str> for Value {
    open spec fn obeys_from_spec() -> bool {
        false
    }

    open spec fn from_spec(s: &str) -> Value {
        Value::String(choose|t: String| (#[trigger] t@) == s@)
    }
}

impl From<String> for Value {
    fn from(s: String) -> (r: Value) {
        Value::String(s)
    }
}

impl vstd::std_specs::convert::FromSpecImpl<String> for Value {
    open spec fn obeys_from_spec() -> bool {
        true
    }

    open spec fn from_spec(s: String) -> Value {
        Value::String(s)
    }
}

/// Serialization of the integer and boolean measurement variants loses
/// nothing: standard decimal parsing of the rendered fragment yields the
/// original number back, and the boolean fragment names its value
/// distinctly.
pub proof fn lemma_value_fragment_round_trip(v: Value)
    ensures
        v matches Value::Int(i) ==> spec_parse_idec(spec_value_fragment(v)) == i,
        v matches Value::Long(l) ==> spec_parse_idec(spec_value_fragment(v)) == l,
        v matches Value::Boolean(b) ==> (spec_value_fragment(v) =~= seq!['t', 'r', 'u', 'e'])
            == b,
{
    match v {
        Value::Int(i) => {
            lemma_idec_round_trip(i as int);
        },
        Value::Long(l) => {
            lemma_idec_round_trip(l as int);
        },
        Value::Boolean(b) => {
            if !b {
                assert(spec_value_fragment(v).len() == 5);
            }
        },
        _ => {},
    }
}

// ---------------------------------------------------------------------------
// GeoValue: an optional geo-position attachment.
// ---------------------------------------------------------------------------

/// A geo position: latitude and longitude as their locale-independent decimal
/// text, and an optional elevation.  No range validation is performed here;
/// that is the platform's responsibility.
#[derive(Debug, Clone)]
pub struct GeoValue {
    pub lat: String,
    pub lon: String,
    pub elev: Option<i64>,
}

/// The wire fragment of a geo position: `<lat>:<lon>/<elev-or-empty>`.
pub open spec fn spec_geo_fragment(g: GeoValue) -> Seq<char> {
    g.lat@ + seq![':'] + g.lon@ + seq!['/'] + (match g.elev {
        Some(e) => spec_idec(e as int),
        None => Seq::<char>::empty(),
    })
}

impl GeoValue {
    /// A geo position from the decimal text of latitude and longitude and an
    /// optional elevation.
    pub fn new(lat: String, lon: String, elev: Option<i64>) -> (r: GeoValue)
        ensures
            r.lat@ == lat@,
            r.lon@ == lon@,
            r.elev == elev,
    {
        GeoValue { lat, lon, elev }
    }
}

/// When two geo positions are equal: equal coordinate texts and equal
/// elevations.
pub open spec fn spec_geo_eq(a: GeoValue, b: GeoValue) -> bool {
    a.lat@ == b.lat@ && a.lon@ == b.lon@ && a.elev == b.elev
}

impl PartialEq for GeoValue {
    /// Two geo positions are equal when the coordinate texts and the
    /// elevations are equal.
    fn eq(&self, other: &GeoValue) -> (r: bool) {
        self.lat == other.lat && self.lon == other.lon && (match (self.elev, other.elev) {
            (Some(a), Some(b)) => a == b,
            (None, None) => true,
            _ => false,
        })
    }
}

impl vstd::std_specs::cmp::PartialEqSpecImpl for GeoValue {
    open spec fn obeys_eq_spec() -> bool {
        true
    }

    open spec fn eq_spec(&self, other: &GeoValue) -> bool {
        spec_geo_eq(*self, *other)
    }
}

impl Warp10Serializable for GeoValue {
    open spec fn wire_wf(&self) -> bool {
        true
    }

    open spec fn wire_fragment(&self) -> Seq<char> {
        spec_geo_fragment(*self)
    }

    fn check_wire_wf(&self) -> (b: bool) {
        true
    }

    fn warp10_serialize(&self) -> (r: String) {
        let mut r = self.lat.clone();
        r.append(":");
        r.append(self.lon.as_str());
        r.append("/");
        match &self.elev {
            Some(e) => {
                let es = i64_to_dec_string(*e);
                r.append(es.as_str());
            },
            None => {},
        }
        proof {
            reveal_strlit(":");
            reveal_strlit("/");
            assert(r@ =~= spec_geo_fragment(*self));
        }
        r
    }
}

// ---------------------------------------------------------------------------
// Label: a key/value tag, percent-encoded on both sides.
// ---------------------------------------------------------------------------

/// A label: a name and a value, both percent-encoded independently when the
/// label is rendered.
#[derive(Debug, Clone)]
pub struct Label {
    pub name: String,
    pub value: String,
}

/// The wire fragment of a label:
/// `<percent-encoded name>=<percent-encoded value>`.
pub open spec fn spec_label_fragment(l: Label) -> Seq<char> {
    spec_url_encode(l.name@) + seq!['='] + spec_url_encode(l.value@)
}

impl Label {
    /// A label from its name and value.
    pub fn new(name: &str, value: &str) -> (r: Label)
        ensures
            r.name@ == name@,
            r.value@ == value@,
    {
        Label { name: name.to_owned(), value: value.to_owned() }
    }
}

/// When two labels are equal: equal names and equal values.
pub open spec fn spec_label_eq(a: Label, b: Label) -> bool {
    a.name@ == b.name@ && a.value@ == b.value@
}

impl PartialEq for Label {
    /// Two labels are equal when both the names and the values are equal.
    fn eq(&self, other: &Label) -> (r: bool) {
        self.name == other.name && self.value == other.value
    }
}

impl vstd::std_specs::cmp::PartialEqSpecImpl for Label {
    open spec fn obeys_eq_spec() -> bool {
        true
    }

    open spec fn eq_spec(&self, other: &Label) -> bool {
        spec_label_eq(*self, *other)
    }
}

impl Warp10Serializable for Label {
    open spec fn wire_wf(&self) -> bool {
        true
    }

    open spec fn wire_fragment(&self) -> Seq<char> {
        spec_label_fragment(*self)
    }

    fn check_wire_wf(&self) -> (b: bool) {
        true
    }

    fn warp10_serialize(&self) -> (r: String) {
        let mut r = url_encode(self.name.as_str());
        r.append("=");
        let v = url_encode(self.value.as_str());
        r.append(v.as_str());
        proof {
            reveal_strlit("=");
            assert(r@ =~= spec_label_fragment(*self));
        }
        r
    }
}

// ---------------------------------------------------------------------------
// Timestamp: seconds since epoch plus sub-second microseconds.
// ---------------------------------------------------------------------------

/// A high-precision timestamp: whole seconds since the Unix epoch and the
/// microseconds within that second.
#[derive(Debug, Clone, Copy, PartialEq, Eq, Structural)]
pub struct Timestamp {
    pub seconds: i64,
    pub micros: u32,
}

impl Timestamp {
    /// The sub-second part names at most a million microseconds, and the
    /// total count of microseconds since the epoch fits a 64-bit integer as
    /// it is computed: `seconds * 1_000_000 + micros`.
    pub open spec fn well_formed(self) -> bool {
        self.micros < 1_000_000 && i64::MIN <= self.seconds * 1_000_000 && self.seconds
            * 1_000_000 + self.micros <= i64::MAX
    }

    /// The microseconds since the Unix epoch that this timestamp names.
    pub open spec fn spec_total_micros(self) -> int {
        self.seconds * 1_000_000 + self.micros
    }

    /// A timestamp from whole seconds since the Unix epoch and the
    /// microseconds within that second.
    pub fn new(seconds: i64, micros: u32) -> (r: Timestamp)
        ensures
            r.seconds == seconds,
            r.micros == micros,
    {
        Timestamp { seconds, micros }
    }

    /// Decides [`Timestamp::well_formed`], computing in a wider integer type
    /// so that the test itself cannot overflow.
    pub fn check_well_formed(&self) -> (b: bool)
        ensures
            b == self.well_formed(),
    {
        self.micros < 1_000_000 && (self.seconds as i128) * 1_000_000 >= (i64::MIN as i128) && (
        self.seconds as i128) * 1_000_000 + (self.micros as i128) <= (i64::MAX as i128)
    }

    /// The microseconds since the Unix epoch.
    pub fn total_micros(&self) -> (r: i64)
        requires
            self.well_formed(),
        ensures
            r as int == self.spec_total_micros(),
    {
        self.seconds * 1_000_000 + (self.micros as i64)
    }
}

// ---------------------------------------------------------------------------
// Data: one measurement point, and the core line-format algorithm.
// ---------------------------------------------------------------------------

/// One measurement point: an optional timestamp, an optional geo position, a
/// name, an ordered list of labels (order preserved verbatim on the wire) and
/// a value.
#[derive(Debug, Clone)]
pub struct Data {
    pub date: Option<Timestamp>,
    pub geo: Option<GeoValue>,
    pub name: String,
    pub labels: Vec<Label>,
    pub value: Value,
}

/// Joins the given parts with the separator between each two neighbours: no
/// leading separator, no trailing separator.
pub open spec fn spec_join(parts: Seq<Seq<char>>, sep: Seq<char>) -> Seq<char>
    decreases parts.len(),
{
    if parts.len() == 0 {
        Seq::empty()
    } else if parts.len() == 1 {
        parts[0]
    } else {
        parts[0] + sep + spec_join(parts.skip(1), sep)
    }
}

/// Appending one part to a join appends one separator and the part, except to
/// an empty join.
pub proof fn lemma_join_push(parts: Seq<Seq<char>>, sep: Seq<char>, x: Seq<char>)
    ensures
        spec_join(parts.push(x), sep) == if parts.len() == 0 {
            x
        } else {
            spec_join(parts, sep) + sep + x
        },
    decreases parts.len(),
{
    if parts.len() == 0 {
        assert(parts.push(x) =~= seq![x]);
    } else if parts.len() == 1 {
        assert(parts.push(x).skip(1) =~= seq![x]);
        assert(spec_join(seq![x], sep) == x);
        assert(spec_join(parts.push(x), sep) == parts[0] + sep + x);
        assert(spec_join(parts, sep) + sep + x == parts[0] + sep + x);
    } else {
        assert(parts.push(x).skip(1) =~= parts.skip(1).push(x));
        lemma_join_push(parts.skip(1), sep, x);
        assert(spec_join(parts.push(x), sep) =~= spec_join(parts, sep) + sep + x);
    }
}

/// The label list of a data point, rendered: each label's fragment, joined
/// with commas.
pub open spec fn spec_labels_join(labels: Seq<Label>) -> Seq<char> {
    spec_join(labels.map_values(|l: Label| spec_label_fragment(l)), seq![','])
}

/// The one line of wire format that a data point renders to:
/// `<timestamp-or-empty>/<geo-or-slash> <encoded name>{<labels>} <value>`.
pub open spec fn spec_data_line(d: Data) -> Seq<char> {
    (match d.date {
        Some(t) => spec_idec(t.spec_total_micros()),
        None => Seq::<char>::empty(),
    }) + seq!['/'] + (match d.geo {
        Some(g) => spec_geo_fragment(g),
        None => seq!['/'],
    }) + seq![' '] + spec_url_encode(d.name@) + seq!['{'] + spec_labels_join(d.labels@) + seq![
        '}',
        ' ',
    ] + spec_value_fragment(d.value)
}

impl Data {
    /// A data point carrying a timestamp.
    pub fn new(
        date: Timestamp,
        geo: Option<GeoValue>,
        name: String,
        labels: Vec<Label>,
        value: Value,
    ) -> (r: Data)
        ensures
            r.date == Some(date),
            r.geo == geo,
            r.name@ == name@,
            r.labels == labels,
            r.value == value,
    {
        Data { date: Some(date), geo, name, labels, value }
    }

    /// A data point without a timestamp: the platform assigns ingestion time.
    pub fn new_without_time(
        geo: Option<GeoValue>,
        name: String,
        labels: Vec<Label>,
        value: Value,
    ) -> (r: Data)
        ensures
            r.date is None,
            r.geo == geo,
            r.name@ == name@,
            r.labels == labels,
            r.value == value,
    {
        Data { date: None, geo, name, labels, value }
    }
}

/// When two data points are equal: equal timestamps, geo positions, names,
/// label lists (order counted) and values.
pub open spec fn spec_data_eq(a: Data, b: Data) -> bool {
    a.date == b.date && (match (a.geo, b.geo) {
        (Some(x), Some(y)) => spec_geo_eq(x, y),
        (None, None) => true,
        _ => false,
    }) && a.name@ == b.name@ && a.labels@.len() == b.labels@.len() && (forall|i: int|
        0 <= i < a.labels@.len() ==> spec_label_eq(#[trigger] a.labels@[i], b.labels@[i]))
        && spec_value_eq(a.value, b.value)
}

impl PartialEq for Data {
    /// Two data points are equal when every field is, the label lists
    /// compared element by element in order.
    fn eq(&self, other: &Data) -> (r: bool) {
        let dates_eq = match (self.date, other.date) {
            (Some(a), Some(b)) => a == b,
            (None, None) => true,
            _ => false,
        };
        if !dates_eq {
            return false;
        }
        let geos_eq = match (&self.geo, &other.geo) {
            (Some(a), Some(b)) => a == b,
            (None, None) => true,
            _ => false,
        };
        if !geos_eq {
            return false;
        }
        if !(self.name == other.name) {
            return false;
        }
        if self.labels.len() != other.labels.len() {
            return false;
        }
        let mut i: usize = 0;
        while i < self.labels.len()
            invariant
                self.labels@.len() == other.labels@.len(),
                i <= self.labels@.len(),
                forall|j: int|
                    0 <= j < i ==> spec_label_eq(#[trigger] self.labels@[j], other.labels@[j]),
            decreases self.labels@.len() - i,
        {
            let same = self.labels[i] == other.labels[i];
            if !same {
                return false;
            }
            i += 1;
        }
        self.value == other.value
    }
}

impl vstd::std_specs::cmp::PartialEqSpecImpl for Data {
    open spec fn obeys_eq_spec() -> bool {
        true
    }

    open spec fn eq_spec(&self, other: &Data) -> bool {
        spec_data_eq(*self, *other)
    }
}

impl Warp10Serializable for Data {
    open spec fn wire_wf(&self) -> bool {
        match self.date {
            Some(t) => t.well_formed(),
            None => true,
        }
    }

    open spec fn wire_fragment(&self) -> Seq<char> {
        spec_data_line(*self)
    }

    fn check_wire_wf(&self) -> (b: bool) {
        match &self.date {
            Some(t) => t.check_well_formed(),
            None => true,
        }
    }

    fn warp10_serialize(&self) -> (r: String) {
        let mut r = match &self.date {
            Some(t) => i64_to_dec_string(t.total_micros()),
            None => String::new(),
        };
        r.append("/");
        match &self.geo {
            Some(g) => {
                let gs = g.warp10_serialize();
                r.append(gs.as_str());
            },
            None => {
                r.append("/");
            },
        }
        r.append(" ");
        let en = url_encode(self.name.as_str());
        r.append(en.as_str());
        r.append("{");
        let ghost prefix: Seq<char> = r@;
        let ghost fragments: Seq<Seq<char>> = self.labels@.map_values(
            |l: Label| spec_label_fragment(l),
        );
        let mut i: usize = 0;
        while i < self.labels.len()
            invariant
                i <= self.labels@.len(),
                fragments == self.labels@.map_values(|l: Label| spec_label_fragment(l)),
                r@ == prefix + spec_join(fragments.take(i as int), seq![',']),
            decreases self.labels@.len() - i,
        {
            if i > 0 {
                r.append(",");
            }
            let lf = self.labels[i].warp10_serialize();
            r.append(lf.as_str());
            proof {
                reveal_strlit(",");
                assert(fragments.take(i + 1) =~= fragments.take(i as int).push(fragments[i as int]));
                lemma_join_push(fragments.take(i as int), seq![','], fragments[i as int]);
                assert(r@ =~= prefix + spec_join(fragments.take(i + 1), seq![',']));
            }
            i += 1;
        }
        r.append("} ");
        let vf = self.value.warp10_serialize();
        r.append(vf.as_str());
        proof {
            reveal_strlit("/");
            reveal_strlit(" ");
            reveal_strlit("{");
            reveal_strlit("} ");
            assert(fragments.take(self.labels@.len() as int) =~= fragments);
            assert(r@ =~= spec_data_line(*self));
        }
        r
    }
}

} // verus!
