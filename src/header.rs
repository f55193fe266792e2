use vstd::prelude::*;

verus! {

pub const KEY_DATE_OBS: &'static str = "DATE-OBS";
pub const KEY_REGION: &'static str = "REGION";
pub const KEY_PLATEID: &'static str = "PLATEID";
pub const KEY_PLATERA: &'static str = "PLATERA";
pub const KEY_PLATEDEC: &'static str = "PLATEDEC";
pub const KEY_PLTSCALE: &'static str = "PLTSCALE";
pub const KEY_PLTSIZEX: &'static str = "PLTSIZEX";
pub const KEY_PLTSIZEY: &'static str = "PLTSIZEY";
pub const KEY_NAXIS1: &'static str = "NAXIS1";
pub const KEY_NAXIS2: &'static str = "NAXIS2";

/// The header keys read from every plate, in the order of the metadata rows.
pub open spec fn plate_keys() -> Seq<Seq<char>> {
    seq![
        KEY_DATE_OBS@,
        KEY_REGION@,
        KEY_PLATEID@,
        KEY_PLATERA@,
        KEY_PLATEDEC@,
        KEY_PLTSCALE@,
        KEY_PLTSIZEX@,
        KEY_PLTSIZEY@,
        KEY_NAXIS1@,
        KEY_NAXIS2@,
    ]
}

/// The views of a sequence of strings.
pub open spec fn views(v: Seq<String>) -> Seq<Seq<char>> {
    v.map_values(|s: String| s@)
}

/// The view of an optional string.
pub open spec fn opt_view(o: Option<String>) -> Option<Seq<char>> {
    match o {
        Some(s) => Some(s@),
        None => None,
    }
}

/// A value and its optional comment, as the header reader returns them for one key.
#[derive(Debug)]
pub struct HeaderValue {
    pub value: String,
    pub comment: Option<String>,
}

/// One extracted header field.
#[derive(Debug)]
pub struct HeaderField {
    pub key: String,
    pub value: String,
    pub comment: Option<String>,
}

/// Why a plate's header could not be used.
#[derive(Debug, PartialEq, Eq)]
pub enum HeaderError {
    /// The named key is absent from the header.
    MissingKey(String),
    /// The named dimension key does not hold an unsigned integer.
    InvalidDimension(String),
}

/// The keys read from every plate: observation date, region, plate identifier,
/// right ascension, declination, plate scale, plate size in x and y, width, height.
pub fn plate_header_keys() -> (r: Vec<String>)
    ensures
        views(r@) == plate_keys(),
{
    let mut r: Vec<String> = Vec::new();
    r.push(String::from_str(KEY_DATE_OBS));
    r.push(String::from_str(KEY_REGION));
    r.push(String::from_str(KEY_PLATEID));
    r.push(String::from_str(KEY_PLATERA));
    r.push(String::from_str(KEY_PLATEDEC));
    r.push(String::from_str(KEY_PLTSCALE));
    r.push(String::from_str(KEY_PLTSIZEX));
    r.push(String::from_str(KEY_PLTSIZEY));
    r.push(String::from_str(KEY_NAXIS1));
    r.push(String::from_str(KEY_NAXIS2));
    assert(views(r@) =~= plate_keys());
    r
}

fn clone_opt(o: &Option<String>) -> (r: Option<String>)
    ensures
        opt_view(r) == opt_view(*o),
{
    match o {
        Some(s) => Some(s.clone()),
        None => None,
    }
}

/// The field extracted for `key` from what the reader returned.
pub open spec fn field_matches(f: HeaderField, key: Seq<char>, v: HeaderValue) -> bool {
    f.key@ == key && f.value@ == v.value@ && opt_view(f.comment) == opt_view(v.comment)
}

/// Assembles the fields of `keys`, where `found[i]` is what the header holds for
/// `keys[i]`. All or nothing: when a key is absent, the first absent one in key
/// order is reported as `MissingKey` and no field is returned.
pub fn extract(keys: &Vec<String>, found: &Vec<Option<HeaderValue>>) -> (r: Result<
    Vec<HeaderField>,
    HeaderError,
>)
    requires
        keys@.len() == found@.len(),
    ensures
        r is Ok <==> forall|i: int| 0 <= i < found@.len() ==> #[trigger] found@[i] is Some,
        r matches Ok(fields) ==> fields@.len() == keys@.len() && forall|i: int|
            0 <= i < keys@.len() ==> field_matches(
                #[trigger] fields@[i],
                keys@[i]@,
                found@[i]->Some_0,
            ),
        r matches Err(e) ==> exists|i: int|
            0 <= i < keys@.len() && found@[i] is None && (forall|j: int|
                0 <= j < i ==> #[trigger] found@[j] is Some) && e == HeaderError::MissingKey(
                keys@[i],
            ),
{
    let mut fields: Vec<HeaderField> = Vec::new();
    let mut i: usize = 0;
    while i < keys.len()
        invariant
            i <= keys@.len(),
            keys@.len() == found@.len(),
            fields@.len() == i,
            forall|j: int| 0 <= j < i ==> #[trigger] found@[j] is Some,
            forall|j: int|
                0 <= j < i ==> field_matches(#[trigger] fields@[j], keys@[j]@, found@[j]->Some_0),
        decreases keys@.len() - i,
    {
        match &found[i] {
            Some(v) => {
                let f = HeaderField {
                    key: keys[i].clone(),
                    value: v.value.clone(),
                    comment: clone_opt(&v.comment),
                };
                fields.push(f);
            },
            None => {
                return Err(HeaderError::MissingKey(keys[i].clone()));
            },
        }
        i = i + 1;
    }
    Ok(fields)
}


/// A decimal digit.
pub open spec fn is_digit(c: char) -> bool {
    '0' <= c <= '9'
}

/// The number written by a sequence of decimal digits (0 when empty).
pub open spec fn digits_value(s: Seq<char>) -> int
    decreases s.len(),
{
    if s.len() == 0 {
        0
    } else {
        digits_value(s.drop_last()) * 10 + (s.last() as int - '0' as int)
    }
}

/// The digits of a dimension's text: the text without one leading `+`.
pub open spec fn unsigned_digits(s: Seq<char>) -> Seq<char> {
    if s.len() > 0 && s[0] == '+' {
        s.drop_first()
    } else {
        s
    }
}

/// The text is an optional `+` followed by at least one digit, naming a number
/// that fits in 32 bits.
pub open spec fn is_dimension_text(s: Seq<char>) -> bool {
    let d = unsigned_digits(s);
    d.len() > 0 && (forall|i: int| 0 <= i < d.len() ==> is_digit(#[trigger] d[i])) && digits_value(
        d,
    ) <= u32::MAX
}

/// Reads the unsigned 32-bit integer written in `text` (an optional `+`, then
/// decimal digits); any other text is `InvalidDimension(key)`.
pub fn parse_dimension(key: &str, text: &str) -> (r: Result<u32, HeaderError>)
    ensures
        r is Ok <==> is_dimension_text(text@),
        r matches Ok(n) ==> n as int == digits_value(unsigned_digits(text@)),
        r matches Err(HeaderError::InvalidDimension(k)) ==> k@ == key@,
        r matches Err(e) ==> e is InvalidDimension,
{
    let len = text.unicode_len();
    let mut start: usize = 0;
    if len > 0 && text.get_char(0) == '+' {
        start = 1;
    }
    let ghost d = unsigned_digits(text@);
    assert(d =~= text@.subrange(start as int, len as int));
    if start == len {
        return Err(HeaderError::InvalidDimension(String::from_str(key)));
    }
    let mut acc: u64 = 0;
    let mut over = false;
    let mut i: usize = start;
    while i < len
        invariant
            start <= i <= len,
            len == text@.len(),
            d == unsigned_digits(text@),
            d =~= text@.subrange(start as int, len as int),
            forall|k: int| 0 <= k < i - start ==> is_digit(#[trigger] d[k]),
            over ==> digits_value(d.subrange(0, i - start)) > u32::MAX,
            !over ==> acc as int == digits_value(d.subrange(0, i - start)),
            acc <= u32::MAX,
        decreases len - i,
    {
        let c = text.get_char(i);
        if !('0' <= c && c <= '9') {
            assert(d[i - start] == text@[i as int]);
            assert(!is_digit(d[i - start]));
            return Err(HeaderError::InvalidDimension(String::from_str(key)));
        }
        let ghost prev = d.subrange(0, i - start);
        let ghost next = d.subrange(0, i - start + 1);
        assert(next.drop_last() =~= prev);
        assert(next.last() == c);
        if !over {
            let v: u64 = acc * 10 + (c as u64 - '0' as u64);
            if v > 0xffff_ffffu64 {
                over = true;
            } else {
                acc = v;
            }
        }
        i = i + 1;
    }
    assert(d.subrange(0, d.len() as int) =~= d);
    if over {
        Err(HeaderError::InvalidDimension(String::from_str(key)))
    } else {
        Ok(acc as u32)
    }
}

/// The value of the first field named `key`, if any.
pub fn field_value(fields: &Vec<HeaderField>, key: &str) -> (r: Option<String>)
    ensures
        r is None <==> forall|i: int| 0 <= i < fields@.len() ==> #[trigger] fields@[i].key@ != key@,
        r matches Some(v) ==> exists|i: int|
            0 <= i < fields@.len() && fields@[i].key@ == key@ && v@ == fields@[i].value@ && (
            forall|j: int| 0 <= j < i ==> #[trigger] fields@[j].key@ != key@),
{
    let k = String::from_str(key);
    let mut i: usize = 0;
    while i < fields.len()
        invariant
            i <= fields@.len(),
            k@ == key@,
            forall|j: int| 0 <= j < i ==> #[trigger] fields@[j].key@ != key@,
        decreases fields@.len() - i,
    {
        if fields[i].key == k {
            return Some(fields[i].value.clone());
        }
        i = i + 1;
    }
    None
}

} // verus!
