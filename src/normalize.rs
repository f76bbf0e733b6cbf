use vstd::prelude::*;

verus! {

/// What the driver's typed accessors gave for one cell of a result row. Each field holds
/// the value read through one accessor, or `None` where that accessor refused the cell.
/// A 64-bit float is carried as its bit pattern.
pub struct CellProbe {
    /// Whether the cell could be read at all.
    pub present: bool,
    pub text: Option<String>,
    pub integer: Option<i64>,
    pub float_bits: Option<u64>,
    pub boolean: Option<bool>,
    pub bytes: Option<Vec<u8>>,
}

/// A normalized cell value. A float is carried as its bit pattern.
#[derive(Debug, Clone, PartialEq, Eq)]
pub enum Scalar {
    Null,
    Text(String),
    Integer(i64),
    Float(u64),
    Boolean(bool),
}

/// The text that `String::from_utf8_lossy` makes of a byte sequence.
pub uninterp spec fn utf8_lossy(b: Seq<u8>) -> Seq<char>;

/// Relies on `String::from_utf8_lossy`: the bytes decoded as UTF-8, each invalid sequence
/// replaced by U+FFFD; no bytes give no text.
#[verifier::external_body]
fn decode_lossy(b: &Vec<u8>) -> (r: String)
    ensures
        r@ == utf8_lossy(b@),
        b@.len() == 0 ==> r@.len() == 0,
{
    String::from_utf8_lossy(b.as_slice()).into_owned()
}

/// The coercion ladder: the first accessor that succeeds, in the order string, integer,
/// float, boolean, bytes (decoded as text); a cell that none can read is null.
pub open spec fn coerced(p: CellProbe) -> Scalar {
    if !p.present {
        Scalar::Null
    } else if p.text is Some {
        Scalar::Text(p.text->0)
    } else if p.integer is Some {
        Scalar::Integer(p.integer->0)
    } else if p.float_bits is Some {
        Scalar::Float(p.float_bits->0)
    } else if p.boolean is Some {
        Scalar::Boolean(p.boolean->0)
    } else {
        Scalar::Null
    }
}

/// Whether `s` is the normalized value of the cell `p`.
pub open spec fn normalizes_to(p: CellProbe, s: Scalar) -> bool {
    if p.present && p.text is None && p.integer is None && p.float_bits is None
        && p.boolean is None && p.bytes is Some {
        s matches Scalar::Text(t) && t@ == utf8_lossy(p.bytes->0@)
    } else {
        s == coerced(p)
    }
}

/// Normalizes one cell by the coercion ladder; it never fails.
pub fn normalize_cell(p: &CellProbe) -> (r: Scalar)
    ensures
        normalizes_to(*p, r),
{
    if !p.present {
        return Scalar::Null;
    }
    if let Some(t) = &p.text {
        return Scalar::Text(t.clone());
    }
    if let Some(n) = p.integer {
        return Scalar::Integer(n);
    }
    if let Some(f) = p.float_bits {
        return Scalar::Float(f);
    }
    if let Some(b) = p.boolean {
        return Scalar::Boolean(b);
    }
    match &p.bytes {
        Some(b) => Scalar::Text(decode_lossy(b)),
        None => Scalar::Null,
    }
}

/// Normalizes a result row: one entry per column, in the driver's order, under the
/// column's name as the driver gave it.
pub fn normalize_row(cells: &Vec<(String, CellProbe)>) -> (r: Vec<(String, Scalar)>)
    ensures
        r@.len() == cells@.len(),
        forall|i: int|
            0 <= i < r@.len() ==> (#[trigger] r@[i]).0 == cells@[i].0 && normalizes_to(
                cells@[i].1,
                r@[i].1,
            ),
{
    let mut r: Vec<(String, Scalar)> = Vec::new();
    let mut i: usize = 0;
    while i < cells.len()
        invariant
            i <= cells.len(),
            r@.len() == i,
            forall|j: int|
                0 <= j < i ==> (#[trigger] r@[j]).0 == cells@[j].0 && normalizes_to(
                    cells@[j].1,
                    r@[j].1,
                ),
        decreases cells.len() - i,
    {
        let name = cells[i].0.clone();
        let value = normalize_cell(&cells[i].1);
        r.push((name, value));
        i = i + 1;
    }
    r
}

/// The text of a cell read as a name: its string form, or else its bytes decoded as text.
pub open spec fn cell_text(p: CellProbe, accept_bytes: bool) -> Option<Seq<char>> {
    if p.text is Some {
        Some(p.text->0@)
    } else if accept_bytes && p.bytes is Some {
        Some(utf8_lossy(p.bytes->0@))
    } else {
        None
    }
}

/// The text of a cell read as a name, if any accessor gives one.
pub fn read_text(p: &CellProbe, accept_bytes: bool) -> (r: Option<String>)
    ensures
        r matches Some(t) ==> cell_text(*p, accept_bytes) == Some(t@),
        r is None ==> cell_text(*p, accept_bytes) is None,
{
    if let Some(t) = &p.text {
        return Some(t.clone());
    }
    if accept_bytes {
        if let Some(b) = &p.bytes {
            return Some(decode_lossy(b));
        }
    }
    None
}

} // verus!
