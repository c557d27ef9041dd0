use vstd::prelude::*;

verus! {

/// The code units of `units` without the NUL padding at its end.
pub open spec fn without_trailing_nul(units: Seq<u16>) -> Seq<u16>
    decreases units.len(),
{
    if units.len() > 0 && units.last() == 0 {
        without_trailing_nul(units.drop_last())
    } else {
        units
    }
}

/// A path is empty, or does not end in NUL padding.
pub open spec fn is_clean_path(path: Seq<char>) -> bool {
    path.len() == 0 || path.last() != '\0'
}

/// What `String::from_utf16_lossy` makes of a sequence of UTF-16 code units.
pub uninterp spec fn utf16_lossy(units: Seq<u16>) -> Seq<char>;

/// Relies on `String::from_utf16_lossy`: the text depends on the code units
/// alone; no units give no text; a final non-zero unit decodes to a final
/// character other than NUL (a NUL character comes only from a zero unit,
/// anything invalid becomes U+FFFD).
#[verifier::external_body]
fn decode_utf16_lossy(units: &Vec<u16>) -> (r: String)
    ensures
        r@ == utf16_lossy(units@),
        units@.len() == 0 ==> r@.len() == 0,
        units@.len() > 0 && units@.last() != 0 ==> r@.len() > 0 && r@.last() != '\0',
{
    String::from_utf16_lossy(units)
}

/// What the platform reported when asked for the executable path of a process.
pub enum PathQuery {
    /// The process could not be opened: it has exited, or access was denied.
    Unavailable,
    /// The module path query ran: `written` is the count the platform returned
    /// (zero on failure), `units` the fixed-capacity buffer it wrote into.
    Read { written: u32, units: Vec<u16> },
}

/// The path that a query result resolves to.
pub open spec fn query_path(q: PathQuery) -> Seq<char> {
    match q {
        PathQuery::Unavailable => Seq::empty(),
        PathQuery::Read { written, units } => {
            if written == 0 {
                Seq::empty()
            } else {
                utf16_lossy(without_trailing_nul(units@))
            }
        },
    }
}

proof fn lemma_trim_prefix(units: Seq<u16>, n: int)
    requires
        0 < n <= units.len(),
        units[n - 1] == 0,
    ensures
        without_trailing_nul(units.subrange(0, n)) == without_trailing_nul(units.subrange(0, n - 1)),
{
    assert(units.subrange(0, n).drop_last() =~= units.subrange(0, n - 1));
}

/// Length of `units` once the NUL padding at its end is dropped.
pub fn trimmed_len(units: &Vec<u16>) -> (n: usize)
    ensures
        n <= units@.len(),
        units@.subrange(0, n as int) == without_trailing_nul(units@),
        n == 0 || units@[n - 1] != 0,
{
    let mut n: usize = units.len();
    assert(units@.subrange(0, n as int) =~= units@);
    while n > 0 && units[n - 1] == 0
        invariant
            n <= units@.len(),
            without_trailing_nul(units@.subrange(0, n as int)) == without_trailing_nul(units@),
        decreases n,
    {
        proof {
            lemma_trim_prefix(units@, n as int);
        }
        n = n - 1;
    }
    let ghost p = units@.subrange(0, n as int);
    assert(p.len() == 0 || p.last() != 0);
    n
}

/// Decodes a path buffer, dropping the NUL padding at its end.
pub fn path_from_units(units: &Vec<u16>) -> (r: String)
    ensures
        r@ == utf16_lossy(without_trailing_nul(units@)),
        is_clean_path(r@),
{
    let n = trimmed_len(units);
    let mut kept: Vec<u16> = Vec::new();
    let mut i: usize = 0;
    while i < n
        invariant
            n <= units@.len(),
            i <= n,
            kept@ == units@.subrange(0, i as int),
        decreases n - i,
    {
        kept.push(units[i]);
        i = i + 1;
        assert(kept@ =~= units@.subrange(0, i as int));
    }
    decode_utf16_lossy(&kept)
}

/// Resolves a path query. The path is best effort: a process that could not be
/// opened, or whose module path could not be read, gets the empty path rather
/// than an error.
pub fn path_from_query(q: &PathQuery) -> (r: String)
    ensures
        r@ == query_path(*q),
        is_clean_path(r@),
{
    match q {
        PathQuery::Unavailable => String::new(),
        PathQuery::Read { written, units } => {
            if *written == 0 {
                String::new()
            } else {
                path_from_units(units)
            }
        },
    }
}

} // verus!
