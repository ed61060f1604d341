use vstd::prelude::*;

verus! {

/// The text that `String::from_utf8_lossy` makes of `bytes`.
pub uninterp spec fn utf8_lossy_of(bytes: Seq<u8>) -> Seq<char>;

/// The text that `str::trim` leaves of `text`.
pub uninterp spec fn trim_of(text: Seq<char>) -> Seq<char>;

/// Relies on `String::from_utf8_lossy`: decodes `bytes` as UTF-8, replacing
/// each invalid sequence; the result depends on the bytes alone.
#[verifier::external_body]
fn utf8_lossy(bytes: &[u8]) -> (r: String)
    ensures
        r@ == utf8_lossy_of(bytes@),
{
    String::from_utf8_lossy(bytes).into_owned()
}

/// Relies on `str::trim`: drops leading and trailing whitespace; the result
/// depends on the text alone.
#[verifier::external_body]
fn trim(text: &str) -> (r: String)
    ensures
        r@ == trim_of(text@),
{
    text.trim().to_string()
}

/// The bytes of `log` before its first NUL byte (all of them if it has none).
pub open spec fn before_nul(log: Seq<u8>) -> Seq<u8>
    decreases log.len(),
{
    if log.len() == 0 {
        log
    } else if log[0] == 0 {
        Seq::empty()
    } else {
        seq![log[0]] + before_nul(log.drop_first())
    }
}

/// The message held in a backend diagnostic buffer, as a caller reads it.
pub open spec fn diagnostic(log: Seq<u8>) -> Seq<char> {
    trim_of(utf8_lossy_of(before_nul(log)))
}

/// Copies the NUL-terminated contents of a diagnostic buffer.
pub fn bytes_before_nul(log: &[u8]) -> (r: Vec<u8>)
    ensures
        r@ == before_nul(log@),
{
    let mut out: Vec<u8> = Vec::new();
    let mut i: usize = 0;
    assert(log@.subrange(0, log@.len() as int) =~= log@);
    assert(out@ + log@ =~= log@);
    while i < log.len()
        invariant
            i <= log@.len(),
            before_nul(log@) == out@ + before_nul(log@.subrange(i as int, log@.len() as int)),
        decreases log.len() - i,
    {
        let ghost rest = log@.subrange(i as int, log@.len() as int);
        assert(rest.drop_first() =~= log@.subrange(i + 1, log@.len() as int));
        if log[i] == 0 {
            assert(before_nul(rest) == Seq::<u8>::empty());
            assert(out@ + Seq::<u8>::empty() =~= out@);
            return out;
        }
        out.push(log[i]);
        i += 1;
        assert(before_nul(log@) =~= out@ + before_nul(log@.subrange(i as int, log@.len() as int)));
    }
    assert(log@.subrange(i as int, log@.len() as int) =~= Seq::<u8>::empty());
    assert(out@ + Seq::<u8>::empty() =~= out@);
    out
}

/// The trimmed message of a backend diagnostic buffer: the text before the
/// first NUL byte, decoded as UTF-8, without surrounding whitespace.
pub fn diagnostic_text(log: &[u8]) -> (r: String)
    ensures
        r@ == diagnostic(log@),
{
    let bytes = bytes_before_nul(log);
    let decoded = utf8_lossy(bytes.as_slice());
    trim(decoded.as_str())
}

} // verus!
