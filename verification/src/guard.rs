use vstd::prelude::*;
use vstd::utf8::encode_utf8;

verus! {

/// Tokens estimated for a text of `byte_len` bytes: about four bytes per token, rounded up.
pub open spec fn estimated_tokens(byte_len: nat) -> nat {
    (byte_len + 3) as nat / 4
}

/// Tokens estimated for a text, measured on its UTF-8 encoding.
pub open spec fn tokens(text: Seq<char>) -> nat {
    estimated_tokens(encode_utf8(text).len())
}

/// What the guard lets through: `body` when it costs no more tokens than `raw`, `raw` otherwise.
pub open spec fn guarded(raw: Seq<char>, body: Seq<char>) -> Seq<char> {
    if tokens(body) <= tokens(raw) {
        body
    } else {
        raw
    }
}

/// `filtered`, followed by a line with the recovery hint when there is one.
pub open spec fn with_hint(filtered: Seq<char>, hint: Option<Seq<char>>) -> Seq<char> {
    match hint {
        Some(h) => filtered + "\n"@ + h,
        None => filtered,
    }
}


/// The estimate is the byte length divided by four, rounded up: four tokens cover at
/// least the bytes, and one token fewer would not.
pub proof fn tokens_round_bytes_up(text: Seq<char>)
    ensures
        tokens(text) * 4 >= encode_utf8(text).len(),
        tokens(text) * 4 < encode_utf8(text).len() + 4,
{
    let n = encode_utf8(text).len();
    assert(((n + 3) as nat / 4) * 4 >= n && ((n + 3) as nat / 4) * 4 < n + 4) by (nonlinear_arith);
}

/// The guard keeps the body when it costs no more tokens than the raw output, and
/// shows the raw output otherwise; either way it never costs more than the raw output.
pub proof fn guard_keeps_affordable_body(raw: Seq<char>, body: Seq<char>)
    ensures
        tokens(body) <= tokens(raw) ==> guarded(raw, body) == body,
        tokens(body) > tokens(raw) ==> guarded(raw, body) == raw,
        tokens(guarded(raw, body)) <= tokens(raw),
{
}

/// A hint goes on a line of its own below the filtered text; without one the text is
/// left as it is.
pub proof fn hint_goes_below(filtered: Seq<char>, hint: Seq<char>)
    ensures
        with_hint(filtered, Some(hint)) == filtered + "\n"@ + hint,
        with_hint(filtered, None) == filtered,
{
}

/// Estimated token count of `text`.
pub fn estimate_tokens(text: &str) -> (r: usize)
    ensures
        r == tokens(text@),
{
    let n = text.as_bytes().len();
    assert(n == encode_utf8(text@).len());
    assert((n + 3) / 4 == n / 4 + if n % 4 == 0 { 0int } else { 1int }) by (nonlinear_arith);
    if n % 4 == 0 {
        n / 4
    } else {
        n / 4 + 1
    }
}

/// Never shows more than the command itself produced: returns `body` when its
/// estimated token count does not exceed that of `raw`, and `raw` otherwise.
pub fn never_worse<'x>(raw: &'x str, body: &'x str) -> (r: &'x str)
    ensures
        r@ == guarded(raw@, body@),
        tokens(r@) <= tokens(raw@),
{
    if estimate_tokens(body) <= estimate_tokens(raw) {
        body
    } else {
        raw
    }
}

/// Composes `filtered` with an optional recovery `hint` and caps the result at `raw`:
/// the returned text is what is shown, and what the caller tracks.
pub fn emit_guarded(filtered: &str, hint: Option<&str>, raw: &str) -> (r: String)
    ensures
        r@ == guarded(raw@, with_hint(filtered@, hint.deep_view())),
        tokens(r@) <= tokens(raw@),
{
    let mut body = String::from_str(filtered);
    match hint {
        Some(h) => {
            body.append("\n");
            body.append(h);
        },
        None => {},
    }
    let shown = never_worse(raw, body.as_str());
    String::from_str(shown)
}

/// Shows filtered output together with the hint that teeing the raw output produced,
/// capped at `guard_raw`; returns the text to show and track.
pub fn print_with_hint(filtered: &str, tee_hint: Option<&str>, guard_raw: &str) -> (r: String)
    ensures
        r@ == guarded(guard_raw@, with_hint(filtered@, tee_hint.deep_view())),
        tokens(r@) <= tokens(guard_raw@),
{
    emit_guarded(filtered, tee_hint, guard_raw)
}

} // verus!
