use vstd::prelude::*;
use vstd::string::StrSliceExecFns;

verus! {

/// A parsed formula of `meval`, carried through to whoever evaluates it.
#[verifier::external_type_specification]
#[verifier::external_body]
pub struct ExExpr(meval::Expr);

/// A token of a parsed expression; an `Expr` dereferences to its tokens.
#[verifier::external_type_specification]
#[verifier::external_body]
pub struct ExToken(meval::tokenizer::Token);

/// The error that `meval` reports for a formula it cannot parse.
#[verifier::external_type_specification]
#[verifier::external_body]
pub struct ExError(meval::Error);

/// Whether the expression parser accepts a formula text. Parsing tokenizes
/// the text and orders the tokens for evaluation; the outcome depends on the
/// text alone.
pub uninterp spec fn formula_parses(text: Seq<char>) -> bool;

/// The characters that the formula tokenizer skips as blank space.
pub open spec fn is_blank_char(c: char) -> bool {
    c == ' ' || c == '\t' || c == '\r' || c == '\n'
}

/// A text that is not empty and holds nothing but blank space.
pub open spec fn blank(text: Seq<char>) -> bool {
    text.len() > 0 && forall|i: int| 0 <= i < text.len() ==> is_blank_char(#[trigger] text[i])
}

/// For a formula text that parses, whether its expression can be evaluated
/// with `x` and `y` as its only variables, beside the built-in constants and
/// functions. The outcome depends on the text alone.
pub uninterp spec fn formula_binds_xy(text: Seq<char>) -> bool;

/// Relies on `meval::Expr::from_str`, which succeeds exactly on the texts that
/// the parser accepts (on a text of blank space alone its tokenizer panics, so
/// such a text is not handed to it), and on `meval::Expr::bind2`, which
/// succeeds exactly when the expression uses no variable but `x`, `y` and the
/// built-in ones. The expression is returned when both succeed.
#[verifier::external_body]
pub(crate) fn parse_formula(text: &str) -> (r: Result<meval::Expr, meval::Error>)
    requires
        !blank(text@),
    ensures
        r is Ok <==> (formula_parses(text@) && formula_binds_xy(text@)),
{
    let expr = text.parse::<meval::Expr>()?;
    expr.clone().bind2("x", "y")?;
    Ok(expr)
}

/// Whether `text` is blank: not empty, and only spaces, tabs, carriage
/// returns and line feeds.
pub fn is_blank(text: &str) -> (r: bool)
    ensures
        r == blank(text@),
{
    let n = text.unicode_len();
    if n == 0 {
        return false;
    }
    let mut i: usize = 0;
    while i < n
        invariant
            n == text@.len(),
            i <= n,
            forall|j: int| 0 <= j < i ==> is_blank_char(#[trigger] text@[j]),
        decreases n - i,
    {
        let c = text.get_char(i);
        if !(c == ' ' || c == '\t' || c == '\r' || c == '\n') {
            return false;
        }
        i = i + 1;
    }
    true
}

} // verus!
