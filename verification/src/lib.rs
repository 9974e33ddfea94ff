//! Front end for the `fer` language: lexing, parsing, declaration binding
//! and type checking of source text, producing an abstract syntax tree and
//! a list of diagnostics.

use vstd::prelude::*;

pub mod diag;
pub mod lexer;
pub mod token;
pub mod types;
pub mod ast;
pub mod rules;
pub mod parser;
pub mod binder;
pub mod checker;

verus! {

/// Everything the front end produced for one compilation unit: the parsed
/// program, the diagnostics of all phases in phase order, and the name and
/// inferred type of every top-level binding.
pub struct CompileOut {
    pub program: ast::Program,
    pub diags: Vec<diag::Diagnostic>,
    pub globals: Vec<(Vec<u8>, types::Ty)>,
}

/// Appends all diagnostics of `src` to `dst`, in order.
fn append_diags(dst: &mut Vec<diag::Diagnostic>, src: Vec<diag::Diagnostic>)
    ensures
        final(dst)@ == old(dst)@ + src@,
{
    let mut i: usize = 0;
    while i < src.len()
        invariant
            i <= src@.len(),
            dst@ == old(dst)@ + src@.subrange(0, i as int),
        decreases src@.len() - i,
    {
        dst.push(src[i]);
        proof {
            assert(dst@ =~= old(dst)@ + src@.subrange(0, i + 1 as int));
        }
        i += 1;
    }
    proof {
        assert(src@.subrange(0, src@.len() as int) =~= src@);
    }
}

/// The whole front end on one source file: lexing, parsing, declaration
/// binding and type checking, in that order, each phase collecting as many
/// diagnostics as it can, concatenated in phase order. An outcome without
/// error-severity diagnostics is fit for lowering (see
/// `diag::ready_for_lowering`). The contract pins liveness end to end:
/// some well-formed lexing of the source accounts for every byte within
/// the returned diagnostics, and when it holds anything besides
/// end-of-input the outcome carries items or diagnostics — source never
/// vanishes silently.
pub fn compile(src: &[u8]) -> (r: CompileOut)
    requires
        src@.len() < usize::MAX,
    ensures
        exists|ts: Seq<token::Token>|
            #[trigger] lexer::lexed_wf(ts, src@) && (forall|b: int|
                0 <= b < src@.len() ==> lexer::byte_accounted(src@, b, ts, r.diags@)) && (ts[
                0
            ].kind != token::TokenKind::Eof ==> r.program.items@.len() > 0 || r.diags@.len() > 0),
{
    let lexed = lexer::tokenize(src);
    let ghost ts0 = lexed.tokens@;
    let ghost lex_diags = lexed.diags@;
    let mut diags = lexed.diags;
    let (program, parse_diags) = parser::parse(lexed.tokens);
    let ghost pd = parse_diags@;
    append_diags(&mut diags, parse_diags);
    let ghost d1 = diags@;
    let bound = binder::bind(&program);
    append_diags(&mut diags, bound.diags);
    let ghost d2 = diags@;
    let checked = checker::check(&program, bound.table);
    append_diags(&mut diags, checked.diags);
    proof {
        let d3 = diags@;
        assert forall|i: int| 0 <= i < lex_diags.len() implies d3[i] == lex_diags[i] by {
            assert(d1[i] == lex_diags[i]);
            assert(d2[i] == d1[i]);
            assert(d3[i] == d2[i]);
        }
        lexer::lemma_accounted_extend(src@, src@.len() as int, ts0, ts0, lex_diags, diags@);
        assert(pd.len() > 0 ==> diags@.len() > 0);
    }
    CompileOut { program, diags, globals: checked.globals }
}

/// Character view of the one URL the demo `fetch` routine knows about.
pub open spec fn data_url_chars() -> Seq<char> {
    "https://example.com/api/data"@
}

/// Character view of the payload served for the known URL.
pub open spec fn fetched_data_chars() -> Seq<char> {
    "Fetched Data"@
}

/// Character view of the error message for every other URL.
pub open spec fn network_error_chars() -> Seq<char> {
    "Network Error"@
}

/// Character-by-character equality of two string slices.
pub fn str_eq(a: &str, b: &str) -> (r: bool)
    ensures
        r == (a@ == b@),
{
    let alen = a.unicode_len();
    let blen = b.unicode_len();
    if alen != blen {
        assert(a@ != b@);
        return false;
    }
    let mut i: usize = 0;
    while i < alen
        invariant
            i <= alen,
            alen == a@.len(),
            blen == b@.len(),
            alen == blen,
            forall|j: int| 0 <= j < i ==> a@[j] == b@[j],
        decreases alen - i,
    {
        if a.get_char(i) != b.get_char(i) {
            assert(a@ != b@);
            return false;
        }
        i += 1;
    }
    proof {
        assert(a@ =~= b@);
    }
    true
}

/// Reference behaviour of the `fetch` routine that the language's example
/// programs declare as `fn fetch(url: str) -> Result ! str`: the one known
/// URL yields the payload, every other URL yields a network error.
pub fn fetch(url: &str) -> (r: Result<String, String>)
    ensures
        (r is Ok) == (url@ == data_url_chars()),
        r is Ok ==> r->Ok_0@ == fetched_data_chars(),
        r is Err ==> r->Err_0@ == network_error_chars(),
{
    if str_eq(url, "https://example.com/api/data") {
        Ok("Fetched Data".to_owned())
    } else {
        Err("Network Error".to_owned())
    }
}

} // verus!
