//! Expression sources: the text an attribute hands to the engine's expression
//! compiler, with the `&&` and `||` operators spelled as `and` and `or`.

use vstd::prelude::*;
use vstd::string::*;

use crate::text::{chars_of, concat3, contains_char, push_char, string_of};
use crate::variant_type::VariantType;

verus! {

/// `" and "`.
pub open spec fn and_word() -> Seq<char> {
    seq![' ', 'a', 'n', 'd', ' ']
}

/// `" or "`.
pub open spec fn or_word() -> Seq<char> {
    seq![' ', 'o', 'r', ' ']
}

/// The rest of `s` from position `i` on, normalized, where `quote` is the quote
/// character of the string literal that position `i` lies in, if any.
pub open spec fn normalize_from(s: Seq<char>, i: int, quote: Option<char>) -> Seq<char>
    decreases s.len() - i,
{
    if i >= s.len() || i < 0 {
        Seq::empty()
    } else {
        match quote {
            Some(q) => {
                if s[i] == '\\' {
                    if i + 1 < s.len() {
                        seq![s[i], s[i + 1]] + normalize_from(s, i + 2, quote)
                    } else {
                        seq![s[i]]
                    }
                } else if s[i] == q {
                    seq![s[i]] + normalize_from(s, i + 1, None)
                } else {
                    seq![s[i]] + normalize_from(s, i + 1, quote)
                }
            },
            None => {
                if s[i] == '"' || s[i] == '\'' {
                    seq![s[i]] + normalize_from(s, i + 1, Some(s[i]))
                } else if s[i] == '&' && i + 1 < s.len() && s[i + 1] == '&' {
                    and_word() + normalize_from(s, i + 2, None)
                } else if s[i] == '|' && i + 1 < s.len() && s[i + 1] == '|' {
                    or_word() + normalize_from(s, i + 2, None)
                } else {
                    seq![s[i]] + normalize_from(s, i + 1, None)
                }
            },
        }
    }
}

/// `s` with every `&&` outside a string literal replaced by ` and ` and every
/// `||` by ` or `; string literals (in `"` or `'`, with backslash escapes) are
/// kept as they are.
pub open spec fn normalized(s: Seq<char>) -> Seq<char> {
    normalize_from(s, 0, None)
}

/// Rewrites the `&&` and `||` operators as `and` and `or`, outside string
/// literals, for the engine's expression compiler.
pub fn normalize_operators(expression_text: &str) -> (r: String)
    ensures
        r@ == normalized(expression_text@),
{
    let s = chars_of(expression_text);
    let n = s.len();
    let mut out = String::new();
    let mut quote: Option<char> = None;
    let mut i: usize = 0;
    while i < n
        invariant
            s@ == expression_text@,
            n == s.len(),
            i <= n,
            normalized(expression_text@) == out@ + normalize_from(s@, i as int, quote),
        decreases n - i,
    {
        let c = s[i];
        match quote {
            Some(q) => {
                push_char(&mut out, c);
                if c == '\\' {
                    if i + 1 < n {
                        push_char(&mut out, s[i + 1]);
                        i = i + 2;
                    } else {
                        i = n;
                    }
                } else if c == q {
                    quote = None;
                    i = i + 1;
                } else {
                    i = i + 1;
                }
            },
            None => {
                if c == '"' || c == '\'' {
                    quote = Some(c);
                    push_char(&mut out, c);
                    i = i + 1;
                } else if c == '&' && i + 1 < n && s[i + 1] == '&' {
                    push_char(&mut out, ' ');
                    push_char(&mut out, 'a');
                    push_char(&mut out, 'n');
                    push_char(&mut out, 'd');
                    push_char(&mut out, ' ');
                    i = i + 2;
                } else if c == '|' && i + 1 < n && s[i + 1] == '|' {
                    push_char(&mut out, ' ');
                    push_char(&mut out, 'o');
                    push_char(&mut out, 'r');
                    push_char(&mut out, ' ');
                    i = i + 2;
                } else {
                    push_char(&mut out, c);
                    i = i + 1;
                }
            },
        }
    }
    out
}

/// Scanning from a position depends only on the text from there on.
proof fn lemma_normalize_shift(s: Seq<char>, k: int, j: int, q: Option<char>)
    requires
        0 <= k <= s.len(),
        0 <= j,
    ensures
        normalize_from(s, k + j, q) == normalize_from(s.skip(k), j, q),
    decreases s.len() - k - j,
{
    let t = s.skip(k);
    if k + j < s.len() {
        assert(t[j] == s[k + j]);
        if j + 1 < t.len() {
            assert(t[j + 1] == s[k + j + 1]);
        }
        lemma_normalize_shift(s, k, j + 1, None);
        lemma_normalize_shift(s, k, j + 1, q);
        lemma_normalize_shift(s, k, j + 1, Some(s[k + j]));
        if k + j + 2 <= s.len() {
            lemma_normalize_shift(s, k, j + 2, None);
            lemma_normalize_shift(s, k, j + 2, q);
        }
    }
}

/// A character that the scan copies without a second look.
pub open spec fn is_plain(c: char) -> bool {
    c != '"' && c != '\'' && c != '&' && c != '|'
}

/// Plain characters outside a string literal are copied as they are.
proof fn lemma_normalize_plain_prefix(p: Seq<char>, r: Seq<char>)
    requires
        forall|j: int| 0 <= j < p.len() ==> is_plain(#[trigger] p[j]),
    ensures
        normalize_from(p + r, 0, None) == p + normalize_from(r, 0, None),
    decreases p.len(),
{
    let t = p + r;
    if p.len() == 0 {
        assert(t =~= r);
        assert(p + normalize_from(r, 0, None) =~= normalize_from(r, 0, None));
    } else {
        assert(t[0] == p[0]);
        lemma_normalize_shift(t, 1, 0, None);
        assert(t.skip(1) =~= p.drop_first() + r);
        lemma_normalize_plain_prefix(p.drop_first(), r);
        assert(p =~= seq![p[0]] + p.drop_first());
    }
}

/// What the scan writes first betrays a `&` or `|` only where the text has one.
proof fn lemma_normalize_first(s: Seq<char>, j: int)
    requires
        0 <= j < s.len(),
    ensures
        normalize_from(s, j, None).len() > 0,
        normalize_from(s, j, None)[0] == '&' ==> s[j] == '&',
        normalize_from(s, j, None)[0] == '|' ==> s[j] == '|',
{
}

/// Normalizing text that normalization wrote changes nothing.
proof fn lemma_normalize_idempotent_from(s: Seq<char>, i: int, q: Option<char>)
    requires
        0 <= i,
    ensures
        normalize_from(normalize_from(s, i, q), 0, q) == normalize_from(s, i, q),
    decreases s.len() - i,
{
    let out = normalize_from(s, i, q);
    if i >= s.len() {
        return;
    }
    let c = s[i];
    match q {
        Some(qc) => {
            if c == '\\' {
                if i + 1 < s.len() {
                    let r = normalize_from(s, i + 2, q);
                    lemma_normalize_idempotent_from(s, i + 2, q);
                    assert(out =~= seq![c, s[i + 1]] + r);
                    lemma_normalize_shift(out, 2, 0, q);
                    assert(out.skip(2) =~= r);
                }
            } else if c == qc {
                let r = normalize_from(s, i + 1, None);
                lemma_normalize_idempotent_from(s, i + 1, None);
                assert(out =~= seq![c] + r);
                lemma_normalize_shift(out, 1, 0, None);
                assert(out.skip(1) =~= r);
            } else {
                let r = normalize_from(s, i + 1, q);
                lemma_normalize_idempotent_from(s, i + 1, q);
                assert(out =~= seq![c] + r);
                lemma_normalize_shift(out, 1, 0, q);
                assert(out.skip(1) =~= r);
            }
        },
        None => {
            if c == '"' || c == '\'' {
                let r = normalize_from(s, i + 1, Some(c));
                lemma_normalize_idempotent_from(s, i + 1, Some(c));
                assert(out =~= seq![c] + r);
                lemma_normalize_shift(out, 1, 0, Some(c));
                assert(out.skip(1) =~= r);
            } else if c == '&' && i + 1 < s.len() && s[i + 1] == '&' {
                let r = normalize_from(s, i + 2, None);
                lemma_normalize_idempotent_from(s, i + 2, None);
                assert(out =~= and_word() + r);
                lemma_normalize_plain_prefix(and_word(), r);
            } else if c == '|' && i + 1 < s.len() && s[i + 1] == '|' {
                let r = normalize_from(s, i + 2, None);
                lemma_normalize_idempotent_from(s, i + 2, None);
                assert(out =~= or_word() + r);
                lemma_normalize_plain_prefix(or_word(), r);
            } else {
                let r = normalize_from(s, i + 1, None);
                lemma_normalize_idempotent_from(s, i + 1, None);
                assert(out =~= seq![c] + r);
                if is_plain(c) {
                    lemma_normalize_plain_prefix(seq![c], r);
                } else {
                    if i + 1 < s.len() {
                        lemma_normalize_first(s, i + 1);
                    }
                    lemma_normalize_shift(out, 1, 0, None);
                    assert(out.skip(1) =~= r);
                }
            }
        },
    }
}

/// Normalizing twice gives what normalizing once gives: text that is already
/// in the `and`/`or` form is left alone.
pub proof fn lemma_normalize_idempotent(s: Seq<char>)
    ensures
        normalized(normalized(s)) == normalized(s),
{
    lemma_normalize_idempotent_from(s, 0, None);
}

/// Text without `&` and `|` comes back unchanged.
pub proof fn lemma_normalize_keeps_text_without_operators(s: Seq<char>)
    requires
        forall|j: int| 0 <= j < s.len() ==> #[trigger] s[j] != '&' && s[j] != '|',
    ensures
        normalized(s) == s,
{
    lemma_normalize_keeps_from(s, 0, None);
    assert(s.skip(0) =~= s);
}

proof fn lemma_normalize_keeps_from(s: Seq<char>, i: int, q: Option<char>)
    requires
        0 <= i <= s.len(),
        forall|j: int| 0 <= j < s.len() ==> #[trigger] s[j] != '&' && s[j] != '|',
    ensures
        normalize_from(s, i, q) == s.skip(i),
    decreases s.len() - i,
{
    if i < s.len() {
        let c = s[i];
        match q {
            Some(qc) => {
                if c == '\\' && i + 1 < s.len() {
                    lemma_normalize_keeps_from(s, i + 2, q);
                    assert(s.skip(i) =~= seq![c, s[i + 1]] + s.skip(i + 2));
                } else if c == '\\' {
                    assert(s.skip(i) =~= seq![c]);
                } else if c == qc {
                    lemma_normalize_keeps_from(s, i + 1, None);
                    assert(s.skip(i) =~= seq![c] + s.skip(i + 1));
                } else {
                    lemma_normalize_keeps_from(s, i + 1, q);
                    assert(s.skip(i) =~= seq![c] + s.skip(i + 1));
                }
            },
            None => {
                if c == '"' || c == '\'' {
                    lemma_normalize_keeps_from(s, i + 1, Some(c));
                } else {
                    lemma_normalize_keeps_from(s, i + 1, None);
                }
                assert(s.skip(i) =~= seq![c] + s.skip(i + 1));
            },
        }
    } else {
        assert(s.skip(i) =~= Seq::<char>::empty());
    }
}

/// An expression as an attribute wrote it, and the source that goes to the
/// engine's compiler.
pub struct Expression {
    expression_text: String,
    source: String,
}

impl View for Expression {
    type V = Seq<char>;

    /// The expression as written; the source follows from it.
    closed spec fn view(&self) -> Seq<char> {
        self.expression_text@
    }
}

/// The message of an evaluation that the engine reports as failed:
/// `'text' - error`, then the tool hint.
pub open spec fn execution_error_of(expression_text: Seq<char>, engine_error: Seq<char>, is_tool: bool) -> Seq<char> {
    "'"@ + expression_text + "' - "@ + engine_error + tool_hint_of(expression_text, is_tool)
}

/// Whether a value of type `t` is a number.
pub open spec fn is_number_value(t: VariantType) -> bool {
    t == VariantType::Int || t == VariantType::Float
}

/// The message for a value that should be a number and is not: `'what' is
/// kind_name, not a number`.
pub open spec fn not_a_number_of(what: Seq<char>, kind_name: Seq<char>) -> Seq<char> {
    "'"@ + what + "' is "@ + kind_name + ", not a number"@
}

/// Whether the value that `what` gave, of type `t`, is a number; if not, the
/// message that says so, with `kind_name` the engine's name for `t`.
pub fn check_number(what: &str, t: VariantType, kind_name: &str) -> (r: Result<(), String>)
    ensures
        match r {
            Ok(()) => is_number_value(t),
            Err(m) => !is_number_value(t) && m@ == not_a_number_of(what@, kind_name@),
        },
{
    match t {
        VariantType::Int | VariantType::Float => Ok(()),
        _ => {
            let mut m = concat3("'", what, "' is ");
            m.append(kind_name);
            m.append(", not a number");
            Err(m)
        },
    }
}

/// What the engine's compiler answered: the error it reports, or none.
pub open spec fn compile_error_view(r: Option<String>) -> Option<Seq<char>> {
    match r {
        Some(e) => Some(e@),
        None => None,
    }
}

/// `errors` gives what the compiler `f` answers for every source: the error
/// it reports, or none when the source compiles.
pub open spec fn answers_compile<F: Fn(&str) -> Option<String>>(
    f: F,
    errors: spec_fn(Seq<char>) -> Option<Seq<char>>,
) -> bool {
    forall|s: &str, r: Option<String>| #[trigger] f.ensures((s,), r) ==> compile_error_view(r) == errors(s@)
}

/// The compiler can be asked about any source.
pub open spec fn compiler_ready<F: Fn(&str) -> Option<String>>(f: F) -> bool {
    forall|s: &str| #[trigger] f.requires((s,))
}

/// What compiling `expression_text` gives, where `errors` tells what the
/// compiler reports for a source: the text, or the compiler's error for its
/// source (the text normalized).
pub open spec fn compiled_of(
    expression_text: Seq<char>,
    errors: spec_fn(Seq<char>) -> Option<Seq<char>>,
) -> Result<Seq<char>, Seq<char>> {
    match errors(normalized(expression_text)) {
        Some(e) => Err(e),
        None => Ok(expression_text),
    }
}

/// The hint added to an evaluation error: calling a method from the editor
/// needs a tool script.
pub open spec fn tool_hint_of(expression_text: Seq<char>, is_tool: bool) -> Seq<char> {
    if !expression_text.contains('(') || is_tool {
        ""@
    } else {
        " (calling a method needs @tool on the script)"@
    }
}

impl Expression {
    /// The expression as written, with its source for the engine's compiler.
    pub fn new(expression_text: &str) -> (r: Self)
        ensures
            r@ == expression_text@,
            r.spec_source() == normalized(expression_text@),
    {
        Expression { expression_text: string_of(expression_text), source: normalize_operators(expression_text) }
    }

    /// The expression, if the engine's compiler accepts its source; else the
    /// compiler's error. `compile` answers for a source the error it
    /// reports, or none.
    pub fn compile<F: Fn(&str) -> Option<String>>(expression_text: &str, compile: &F) -> (r: Result<
        Self,
        String,
    >)
        requires
            compiler_ready(*compile),
        ensures
            forall|errors: spec_fn(Seq<char>) -> Option<Seq<char>>|
                #[trigger] answers_compile(*compile, errors) ==> crate::text::result_view(r)
                    == compiled_of(expression_text@, errors),
    {
        let expression = Expression::new(expression_text);
        match compile(expression.get_source()) {
            Some(error) => Err(error),
            None => Ok(expression),
        }
    }

    /// The source that goes to the engine's compiler.
    pub closed spec fn spec_source(&self) -> Seq<char> {
        self.source@
    }

    /// Every expression's source is its text normalized.
    #[verifier::type_invariant]
    closed spec fn source_follows_text(&self) -> bool {
        self.source@ == normalized(self.expression_text@)
    }

    pub fn get_expression_text(&self) -> (r: &str)
        ensures
            r@ == self@,
    {
        self.expression_text.as_str()
    }

    pub fn get_text(&self) -> (r: &str)
        ensures
            r@ == self@,
    {
        self.expression_text.as_str()
    }

    /// The source that goes to the engine's compiler: the text with `&&` and
    /// `||` rewritten.
    pub fn get_source(&self) -> (r: &str)
        ensures
            r@ == normalized(self@),
    {
        proof {
            use_type_invariant(self);
        }
        self.source.as_str()
    }

    /// The message when the engine reports that evaluating the expression
    /// failed with `engine_error`, on a script that is a tool script or not.
    pub fn execution_error(&self, engine_error: &str, is_tool: bool) -> (r: String)
        ensures
            r@ == execution_error_of(self@, engine_error@, is_tool),
    {
        let mut m = concat3("'", self.expression_text.as_str(), "' - ");
        m.append(engine_error);
        m.append(self.get_tool_hint(is_tool));
        m
    }

    /// Whether the value the expression gave, of type `t`, is a number; if
    /// not, the message that says so.
    pub fn check_number(&self, t: VariantType, kind_name: &str) -> (r: Result<(), String>)
        ensures
            match r {
                Ok(()) => is_number_value(t),
                Err(m) => !is_number_value(t) && m@ == not_a_number_of(self@, kind_name@),
            },
    {
        check_number(self.expression_text.as_str(), t, kind_name)
    }

    /// The hint to add to an evaluation error, given whether the script that
    /// the expression runs on is a tool script.
    pub fn get_tool_hint(&self, is_tool: bool) -> (r: &'static str)
        ensures
            r@ == tool_hint_of(self@, is_tool),
    {
        if !contains_char(self.expression_text.as_str(), '(') || is_tool {
            ""
        } else {
            " (calling a method needs @tool on the script)"
        }
    }
}

} // verus!
