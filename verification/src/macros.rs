//! Naming and parameter-handling rules used when RPC traits and client
//! impls are turned into method registrations.

use vstd::prelude::*;

use crate::subscriptions::same_text;

verus! {

/// `c` is an ASCII capital letter.
pub open spec fn is_ascii_upper(c: char) -> bool {
    'A' <= c && c <= 'Z'
}

/// The ASCII lower-case letter for the capital letter `c`.
pub open spec fn ascii_lower(c: char) -> char {
    ((c as u32) + 32) as char
}

/// Snake case of an identifier, written the way it is built: every capital
/// letter becomes its lower-case letter, preceded by `_` unless nothing has
/// been written yet.
pub open spec fn snake_case(s: Seq<char>) -> Seq<char>
    decreases s.len(),
{
    if s.len() == 0 {
        Seq::empty()
    } else {
        let prefix = snake_case(s.drop_last());
        let c = s.last();
        if is_ascii_upper(c) {
            if prefix.len() == 0 {
                prefix.push(ascii_lower(c))
            } else {
                prefix.push('_').push(ascii_lower(c))
            }
        } else {
            prefix.push(c)
        }
    }
}

/// Snake case copies every character that is not an ASCII capital
/// unchanged (digits, `_`, lower-case and non-ASCII letters alike), and
/// turns a capital into `_` and its lower-case letter, without the `_` at the
/// very start.
pub proof fn lemma_snake_case_step(s: Seq<char>, c: char)
    ensures
        !is_ascii_upper(c) ==> snake_case(s.push(c)) == snake_case(s).push(c),
        is_ascii_upper(c) && snake_case(s).len() == 0 ==> snake_case(s.push(c)) == seq![ascii_lower(c)],
        is_ascii_upper(c) && snake_case(s).len() > 0 ==> snake_case(s.push(c)) == snake_case(s) + seq!['_', ascii_lower(c)],
{
    assert(s.push(c).drop_last() =~= s);
    if is_ascii_upper(c) {
        if snake_case(s).len() == 0 {
            assert(snake_case(s).push(ascii_lower(c)) =~= seq![ascii_lower(c)]);
        } else {
            assert(snake_case(s).push('_').push(ascii_lower(c)) =~= snake_case(s) + seq!['_', ascii_lower(c)]);
        }
    }
}

/// Snake case of a text without ASCII capitals is the text itself, and snake
/// case never holds an ASCII capital.
pub proof fn lemma_snake_case_shape(s: Seq<char>)
    ensures
        (forall|i: int| 0 <= i < s.len() ==> !is_ascii_upper(#[trigger] s[i])) ==> snake_case(s) == s,
        forall|i: int| 0 <= i < snake_case(s).len() ==> !is_ascii_upper(#[trigger] snake_case(s)[i]),
        snake_case(s).len() >= s.len(),
    decreases s.len(),
{
    if s.len() > 0 {
        let p = s.drop_last();
        lemma_snake_case_shape(p);
        lemma_snake_case_step(p, s.last());
        assert(p.push(s.last()) =~= s);
        if forall|i: int| 0 <= i < s.len() ==> !is_ascii_upper(#[trigger] s[i]) {
            assert forall|i: int| 0 <= i < p.len() implies !is_ascii_upper(#[trigger] p[i]) by {
                assert(p[i] == s[i]);
            }
            assert(!is_ascii_upper(s[s.len() - 1]));
        }
        let r = snake_case(s);
        assert forall|i: int| 0 <= i < r.len() implies !is_ascii_upper(#[trigger] r[i]) by {
            if i < snake_case(p).len() {
                assert(r[i] == snake_case(p)[i]);
            }
        }
    } else {
        assert(s =~= Seq::<char>::empty());
    }
}

/// Converts a `CamelCase` identifier to `snake_case`.
pub fn to_snake_case(ident: String) -> (result: String)
    ensures
        result@ == snake_case(ident@),
{
    let mut result = String::new();
    let s = ident.as_str();
    let ghost chars = s@;
    for c in it: s.chars()
        invariant
            it.seq() == chars,
            result@ == snake_case(chars.take(it.index() as int)),
    {
        proof {
            assert(chars.take(it.index() + 1).drop_last() =~= chars.take(it.index() as int));
        }
        if 'A' <= c && c <= 'Z' {
            if !result.as_str().is_empty() {
                push_char(&mut result, '_');
            }
            let lower = ((c as u8) + 32) as char;
            push_char(&mut result, lower);
        } else {
            push_char(&mut result, c);
        }
    }
    proof {
        assert(chars.take(chars.len() as int) =~= chars);
    }
    result
}

/// `String::push`: appends one character.
#[verifier::external_body]
pub(crate) fn push_char(s: &mut String, c: char)
    ensures
        final(s)@ == old(s)@.push(c),
{
    s.push(c);
}

/// Name of the generated function that registers a trait's methods:
/// `add_<snake case of the trait name>_methods`.
pub fn add_methods_fn_name(trait_name: String) -> (name: String)
    ensures
        name@ == "add_"@ + snake_case(trait_name@) + "_methods"@,
{
    let mut name = String::new();
    name.append("add_");
    let snake = to_snake_case(trait_name);
    name.append(snake.as_str());
    name.append("_methods");
    name
}

/// Name of the generated function that returns a trait's OpenRPC document:
/// `<snake case of the trait name>_doc`.
pub fn doc_fn_name(trait_name: String) -> (name: String)
    ensures
        name@ == snake_case(trait_name@) + "_doc"@,
{
    let mut name = to_snake_case(trait_name);
    name.append("_doc");
    name
}

/// The JSON-RPC method name of a trait method: the name given with
/// `#[rpc(name = ...)]`, else the method's own name.
pub fn rpc_method_name(name_override: Option<String>, ident: String) -> (name: String)
    ensures
        name_override matches Some(n) ==> name@ == n@,
        name_override is None ==> name@ == ident@,
{
    match name_override {
        Some(n) => n,
        None => ident,
    }
}

/// A parameter type counts as optional when its path starts with `Option`.
pub open spec fn is_optional(first_segment: Option<String>) -> bool {
    first_segment matches Some(name) && name@ == "Option"@
}

/// The number of optional parameters at the end of a parameter list.
pub open spec fn trailing_optional(first_segments: Seq<Option<String>>) -> nat
    decreases first_segments.len(),
{
    if first_segments.len() == 0 {
        0
    } else if is_optional(first_segments.last()) {
        1 + trailing_optional(first_segments.drop_last())
    } else {
        0
    }
}

/// The count of optional parameters at the end is the length of the longest
/// run of optional parameters that ends the list, the first parameter
/// included: the last `n` are all optional and the one before them, if any,
/// is not. So a list of only optional parameters counts them all.
pub proof fn lemma_trailing_optional(first_segments: Seq<Option<String>>)
    ensures
        trailing_optional(first_segments) <= first_segments.len(),
        forall|i: int|
            first_segments.len() - trailing_optional(first_segments) <= i < first_segments.len()
                ==> is_optional(#[trigger] first_segments[i]),
        trailing_optional(first_segments) < first_segments.len() ==> !is_optional(
            first_segments[first_segments.len() - trailing_optional(first_segments) - 1],
        ),
    decreases first_segments.len(),
{
    if first_segments.len() > 0 {
        let p = first_segments.drop_last();
        lemma_trailing_optional(p);
        if is_optional(first_segments.last()) {
            assert forall|i: int|
                first_segments.len() - trailing_optional(first_segments) <= i < first_segments.len()
                    implies is_optional(#[trigger] first_segments[i]) by {
                if i < first_segments.len() - 1 {
                    assert(first_segments[i] == p[i]);
                }
            }
            if trailing_optional(first_segments) < first_segments.len() {
                let j = first_segments.len() - trailing_optional(first_segments) - 1;
                assert(first_segments[j] == p[j]);
            }
        }
    }
}

/// Whether a parameter's type is optional, given the first segment of its
/// type's path (`None` where the type is not a path).
pub fn is_optional_type(first_segment: &Option<String>) -> (r: bool)
    ensures
        r == is_optional(*first_segment),
{
    match first_segment {
        Some(name) => same_text(name.as_str(), "Option"),
        None => false,
    }
}

/// Counts the optional parameters at the end of a parameter list, given the
/// first segment of each parameter type's path.
pub fn trailing_optional_count(first_segments: &Vec<Option<String>>) -> (n: usize)
    ensures
        n == trailing_optional(first_segments@),
        n <= first_segments@.len(),
{
    let mut n: usize = 0;
    let len = first_segments.len();
    assert(first_segments@.take(len as int) =~= first_segments@);
    while n < len && is_optional_type(&first_segments[len - 1 - n])
        invariant
            len == first_segments@.len(),
            n <= len,
            trailing_optional(first_segments@) == n + trailing_optional(first_segments@.take(len - n)),
        decreases len - n,
    {
        proof {
            let t = first_segments@.take(len - n);
            assert(t.drop_last() =~= first_segments@.take(len - n - 1));
        }
        n = n + 1;
    }
    proof {
        let t = first_segments@.take(len - n);
        if n < len {
            assert(t.last() == first_segments@[len - 1 - n]);
        } else {
            assert(t.len() == 0);
        }
    }
    n
}

/// How the parameters of a call are taken apart.
#[derive(Debug, PartialEq, Eq)]
pub enum ParamsParsing {
    /// The method takes no parameters: none may be given.
    NoParams,
    /// All parameters are required and parsed together as a tuple.
    Positional,
    /// The first `required` parameters must be given; the optional ones
    /// after them may be left out of the array.
    TrailingOptional { required: usize },
}

/// The way a method's parameters are parsed, given how many it has and how
/// many of them are optional at the end.
pub fn params_parsing(n_params: usize, n_optional: usize) -> (p: ParamsParsing)
    requires
        n_optional <= n_params,
    ensures
        n_optional > 0 ==> p == (ParamsParsing::TrailingOptional { required: (n_params - n_optional) as usize }),
        n_optional == 0 && n_params == 0 ==> p == ParamsParsing::NoParams,
        n_optional == 0 && n_params > 0 ==> p == ParamsParsing::Positional,
{
    if n_optional > 0 {
        ParamsParsing::TrailingOptional { required: n_params - n_optional }
    } else if n_params == 0 {
        ParamsParsing::NoParams
    } else {
        ParamsParsing::Positional
    }
}

/// Decimal digits of a number.
pub open spec fn decimal(n: nat) -> Seq<char>
    decreases n,
{
    if n < 10 {
        seq![(48 + n) as char]
    } else {
        decimal(n / 10).push((48 + n % 10) as char)
    }
}

/// `u32::to_string`: the decimal digits of the number.
#[verifier::external_body]
fn decimal_text(n: u32) -> (r: String)
    ensures
        r@ == decimal(n as nat),
{
    n.to_string()
}

/// The names given to the parameters of a method: a parameter bound to a
/// plain identifier keeps it; the k-th other one (counting from 1) is named
/// `param_k`.
pub open spec fn param_names_spec(patterns: Seq<Option<String>>) -> Seq<Seq<char>>
    decreases patterns.len(),
{
    if patterns.len() == 0 {
        Seq::empty()
    } else {
        let prefix = param_names_spec(patterns.drop_last());
        match patterns.last() {
            Some(ident) => prefix.push(ident@),
            None => prefix.push("param_"@ + decimal(unnamed_count(patterns) as nat)),
        }
    }
}

/// How many of the parameters are not bound to a plain identifier.
pub open spec fn unnamed_count(patterns: Seq<Option<String>>) -> nat
    decreases patterns.len(),
{
    if patterns.len() == 0 {
        0
    } else {
        unnamed_count(patterns.drop_last()) + if patterns.last() is None { 1nat } else { 0nat }
    }
}

proof fn lemma_unnamed_count_bound(patterns: Seq<Option<String>>)
    ensures
        unnamed_count(patterns) <= patterns.len(),
    decreases patterns.len(),
{
    if patterns.len() > 0 {
        lemma_unnamed_count_bound(patterns.drop_last());
    }
}

/// Names the parameters of a method, given for each the identifier it is
/// bound to, or `None` for a pattern that is not a plain identifier.
pub fn param_names(patterns: &Vec<Option<String>>) -> (names: Vec<String>)
    requires
        patterns@.len() <= u32::MAX,
    ensures
        names@.len() == patterns@.len(),
        forall|i: int| 0 <= i < names@.len() ==> #[trigger] names@[i]@ == param_names_spec(patterns@)[i],
{
    let mut names: Vec<String> = Vec::new();
    let mut counter: u32 = 0;
    let len = patterns.len();
    for i in 0..len
        invariant
            len == patterns@.len(),
            len <= u32::MAX,
            names@.len() == i,
            counter == unnamed_count(patterns@.take(i as int)),
            param_names_spec(patterns@.take(i as int)).len() == i,
            forall|j: int| 0 <= j < i ==> #[trigger] names@[j]@ == param_names_spec(patterns@.take(i as int))[j],
    {
        let ghost before = patterns@.take(i as int);
        let ghost after = patterns@.take(i + 1);
        proof {
            assert(after.drop_last() =~= before);
            lemma_unnamed_count_bound(before);
        }
        match &patterns[i] {
            Some(ident) => {
                names.push(ident.clone());
            },
            None => {
                counter = counter + 1;
                let mut name = String::new();
                name.append("param_");
                let digits = decimal_text(counter);
                name.append(digits.as_str());
                names.push(name);
            },
        }
        assert(forall|j: int| 0 <= j < i ==> param_names_spec(after)[j] == param_names_spec(before)[j]);
    }
    proof {
        assert(patterns@.take(len as int) =~= patterns@);
    }
    names
}

/// Joins documentation lines with newlines.
pub open spec fn joined_lines(lines: Seq<Seq<char>>) -> Seq<char>
    decreases lines.len(),
{
    if lines.len() == 0 {
        Seq::empty()
    } else if lines.len() == 1 {
        lines[0]
    } else {
        joined_lines(lines.drop_last()) + "\n"@ + lines.last()
    }
}

/// Total length of some lines.
pub open spec fn total_len(lines: Seq<Seq<char>>) -> nat
    decreases lines.len(),
{
    if lines.len() == 0 {
        0
    } else {
        total_len(lines.drop_last()) + lines.last().len()
    }
}

/// Joining keeps every line, empty ones included, with exactly one newline
/// between neighbours: one line is itself, adding a line to a non-empty list
/// adds a newline and the line, and the length is the lines' total length
/// plus one for each newline.
pub proof fn lemma_joined_lines(lines: Seq<Seq<char>>, line: Seq<char>)
    ensures
        joined_lines(seq![line]) == line,
        lines.len() > 0 ==> joined_lines(lines.push(line)) == joined_lines(lines) + "\n"@ + line,
        lines.len() > 0 ==> joined_lines(lines).len() == total_len(lines) + lines.len() - 1,
    decreases lines.len(),
{
    reveal_strlit("\n");
    assert(lines.push(line).drop_last() =~= lines);
    assert(seq![line].drop_last() =~= Seq::<Seq<char>>::empty());
    if lines.len() > 1 {
        lemma_joined_lines(lines.drop_last(), lines.last());
    } else if lines.len() == 1 {
        assert(lines =~= seq![lines[0]]);
        assert(lines.drop_last() =~= Seq::<Seq<char>>::empty());
    }
}

/// The description of a method: its documentation lines joined with
/// newlines.
pub fn join_doc_lines(lines: &Vec<String>) -> (doc: String)
    ensures
        doc@ == joined_lines(lines@.map_values(|l: String| l@)),
{
    let ghost views = lines@.map_values(|l: String| l@);
    let mut doc = String::new();
    let len = lines.len();
    for i in 0..len
        invariant
            len == lines@.len(),
            views == lines@.map_values(|l: String| l@),
            doc@ == joined_lines(views.take(i as int)),
    {
        proof {
            assert(views.take(i + 1).drop_last() =~= views.take(i as int));
        }
        if i != 0 {
            doc.append("\n");
        }
        doc.append(lines[i].as_str());
    }
    proof {
        assert(views.take(len as int) =~= views);
    }
    doc
}

/// An argument missing from `#[rpc(pub_sub(...))]`.
#[derive(Debug, PartialEq, Eq)]
pub enum MissingArg {
    Notify,
    Unsubscribe,
}

/// The notification and unsubscribe method names of a pub/sub method; both
/// must be given, and `notify` is looked for first.
pub fn pub_sub_names(notify: Option<String>, unsubscribe: Option<String>) -> (r: Result<(String, String), MissingArg>)
    ensures
        notify is None ==> r == Err::<(String, String), MissingArg>(MissingArg::Notify),
        notify is Some && unsubscribe is None ==> r == Err::<(String, String), MissingArg>(MissingArg::Unsubscribe),
        notify is Some && unsubscribe is Some ==> (r matches Ok(p) && p.0@ == notify->0@ && p.1@ == unsubscribe->0@),
{
    match notify {
        None => Err(MissingArg::Notify),
        Some(n) => match unsubscribe {
            None => Err(MissingArg::Unsubscribe),
            Some(u) => Ok((n, u)),
        },
    }
}

/// Whether the documented result type of a method is the first type argument
/// of its return type: so where the return type is a one-segment path named
/// `Result` whose first generic argument is a type; otherwise the return type
/// itself is documented.
pub fn documents_inner_result(single_segment: Option<&str>, first_arg_is_type: bool) -> (r: bool)
    ensures
        r == (single_segment matches Some(name) && name@ == "Result"@ && first_arg_is_type),
{
    match single_segment {
        Some(name) => same_text(name, "Result") && first_arg_is_type,
        None => false,
    }
}

} // verus!
