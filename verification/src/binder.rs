use crate::decimal::{parse_chars, parses_as_i16, parses_as_i32, parses_as_i64};
use crate::models::config_file::{kind_of, schema_view, ArgKind, ArgSpec, ConfigArguments};
use crate::text::{chars_of, text_of, texts};
use vstd::prelude::*;

verus! {

/// Why a run of tokens could not be bound, as a mathematical value.
pub enum BindFailure {
    InsufficientArguments,
    MissingOptionalArgument(Seq<char>),
    InvalidValue(Seq<char>),
}

/// Why a run of tokens could not be bound to a schema.
#[derive(Debug, PartialEq, Eq)]
pub enum BindError {
    /// Fewer tokens than the schema has required arguments.
    InsufficientArguments,
    /// There are as many tokens as required arguments, but they end before
    /// the argument of this name, which so gets no value.
    MissingOptionalArgument(String),
    /// The token for the argument of this name is not a value of its type.
    InvalidValue(String),
}

impl View for BindError {
    type V = BindFailure;

    open spec fn view(&self) -> BindFailure {
        match self {
            BindError::InsufficientArguments => BindFailure::InsufficientArguments,
            BindError::MissingOptionalArgument(name) => BindFailure::MissingOptionalArgument(
                name@,
            ),
            BindError::InvalidValue(name) => BindFailure::InvalidValue(name@),
        }
    }
}

/// How many arguments of the schema must be given.
pub open spec fn required_count(schema: Seq<ArgSpec>) -> nat
    decreases schema.len(),
{
    if schema.len() == 0 {
        0
    } else {
        required_count(schema.drop_last()) + if schema.last().optional {
            0nat
        } else {
            1nat
        }
    }
}

/// A token between double quotes: three characters at least, the first and
/// the last of them a double quote.
pub open spec fn is_quoted(token: Seq<char>) -> bool {
    token.len() >= 3 && token.first() == '"' && token.last() == '"'
}

/// A token without its first and its last character.
pub open spec fn unquoted(token: Seq<char>) -> Seq<char> {
    token.subrange(1, token.len() - 1)
}

/// The value that a token gives to an argument of the kind, where it gives
/// one. A string is written between double quotes, which the value drops,
/// and what stands between them must not read as a 64-bit integer. An
/// integer must fit its width. A token for any other kind is taken as it is.
pub open spec fn accepted_value(kind: ArgKind, token: Seq<char>) -> Option<Seq<char>> {
    match kind {
        ArgKind::Str | ArgKind::Wstr => if is_quoted(token) && !parses_as_i64(unquoted(token)) {
            Some(unquoted(token))
        } else {
            None
        },
        ArgKind::Int => if parses_as_i32(token) {
            Some(token)
        } else {
            None
        },
        ArgKind::Short => if parses_as_i16(token) {
            Some(token)
        } else {
            None
        },
        ArgKind::Other => Some(token),
    }
}

/// The value bound to argument `i`: there is a token for it, and the token
/// gives a value of the argument's kind.
pub open spec fn slot_value(schema: Seq<ArgSpec>, tokens: Seq<Seq<char>>, i: int) -> Option<
    Seq<char>,
> {
    if 0 <= i < schema.len() && i < tokens.len() {
        accepted_value(kind_of(schema[i].kind), tokens[i])
    } else {
        None
    }
}

/// Argument `i` is the first that gets no value.
pub open spec fn first_unbound(schema: Seq<ArgSpec>, tokens: Seq<Seq<char>>, i: int) -> bool {
    &&& 0 <= i < schema.len()
    &&& slot_value(schema, tokens, i) is None
    &&& forall|j: int| 0 <= j < i ==> (#[trigger] slot_value(schema, tokens, j)) is Some
}

/// What binding the tokens to the schema gives. With fewer tokens than
/// required arguments nothing is looked at. Otherwise the arguments are taken
/// in declared order, argument `i` with token `i`, and the first that gets no
/// value decides the failure: its token is missing or is no value of its
/// kind. Tokens beyond the schema are ignored.
pub open spec fn bind_result(schema: Seq<ArgSpec>, tokens: Seq<Seq<char>>) -> Result<
    Seq<Seq<char>>,
    BindFailure,
> {
    if tokens.len() < required_count(schema) {
        Err(BindFailure::InsufficientArguments)
    } else if exists|i: int| first_unbound(schema, tokens, i) {
        let i = choose|i: int| first_unbound(schema, tokens, i);
        if i < tokens.len() {
            Err(BindFailure::InvalidValue(schema[i].name))
        } else {
            Err(BindFailure::MissingOptionalArgument(schema[i].name))
        }
    } else {
        Ok(Seq::new(schema.len(), |i: int| slot_value(schema, tokens, i)->0))
    }
}

/// A number between double quotes is no string: whatever reads as a 64-bit
/// integer is refused as the value of a `str` or a `wstr` argument, quoted
/// or not.
pub proof fn lemma_quoted_number_is_no_string(number: Seq<char>)
    requires
        parses_as_i64(number),
    ensures
        accepted_value(ArgKind::Str, seq!['"'] + number + seq!['"']) is None,
        accepted_value(ArgKind::Wstr, seq!['"'] + number + seq!['"']) is None,
        accepted_value(ArgKind::Str, number) is None,
        accepted_value(ArgKind::Wstr, number) is None,
{
    let token = seq!['"'] + number + seq!['"'];
    assert(unquoted(token) =~= number);
    if is_quoted(number) {
        // a text that starts with a quote starts with no sign and no digit
        assert(!crate::decimal::has_sign(number));
        assert(!crate::decimal::is_digit(number[0]));
    }
}

/// At most one argument is the first without a value.
pub proof fn lemma_first_unbound_unique(
    schema: Seq<ArgSpec>,
    tokens: Seq<Seq<char>>,
    i: int,
    j: int,
)
    requires
        first_unbound(schema, tokens, i),
        first_unbound(schema, tokens, j),
    ensures
        i == j,
{
    if i < j {
        assert(slot_value(schema, tokens, i) is Some);
    }
    if j < i {
        assert(slot_value(schema, tokens, j) is Some);
    }
}

/// With tokens enough for the required arguments, the first argument
/// without a value decides the failure: an invalid value where it has a
/// token, a missing one where the tokens end before it.
pub proof fn lemma_first_unbound_decides(schema: Seq<ArgSpec>, tokens: Seq<Seq<char>>, i: int)
    requires
        tokens.len() >= required_count(schema),
        first_unbound(schema, tokens, i),
    ensures
        bind_result(schema, tokens) == Err::<Seq<Seq<char>>, BindFailure>(
            if i < tokens.len() {
                BindFailure::InvalidValue(schema[i].name)
            } else {
                BindFailure::MissingOptionalArgument(schema[i].name)
            },
        ),
{
    let c = choose|c: int| first_unbound(schema, tokens, c);
    lemma_first_unbound_unique(schema, tokens, i, c);
}

proof fn lemma_required_count_step(schema: Seq<ArgSpec>, k: int)
    requires
        0 <= k < schema.len(),
    ensures
        required_count(schema.take(k + 1)) == required_count(schema.take(k)) + if schema[k].optional {
            0nat
        } else {
            1nat
        },
{
    assert(schema.take(k + 1).drop_last() =~= schema.take(k));
}

/// Counts the arguments of the schema that must be given.
pub fn count_required(schema: &Vec<ConfigArguments>) -> (count: usize)
    ensures
        count == required_count(schema_view(schema@)),
{
    let ghost spec_schema = schema_view(schema@);
    let mut count: usize = 0;
    let mut i: usize = 0;
    while i < schema.len()
        invariant
            i <= schema.len(),
            spec_schema == schema_view(schema@),
            count == required_count(spec_schema.take(i as int)),
            count <= i,
        decreases schema.len() - i,
    {
        proof {
            lemma_required_count_step(spec_schema, i as int);
        }
        if !schema[i].optional {
            count += 1;
        }
        i += 1;
    }
    assert(spec_schema.take(schema.len() as int) =~= spec_schema);
    count
}

/// Checks one token against the kind of its argument and gives the value
/// that it binds.
pub fn check_token(kind: ArgKind, token: &str) -> (value: Option<String>)
    ensures
        match value {
            Some(v) => accepted_value(kind, token@) == Some(v@),
            None => accepted_value(kind, token@) is None,
        },
{
    let chars = chars_of(token);
    let n = chars.len();
    match kind {
        ArgKind::Str | ArgKind::Wstr => {
            if n < 3 || chars[0] != '"' || chars[n - 1] != '"' {
                return None;
            }
            if parse_chars(&chars, 1, n - 1, i64::MIN, 0x7fff_ffff_ffff_ffff).is_some() {
                return None;
            }
            Some(text_of(&chars, 1, n - 1))
        },
        ArgKind::Int => {
            assert(chars@.subrange(0, n as int) =~= token@);
            if parse_chars(&chars, 0, n, -0x8000_0000, 0x7fff_ffff).is_some() {
                Some(text_of(&chars, 0, n))
            } else {
                None
            }
        },
        ArgKind::Short => {
            assert(chars@.subrange(0, n as int) =~= token@);
            if parse_chars(&chars, 0, n, -0x8000, 0x7fff).is_some() {
                Some(text_of(&chars, 0, n))
            } else {
                None
            }
        },
        ArgKind::Other => {
            assert(chars@.subrange(0, n as int) =~= token@);
            Some(text_of(&chars, 0, n))
        },
    }
}

/// Binds the tokens to the schema, argument `i` to token `i`, and gives the
/// bound values in the order of the schema.
pub fn bind(schema: &Vec<ConfigArguments>, tokens: &Vec<String>) -> (bound: Result<
    Vec<String>,
    BindError,
>)
    ensures
        match bound {
            Ok(values) => bind_result(schema_view(schema@), texts(tokens@)) == Ok::<
                Seq<Seq<char>>,
                BindFailure,
            >(texts(values@)),
            Err(e) => bind_result(schema_view(schema@), texts(tokens@)) == Err::<
                Seq<Seq<char>>,
                BindFailure,
            >(e@),
        },
{
    let ghost s = schema_view(schema@);
    let ghost t = texts(tokens@);
    if tokens.len() < count_required(schema) {
        return Err(BindError::InsufficientArguments);
    }
    let mut values: Vec<String> = Vec::new();
    let mut i: usize = 0;
    while i < schema.len()
        invariant
            i <= schema.len(),
            s == schema_view(schema@),
            t == texts(tokens@),
            values.len() == i,
            tokens.len() >= required_count(s),
            forall|j: int| 0 <= j < i ==> #[trigger] slot_value(s, t, j) == Some(values[j]@),
        decreases schema.len() - i,
    {
        if i >= tokens.len() {
            proof {
                lemma_first_unbound_decides(s, t, i as int);
            }
            return Err(BindError::MissingOptionalArgument(schema[i].name.clone()));
        }
        match check_token(schema[i].arg_kind(), tokens[i].as_str()) {
            Some(v) => {
                values.push(v);
            },
            None => {
                proof {
                    lemma_first_unbound_decides(s, t, i as int);
                }
                return Err(BindError::InvalidValue(schema[i].name.clone()));
            },
        }
        i += 1;
    }
    proof {
        assert forall|c: int| !first_unbound(s, t, c) by {
            if 0 <= c < s.len() {
                assert(slot_value(s, t, c) == Some(values[c]@));
            }
        }
        assert(texts(values@) =~= Seq::new(s.len(), |k: int| slot_value(s, t, k)->0));
    }
    Ok(values)
}

} // verus!
