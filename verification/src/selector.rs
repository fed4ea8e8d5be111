//! Endpoint selectors: which default endpoint a worker tunes, and to what
//! period.

use vstd::prelude::*;

verus! {

/// Data-flow direction of an audio endpoint.
#[derive(Clone, Copy, Debug, PartialEq, Eq, Structural)]
pub enum Direction {
    Render,
    Capture,
    All,
}

/// Role by which the system picks the default endpoint of a direction.
#[derive(Clone, Copy, Debug, PartialEq, Eq, Structural)]
pub enum Role {
    Console,
    Multimedia,
    Communications,
}

/// One endpoint to tune: the default endpoint of `direction` and `role`,
/// switched to `explicit_period_frames` when that is given and to the
/// smallest period the engine offers when it is not.
#[derive(Clone, Copy, Debug, PartialEq, Eq)]
pub struct EndpointSelector {
    pub direction: Direction,
    pub role: Role,
    pub explicit_period_frames: Option<u32>,
}

impl Direction {
    /// The number the audio subsystem knows this direction by.
    pub open spec fn code(self) -> int {
        match self {
            Direction::Render => 0,
            Direction::Capture => 1,
            Direction::All => 2,
        }
    }

    /// The number the audio subsystem knows this direction by.
    pub fn to_code(self) -> (code: i32)
        ensures
            code == self.code(),
    {
        match self {
            Direction::Render => 0,
            Direction::Capture => 1,
            Direction::All => 2,
        }
    }
}

impl Role {
    /// The number the audio subsystem knows this role by.
    pub open spec fn code(self) -> int {
        match self {
            Role::Console => 0,
            Role::Multimedia => 1,
            Role::Communications => 2,
        }
    }

    /// The number the audio subsystem knows this role by.
    pub fn to_code(self) -> (code: i32)
        ensures
            code == self.code(),
    {
        match self {
            Role::Console => 0,
            Role::Multimedia => 1,
            Role::Communications => 2,
        }
    }
}

impl EndpointSelector {
    /// The period as the command line writes it: the explicit frame count, or
    /// 0 where the engine's own minimum is to be used.
    pub open spec fn spec_period_frames(self) -> int {
        match self.explicit_period_frames {
            Some(frames) => frames as int,
            None => 0,
        }
    }

    /// The period as the command line writes it: the explicit frame count, or
    /// 0 where the engine's own minimum is to be used.
    pub fn period_frames(&self) -> (frames: u32)
        ensures
            frames == self.spec_period_frames(),
    {
        match self.explicit_period_frames {
            Some(frames) => frames,
            None => 0,
        }
    }
}

/// The characters of a string, in order.
pub fn chars_of(text: &str) -> (chars: Vec<char>)
    ensures
        chars@ == text@,
{
    let mut chars: Vec<char> = Vec::new();
    for c in it: text.chars()
        invariant
            chars@ == it.seq().take(it.index()),
            it.seq() == text@,
    {
        chars.push(c);
    }
    chars
}

/// An upper-case ASCII letter.
pub open spec fn is_upper(c: char) -> bool {
    'A' <= c && c <= 'Z'
}

/// The letter in lower case; any other character as it is.
pub open spec fn lower(c: char) -> char {
    if is_upper(c) {
        ((c as u32) + 32) as char
    } else {
        c
    }
}

/// The text with its ASCII letters in lower case.
pub open spec fn to_lower(text: Seq<char>) -> Seq<char> {
    Seq::new(text.len(), |i: int| lower(text[i]))
}

/// The letter in lower case; any other character as it is.
pub fn lower_char(c: char) -> (l: char)
    ensures
        l == lower(c),
{
    if 'A' <= c && c <= 'Z' {
        let code: u8 = c as u8;
        (code + 32) as char
    } else {
        c
    }
}

/// Whether `field`, letter case aside, reads `name`.
pub fn reads_as(field: &Vec<char>, name: &str) -> (same: bool)
    ensures
        same == (to_lower(field@) == name@),
{
    let n = name.unicode_len();
    if field.len() != n {
        return false;
    }
    let mut i: usize = 0;
    while i < n
        invariant
            i <= n,
            n == field@.len(),
            n == name@.len(),
            forall|j: int| 0 <= j < i ==> lower(field@[j]) == name@[j],
        decreases n - i,
    {
        if lower_char(field[i]) != name.get_char(i) {
            assert(to_lower(field@)[i as int] != name@[i as int]);
            return false;
        }
        i += 1;
    }
    assert(to_lower(field@) =~= name@);
    true
}

/// The index of the first comma of `text`, or its length where it has none.
pub open spec fn first_comma(text: Seq<char>) -> int
    decreases text.len(),
{
    if text.len() == 0 || text[0] == ',' {
        0
    } else {
        1 + first_comma(text.drop_first())
    }
}

/// The fields of `text`: what stands between its commas, before the first
/// and after the last. A text without a comma is one field; an empty text is
/// one empty field.
pub open spec fn fields_of(text: Seq<char>) -> Seq<Seq<char>>
    decreases text.len(),
{
    let comma = first_comma(text);
    if 0 <= comma < text.len() {
        seq![text.take(comma)] + fields_of(text.skip(comma + 1))
    } else {
        seq![text]
    }
}

/// The texts that a vector of character vectors holds.
pub open spec fn texts(fields: Seq<Vec<char>>) -> Seq<Seq<char>> {
    Seq::new(fields.len(), |i: int| fields[i]@)
}

proof fn lemma_first_comma(text: Seq<char>, n: int)
    requires
        0 <= n <= text.len(),
        forall|j: int| 0 <= j < n ==> text[j] != ',',
        n == text.len() || text[n] == ',',
    ensures
        first_comma(text) == n,
    decreases n,
{
    if n > 0 {
        let rest = text.drop_first();
        assert forall|j: int| 0 <= j < n - 1 implies rest[j] != ',' by {
            assert(rest[j] == text[j + 1]);
        }
        lemma_first_comma(rest, n - 1);
    }
}

/// Splits a token at its commas.
pub fn split_fields(token: &Vec<char>) -> (fields: Vec<Vec<char>>)
    ensures
        texts(fields@) == fields_of(token@),
{
    let mut fields: Vec<Vec<char>> = Vec::new();
    let mut current: Vec<char> = Vec::new();
    let ghost mut start: int = 0;
    let mut i: usize = 0;
    proof {
        assert(token@.skip(0) =~= token@);
        assert(texts(fields@) + fields_of(token@) =~= fields_of(token@));
    }
    while i < token.len()
        invariant
            0 <= start <= i <= token@.len(),
            current@ == token@.subrange(start, i as int),
            forall|j: int| start <= j < i ==> token@[j] != ',',
            texts(fields@) + fields_of(token@.skip(start)) == fields_of(token@),
        decreases token@.len() - i,
    {
        let c = token[i];
        if c == ',' {
            proof {
                let rest = token@.skip(start);
                assert forall|j: int| 0 <= j < i - start implies rest[j] != ',' by {
                    assert(rest[j] == token@[start + j]);
                }
                lemma_first_comma(rest, i - start);
                assert(rest.take(i - start) =~= current@);
                assert(rest.skip(i - start + 1) =~= token@.skip(i + 1));
                assert(texts(fields@.push(current)) =~= texts(fields@) + seq![current@]);
            }
            fields.push(current);
            current = Vec::new();
            proof {
                start = i + 1;
            }
        } else {
            current.push(c);
        }
        i += 1;
    }
    proof {
        let rest = token@.skip(start);
        assert forall|j: int| 0 <= j < rest.len() implies rest[j] != ',' by {
            assert(rest[j] == token@[start + j]);
        }
        lemma_first_comma(rest, rest.len() as int);
        assert(rest =~= current@);
        assert(texts(fields@.push(current)) =~= texts(fields@) + seq![current@]);
    }
    fields.push(current);
    fields
}

/// A decimal digit.
pub open spec fn is_digit(c: char) -> bool {
    '0' <= c && c <= '9'
}

/// The number that a run of digits writes; digits only.
pub open spec fn digits_value(digits: Seq<char>) -> nat
    decreases digits.len(),
{
    if digits.len() == 0 {
        0
    } else {
        (digits_value(digits.drop_last()) * 10 + (digits.last() as u32 - '0' as u32)) as nat
    }
}

/// The digits of a number as written: what follows one leading plus sign, or
/// the whole text where it has none.
pub open spec fn unsigned_body(text: Seq<char>) -> Seq<char> {
    if text.len() > 0 && text[0] == '+' {
        text.drop_first()
    } else {
        text
    }
}

/// The number that `text` writes in decimal: one or more digits, the first
/// perhaps behind a plus sign, that give a value within 32 bits. Anything
/// else (an empty text, a minus sign, a blank, a value too large) writes no
/// number.
pub open spec fn decimal_value(text: Seq<char>) -> Option<u32> {
    let body = unsigned_body(text);
    if body.len() > 0 && (forall|i: int| 0 <= i < body.len() ==> is_digit(#[trigger] body[i]))
        && digits_value(body) <= u32::MAX {
        Some(digits_value(body) as u32)
    } else {
        None
    }
}

proof fn lemma_digits_grow(digits: Seq<char>, k: int)
    requires
        0 <= k <= digits.len(),
        forall|i: int| 0 <= i < digits.len() ==> is_digit(#[trigger] digits[i]),
    ensures
        digits_value(digits.take(k)) <= digits_value(digits),
    decreases digits.len() - k,
{
    if k < digits.len() {
        lemma_digits_grow(digits, k + 1);
        let longer = digits.take(k + 1);
        assert(longer.drop_last() =~= digits.take(k));
        assert(is_digit(digits[k]));
        assert(longer.last() == digits[k]);
    } else {
        assert(digits.take(k) =~= digits);
    }
}

/// Reads a decimal number.
pub fn parse_number(field: &Vec<char>) -> (value: Option<u32>)
    ensures
        value == decimal_value(field@),
{
    let n = field.len();
    let first: usize = if n > 0 && field[0] == '+' {
        1
    } else {
        0
    };
    let ghost body = unsigned_body(field@);
    proof {
        assert(body =~= field@.skip(first as int));
    }
    if first == n {
        return None;
    }
    let mut value: u32 = 0;
    let mut i: usize = first;
    while i < n
        invariant
            first <= i <= n,
            n == field@.len(),
            body == field@.skip(first as int),
            body == unsigned_body(field@),
            forall|j: int| 0 <= j < i - first ==> is_digit(#[trigger] body[j]),
            value == digits_value(body.take(i - first)),
        decreases n - i,
    {
        let c = field[i];
        proof {
            assert(body[i - first] == c);
            assert(body.take(i - first + 1).drop_last() =~= body.take(i - first));
            assert(body.take(i - first + 1).last() == c);
        }
        if !('0' <= c && c <= '9') {
            assert(!is_digit(body[i - first]));
            return None;
        }
        let digit: u32 = c as u32 - '0' as u32;
        if value > (u32::MAX - digit) / 10 {
            proof {
                assert(digits_value(body.take(i - first + 1)) == value * 10 + digit);
                if forall|j: int| 0 <= j < body.len() ==> is_digit(#[trigger] body[j]) {
                    lemma_digits_grow(body, i - first + 1);
                }
            }
            return None;
        }
        value = value * 10 + digit;
        i += 1;
    }
    proof {
        assert(body.take(i - first) =~= body);
    }
    Some(value)
}

/// Which field of an argument could not be read.
#[derive(Clone, Copy, Debug, PartialEq, Eq, Structural)]
pub enum ParseErrorKind {
    /// The first field is neither a direction's name nor its number.
    UnknownDirection,
    /// The second field is neither a role's name nor its number.
    UnknownRole,
}

/// The argument that could not be read as a selector, and why.
#[derive(Clone, Copy, Debug, PartialEq, Eq)]
pub struct ParseError {
    /// The position of the argument among the arguments, from 0.
    pub argument: usize,
    pub kind: ParseErrorKind,
}

/// The direction that a field names: by name, letter case aside, or by its
/// number.
pub open spec fn direction_named(field: Seq<char>) -> Option<Direction> {
    if to_lower(field) == "erender"@ {
        Some(Direction::Render)
    } else if to_lower(field) == "ecapture"@ {
        Some(Direction::Capture)
    } else if to_lower(field) == "eall"@ {
        Some(Direction::All)
    } else {
        match decimal_value(field) {
            Some(0) => Some(Direction::Render),
            Some(1) => Some(Direction::Capture),
            Some(2) => Some(Direction::All),
            _ => None,
        }
    }
}

/// The role that a field names: by name, letter case aside, or by its number.
pub open spec fn role_named(field: Seq<char>) -> Option<Role> {
    if to_lower(field) == "econsole"@ {
        Some(Role::Console)
    } else if to_lower(field) == "emultimedia"@ {
        Some(Role::Multimedia)
    } else if to_lower(field) == "ecommunications"@ {
        Some(Role::Communications)
    } else {
        match decimal_value(field) {
            Some(0) => Some(Role::Console),
            Some(1) => Some(Role::Multimedia),
            Some(2) => Some(Role::Communications),
            _ => None,
        }
    }
}

/// The explicit period that a field writes: its number, where it writes one
/// and that is not 0. A field that writes no number asks for no period.
pub open spec fn period_written(field: Seq<char>) -> Option<u32> {
    match decimal_value(field) {
        Some(frames) => if frames == 0 {
            None
        } else {
            Some(frames)
        },
        None => None,
    }
}

/// The selector that one argument writes. Its first field is the direction.
/// Its second is the role, the console role where there is none. Its third is
/// the period, none where there is no third field. Further fields are not
/// read.
pub open spec fn selector_written(token: Seq<char>) -> Result<EndpointSelector, ParseErrorKind> {
    let fields = fields_of(token);
    let role = if fields.len() > 1 {
        role_named(fields[1])
    } else {
        Some(Role::Console)
    };
    let period = if fields.len() > 2 {
        period_written(fields[2])
    } else {
        None
    };
    match (direction_named(fields[0]), role) {
        (None, _) => Err(ParseErrorKind::UnknownDirection),
        (Some(_), None) => Err(ParseErrorKind::UnknownRole),
        (Some(direction), Some(role)) => Ok(
            EndpointSelector { direction, role, explicit_period_frames: period },
        ),
    }
}

/// The selectors of a start without arguments: the console render endpoint
/// and the communications capture endpoint, each at the engine's own minimum.
pub open spec fn default_selectors() -> Seq<EndpointSelector> {
    seq![
        EndpointSelector {
            direction: Direction::Render,
            role: Role::Console,
            explicit_period_frames: None,
        },
        EndpointSelector {
            direction: Direction::Capture,
            role: Role::Communications,
            explicit_period_frames: None,
        },
    ]
}

/// Reads a direction off a field.
pub fn parse_direction(field: &Vec<char>) -> (direction: Option<Direction>)
    ensures
        direction == direction_named(field@),
{
    if reads_as(field, "erender") {
        Some(Direction::Render)
    } else if reads_as(field, "ecapture") {
        Some(Direction::Capture)
    } else if reads_as(field, "eall") {
        Some(Direction::All)
    } else {
        match parse_number(field) {
            Some(0) => Some(Direction::Render),
            Some(1) => Some(Direction::Capture),
            Some(2) => Some(Direction::All),
            _ => None,
        }
    }
}

/// Reads a role off a field.
pub fn parse_role(field: &Vec<char>) -> (role: Option<Role>)
    ensures
        role == role_named(field@),
{
    if reads_as(field, "econsole") {
        Some(Role::Console)
    } else if reads_as(field, "emultimedia") {
        Some(Role::Multimedia)
    } else if reads_as(field, "ecommunications") {
        Some(Role::Communications)
    } else {
        match parse_number(field) {
            Some(0) => Some(Role::Console),
            Some(1) => Some(Role::Multimedia),
            Some(2) => Some(Role::Communications),
            _ => None,
        }
    }
}

/// Reads an explicit period off a field.
pub fn parse_period(field: &Vec<char>) -> (period: Option<u32>)
    ensures
        period == period_written(field@),
{
    match parse_number(field) {
        Some(frames) => if frames == 0 {
            None
        } else {
            Some(frames)
        },
        None => None,
    }
}

/// A text has at least one field.
pub proof fn lemma_fields_not_empty(text: Seq<char>)
    ensures
        fields_of(text).len() >= 1,
    decreases text.len(),
{
    let comma = first_comma(text);
    if 0 <= comma < text.len() {
        lemma_fields_not_empty(text.skip(comma + 1));
    }
}

/// Reads one argument as a selector.
pub fn parse_selector(token: &str) -> (selector: Result<EndpointSelector, ParseErrorKind>)
    ensures
        selector == selector_written(token@),
{
    let chars = chars_of(token);
    let fields = split_fields(&chars);
    proof {
        lemma_fields_not_empty(token@);
        assert(texts(fields@).len() == fields@.len());
        assert(forall|i: int| 0 <= i < fields@.len() ==> texts(fields@)[i] == fields@[i]@);
    }
    let direction = parse_direction(&fields[0]);
    let role = if fields.len() > 1 {
        parse_role(&fields[1])
    } else {
        Some(Role::Console)
    };
    let period = if fields.len() > 2 {
        parse_period(&fields[2])
    } else {
        None
    };
    match (direction, role) {
        (None, _) => Err(ParseErrorKind::UnknownDirection),
        (Some(_), None) => Err(ParseErrorKind::UnknownRole),
        (Some(direction), Some(role)) => Ok(
            EndpointSelector { direction, role, explicit_period_frames: period },
        ),
    }
}

/// Resolves the command-line arguments into selectors, one per argument and
/// in their order. Without arguments the two default selectors are given. An
/// argument whose direction or role cannot be read fails the whole
/// resolution, the first such argument being named; a period that cannot be
/// read is no failure and asks for no period.
pub fn parse_args(args: Vec<String>) -> (selectors: Result<Vec<EndpointSelector>, ParseError>)
    ensures
        match selectors {
            Ok(list) => if args@.len() == 0 {
                list@ == default_selectors()
            } else {
                &&& list@.len() == args@.len()
                &&& forall|i: int|
                    0 <= i < args@.len() ==> selector_written(#[trigger] args@[i]@) == Ok::<
                        EndpointSelector,
                        ParseErrorKind,
                    >(list@[i])
            },
            Err(error) => {
                &&& error.argument < args@.len()
                &&& selector_written(args@[error.argument as int]@) == Err::<
                    EndpointSelector,
                    ParseErrorKind,
                >(error.kind)
                &&& forall|i: int|
                    0 <= i < error.argument ==> selector_written(#[trigger] args@[i]@) is Ok
            },
        },
{
    let mut list: Vec<EndpointSelector> = Vec::new();
    if args.len() == 0 {
        list.push(
            EndpointSelector {
                direction: Direction::Render,
                role: Role::Console,
                explicit_period_frames: None,
            },
        );
        list.push(
            EndpointSelector {
                direction: Direction::Capture,
                role: Role::Communications,
                explicit_period_frames: None,
            },
        );
        assert(list@ =~= default_selectors());
        return Ok(list);
    }
    let mut k: usize = 0;
    while k < args.len()
        invariant
            k <= args@.len(),
            list@.len() == k,
            forall|i: int|
                0 <= i < k ==> selector_written(#[trigger] args@[i]@) == Ok::<
                    EndpointSelector,
                    ParseErrorKind,
                >(list@[i]),
        decreases args@.len() - k,
    {
        match parse_selector(args[k].as_str()) {
            Ok(selector) => {
                list.push(selector);
            },
            Err(kind) => {
                return Err(ParseError { argument: k, kind });
            },
        }
        k += 1;
    }
    Ok(list)
}

} // verus!
