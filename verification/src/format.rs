//! Format templates: which parameters a template refers to.

use std::collections::HashSet;
use vstd::prelude::*;
use vstd::string::{StrSliceExecFns, StringExecFns};
use crate::outside::{format_parse, ident_parse, parse_format, parse_ident};
use crate::syntax::result_view;
use crate::text::{added, contains, decimal, decimal_text, lemma_added};

verus! {

/// One piece of a format template.
#[derive(Debug, PartialEq, Eq)]
pub enum Piece {
    /// Literal text.
    Text(String),
    /// A placeholder without a position, `{}`.
    Next,
    /// A placeholder with a position, `{0}`.
    Index(usize),
    /// A placeholder with a name, `{name}`.
    Named(String),
}

pub enum PieceView {
    Text(Seq<char>),
    Next,
    Index(usize),
    Named(Seq<char>),
}

impl DeepView for Piece {
    type V = PieceView;

    open spec fn deep_view(&self) -> PieceView {
        match self {
            Piece::Text(text) => PieceView::Text(text@),
            Piece::Next => PieceView::Next,
            Piece::Index(index) => PieceView::Index(*index),
            Piece::Named(name) => PieceView::Named(name@),
        }
    }
}

impl PieceView {
    /// A placeholder as it is quoted in a complaint: `{}`, `{0}` or `{name}`
    /// between backticks.
    pub open spec fn quoted(self) -> Seq<char> {
        match self {
            PieceView::Text(_) => Seq::empty(),
            PieceView::Next => "`{}`"@,
            PieceView::Index(index) => "`{"@ + decimal_text(index as nat) + "}`"@,
            PieceView::Named(name) => "`{"@ + name + "}`"@,
        }
    }
}

impl Piece {
    /// The placeholder as it is quoted in a complaint.
    pub fn quoted(&self) -> (r: String)
        ensures
            r@ == self.deep_view().quoted(),
    {
        match self {
            Piece::Text(_) => String::new(),
            Piece::Next => String::from_str("`{}`"),
            Piece::Index(index) => String::from_str("`{").concat(decimal(*index).as_str()).concat(
                "}`",
            ),
            Piece::Named(name) => String::from_str("`{").concat(name.as_str()).concat("}`"),
        }
    }
}

/// Whether a character is a decimal digit.
pub open spec fn is_digit(c: char) -> bool {
    '0' <= c <= '9'
}

/// Whether a character sets the alignment in a placeholder.
pub open spec fn is_align(c: char) -> bool {
    c == '<' || c == '>' || c == '^'
}

/// Whether the character at index `at` stands between a `:` and an alignment.
pub open spec fn may_fill(text: Seq<char>, at: int) -> bool {
    1 <= at && at + 1 < text.len() && text[at - 1] == ':' && is_align(text[at + 1])
}

/// Whether a number may start directly after a character in a placeholder: after
/// the opening `{`, after the `:` of the format, after an alignment, a sign or
/// `#`, and after the `.` of the precision.
pub open spec fn starts_number(c: char) -> bool {
    c == '{' || c == ':' || is_align(c) || c == '+' || c == '-' || c == '#' || c == '.'
}

/// What a decimal digit stands for.
pub open spec fn digit_value(c: char) -> nat {
    (c as u32 - '0' as u32) as nat
}

/// The largest number that a placeholder may hold: the largest that thirty-two
/// bits hold.
pub open spec fn largest_number() -> nat {
    4294967295
}

/// Whether every number that stands in a placeholder from index `at` on is at
/// most `largest_number()`. `inside` says whether index `at` stands in a
/// placeholder, and `reading` is the value of the digits of a number that stand
/// just before it, if a number is being read there.
///
/// A placeholder starts after a `{` that is not doubled. It ends with the next
/// `}`, unless that `}` stands between a `:` and an alignment: then it may be the
/// character to fill with, and the placeholder goes on. In a placeholder a run of
/// digits is a number where it starts directly after one of the characters of
/// `starts_number`; digits that follow anything else belong to a name. Digits
/// outside placeholders are plain text.
pub open spec fn numbers_fit_from(text: Seq<char>, at: int, inside: bool, reading: Option<nat>)
    -> bool
    decreases text.len() - at,
{
    if at < 0 || at >= text.len() {
        true
    } else if inside {
        if is_digit(text[at]) {
            match number_with(text, at, reading) {
                Some(value) => value <= largest_number() && numbers_fit_from(
                    text,
                    at + 1,
                    true,
                    Some(value),
                ),
                None => numbers_fit_from(text, at + 1, true, None),
            }
        } else if text[at] == '}' && !may_fill(text, at) {
            numbers_fit_from(text, at + 1, false, None)
        } else {
            numbers_fit_from(text, at + 1, true, None)
        }
    } else if text[at] == '{' {
        if at + 1 < text.len() && text[at + 1] == '{' {
            numbers_fit_from(text, at + 2, false, None)
        } else {
            numbers_fit_from(text, at + 1, true, None)
        }
    } else if text[at] == '}' && at + 1 < text.len() && text[at + 1] == '}' {
        numbers_fit_from(text, at + 2, false, None)
    } else {
        numbers_fit_from(text, at + 1, false, None)
    }
}

/// The value of the number that the digit at index `at` belongs to, as far as it
/// is read with that digit; nothing where the digit belongs to a name.
pub open spec fn number_with(text: Seq<char>, at: int, reading: Option<nat>) -> Option<nat> {
    match reading {
        Some(value) => Some(value * 10 + digit_value(text[at])),
        None => if at >= 1 && starts_number(text[at - 1]) {
            Some(digit_value(text[at]))
        } else {
            None
        },
    }
}

/// No number in a placeholder of the text is above `largest_number()`.
pub open spec fn numbers_fit(text: Seq<char>) -> bool {
    numbers_fit_from(text, 0, false, None)
}

spec fn read_so_far(reading: Option<u64>) -> Option<nat> {
    match reading {
        Some(value) => Some(value as nat),
        None => None,
    }
}

/// Tells whether no number in a placeholder of the text is above
/// `largest_number()`.
pub fn has_fitting_numbers(text: &str) -> (r: bool)
    ensures
        r == numbers_fit(text@),
{
    let len = text.unicode_len();
    let mut inside = false;
    let mut reading: Option<u64> = None;
    let mut i: usize = 0;
    while i < len
        invariant
            len == text@.len(),
            i <= len,
            reading matches Some(value) ==> value <= 4294967295,
            numbers_fit_from(text@, i as int, inside, read_so_far(reading)) == numbers_fit(
                text@,
            ),
        decreases len - i,
    {
        let c = text.get_char(i);
        if inside {
            if '0' <= c && c <= '9' {
                let digit: u64 = (c as u32 - '0' as u32) as u64;
                let value: Option<u64> = match reading {
                    Some(value) => Some(value * 10 + digit),
                    None => if i >= 1 && number_start(text.get_char(i - 1)) {
                        Some(digit)
                    } else {
                        None
                    },
                };
                assert(read_so_far(value) == number_with(text@, i as int, read_so_far(reading)));
                match value {
                    Some(value) => {
                        if value > 4294967295 {
                            return false;
                        }
                    },
                    None => {},
                }
                reading = value;
                i += 1;
            } else if c == '}' && !(i >= 1 && i + 1 < len && text.get_char(i - 1) == ':' && align(
                text.get_char(i + 1),
            )) {
                inside = false;
                reading = None;
                i += 1;
            } else {
                reading = None;
                i += 1;
            }
        } else if c == '{' {
            reading = None;
            if i + 1 < len && text.get_char(i + 1) == '{' {
                i += 2;
            } else {
                inside = true;
                i += 1;
            }
        } else if c == '}' && i + 1 < len && text.get_char(i + 1) == '}' {
            reading = None;
            i += 2;
        } else {
            reading = None;
            i += 1;
        }
    }
    true
}

fn align(c: char) -> (r: bool)
    ensures
        r == is_align(c),
{
    c == '<' || c == '>' || c == '^'
}

fn number_start(c: char) -> (r: bool)
    ensures
        r == starts_number(c),
{
    c == '{' || c == ':' || align(c) || c == '+' || c == '-' || c == '#' || c == '.'
}

/// The complaint about a template with too large a number in a placeholder.
pub open spec fn long_number_complaint() -> Seq<char> {
    "format string holds a placeholder with a number above 4294967295"@
}

/// The names after one more placeholder `{name}`, where `parsed` is what the name
/// reads as, taken as an identifier: the identifier joins the names unless it is
/// among them already, and a name that is no identifier is a complaint.
pub open spec fn names_with(
    names: Seq<Seq<char>>,
    name: Seq<char>,
    parsed: Result<Seq<char>, Seq<char>>,
) -> Result<Seq<Seq<char>>, Seq<char>> {
    match parsed {
        Ok(ident) => Ok(added(names, ident)),
        Err(reason) => Err(
            "could not parse named parameter "@ + PieceView::Named(name).quoted() + " - "@
                + reason,
        ),
    }
}

/// The names that the placeholders of `pieces` refer to from index `from` on,
/// after those in `names` and each once, or the complaint about the first
/// placeholder that has no name or whose name is no identifier.
pub open spec fn names_in(pieces: Seq<PieceView>, from: int, names: Seq<Seq<char>>) -> Result<
    Seq<Seq<char>>,
    Seq<char>,
>
    decreases pieces.len() - from,
{
    if 0 <= from < pieces.len() {
        match pieces[from] {
            PieceView::Text(_) => names_in(pieces, from + 1, names),
            PieceView::Named(name) => match names_with(names, name, ident_parse(name)) {
                Ok(more) => names_in(pieces, from + 1, more),
                Err(complaint) => Err(complaint),
            },
            _ => Err("expected named parameter but found "@ + pieces[from].quoted()),
        }
    } else {
        Ok(names)
    }
}

/// The positions that the placeholders of `pieces` refer to from index `from`
/// on, together with those in `positions`, or the complaint about the first
/// placeholder that has no position.
pub open spec fn positions_in(pieces: Seq<PieceView>, from: int, positions: Set<usize>) -> Result<
    Set<usize>,
    Seq<char>,
>
    decreases pieces.len() - from,
{
    if 0 <= from < pieces.len() {
        match pieces[from] {
            PieceView::Text(_) => positions_in(pieces, from + 1, positions),
            PieceView::Index(index) => positions_in(pieces, from + 1, positions.insert(index)),
            _ => Err("expected positional parameter but found "@ + pieces[from].quoted()),
        }
    } else {
        Ok(positions)
    }
}

/// Nothing, where no piece from index `from` on is a placeholder; else the
/// complaint about the first placeholder.
pub open spec fn nothing_in(pieces: Seq<PieceView>, from: int) -> Result<(), Seq<char>>
    decreases pieces.len() - from,
{
    if 0 <= from < pieces.len() {
        match pieces[from] {
            PieceView::Text(_) => nothing_in(pieces, from + 1),
            _ => Err("expected no parameters but found "@ + pieces[from].quoted()),
        }
    } else {
        Ok(())
    }
}

/// The names that a template refers to, each once, in the order in which its
/// placeholders first refer to them.
pub open spec fn parameter_names(template: Seq<char>) -> Result<Seq<Seq<char>>, Seq<char>> {
    if numbers_fit(template) {
        names_in(format_parse(template), 0, Seq::empty())
    } else {
        Err(long_number_complaint())
    }
}

/// The positions that a template refers to.
pub open spec fn parameter_positions(template: Seq<char>) -> Result<Set<usize>, Seq<char>> {
    if numbers_fit(template) {
        positions_in(format_parse(template), 0, Set::empty())
    } else {
        Err(long_number_complaint())
    }
}

/// Whether a template is free of placeholders.
pub open spec fn no_parameters(template: Seq<char>) -> Result<(), Seq<char>> {
    if numbers_fit(template) {
        nothing_in(format_parse(template), 0)
    } else {
        Err(long_number_complaint())
    }
}

/// The view of what a search for names hands back.
pub open spec fn names_view(r: Result<Vec<String>, String>) -> Result<Seq<Seq<char>>, Seq<char>> {
    match r {
        Ok(names) => Ok(names.deep_view()),
        Err(complaint) => Err(complaint@),
    }
}

/// The view of what a search for positions hands back.
pub open spec fn positions_view(r: Result<HashSet<usize>, String>) -> Result<
    Set<usize>,
    Seq<char>,
> {
    match r {
        Ok(positions) => Ok(positions@),
        Err(complaint) => Err(complaint@),
    }
}

/// The view of what a check hands back.
pub open spec fn check_view(r: Result<(), String>) -> Result<(), Seq<char>> {
    match r {
        Ok(()) => Ok(()),
        Err(complaint) => Err(complaint@),
    }
}

/// Takes one more placeholder `{name}` into account, where `parsed` is what the
/// name reads as, taken as an identifier.
pub fn add_name(names: Vec<String>, name: &str, parsed: Result<String, String>) -> (r: Result<
    Vec<String>,
    String,
>)
    ensures
        names_view(r) == names_with(names.deep_view(), name@, result_view(parsed)),
        names.deep_view().no_duplicates() ==> (r matches Ok(more)
            ==> more.deep_view().no_duplicates()),
{
    let mut names = names;
    match parsed {
        Ok(ident) => {
            let ghost before = names.deep_view();
            let ghost new = ident@;
            proof {
                if before.no_duplicates() {
                    lemma_added(before, new);
                }
            }
            if !contains(&names, ident.as_str()) {
                names.push(ident);
                assert(names.deep_view() =~= before.push(new));
            }
            Ok(names)
        },
        Err(reason) => {
            let quoted = String::from_str("`{").concat(name).concat("}`");
            Err(
                String::from_str("could not parse named parameter ").concat(
                    quoted.as_str(),
                ).concat(" - ").concat(reason.as_str()),
            )
        },
    }
}

/// Collects the names that the placeholders of `pieces` refer to. A placeholder
/// without a name, or with a name that is no identifier, ends the search with a
/// complaint. The names stand in a list in which none occurs twice: Verus has
/// no model of a hash set whose keys are strings.
pub fn names_of(pieces: &Vec<Piece>) -> (r: Result<Vec<String>, String>)
    ensures
        names_view(r) == names_in(pieces.deep_view(), 0, Seq::empty()),
        r matches Ok(names) ==> names.deep_view().no_duplicates(),
{
    let mut names: Vec<String> = Vec::new();
    let mut i: usize = 0;
    assert(names.deep_view() =~= Seq::empty());
    while i < pieces.len()
        invariant
            i <= pieces.len(),
            names.deep_view().no_duplicates(),
            names_in(pieces.deep_view(), i as int, names.deep_view()) == names_in(
                pieces.deep_view(),
                0,
                Seq::empty(),
            ),
        decreases pieces.len() - i,
    {
        match &pieces[i] {
            Piece::Text(_) => {},
            Piece::Named(name) => {
                names = match add_name(names, name.as_str(), parse_ident(name.as_str())) {
                    Ok(more) => more,
                    Err(complaint) => {
                        return Err(complaint);
                    },
                };
            },
            _ => {
                return Err(
                    String::from_str("expected named parameter but found ").concat(
                        pieces[i].quoted().as_str(),
                    ),
                );
            },
        }
        i += 1;
    }
    Ok(names)
}

/// Collects the positions that the placeholders of `pieces` refer to. A
/// placeholder without a position ends the search with a complaint.
pub fn positions_of(pieces: &Vec<Piece>) -> (r: Result<HashSet<usize>, String>)
    ensures
        positions_view(r) == positions_in(pieces.deep_view(), 0, Set::empty()),
{
    broadcast use vstd::std_specs::hash::group_hash_axioms;

    let mut positions: HashSet<usize> = HashSet::new();
    let mut i: usize = 0;
    while i < pieces.len()
        invariant
            i <= pieces.len(),
            positions_in(pieces.deep_view(), i as int, positions@) == positions_in(
                pieces.deep_view(),
                0,
                Set::empty(),
            ),
        decreases pieces.len() - i,
    {
        match &pieces[i] {
            Piece::Text(_) => {},
            Piece::Index(index) => {
                positions.insert(*index);
            },
            _ => {
                return Err(
                    String::from_str("expected positional parameter but found ").concat(
                        pieces[i].quoted().as_str(),
                    ),
                );
            },
        }
        i += 1;
    }
    Ok(positions)
}

/// Checks that no piece is a placeholder; the first placeholder ends the check
/// with a complaint.
pub fn none_of(pieces: &Vec<Piece>) -> (r: Result<(), String>)
    ensures
        check_view(r) == nothing_in(pieces.deep_view(), 0),
{
    let mut i: usize = 0;
    while i < pieces.len()
        invariant
            i <= pieces.len(),
            nothing_in(pieces.deep_view(), i as int) == nothing_in(pieces.deep_view(), 0),
        decreases pieces.len() - i,
    {
        match &pieces[i] {
            Piece::Text(_) => {},
            _ => {
                return Err(
                    String::from_str("expected no parameters but found ").concat(
                        pieces[i].quoted().as_str(),
                    ),
                );
            },
        }
        i += 1;
    }
    Ok(())
}

/// The names that a template with named placeholders refers to. A placeholder
/// without a name is refused, and so is a name that is no identifier.
pub fn get_parameter_names(format_string: &str) -> (r: Result<Vec<String>, String>)
    ensures
        names_view(r) == parameter_names(format_string@),
        r matches Ok(names) ==> names.deep_view().no_duplicates(),
{
    if !has_fitting_numbers(format_string) {
        return Err(String::from_str(
                "format string holds a placeholder with a number above 4294967295",
            ));
    }
    let pieces = parse_format(format_string);
    names_of(&pieces)
}

/// The positions that a template with positional placeholders refers to. A
/// placeholder without a position, `{}` or `{name}`, is refused.
pub fn get_parameter_positions(format_string: &str) -> (r: Result<HashSet<usize>, String>)
    ensures
        positions_view(r) == parameter_positions(format_string@),
{
    if !has_fitting_numbers(format_string) {
        return Err(String::from_str(
                "format string holds a placeholder with a number above 4294967295",
            ));
    }
    let pieces = parse_format(format_string);
    positions_of(&pieces)
}

/// Checks that a template has no placeholder at all.
pub fn ensure_no_parameters(format_string: &str) -> (r: Result<(), String>)
    ensures
        check_view(r) == no_parameters(format_string@),
{
    if !has_fitting_numbers(format_string) {
        return Err(String::from_str(
                "format string holds a placeholder with a number above 4294967295",
            ));
    }
    let pieces = parse_format(format_string);
    none_of(&pieces)
}

} // verus!
